use match_engine::draws::{BallShift, FoulDraws, MatchDraws, MinuteDraws, ShotDraws};
use match_engine::engine::{PreconditionError, SimulationEngine};
use match_engine::model::{
    BallPosition, EventKind, Phase, Player, Score, Side, SimulationTick, Team, Zone,
};
use match_engine::skills::{PlayerAttributes, Skill};
use match_engine::state::MatchState;
use std::collections::HashMap;

fn player(id: i64, first: &str, last: &str, position: &str) -> Player {
    Player {
        id,
        first_name: first.to_string(),
        last_name: last.to_string(),
        shirt_number: Some(id % 100),
        position_short: Some(position.to_string()),
    }
}

fn squad(base: i64, first: &str) -> Vec<Player> {
    let positions = ["GK", "LB", "CB", "CB", "RB", "LM", "CM", "CM", "RM", "ST", "ST", "ST", "CM"];
    let mut out = Vec::new();
    for (i, position) in positions.iter().enumerate() {
        out.push(player(base + i as i64, first, &format!("N{}", i + 1), position));
    }
    out
}

fn engine(seed: u64) -> SimulationEngine {
    SimulationEngine::new(
        Team { id: 1, name: "Rovers".to_string() },
        Team { id: 2, name: "United".to_string() },
        squad(100, "Home"),
        squad(200, "Away"),
        HashMap::new(),
        HashMap::new(),
        None,
        None,
        seed,
    )
    .unwrap()
}

fn quiet_shot() -> ShotDraws {
    ShotDraws {
        shooter_roll: 0,
        block_roll: 999_999,
        block_corner_roll: 999_999,
        miss_roll: 999_999,
        goal_roll: 999_999,
        save_corner_roll: 999_999,
    }
}

fn quiet_foul() -> FoulDraws {
    FoulDraws { fouler_roll: 0, fouled_pick: 0, card_roll: 999_999, red_roll: 999_999 }
}

fn quiet_minute() -> MinuteDraws {
    MinuteDraws {
        passes: vec![BallShift { dx: 0, dy: 0 }; 3],
        advance_roll: 999_999,
        advance: BallShift { dx: 5_000, dy: 0 },
        shot_roll: 999_999,
        foul_roll: 999_999,
        tackle_roll: 999_999,
        offside_roll: 999_999,
        flip_roll: 999_999,
        shot: quiet_shot(),
        foul: quiet_foul(),
        tackler_roll: 0,
    }
}

fn goals(ticks: &[SimulationTick], side: Side) -> i64 {
    ticks
        .iter()
        .flat_map(|t| t.events.iter())
        .filter(|e| e.event_type == EventKind::Goal && e.team == side)
        .count() as i64
}

#[test]
fn zero_event_match_ends_goalless() {
    let draws = MatchDraws {
        first_half: vec![quiet_minute(); 46],
        second_half: vec![quiet_minute(); 46],
    };
    assert!(draws.check());
    let ticks = engine(7).play_match(&draws).unwrap();
    assert_eq!(ticks.len(), 94);
    assert!(ticks.iter().all(|t| t.events.is_empty()));
    let last = ticks.last().unwrap();
    assert_eq!(last.score, Score { home: 0, away: 0 });
    assert_eq!(last.commentary, "Full time! Rovers 0 - 0 United");
    assert_eq!(last.phase, Phase::FullTime);
    assert_eq!(last.minute, 90);
    assert_eq!(last.zone, Zone::Mid);
    assert_eq!(last.ball, BallPosition { x: 50_000, y: 34_000 });
}

#[test]
fn zero_event_match_reports_possession_and_markers() {
    let draws = MatchDraws {
        first_half: vec![quiet_minute(); 46],
        second_half: vec![quiet_minute(); 46],
    };
    let ticks = engine(7).play_match(&draws).unwrap();
    assert_eq!(ticks[0].minute, 1);
    assert_eq!(ticks[0].commentary, "1' - Rovers keep possession in midfield.");
    assert_eq!(ticks[0].phase, Phase::OpenPlay);
    assert_eq!(ticks[45].minute, 46);
    let half = &ticks[46];
    assert_eq!(half.minute, 45);
    assert_eq!(half.phase, Phase::HalfTime);
    assert_eq!(half.commentary, "Half time! Rovers 0 - 0 United");
    assert_eq!(half.possession, Side::Home);
    assert_eq!(ticks[47].minute, 46);
    assert_eq!(ticks[47].possession, Side::Away);
    assert_eq!(ticks[47].commentary, "46' - United keep possession in midfield.");
    assert_eq!(ticks[92].minute, 91);
    let last = &ticks[93];
    // 47 of 94 ticks have the home side in possession.
    assert_eq!(last.stats.home.possession_pct, 50);
    assert_eq!(last.stats.away.possession_pct, 50);
    // Three passes a minute, 46 minutes a half.
    assert_eq!(last.stats.home.passes, 138);
    assert_eq!(last.stats.away.passes, 138);
    assert_eq!(half.stats.home.possession_pct, 50);
}

#[test]
fn possession_share_is_rounded_half_up() {
    // The home side loses the ball at the end of the first minute and has
    // it again only for twelve minutes of the second half: 12 ticks of 96,
    // which is twelve and a half in a hundred.
    let mut flip = quiet_minute();
    flip.flip_roll = 0;
    let mut first = vec![quiet_minute(); 46];
    first[0] = flip.clone();
    let mut second = vec![quiet_minute(); 48];
    second[0] = flip.clone();
    second[12] = flip;
    let draws = MatchDraws { first_half: first, second_half: second };
    assert!(draws.check());
    let ticks = engine(1).play_match(&draws).unwrap();
    assert_eq!(ticks.len(), 96);
    let home_ticks = ticks.iter().filter(|t| t.possession == Side::Home).count();
    assert_eq!(home_ticks, 12);
    assert_eq!(ticks[46].possession, Side::Away);
    let last = ticks.last().unwrap();
    assert_eq!(last.stats.home.possession_pct, 13);
    assert_eq!(last.stats.away.possession_pct, 87);
    // Only the last tick shows the shares.
    assert_eq!(ticks[94].stats.home.possession_pct, 50);
}

#[test]
fn possession_share_of_lopsided_match() {
    // Possession changes hands at the end of every minute of the first
    // half, so the home side has the ball in every second tick of it.
    let mut flip = quiet_minute();
    flip.flip_roll = 349_999;
    let draws = MatchDraws {
        first_half: vec![flip; 49],
        second_half: vec![quiet_minute(); 50],
    };
    let ticks = engine(1).play_match(&draws).unwrap();
    assert_eq!(ticks.len(), 101);
    let home_ticks = ticks.iter().filter(|t| t.possession == Side::Home).count() as i64;
    // Minutes 2, 4, .. 48 end with the home side in possession.
    assert_eq!(home_ticks, 24);
    let last = ticks.last().unwrap();
    // 2400 / 101 = 23.76..
    assert_eq!(last.stats.home.possession_pct, 24);
    assert_eq!(last.stats.away.possession_pct, 76);
}

#[test]
fn forced_goal_counts_once_and_restarts_play() {
    let e = engine(1);
    let mut state = MatchState::kickoff();
    state.move_ball_forward(Side::Home, BallShift { dx: 30_000, dy: 4_000 });
    let mut draws = quiet_shot();
    draws.goal_roll = 0;
    let events = e.resolve_shot(&mut state, Side::Home, &draws).unwrap();
    assert_eq!(events.len(), 1);
    assert_eq!(events[0].event_type, EventKind::Goal);
    assert_eq!(events[0].team, Side::Home);
    assert_eq!(events[0].primary_player.as_deref(), Some("Home N1"));
    assert_eq!(events[0].secondary_player, None);
    assert_eq!(events[0].description, "GOAL! Home N1 scores!");
    assert_eq!((events[0].x, events[0].y), (95_000, 34_000));
    assert_eq!(state.score(), Score { home: 1, away: 0 });
    assert_eq!(state.ball(), BallPosition { x: 50_000, y: 34_000 });
    assert_eq!(state.possession(), Side::Away);
    assert_eq!(state.stats().home.shots, 1);
    assert_eq!(state.stats().home.shots_on_target, 1);
    assert_eq!(state.stats().away.saves, 0);

    let again = e.resolve_shot(&mut state, Side::Home, &draws).unwrap();
    assert_eq!(again.len(), 1);
    assert_eq!(state.score(), Score { home: 2, away: 0 });
    let away = e.resolve_shot(&mut state, Side::Away, &draws).unwrap();
    assert_eq!(away[0].team, Side::Away);
    assert_eq!((away[0].x, away[0].y), (5_000, 34_000));
    assert_eq!(state.score(), Score { home: 2, away: 1 });
    assert_eq!(state.possession(), Side::Home);
}

#[test]
fn forced_goal_through_a_whole_minute() {
    let e = engine(1);
    let mut state = MatchState::kickoff();
    let mut draws = quiet_minute();
    draws.shot_roll = 0;
    draws.shot.goal_roll = 0;
    let tick = e.simulate_minute(&mut state, 12, &draws).unwrap();
    assert_eq!(tick.minute, 12);
    assert_eq!(tick.phase, Phase::Attack(Side::Home));
    assert_eq!(tick.score, Score { home: 1, away: 0 });
    assert_eq!(tick.possession, Side::Away);
    assert_eq!(tick.ball, BallPosition { x: 50_000, y: 34_000 });
    assert_eq!(tick.zone, Zone::Mid);
    assert_eq!(tick.commentary, "12' - GOAL! Home N1 scores!");
    assert_eq!(tick.stats.home.passes, 3);
    assert_eq!(tick.events.len(), 1);
}

#[test]
fn forced_second_yellow_sends_the_player_off() {
    let e = engine(1);
    let mut state = MatchState::kickoff();
    let mut draws = quiet_foul();
    draws.card_roll = 0;
    // The home side is fouled; the first away starter commits both fouls.
    let first = e.simulate_foul(&mut state, Side::Home, &draws).unwrap();
    assert_eq!(first.len(), 2);
    assert_eq!(first[0].event_type, EventKind::Foul);
    assert_eq!(first[0].team, Side::Away);
    assert_eq!(first[0].primary_player.as_deref(), Some("Away N1"));
    assert_eq!(first[0].secondary_player.as_deref(), Some("Home N1"));
    assert_eq!(first[0].description, "Foul by Away N1");
    assert_eq!(first[1].event_type, EventKind::YellowCard);
    assert_eq!(first[1].description, "Yellow card for Away N1");
    assert_eq!(state.yellow_cards(200), 1);
    assert!(!state.is_sent_off(200));

    let second = e.simulate_foul(&mut state, Side::Home, &draws).unwrap();
    assert_eq!(second.len(), 2);
    assert_eq!(second[1].event_type, EventKind::SecondYellow);
    assert_eq!(second[1].primary_player.as_deref(), Some("Away N1"));
    assert_eq!(second[1].description, "Second yellow card! Away N1 is sent off!");
    assert!(state.is_sent_off(200));
    assert_eq!(state.yellow_cards(200), 1);
    assert_eq!(state.stats().away.fouls, 2);
    assert_eq!(state.stats().away.yellow_cards, 2);
    assert_eq!(state.stats().away.red_cards, 1);

    // Nobody chooses the player again, whatever is rolled.
    for roll in (0..1_000_000u32).step_by(9_973) {
        let chosen = e.pick_weighted_player(&state, Side::Away, Skill::Aggression, roll).unwrap();
        assert_ne!(chosen.id, 200);
    }
    for pick in 0..27_720u32 {
        assert_ne!(e.pick_player(&state, Side::Away, pick).unwrap().id, 200);
    }
    let third = e.simulate_foul(&mut state, Side::Home, &draws).unwrap();
    assert_eq!(third[0].primary_player.as_deref(), Some("Away N2"));
    assert_eq!(third[1].event_type, EventKind::YellowCard);
}

#[test]
fn prior_yellow_then_booking_is_a_second_yellow() {
    let e = engine(1);
    let mut state = MatchState::kickoff();
    state.show_yellow(200);
    let mut draws = quiet_foul();
    draws.card_roll = 129_999;
    let events = e.simulate_foul(&mut state, Side::Home, &draws).unwrap();
    assert_eq!(events.len(), 2);
    assert_eq!(events[1].event_type, EventKind::SecondYellow);
    assert!(state.is_sent_off(200));
    let tick_draws = quiet_minute();
    for minute in 1..40 {
        let mut d = tick_draws.clone();
        d.foul_roll = 0;
        d.foul.fouler_roll = (minute as u32) * 25_000;
        let tick = e.simulate_minute(&mut state, minute, &d).unwrap();
        assert_eq!(tick.events[0].event_type, EventKind::Foul);
        for event in &tick.events {
            assert_ne!(event.primary_player.as_deref(), Some("Away N1"));
        }
    }
}

#[test]
fn straight_red_can_come_with_a_booking() {
    let e = engine(1);
    let mut state = MatchState::kickoff();
    let draws = FoulDraws { fouler_roll: 999_999, fouled_pick: 12, card_roll: 0, red_roll: 4_999 };
    let events = e.simulate_foul(&mut state, Side::Away, &draws).unwrap();
    assert_eq!(events.len(), 3);
    assert_eq!(events[0].team, Side::Home);
    assert_eq!(events[0].primary_player.as_deref(), Some("Home N11"));
    // Pick 12 of eleven eligible players is the second.
    assert_eq!(events[0].secondary_player.as_deref(), Some("Away N2"));
    assert_eq!(events[1].event_type, EventKind::YellowCard);
    assert_eq!(events[2].event_type, EventKind::RedCard);
    assert_eq!(events[2].description, "Straight red card for Home N11!");
    assert!(state.is_sent_off(110));
    assert_eq!(state.stats().home.red_cards, 1);
    assert_eq!(state.stats().home.yellow_cards, 1);

    let mut calm = MatchState::kickoff();
    let no_red = FoulDraws { red_roll: 5_000, card_roll: 130_000, ..draws };
    let events = e.simulate_foul(&mut calm, Side::Away, &no_red).unwrap();
    assert_eq!(events.len(), 1);
    assert!(!calm.is_sent_off(110));
}

#[test]
fn a_side_without_starters_stops_the_match() {
    let e = engine(1);
    let mut state = MatchState::kickoff();
    for id in 200..211 {
        state.send_off(id);
    }
    assert_eq!(
        e.pick_player(&state, Side::Away, 0).err(),
        Some(PreconditionError::NoEligiblePlayer(Side::Away))
    );
    assert_eq!(
        e.pick_weighted_player(&state, Side::Away, Skill::Pace, 0).err(),
        Some(PreconditionError::NoEligiblePlayer(Side::Away))
    );
    assert_eq!(
        e.resolve_shot(&mut state, Side::Away, &quiet_shot()).err(),
        Some(PreconditionError::NoEligiblePlayer(Side::Away))
    );
    assert_eq!(
        e.simulate_foul(&mut state, Side::Home, &quiet_foul()).err(),
        Some(PreconditionError::NoEligiblePlayer(Side::Away))
    );
    assert_eq!(
        e.simulate_foul(&mut state, Side::Away, &quiet_foul()).err(),
        Some(PreconditionError::NoEligiblePlayer(Side::Away))
    );
    assert_eq!(
        e.resolve_tackle(&mut state, Side::Home, 0).err(),
        Some(PreconditionError::NoEligiblePlayer(Side::Away))
    );
    assert!(e.resolve_shot(&mut state, Side::Home, &quiet_shot()).is_ok());
    // Players beyond the first eleven never stand in.
    assert!(!state.is_sent_off(211));
    let mut draws = quiet_minute();
    draws.tackle_roll = 0;
    assert_eq!(
        e.simulate_minute(&mut state, 5, &draws).err(),
        Some(PreconditionError::NoEligiblePlayer(Side::Away))
    );
}

#[test]
fn short_squads_are_rejected() {
    let mut short = squad(100, "Home");
    short.truncate(10);
    let made = SimulationEngine::new(
        Team { id: 1, name: "Rovers".to_string() },
        Team { id: 2, name: "United".to_string() },
        short.clone(),
        Vec::new(),
        HashMap::new(),
        HashMap::new(),
        None,
        None,
        0,
    );
    assert_eq!(made.err(), Some(PreconditionError::SquadTooShort(Side::Home)));
    let made = SimulationEngine::new(
        Team { id: 1, name: "Rovers".to_string() },
        Team { id: 2, name: "United".to_string() },
        squad(100, "Home"),
        short,
        HashMap::new(),
        HashMap::new(),
        None,
        None,
        0,
    );
    assert_eq!(made.err(), Some(PreconditionError::SquadTooShort(Side::Away)));
    assert_eq!(
        PreconditionError::SquadTooShort(Side::Away).message(),
        "the away squad has fewer than eleven players"
    );
    assert_eq!(
        PreconditionError::NoEligiblePlayer(Side::Home).message(),
        "every home starter has been sent off"
    );
}

#[test]
fn seeded_runs_keep_the_books() {
    for seed in 0..25u64 {
        let ticks = engine(seed).simulate().unwrap();
        let half = ticks.iter().position(|t| t.phase == Phase::HalfTime).unwrap();
        let injury_first = half as i64 - 45;
        let injury_second = ticks.len() as i64 - 2 - half as i64 - 45;
        assert!((1..=4).contains(&injury_first), "seed {}", seed);
        assert!((1..=5).contains(&injury_second), "seed {}", seed);
        assert_eq!(ticks.len() as i64, 45 + injury_first + 45 + injury_second + 2);
        assert_eq!(ticks.iter().filter(|t| t.phase == Phase::HalfTime).count(), 1);
        assert_eq!(ticks.iter().filter(|t| t.phase == Phase::FullTime).count(), 1);
        let last = ticks.last().unwrap();
        assert_eq!(last.phase, Phase::FullTime);
        assert_eq!(last.minute, 90);
        assert_eq!(ticks[half].minute, 45);
        for (i, tick) in ticks.iter().enumerate() {
            if i < half {
                assert_eq!(tick.minute, i as i64 + 1);
            } else if i > half && i + 1 < ticks.len() {
                assert_eq!(tick.minute, 45 + (i - half) as i64);
            }
            assert_eq!(tick.score.home, goals(&ticks[..=i], Side::Home));
            assert_eq!(tick.score.away, goals(&ticks[..=i], Side::Away));
            assert!((0..=100_000).contains(&tick.ball.x));
            assert!((0..=68_000).contains(&tick.ball.y));
        }
        assert_eq!(last.score.home, goals(&ticks, Side::Home));
        assert_eq!(last.score.away, goals(&ticks, Side::Away));
        for pair in ticks.windows(2) {
            for (a, b) in [(pair[0].stats.home, pair[1].stats.home), (pair[0].stats.away, pair[1].stats.away)] {
                assert!(a.shots <= b.shots);
                assert!(a.shots_on_target <= b.shots_on_target);
                assert!(a.corners <= b.corners);
                assert!(a.fouls <= b.fouls);
                assert!(a.yellow_cards <= b.yellow_cards);
                assert!(a.red_cards <= b.red_cards);
                assert!(a.saves <= b.saves);
                assert!(a.passes <= b.passes);
                assert!(a.tackles <= b.tackles);
                assert!(a.offsides <= b.offsides);
            }
        }
        assert_eq!(last.stats.home.possession_pct + last.stats.away.possession_pct, 100);
        let home_ticks = ticks.iter().filter(|t| t.possession == Side::Home).count() as i64;
        let total = ticks.len() as i64;
        assert_eq!(last.stats.home.possession_pct, (200 * home_ticks + total) / (2 * total));
    }
}

#[test]
fn seeded_runs_repeat_and_differ() {
    let a = engine(42).simulate().unwrap();
    let b = engine(42).simulate().unwrap();
    assert_eq!(a, b);
    let others: Vec<_> = (0..8u64).map(|s| engine(s).simulate().unwrap()).collect();
    assert!(others.iter().any(|t| *t != a));
    // Something happens in a match that is left to chance.
    assert!(others.iter().any(|t| t.iter().any(|tick| !tick.events.is_empty())));
}

#[test]
fn sent_off_players_never_act_again_in_seeded_runs() {
    for seed in 0..40u64 {
        let ticks = engine(seed).simulate().unwrap();
        let mut gone: Vec<String> = Vec::new();
        let mut booked: Vec<String> = Vec::new();
        for tick in &ticks {
            for event in &tick.events {
                let name = event.primary_player.clone();
                if let Some(name) = &name {
                    if event.event_type != EventKind::Save
                        && event.event_type != EventKind::SecondYellow
                        && event.event_type != EventKind::YellowCard
                        && event.event_type != EventKind::RedCard
                    {
                        assert!(!gone.contains(name), "seed {}: {} acts after leaving", seed, name);
                    }
                }
                match event.event_type {
                    EventKind::YellowCard => {
                        let name = name.unwrap();
                        assert!(!booked.contains(&name), "two first yellows for {}", name);
                        booked.push(name);
                    },
                    EventKind::SecondYellow => {
                        let name = name.unwrap();
                        assert!(booked.contains(&name));
                        gone.push(name);
                    },
                    EventKind::RedCard => gone.push(name.unwrap()),
                    _ => {},
                }
            }
        }
    }
}

#[test]
fn profiles_weigh_on_the_choice() {
    let mut attrs = HashMap::new();
    let mut keen = blank_profile(101);
    keen.tackling = 20;
    attrs.insert(101, keen);
    let e = SimulationEngine::new(
        Team { id: 1, name: "Rovers".to_string() },
        Team { id: 2, name: "United".to_string() },
        squad(100, "Home"),
        squad(200, "Away"),
        attrs,
        HashMap::new(),
        None,
        None,
        3,
    )
    .unwrap();
    let state = MatchState::kickoff();
    // Weights: 10, 20, then nine times 10: 120 in all.
    let pick = |roll: u32| e.pick_weighted_player(&state, Side::Home, Skill::Tackling, roll).unwrap().id;
    assert_eq!(pick(0), 100);
    assert_eq!(pick(83_333), 100);
    assert_eq!(pick(83_334), 101);
    assert_eq!(pick(249_999), 101);
    assert_eq!(pick(250_000), 102);
    assert_eq!(pick(999_999), 110);
    // Skills that nobody has a profile for weigh the same for everybody.
    let even = |roll: u32| e.pick_weighted_player(&state, Side::Away, Skill::Tackling, roll).unwrap().id;
    assert_eq!(even(90_909), 200);
    assert_eq!(even(90_910), 201);
    assert_eq!(even(999_999), 210);
}

fn blank_profile(player_id: i64) -> PlayerAttributes {
    PlayerAttributes {
        player_id,
        finishing: 10,
        first_touch: 10,
        free_kick_taking: 10,
        heading: 10,
        long_shots: 10,
        long_throws: 10,
        marking: 10,
        passing: 10,
        penalty_taking: 10,
        tackling: 10,
        technique: 10,
        corners: 10,
        crossing: 10,
        dribbling: 10,
        aggression: 10,
        anticipation: 10,
        bravery: 10,
        composure: 10,
        concentration: 10,
        decisions: 10,
        determination: 10,
        flair: 10,
        leadership: 10,
        off_the_ball: 10,
        positioning: 10,
        teamwork: 10,
        vision: 10,
        work_rate: 10,
        acceleration: 10,
        agility: 10,
        balance: 10,
        jumping_reach: 10,
        natural_fitness: 10,
        pace: 10,
        stamina: 10,
        strength: 10,
        aerial_reach: 10,
        command_of_area: 10,
        communication: 10,
        eccentricity: 10,
        handling: 10,
        kicking: 10,
        one_on_ones: 10,
        reflexes: 10,
        rushing_out: 10,
        throwing: 10,
    }
}
