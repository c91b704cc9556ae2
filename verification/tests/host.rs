use match_engine::calendar::{
    current_game_date, date_part, days_until, game_time, game_time_for, managed_team,
    next_game_date, registered_user,
};
use match_engine::engine::PreconditionError;
use match_engine::host::{
    delay_for_speed, ensure_not_completed, event_channel, is_half_time, is_persisted, map_err,
    match_events, sign_in, Channel,
};
use match_engine::model::{
    BallPosition, EventKind, MatchStats, Phase, Score, Side, SimulationEvent, SimulationTick,
    TeamStats, Zone,
};
use match_engine::records::{
    CreateTacticPayload, GameMatch, RegisterPayload, StandingEntry, Tactic, UpdateTacticPayload,
    User,
};
use match_engine::standings::{
    check_results, form_letter, rank_standings, standing_entry, tally, Tally,
};
use match_engine::tactics::{new_tactic, tactic_changes, TacticChange};

fn event(kind: EventKind, team: Side, player: Option<&str>, text: &str) -> SimulationEvent {
    SimulationEvent {
        event_type: kind,
        team,
        primary_player: player.map(|p| p.to_string()),
        secondary_player: Some("someone else".to_string()),
        description: text.to_string(),
        x: 12_500,
        y: 60_000,
        sequence: Vec::new(),
    }
}

fn tick(minute: i64, phase: Phase, events: Vec<SimulationEvent>) -> SimulationTick {
    SimulationTick {
        minute,
        phase,
        possession: Side::Home,
        zone: Zone::Mid,
        ball: BallPosition { x: 50_000, y: 34_000 },
        events,
        score: Score { home: 0, away: 0 },
        stats: MatchStats { home: TeamStats::new(), away: TeamStats::new() },
        commentary: String::new(),
    }
}

fn fixture(status: &str) -> GameMatch {
    GameMatch {
        id: 9,
        home_team_id: 1,
        away_team_id: 2,
        league_id: Some(1),
        season_id: None,
        manager_id: None,
        match_date: Some("2025-08-16T15:00:00".to_string()),
        matchday: Some(1),
        home_formation_id: None,
        away_formation_id: None,
        home_score: None,
        away_score: None,
        status: status.to_string(),
        match_stats: None,
        home_team_name: None,
        away_team_name: None,
        home_team_color: None,
        away_team_color: None,
        home_formation_name: None,
        away_formation_name: None,
    }
}

fn line(team_id: i64, points: i64, goal_difference: i64, goals_for: i64) -> StandingEntry {
    StandingEntry {
        team_id,
        team_name: format!("Team {}", team_id),
        short_name: None,
        primary_color: None,
        played: 0,
        won: 0,
        drawn: 0,
        lost: 0,
        goals_for,
        goals_against: goals_for - goal_difference,
        goal_difference,
        points,
        form: Vec::new(),
        position: 0,
    }
}

#[test]
fn errors_are_reported_as_text() {
    assert_eq!(
        map_err(PreconditionError::SquadTooShort(Side::Home)),
        "the home squad has fewer than eleven players"
    );
    assert_eq!(
        map_err(PreconditionError::NoEligiblePlayer(Side::Away)),
        "every away starter has been sent off"
    );
}

#[test]
fn speeds_set_the_delay() {
    assert_eq!(delay_for_speed("slow"), 5_000);
    assert_eq!(delay_for_speed("realtime"), 2_500);
    assert_eq!(delay_for_speed("fast"), 500);
    assert_eq!(delay_for_speed("instant"), 0);
    assert_eq!(delay_for_speed(""), 0);
    assert_eq!(delay_for_speed("Slow"), 0);
}

#[test]
fn completed_matches_are_not_replayed() {
    assert_eq!(
        ensure_not_completed(&fixture("completed")),
        Err("Match already completed".to_string())
    );
    assert_eq!(ensure_not_completed(&fixture("scheduled")), Ok(()));
    assert_eq!(ensure_not_completed(&fixture("")), Ok(()));
}

#[test]
fn goals_and_cards_have_channels_of_their_own() {
    assert_eq!(event_channel(EventKind::Goal), Some(Channel::Goal));
    assert_eq!(event_channel(EventKind::YellowCard), Some(Channel::Card));
    assert_eq!(event_channel(EventKind::SecondYellow), Some(Channel::Card));
    assert_eq!(event_channel(EventKind::RedCard), Some(Channel::Card));
    for kind in [
        EventKind::ShotBlocked,
        EventKind::ShotOffTarget,
        EventKind::Save,
        EventKind::Corner,
        EventKind::Foul,
        EventKind::Tackle,
        EventKind::Offside,
    ] {
        assert_eq!(event_channel(kind), None);
    }
    assert_eq!(Channel::Lineup.as_str(), "match:lineup");
    assert_eq!(Channel::Minute.as_str(), "match:minute");
    assert_eq!(Channel::Goal.as_str(), "match:goal");
    assert_eq!(Channel::Card.as_str(), "match:card");
    assert_eq!(Channel::HalfTime.as_str(), "match:half_time");
    assert_eq!(Channel::FullTime.as_str(), "match:full_time");
    assert!(is_half_time(&tick(45, Phase::HalfTime, Vec::new())));
    assert!(!is_half_time(&tick(45, Phase::OpenPlay, Vec::new())));
    assert!(!is_half_time(&tick(90, Phase::FullTime, Vec::new())));
}

#[test]
fn kept_events_are_rows_in_match_order() {
    for kind in [
        EventKind::Goal,
        EventKind::YellowCard,
        EventKind::RedCard,
        EventKind::SecondYellow,
        EventKind::Foul,
        EventKind::Corner,
    ] {
        assert!(is_persisted(kind));
    }
    for kind in [
        EventKind::ShotBlocked,
        EventKind::ShotOffTarget,
        EventKind::Save,
        EventKind::Tackle,
        EventKind::Offside,
    ] {
        assert!(!is_persisted(kind));
    }
    let ticks = vec![
        tick(1, Phase::OpenPlay, Vec::new()),
        tick(
            2,
            Phase::Attack(Side::Home),
            vec![
                event(EventKind::ShotBlocked, Side::Home, Some("A B"), "blocked"),
                event(EventKind::Corner, Side::Home, None, "Corner kick to H"),
            ],
        ),
        tick(3, Phase::OpenPlay, vec![event(EventKind::Tackle, Side::Away, Some("C D"), "tackle")]),
        tick(
            47,
            Phase::OpenPlay,
            vec![
                event(EventKind::Foul, Side::Away, Some("C D"), "Foul by C D"),
                event(EventKind::SecondYellow, Side::Away, Some("C D"), "off"),
            ],
        ),
        tick(48, Phase::Attack(Side::Home), vec![event(EventKind::Goal, Side::Home, Some("A B"), "GOAL!")]),
    ];
    let rows = match_events(77, &ticks);
    let summary: Vec<(i64, &str, Option<&str>)> =
        rows.iter().map(|r| (r.minute, r.event_type.as_str(), r.player_name.as_deref())).collect();
    assert_eq!(
        summary,
        vec![
            (2, "corner", None),
            (47, "foul", Some("C D")),
            (47, "second_yellow", Some("C D")),
            (48, "goal", Some("A B")),
        ]
    );
    let corner = &rows[0];
    assert_eq!(corner.id, 0);
    assert_eq!(corner.match_id, 77);
    assert_eq!(corner.team_type.as_deref(), Some("home"));
    assert_eq!(corner.description.as_deref(), Some("Corner kick to H"));
    assert_eq!(corner.x_coordinate, Some(12_500));
    assert_eq!(corner.y_coordinate, Some(60_000));
    assert_eq!(corner.commentary, None);
    assert_eq!(corner.sub_events, None);
    assert_eq!(rows[1].team_type.as_deref(), Some("away"));
    assert!(match_events(1, &Vec::new()).is_empty());
}

#[test]
fn results_add_up_to_a_tally() {
    let home = vec![(2, 1), (0, 0), (1, 3)];
    let away = vec![(1, 2), (4, 4), (5, 0), (0, 1)];
    let sum = tally(&home, &away);
    assert_eq!(sum, Tally { won: 3, drawn: 2, lost: 2, goals_for: 10, goals_against: 14 });
    assert_eq!(tally(&Vec::new(), &Vec::new()), Tally { won: 0, drawn: 0, lost: 0, goals_for: 0, goals_against: 0 });
    let entry = standing_entry(
        5,
        "Wanderers".to_string(),
        Some("WAN".to_string()),
        None,
        &home,
        &away,
        vec![form_letter(2, 1), form_letter(0, 0), form_letter(0, 5)],
    );
    assert_eq!(entry.team_id, 5);
    assert_eq!(entry.team_name, "Wanderers");
    assert_eq!(entry.short_name.as_deref(), Some("WAN"));
    assert_eq!(entry.played, 7);
    assert_eq!((entry.won, entry.drawn, entry.lost), (3, 2, 2));
    assert_eq!((entry.goals_for, entry.goals_against, entry.goal_difference), (10, 14, -4));
    assert_eq!(entry.points, 11);
    assert_eq!(entry.form, vec!["W", "D", "L"]);
    assert_eq!(entry.position, 0);
}

#[test]
fn tables_are_ranked_on_points_difference_and_goals() {
    let table = rank_standings(vec![
        line(1, 10, 3, 9),
        line(2, 12, -1, 4),
        line(3, 10, 5, 6),
        line(4, 10, 3, 11),
        line(5, 10, 3, 9),
        line(6, 0, -9, 1),
        line(7, 12, -1, 4),
    ]);
    let order: Vec<i64> = table.iter().map(|e| e.team_id).collect();
    // Teams level on everything keep the order that they were listed in.
    assert_eq!(order, vec![2, 7, 3, 4, 1, 5, 6]);
    let places: Vec<i64> = table.iter().map(|e| e.position).collect();
    assert_eq!(places, vec![1, 2, 3, 4, 5, 6, 7]);
    assert_eq!(table[2].team_name, "Team 3");
    assert_eq!(table[2].goals_against, 1);
    assert!(rank_standings(Vec::new()).is_empty());
    let single = rank_standings(vec![line(8, -3, 0, 0)]);
    assert_eq!((single[0].team_id, single[0].position), (8, 1));
}

#[test]
fn the_calendar_counts_days_to_the_next_fixture() {
    let mut user = User {
        id: 1,
        name: "M".to_string(),
        email: "m@example.org".to_string(),
        managed_team_id: Some(4),
        game_date: None,
    };
    assert_eq!(current_game_date(&user), "2025-08-01");
    assert_eq!(managed_team(&user), Ok(4));
    user.game_date = Some("2026-01-31".to_string());
    user.managed_team_id = None;
    assert_eq!(current_game_date(&user), "2026-01-31");
    assert_eq!(managed_team(&user), Err("No team assigned".to_string()));

    assert_eq!(date_part("2025-08-16T15:00:00"), "2025-08-16");
    assert_eq!(date_part("2025-08-16"), "2025-08-16");
    assert_eq!(date_part("T"), "");
    assert_eq!(date_part("aTbTc"), "a");
    assert_eq!(date_part(""), "");
    assert_eq!(date_part("tomorrow"), "tomorrow");

    assert_eq!(days_until(Some(739_480), Some(739_465)), Some(15));
    assert_eq!(days_until(Some(10), Some(12)), Some(-2));
    assert_eq!(days_until(Some(i32::MAX), Some(i32::MIN)), Some(4_294_967_295));
    assert_eq!(days_until(None, Some(1)), None);
    assert_eq!(days_until(Some(1), None), None);

    let today = game_time("2025-08-16".to_string(), "Saturday".to_string(), Some(fixture("scheduled")), Some(0));
    assert!(today.is_match_day);
    assert_eq!(today.current_date, "2025-08-16");
    assert_eq!(today.formatted_date, "Saturday");
    assert_eq!(today.days_until_match, Some(0));
    assert_eq!(today.next_match.unwrap().id, 9);
    let later = game_time("2025-08-15".to_string(), "Friday".to_string(), None, Some(1));
    assert!(!later.is_match_day);
    let never = game_time("2025-08-15".to_string(), "Friday".to_string(), None, None);
    assert!(!never.is_match_day);
    assert_eq!(never.next_match, None);
}

#[test]
fn new_accounts_start_on_the_opening_day() {
    let payload = RegisterPayload {
        name: "Pat".to_string(),
        email: "pat@example.org".to_string(),
        password: "pw".to_string(),
        managed_team_id: 12,
    };
    let user = registered_user(31, &payload);
    assert_eq!(
        user,
        User {
            id: 31,
            name: "Pat".to_string(),
            email: "pat@example.org".to_string(),
            managed_team_id: Some(12),
            game_date: Some("2025-08-01".to_string()),
        }
    );
}

#[test]
fn new_tactics_take_the_usual_settings() {
    let bare = CreateTacticPayload {
        name: "Plan A".to_string(),
        formation_id: 3,
        mentality: None,
        team_instructions: None,
        pressing: None,
        tempo: None,
        width: None,
        defensive_line: None,
    };
    assert_eq!(
        new_tactic(8, &bare, Some("4-4-2".to_string())),
        Tactic {
            id: 8,
            name: "Plan A".to_string(),
            description: None,
            formation_id: Some(3),
            mentality: Some("balanced".to_string()),
            team_instructions: Some("mixed".to_string()),
            pressing: Some("sometimes".to_string()),
            tempo: Some("standard".to_string()),
            width: Some("standard".to_string()),
            defensive_line: Some("standard".to_string()),
            offside_trap: false,
            play_out_of_defence: false,
            formation_name: Some("4-4-2".to_string()),
        }
    );
    let full = CreateTacticPayload {
        name: "Plan B".to_string(),
        formation_id: 4,
        mentality: Some("attacking".to_string()),
        team_instructions: Some("short".to_string()),
        pressing: Some("always".to_string()),
        tempo: Some("fast".to_string()),
        width: Some("wide".to_string()),
        defensive_line: Some("high".to_string()),
    };
    let made = new_tactic(9, &full, None);
    assert_eq!(made.mentality.as_deref(), Some("attacking"));
    assert_eq!(made.team_instructions.as_deref(), Some("short"));
    assert_eq!(made.pressing.as_deref(), Some("always"));
    assert_eq!(made.tempo.as_deref(), Some("fast"));
    assert_eq!(made.width.as_deref(), Some("wide"));
    assert_eq!(made.defensive_line.as_deref(), Some("high"));
    assert_eq!(made.formation_name, None);
}

#[test]
fn tactic_changes_touch_only_what_is_given() {
    let nothing = UpdateTacticPayload {
        name: None,
        formation_id: None,
        mentality: None,
        team_instructions: Some("direct".to_string()),
        pressing: None,
        tempo: None,
        width: None,
        defensive_line: None,
    };
    assert!(tactic_changes(&nothing).is_empty());
    let some = UpdateTacticPayload {
        name: None,
        formation_id: Some(6),
        mentality: None,
        team_instructions: None,
        pressing: None,
        tempo: Some("slow".to_string()),
        width: None,
        defensive_line: Some("deep".to_string()),
    };
    assert_eq!(
        tactic_changes(&some),
        vec![
            TacticChange::Formation(6),
            TacticChange::Tempo("slow".to_string()),
            TacticChange::DefensiveLine("deep".to_string()),
        ]
    );
    let all = UpdateTacticPayload {
        name: Some("N".to_string()),
        formation_id: Some(1),
        mentality: Some("M".to_string()),
        team_instructions: Some("I".to_string()),
        pressing: Some("P".to_string()),
        tempo: Some("T".to_string()),
        width: Some("W".to_string()),
        defensive_line: Some("D".to_string()),
    };
    assert_eq!(
        tactic_changes(&all),
        vec![
            TacticChange::Name("N".to_string()),
            TacticChange::Formation(1),
            TacticChange::Mentality("M".to_string()),
            TacticChange::Pressing("P".to_string()),
            TacticChange::Tempo("T".to_string()),
            TacticChange::Width("W".to_string()),
            TacticChange::DefensiveLine("D".to_string()),
        ]
    );
}

#[test]
fn the_calendar_reads_dates() {
    let answer = game_time_for("2025-08-01".to_string(), Some(fixture("scheduled")));
    assert_eq!(answer.current_date, "2025-08-01");
    assert_eq!(answer.formatted_date, "Friday, August  1, 2025");
    assert_eq!(answer.days_until_match, Some(15));
    assert!(!answer.is_match_day);
    assert_eq!(answer.next_match, Some(fixture("scheduled")));

    let match_day = game_time_for("2025-08-16".to_string(), Some(fixture("scheduled")));
    assert_eq!(match_day.formatted_date, "Saturday, August 16, 2025");
    assert_eq!(match_day.days_until_match, Some(0));
    assert!(match_day.is_match_day);

    let late = game_time_for("2025-09-01".to_string(), Some(fixture("scheduled")));
    assert_eq!(late.days_until_match, Some(-16));
    assert_eq!(late.formatted_date, "Monday, September  1, 2025");

    let idle = game_time_for("2024-02-29".to_string(), None);
    assert_eq!(idle.days_until_match, None);
    assert!(!idle.is_match_day);
    assert_eq!(idle.formatted_date, "Thursday, February 29, 2024");

    let unread = game_time_for("soon".to_string(), Some(fixture("scheduled")));
    assert_eq!(unread.formatted_date, "soon");
    assert_eq!(unread.days_until_match, None);

    let mut undated = fixture("scheduled");
    undated.match_date = None;
    assert_eq!(game_time_for("2025-08-01".to_string(), Some(undated)).days_until_match, None);
    let mut garbled = fixture("scheduled");
    garbled.match_date = Some("16/08/2025".to_string());
    assert_eq!(game_time_for("2025-08-01".to_string(), Some(garbled)).days_until_match, None);
    let mut at_noon = fixture("scheduled");
    at_noon.match_date = Some("2026-08-01Tnoon".to_string());
    assert_eq!(game_time_for("2025-08-01".to_string(), Some(at_noon)).days_until_match, Some(365));
}

#[test]
fn the_calendar_moves_on_by_a_day() {
    assert_eq!(next_game_date("2025-08-01"), Ok("2025-08-02".to_string()));
    assert_eq!(next_game_date("2025-12-31"), Ok("2026-01-01".to_string()));
    assert_eq!(next_game_date("2024-02-28"), Ok("2024-02-29".to_string()));
    assert_eq!(next_game_date("2023-02-28"), Ok("2023-03-01".to_string()));
    assert_eq!(next_game_date("soon"), Err("input contains invalid characters".to_string()));
    assert_eq!(next_game_date("2025-02-30"), Err("input is out of range".to_string()));
    assert_eq!(next_game_date("2025-08-01T10:00"), Err("trailing input".to_string()));
    assert_eq!(next_game_date("2025-08"), Err("premature end of input".to_string()));
    assert_eq!(
        next_game_date("+262142-12-31"),
        Err("the calendar ends on this day".to_string())
    );
}

#[test]
fn results_with_scores_below_zero_are_tallied() {
    let home = vec![(-2, 1), (0, -3)];
    let away = vec![(-1, -1), (4, -5)];
    assert!(check_results(&home));
    assert!(check_results(&away));
    let sum = tally(&home, &away);
    assert_eq!(sum, Tally { won: 1, drawn: 1, lost: 2, goals_for: -8, goals_against: 1 });
    let entry = standing_entry(1, "T".to_string(), None, None, &home, &away, Vec::new());
    assert_eq!(entry.goal_difference, -9);
    assert_eq!(entry.points, 4);
    assert_eq!(entry.played, 4);
}

#[test]
fn results_beyond_the_limit_are_told_apart() {
    let limit = 0x4000_0000i64;
    assert!(check_results(&Vec::new()));
    assert!(check_results(&vec![(limit, -limit), (-limit, limit)]));
    assert!(!check_results(&vec![(0, 0), (limit + 1, 0)]));
    assert!(!check_results(&vec![(0, -limit - 1)]));
    assert!(!check_results(&vec![(i64::MIN, 0)]));
    assert!(!check_results(&vec![(0, i64::MAX)]));
    let sum = tally(&vec![(limit, -limit)], &vec![(-limit, limit)]);
    assert_eq!(sum.goals_for, 2 * limit);
    assert_eq!(sum.goals_against, -2 * limit);
    assert_eq!((sum.won, sum.drawn, sum.lost), (2, 0, 0));
}

#[test]
fn signing_in_takes_an_account() {
    let user = User {
        id: 3,
        name: "Sam".to_string(),
        email: "sam@example.org".to_string(),
        managed_team_id: None,
        game_date: None,
    };
    assert_eq!(sign_in(Some(user.clone())), Ok(user));
    assert_eq!(sign_in(None), Err("Invalid credentials".to_string()));
    assert_eq!(map_err(PreconditionError::CountersFull), "the counters have no room left");
}
