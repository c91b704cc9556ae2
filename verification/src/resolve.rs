//! The events that can befall a minute: shots, fouls and cards, tackles,
//! offsides. Each is a function of the state and of the chance handed in.

use crate::draws::{FoulDraws, ShotDraws};
use crate::engine::{PreconditionError, SimulationEngine, STARTERS};
use crate::select::{lemma_roulette_in_range, roulette};
use crate::model::{
    event_views, goals_among, goals_in, text_of, EventKind, EventView, Side, SimulationEvent,
    Stat,
};
use crate::skills::Skill;
use crate::state::{centre_spot, with_goal, MatchState, MatchStateView};
use crate::text::{full_name, full_name_text};
use vstd::prelude::*;
use vstd::string::StringExecFns;

verus! {

/// What a resolver leaves behind: the state after it and the events it
/// produced, or the reason why nobody could be chosen.
pub type Outcome = Result<(MatchStateView, Seq<EventView>), PreconditionError>;

/// An event without a build-up.
pub open spec fn event_of(
    kind: EventKind,
    team: Side,
    primary_player: Option<Seq<char>>,
    secondary_player: Option<Seq<char>>,
    description: Seq<char>,
    x: int,
    y: int,
) -> EventView {
    EventView {
        event_type: kind,
        team,
        primary_player,
        secondary_player,
        description,
        x,
        y,
        steps: 0,
    }
}

/// Whether an unblocked shot misses the target. The chance of a miss is
/// `0.40 - (finishing + composure) / 80 * 0.15`, with both skills in skill
/// points; here both are effective values and the roll is in millionths.
pub open spec fn shot_misses(roll: int, finishing: int, composure: int) -> bool {
    32_000 * roll < 12_800_000_000 - 15 * (finishing + composure)
}

/// Whether a shot on target goes in. The chance of a goal is
/// `0.25 + (finishing - 10) / 40 * 0.10`, with the skill in skill points.
pub open spec fn shot_scores(roll: int, finishing: int) -> bool {
    1_600 * roll < finishing + 360_000_000
}

/// Whether a foul is booked. The chance of a yellow card is
/// `0.13 + (aggression - 10) / 20 * 0.07`, with the skill in skill points.
pub open spec fn foul_is_booked(roll: int, aggression: int) -> bool {
    8_000 * roll < 7 * aggression + 760_000_000
}

/// The chances at whole skill points and no fatigue, in millionths: a miss
/// has `400_000 - 1_875 * (finishing + composure)`, a goal
/// `225_000 + 2_500 * finishing`, a booking `95_000 + 3_500 * aggression`.
pub proof fn lemma_chances_at_whole_points(roll: int, skill: int, other: int)
    ensures
        shot_misses(roll, 4_000_000 * skill, 4_000_000 * other) <==> roll < 400_000 - 1_875 * (
        skill + other),
        shot_scores(roll, 4_000_000 * skill) <==> roll < 225_000 + 2_500 * skill,
        foul_is_booked(roll, 4_000_000 * skill) <==> roll < 95_000 + 3_500 * skill,
{
}

/// The x coordinate of the goal line that `side` attacks.
pub open spec fn goal_line(side: Side) -> int {
    match side {
        Side::Home => 100_000,
        Side::Away => 0,
    }
}

/// The x coordinate at which a goal for `side` is recorded.
pub open spec fn goal_mouth(side: Side) -> int {
    match side {
        Side::Home => 95_000,
        Side::Away => 5_000,
    }
}

impl SimulationEngine {
    /// The full name of the player in a slot of a squad.
    pub open spec fn name_of(&self, side: Side, slot: int) -> Seq<char> {
        full_name_text(
            self.players(side)[slot].first_name@,
            self.players(side)[slot].last_name@,
        )
    }

    /// What a shot by `side` leads to, where the counters have room for it
    /// and a starter is left to shoot.
    ///
    /// The shooter is chosen by finishing and the shot is counted. A quarter
    /// of all shots are blocked, and four in ten blocked shots bring a
    /// corner. An unblocked shot may miss; one on target is counted as such
    /// and is either a goal, after which the ball goes back to the centre
    /// spot and to the side that conceded, or a save by the other side's
    /// goalkeeper, which in half of all cases brings a corner that is counted
    /// but not reported.
    pub open spec fn shot_outcome(&self, s: MatchStateView, side: Side, d: ShotDraws) -> Outcome {
        if !s.has_room(1) {
            Err(PreconditionError::CountersFull)
        } else {
            match self.weighted_choice(s, side, Skill::Finishing, d.shooter_roll) {
                None => Err(PreconditionError::NoEligiblePlayer(side)),
                Some(slot) => {
                    let shooter = self.players(side)[slot].id;
                    let name = self.name_of(side, slot);
                    let finishing = self.skill_value(s, shooter, Skill::Finishing);
                    let composure = self.skill_value(s, shooter, Skill::Composure);
                    let shot = MatchStateView { stats: s.stats.raised(side, Stat::Shots, 1), ..s };
                    if d.block_roll < 250_000 {
                        let blocked = event_of(
                            EventKind::ShotBlocked,
                            side,
                            Some(name),
                            None,
                            name + "'s shot is blocked!"@,
                            s.ball.x as int,
                            s.ball.y as int,
                        );
                        if d.block_corner_roll < 400_000 {
                            let corner = event_of(
                                EventKind::Corner,
                                side,
                                None,
                                None,
                                "Corner kick to "@ + self.team(side).name@,
                                goal_line(side),
                                s.ball.y as int,
                            );
                            Ok(
                                (
                                    MatchStateView {
                                        stats: shot.stats.raised(side, Stat::Corners, 1),
                                        ..shot
                                    },
                                    seq![blocked, corner],
                                ),
                            )
                        } else {
                            Ok((shot, seq![blocked]))
                        }
                    } else if shot_misses(d.miss_roll as int, finishing, composure) {
                        let wide = event_of(
                            EventKind::ShotOffTarget,
                            side,
                            Some(name),
                            None,
                            name + " fires wide!"@,
                            s.ball.x as int,
                            s.ball.y as int,
                        );
                        Ok((shot, seq![wide]))
                    } else {
                        let on_target = MatchStateView {
                            stats: shot.stats.raised(side, Stat::ShotsOnTarget, 1),
                            ..shot
                        };
                        if shot_scores(d.goal_roll as int, finishing) {
                            let goal = event_of(
                                EventKind::Goal,
                                side,
                                Some(name),
                                None,
                                "GOAL! "@ + name + " scores!"@,
                                goal_mouth(side),
                                34_000,
                            );
                            Ok(
                                (
                                    MatchStateView {
                                        score: with_goal(s.score, side),
                                        ball: centre_spot(),
                                        possession: side.other(),
                                        ..on_target
                                    },
                                    seq![goal],
                                ),
                            )
                        } else {
                            let keeper = self.name_of(side.other(), self.keeper_slot(side.other()));
                            let save = event_of(
                                EventKind::Save,
                                side.other(),
                                Some(keeper),
                                Some(name),
                                "Great save by "@ + keeper + "!"@,
                                s.ball.x as int,
                                s.ball.y as int,
                            );
                            let saved = MatchStateView {
                                stats: on_target.stats.raised(side.other(), Stat::Saves, 1),
                                ..on_target
                            };
                            if d.save_corner_roll < 500_000 {
                                Ok(
                                    (
                                        MatchStateView {
                                            stats: saved.stats.raised(side, Stat::Corners, 1),
                                            ..saved
                                        },
                                        seq![save],
                                    ),
                                )
                            } else {
                                Ok((saved, seq![save]))
                            }
                        }
                    }
                },
            }
        }
    }

    /// What the booking of a foul leads to, for a player of `team` who
    /// commits it. A player who has a yellow card already is shown a second
    /// one and sent off, which counts as a yellow and as a red card; any
    /// other player is shown a first yellow card.
    pub open spec fn booking_outcome(
        s: MatchStateView,
        team: Side,
        fouler: i64,
        name: Seq<char>,
    ) -> (MatchStateView, Seq<EventView>) {
        if s.yellows_of(fouler) >= 1 {
            (
                MatchStateView {
                    sent_off: s.sent_off.insert(fouler, true),
                    stats: s.stats.raised(team, Stat::YellowCards, 1).raised(
                        team,
                        Stat::RedCards,
                        1,
                    ),
                    ..s
                },
                seq![
                    event_of(
                        EventKind::SecondYellow,
                        team,
                        Some(name),
                        None,
                        "Second yellow card! "@ + name + " is sent off!"@,
                        s.ball.x as int,
                        s.ball.y as int,
                    ),
                ],
            )
        } else {
            (
                MatchStateView {
                    yellow_cards: s.yellow_cards.insert(fouler, 1u8),
                    stats: s.stats.raised(team, Stat::YellowCards, 1),
                    ..s
                },
                seq![
                    event_of(
                        EventKind::YellowCard,
                        team,
                        Some(name),
                        None,
                        "Yellow card for "@ + name,
                        s.ball.x as int,
                        s.ball.y as int,
                    ),
                ],
            )
        }
    }

    /// What a straight red card leads to, for a player of `team`.
    pub open spec fn dismissal_outcome(
        s: MatchStateView,
        team: Side,
        fouler: i64,
        name: Seq<char>,
    ) -> (MatchStateView, Seq<EventView>) {
        (
            MatchStateView {
                sent_off: s.sent_off.insert(fouler, true),
                stats: s.stats.raised(team, Stat::RedCards, 1),
                ..s
            },
            seq![
                event_of(
                    EventKind::RedCard,
                    team,
                    Some(name),
                    None,
                    "Straight red card for "@ + name + "!"@,
                    s.ball.x as int,
                    s.ball.y as int,
                ),
            ],
        )
    }

    /// What a foul on a player of `side` leads to, where the counters have
    /// room for it and both sides have a starter left.
    ///
    /// The player who commits it is chosen from the other side by
    /// aggression, the player who suffers it evenly from `side`. The foul is
    /// counted and reported. It may be booked, and, independently, five
    /// fouls in a thousand earn a straight red card.
    pub open spec fn foul_outcome(&self, s: MatchStateView, side: Side, d: FoulDraws) -> Outcome {
        if !s.has_room(2) {
            Err(PreconditionError::CountersFull)
        } else {
            let team = side.other();
            match self.weighted_choice(s, team, Skill::Aggression, d.fouler_roll) {
                None => Err(PreconditionError::NoEligiblePlayer(team)),
                Some(slot) => match self.even_choice(s, side, d.fouled_pick) {
                    None => Err(PreconditionError::NoEligiblePlayer(side)),
                    Some(victim) => {
                        let fouler = self.players(team)[slot].id;
                        let name = self.name_of(team, slot);
                        let foul = event_of(
                            EventKind::Foul,
                            team,
                            Some(name),
                            Some(self.name_of(side, victim)),
                            "Foul by "@ + name,
                            s.ball.x as int,
                            s.ball.y as int,
                        );
                        let fouled = MatchStateView {
                            stats: s.stats.raised(team, Stat::Fouls, 1),
                            ..s
                        };
                        let aggression = self.skill_value(s, fouler, Skill::Aggression);
                        let booked = if foul_is_booked(d.card_roll as int, aggression) {
                            Self::booking_outcome(fouled, team, fouler, name)
                        } else {
                            (fouled, Seq::empty())
                        };
                        let dismissed = if d.red_roll < 5_000 {
                            Self::dismissal_outcome(booked.0, team, fouler, name)
                        } else {
                            (booked.0, Seq::empty())
                        };
                        Ok((dismissed.0, seq![foul] + booked.1 + dismissed.1))
                    },
                },
            }
        }
    }

    /// What a tackle on `side` leads to: the tackler is chosen from the
    /// other side by tackling, the tackle is counted and reported, and the
    /// ball changes hands.
    pub open spec fn tackle_outcome(&self, s: MatchStateView, side: Side, roll: u32) -> Outcome {
        if !s.has_room(1) {
            Err(PreconditionError::CountersFull)
        } else {
            let team = side.other();
            match self.weighted_choice(s, team, Skill::Tackling, roll) {
                None => Err(PreconditionError::NoEligiblePlayer(team)),
                Some(slot) => {
                    let name = self.name_of(team, slot);
                    Ok(
                        (
                            MatchStateView {
                                stats: s.stats.raised(team, Stat::Tackles, 1),
                                possession: team,
                                ..s
                            },
                            seq![
                                event_of(
                                    EventKind::Tackle,
                                    team,
                                    Some(name),
                                    None,
                                    "Good tackle by "@ + name,
                                    s.ball.x as int,
                                    s.ball.y as int,
                                ),
                            ],
                        ),
                    )
                },
            }
        }
    }

    /// What an offside against `side` leads to: it is counted and reported
    /// without a name, and the ball goes to the other side.
    pub open spec fn offside_outcome(s: MatchStateView, side: Side) -> Outcome {
        if !s.has_room(1) {
            Err(PreconditionError::CountersFull)
        } else {
            Ok(
                (
                    MatchStateView {
                        stats: s.stats.raised(side, Stat::Offsides, 1),
                        possession: side.other(),
                        ..s
                    },
                    seq![
                        event_of(
                            EventKind::Offside,
                            side,
                            None,
                            None,
                            "Offside! The flag is up."@,
                            s.ball.x as int,
                            s.ball.y as int,
                        ),
                    ],
                ),
            )
        }
    }
}

impl SimulationEngine {
    /// Resolves a shot by `side`: works the state forward and returns the
    /// events, as [`Self::shot_outcome`] lays down. Where the counters are
    /// full or no starter of `side` is left to shoot it fails and changes
    /// nothing.
    pub fn resolve_shot(&self, state: &mut MatchState, side: Side, draws: &ShotDraws) -> (result:
        Result<Vec<SimulationEvent>, PreconditionError>)
        requires
            self.wf(),
            old(state)@.wf(),
        ensures
            resolved_as(self.shot_outcome(old(state)@, side, *draws), final(state)@, result),
            result.is_err() ==> final(state)@ == old(state)@,
            final(state)@.wf(),
            final(state)@.fatigue == old(state)@.fatigue,
    {
        if !state.check_room(1) {
            return Err(PreconditionError::CountersFull);
        }
        let shooter = match self.pick_weighted_player(
            state,
            side,
            Skill::Finishing,
            draws.shooter_roll,
        ) {
            Ok(player) => player,
            Err(error) => {
                return Err(error);
            },
        };
        let name = full_name(&shooter.first_name, &shooter.last_name);
        let finishing: i128 = self.attribute(state, shooter.id, Skill::Finishing);
        let composure: i128 = self.attribute(state, shooter.id, Skill::Composure);
        let ball = state.ball();
        let mut events: Vec<SimulationEvent> = Vec::new();
        state.inc_stat(side, Stat::Shots, 1);
        if draws.block_roll < 250_000 {
            let description = phrase_starting(&name, "'s shot is blocked!");
            events.push(
                make_event(
                    EventKind::ShotBlocked,
                    side,
                    Some(name),
                    None,
                    description,
                    ball.x,
                    ball.y,
                ),
            );
            if draws.block_corner_roll < 400_000 {
                state.inc_stat(side, Stat::Corners, 1);
                let line: i64 = match side {
                    Side::Home => 100_000,
                    Side::Away => 0,
                };
                let description = phrase_ending("Corner kick to ", self.team_name(side));
                events.push(
                    make_event(EventKind::Corner, side, None, None, description, line, ball.y),
                );
            }
            assert(event_views(events@) =~= self.shot_outcome(old(state)@, side, *draws).unwrap().1);
            return Ok(events);
        }
        if 32_000 * (draws.miss_roll as i128) < 12_800_000_000 - 15 * (finishing + composure) {
            let description = phrase_starting(&name, " fires wide!");
            events.push(
                make_event(
                    EventKind::ShotOffTarget,
                    side,
                    Some(name),
                    None,
                    description,
                    ball.x,
                    ball.y,
                ),
            );
            assert(event_views(events@) =~= self.shot_outcome(old(state)@, side, *draws).unwrap().1);
            return Ok(events);
        }
        state.inc_stat(side, Stat::ShotsOnTarget, 1);
        if 1_600 * (draws.goal_roll as i128) < finishing + 360_000_000 {
            state.add_goal(side);
            let mouth: i64 = match side {
                Side::Home => 95_000,
                Side::Away => 5_000,
            };
            let description = phrase("GOAL! ", &name, " scores!");
            events.push(
                make_event(EventKind::Goal, side, Some(name), None, description, mouth, 34_000),
            );
            state.centre_ball();
            state.give_possession(side.opponent());
            assert(event_views(events@) =~= self.shot_outcome(old(state)@, side, *draws).unwrap().1);
            return Ok(events);
        }
        let keeper = self.pick_goalkeeper(side.opponent());
        let keeper_name = full_name(&keeper.first_name, &keeper.last_name);
        state.inc_stat(side.opponent(), Stat::Saves, 1);
        let description = phrase("Great save by ", &keeper_name, "!");
        events.push(
            make_event(
                EventKind::Save,
                side.opponent(),
                Some(keeper_name),
                Some(name),
                description,
                ball.x,
                ball.y,
            ),
        );
        if draws.save_corner_roll < 500_000 {
            state.inc_stat(side, Stat::Corners, 1);
        }
        assert(event_views(events@) =~= self.shot_outcome(old(state)@, side, *draws).unwrap().1);
        Ok(events)
    }

    /// Resolves a foul on a player of `side`: works the state forward and
    /// returns the events, as [`Self::foul_outcome`] lays down. Where the
    /// counters are full or either side has no starter left it fails and
    /// changes nothing.
    pub fn simulate_foul(&self, state: &mut MatchState, side: Side, draws: &FoulDraws) -> (result:
        Result<Vec<SimulationEvent>, PreconditionError>)
        requires
            self.wf(),
            old(state)@.wf(),
        ensures
            resolved_as(self.foul_outcome(old(state)@, side, *draws), final(state)@, result),
            result.is_err() ==> final(state)@ == old(state)@,
            final(state)@.wf(),
            final(state)@.fatigue == old(state)@.fatigue,
    {
        if !state.check_room(2) {
            return Err(PreconditionError::CountersFull);
        }
        let team = side.opponent();
        let fouler = match self.pick_weighted_player(
            state,
            team,
            Skill::Aggression,
            draws.fouler_roll,
        ) {
            Ok(player) => player,
            Err(error) => {
                return Err(error);
            },
        };
        let victim = match self.pick_player(state, side, draws.fouled_pick) {
            Ok(player) => player,
            Err(error) => {
                return Err(error);
            },
        };
        let name = full_name(&fouler.first_name, &fouler.last_name);
        let victim_name = full_name(&victim.first_name, &victim.last_name);
        let aggression: i128 = self.attribute(state, fouler.id, Skill::Aggression);
        let ball = state.ball();
        let mut events: Vec<SimulationEvent> = Vec::new();
        state.inc_stat(team, Stat::Fouls, 1);
        let description = phrase_ending("Foul by ", &name);
        events.push(
            make_event(
                EventKind::Foul,
                team,
                Some(name.clone()),
                Some(victim_name),
                description,
                ball.x,
                ball.y,
            ),
        );
        if 8_000 * (draws.card_roll as i128) < 7 * aggression + 760_000_000 {
            if state.yellow_cards(fouler.id) >= 1 {
                state.send_off(fouler.id);
                state.inc_stat(team, Stat::YellowCards, 1);
                state.inc_stat(team, Stat::RedCards, 1);
                let description = phrase("Second yellow card! ", &name, " is sent off!");
                events.push(
                    make_event(
                        EventKind::SecondYellow,
                        team,
                        Some(name.clone()),
                        None,
                        description,
                        ball.x,
                        ball.y,
                    ),
                );
            } else {
                state.show_yellow(fouler.id);
                state.inc_stat(team, Stat::YellowCards, 1);
                let description = phrase_ending("Yellow card for ", &name);
                events.push(
                    make_event(
                        EventKind::YellowCard,
                        team,
                        Some(name.clone()),
                        None,
                        description,
                        ball.x,
                        ball.y,
                    ),
                );
            }
        }
        if draws.red_roll < 5_000 {
            state.send_off(fouler.id);
            state.inc_stat(team, Stat::RedCards, 1);
            let description = phrase("Straight red card for ", &name, "!");
            events.push(
                make_event(
                    EventKind::RedCard,
                    team,
                    Some(name),
                    None,
                    description,
                    ball.x,
                    ball.y,
                ),
            );
        }
        assert(event_views(events@) =~= self.foul_outcome(old(state)@, side, *draws).unwrap().1);
        Ok(events)
    }

    /// Resolves a tackle on `side`: works the state forward and returns the
    /// event, as [`Self::tackle_outcome`] lays down. Where the counters are
    /// full or the other side has no starter left it fails and changes
    /// nothing.
    pub fn resolve_tackle(&self, state: &mut MatchState, side: Side, roll: u32) -> (result: Result<
        Vec<SimulationEvent>,
        PreconditionError,
    >)
        requires
            self.wf(),
            old(state)@.wf(),
        ensures
            resolved_as(self.tackle_outcome(old(state)@, side, roll), final(state)@, result),
            result.is_err() ==> final(state)@ == old(state)@,
            final(state)@.wf(),
            final(state)@.fatigue == old(state)@.fatigue,
    {
        if !state.check_room(1) {
            return Err(PreconditionError::CountersFull);
        }
        let team = side.opponent();
        let tackler = match self.pick_weighted_player(state, team, Skill::Tackling, roll) {
            Ok(player) => player,
            Err(error) => {
                return Err(error);
            },
        };
        let name = full_name(&tackler.first_name, &tackler.last_name);
        let ball = state.ball();
        let mut events: Vec<SimulationEvent> = Vec::new();
        state.inc_stat(team, Stat::Tackles, 1);
        let description = phrase_ending("Good tackle by ", &name);
        events.push(
            make_event(EventKind::Tackle, team, Some(name), None, description, ball.x, ball.y),
        );
        state.give_possession(team);
        assert(event_views(events@) =~= self.tackle_outcome(old(state)@, side, roll).unwrap().1);
        Ok(events)
    }

    /// Resolves an offside against `side`: works the state forward and
    /// returns the event, as [`Self::offside_outcome`] lays down. Where the
    /// counters are full it fails and changes nothing.
    pub fn resolve_offside(&self, state: &mut MatchState, side: Side) -> (result: Result<
        Vec<SimulationEvent>,
        PreconditionError,
    >)
        requires
            old(state)@.wf(),
        ensures
            resolved_as(Self::offside_outcome(old(state)@, side), final(state)@, result),
            result.is_err() ==> final(state)@ == old(state)@,
            final(state)@.wf(),
            final(state)@.fatigue == old(state)@.fatigue,
    {
        if !state.check_room(1) {
            return Err(PreconditionError::CountersFull);
        }
        let ball = state.ball();
        let mut events: Vec<SimulationEvent> = Vec::new();
        state.inc_stat(side, Stat::Offsides, 1);
        events.push(
            make_event(
                EventKind::Offside,
                side,
                None,
                None,
                String::from_str("Offside! The flag is up."),
                ball.x,
                ball.y,
            ),
        );
        state.give_possession(side.opponent());
        assert(event_views(events@) =~= Self::offside_outcome(old(state)@, side).unwrap().1);
        Ok(events)
    }
}

/// What holds of every outcome of an event: the score has grown by the
/// goals reported, no counter has gone down or up by more than two,
/// possession of the ball apart nothing else has changed but the cards, and
/// whoever was sent off stays sent off. An event fails only for want of
/// room in the counters or of players.
pub open spec fn sound_outcome(s: MatchStateView, outcome: Outcome) -> bool {
    match outcome {
        Ok((after, events)) => {
            &&& s.grown_within(after, 2)
            &&& after.score.home == s.score.home + goals_in(events, Side::Home)
            &&& after.score.away == s.score.away + goals_in(events, Side::Away)
            &&& after.fatigue == s.fatigue
            &&& after.zone == s.zone
            &&& forall|id: i64| s.is_sent_off(id) ==> #[trigger] after.is_sent_off(id)
            &&& forall|id: i64| #[trigger]
                after.yellows_of(id) == s.yellows_of(id) || (s.yellows_of(id) == 0
                    && after.yellows_of(id) == 1)
        },
        Err(error) => error == PreconditionError::CountersFull || error.is_lack_of_players(),
    }
}

impl SimulationEngine {
    /// A player who is booked twice is shown one yellow card and then a
    /// second yellow, never two first yellow cards, and is sent off by the
    /// second; the count of yellow cards on the player's record stays at one.
    pub proof fn lemma_second_booking_sends_off(
        s: MatchStateView,
        team: Side,
        fouler: i64,
        name: Seq<char>,
    )
        requires
            s.yellows_of(fouler) == 0,
        ensures
            ({
                let first = Self::booking_outcome(s, team, fouler, name);
                let second = Self::booking_outcome(first.0, team, fouler, name);
                &&& first.1.len() == 1
                &&& first.1[0].event_type == EventKind::YellowCard
                &&& first.0.yellows_of(fouler) == 1
                &&& first.0.is_sent_off(fouler) == s.is_sent_off(fouler)
                &&& second.1.len() == 1
                &&& second.1[0].event_type == EventKind::SecondYellow
                &&& second.0.yellows_of(fouler) == 1
                &&& second.0.is_sent_off(fouler)
            }),
    {
    }

    /// Whoever commits a foul, suffers one, shoots or tackles is a starter
    /// who has not been sent off: every event but a save names as its first
    /// player someone who was still on the pitch when it happened.
    pub proof fn lemma_actors_on_pitch(
        &self,
        s: MatchStateView,
        side: Side,
        skill: Skill,
        roll: u32,
        pick: u32,
    )
        requires
            self.wf(),
        ensures
            match self.weighted_choice(s, side, skill, roll) {
                Some(slot) => 0 <= slot < STARTERS && !s.is_sent_off(self.players(side)[slot].id),
                None => true,
            },
            match self.even_choice(s, side, pick) {
                Some(slot) => 0 <= slot < STARTERS && !s.is_sent_off(self.players(side)[slot].id),
                None => true,
            },
    {
        self.lemma_eligible_slots(s, side, STARTERS as int);
        let slots = self.eligible(s, side);
        if slots.len() > 0 {
            let weights = self.weights(s, side, skill);
            lemma_roulette_in_range(weights, roll as int, 0);
        }
    }

    /// A shot that ends in a goal counts once for the side that shot, puts
    /// the ball back on the centre spot and hands it to the side that
    /// conceded; a shot that reports no goal leaves score, ball and
    /// possession as they were.
    pub proof fn lemma_goal_restarts_play(&self, s: MatchStateView, side: Side, d: ShotDraws)
        ensures
            match self.shot_outcome(s, side, d) {
                Ok((after, events)) => {
                    &&& goals_in(events, side.other()) == 0
                    &&& goals_in(events, side) == 0 || goals_in(events, side) == 1
                    &&& goals_in(events, side) == 1 ==> after.score == with_goal(s.score, side)
                        && after.ball == centre_spot() && after.possession == side.other()
                    &&& goals_in(events, side) == 0 ==> after.score == s.score && after.ball
                        == s.ball && after.possession == s.possession
                },
                Err(_) => true,
            },
    {
        reveal_with_fuel(goals_among, 4);
    }

    /// A shot that is neither blocked nor wide and that the goal roll lets
    /// in is a goal: the one event is the shooter's goal, the score of the
    /// side that shot grows by one and the other side's stays, the ball goes
    /// back to the centre spot, and the side that conceded restarts.
    pub proof fn lemma_forced_goal(&self, s: MatchStateView, side: Side, d: ShotDraws)
        requires
            self.shot_outcome(s, side, d).is_ok(),
            d.block_roll >= 250_000,
            ({
                let slot = self.weighted_choice(s, side, Skill::Finishing, d.shooter_roll).unwrap();
                let shooter = self.players(side)[slot].id;
                let finishing = self.skill_value(s, shooter, Skill::Finishing);
                let composure = self.skill_value(s, shooter, Skill::Composure);
                !shot_misses(d.miss_roll as int, finishing, composure) && shot_scores(
                    d.goal_roll as int,
                    finishing,
                )
            }),
        ensures
            ({
                let slot = self.weighted_choice(s, side, Skill::Finishing, d.shooter_roll).unwrap();
                let (after, events) = self.shot_outcome(s, side, d).unwrap();
                &&& events.len() == 1
                &&& events[0].event_type == EventKind::Goal
                &&& events[0].team == side
                &&& events[0].primary_player == Some(self.name_of(side, slot))
                &&& after.stats.of(side).shots == s.stats.of(side).shots + 1
                &&& after.stats.of(side).shots_on_target == s.stats.of(side).shots_on_target + 1
                &&& side == Side::Home ==> after.score.home == s.score.home + 1
                    && after.score.away == s.score.away
                &&& side == Side::Away ==> after.score.away == s.score.away + 1
                    && after.score.home == s.score.home
                &&& after.ball == centre_spot()
                &&& after.possession == side.other()
            }),
    {
    }

    /// The cards at a foul. A first yellow card is shown only to a player
    /// who has none, and leaves one on the player's record. A booking of a
    /// player who has one is a second yellow card and never a first: it
    /// sends the player off, changes nobody else's standing, and counts as
    /// one yellow and one red card for the side. Every event of the foul is
    /// the fouling side's and names the player who committed it, who was on
    /// the pitch, as was the player fouled.
    pub proof fn lemma_cards_at_a_foul(&self, s: MatchStateView, side: Side, d: FoulDraws)
        requires
            self.wf(),
            self.foul_outcome(s, side, d).is_ok(),
        ensures
            ({
                let team = side.other();
                let slot = self.weighted_choice(s, team, Skill::Aggression, d.fouler_roll).unwrap();
                let victim = self.even_choice(s, side, d.fouled_pick).unwrap();
                let fouler = self.players(team)[slot].id;
                let booked = foul_is_booked(
                    d.card_roll as int,
                    self.skill_value(s, fouler, Skill::Aggression),
                );
                let (after, events) = self.foul_outcome(s, side, d).unwrap();
                &&& 0 <= slot < STARTERS && 0 <= victim < STARTERS
                &&& !s.is_sent_off(fouler)
                &&& !s.is_sent_off(self.players(side)[victim].id)
                &&& 1 <= events.len() <= 3
                &&& events[0].event_type == EventKind::Foul
                &&& events[0].secondary_player == Some(self.name_of(side, victim))
                &&& forall|i: int|
                    0 <= i < events.len() ==> (#[trigger] events[i]).team == team
                        && events[i].primary_player == Some(self.name_of(team, slot))
                &&& forall|i: int|
                    0 <= i < events.len() && (#[trigger] events[i]).event_type
                        == EventKind::YellowCard ==> s.yellows_of(fouler) == 0
                        && after.yellows_of(fouler) == 1
                &&& booked && s.yellows_of(fouler) >= 1 ==> {
                    &&& events[1].event_type == EventKind::SecondYellow
                    &&& forall|i: int|
                        0 <= i < events.len() ==> (#[trigger] events[i]).event_type
                            != EventKind::YellowCard
                    &&& after.sent_off == s.sent_off.insert(fouler, true)
                    &&& after.is_sent_off(fouler)
                    &&& after.yellows_of(fouler) == s.yellows_of(fouler)
                    &&& d.red_roll >= 5_000 ==> events.len() == 2 && after.stats.of(
                        team,
                    ).yellow_cards == s.stats.of(team).yellow_cards + 1 && after.stats.of(
                        team,
                    ).red_cards == s.stats.of(team).red_cards + 1
                }
                &&& !booked && d.red_roll >= 5_000 ==> events.len() == 1 && after.sent_off
                    == s.sent_off && after.yellow_cards == s.yellow_cards
            }),
    {
        self.lemma_actors_on_pitch(s, side.other(), Skill::Aggression, d.fouler_roll, 0);
        self.lemma_actors_on_pitch(s, side, Skill::Aggression, 0, d.fouled_pick);
    }

    /// Every outcome of a shot is sound.
    pub proof fn lemma_shot_sound(&self, s: MatchStateView, side: Side, d: ShotDraws)
        ensures
            sound_outcome(s, self.shot_outcome(s, side, d)),
    {
        reveal_with_fuel(goals_among, 4);
    }

    /// Every outcome of a foul is sound.
    pub proof fn lemma_foul_sound(&self, s: MatchStateView, side: Side, d: FoulDraws)
        ensures
            sound_outcome(s, self.foul_outcome(s, side, d)),
    {
        reveal_with_fuel(goals_among, 4);
    }

    /// Every outcome of a tackle is sound.
    pub proof fn lemma_tackle_sound(&self, s: MatchStateView, side: Side, roll: u32)
        ensures
            sound_outcome(s, self.tackle_outcome(s, side, roll)),
    {
        reveal_with_fuel(goals_among, 4);
    }

    /// The outcome of an offside is sound.
    pub proof fn lemma_offside_sound(s: MatchStateView, side: Side)
        ensures
            sound_outcome(s, Self::offside_outcome(s, side)),
    {
        reveal_with_fuel(goals_among, 4);
    }
}

/// Whether what a resolver did is what `outcome` says: on success the state
/// and the events are those of the outcome, on failure the error is.
pub open spec fn resolved_as(
    outcome: Outcome,
    after: MatchStateView,
    result: Result<Vec<SimulationEvent>, PreconditionError>,
) -> bool {
    match outcome {
        Ok((state, events)) => result.is_ok() && after == state && event_views(
            result.unwrap()@,
        ) == events && result.unwrap()@.len() == events.len(),
        Err(error) => result == Err::<Vec<SimulationEvent>, PreconditionError>(error),
    }
}

/// An event without a build-up.
pub fn make_event(
    kind: EventKind,
    team: Side,
    primary_player: Option<String>,
    secondary_player: Option<String>,
    description: String,
    x: i64,
    y: i64,
) -> (event: SimulationEvent)
    ensures
        event@ == event_of(
            kind,
            team,
            text_of(primary_player),
            text_of(secondary_player),
            description@,
            x as int,
            y as int,
        ),
{
    SimulationEvent {
        event_type: kind,
        team,
        primary_player,
        secondary_player,
        description,
        x,
        y,
        sequence: Vec::new(),
    }
}

/// `before`, then `name`, then `after`.
pub fn phrase(before: &str, name: &String, after: &str) -> (text: String)
    ensures
        text@ == before@ + name@ + after@,
{
    let mut text = String::from_str(before);
    text.append(name.as_str());
    text.append(after);
    text
}

/// `before`, then `name`.
pub fn phrase_ending(before: &str, name: &String) -> (text: String)
    ensures
        text@ == before@ + name@,
{
    let mut text = String::from_str(before);
    text.append(name.as_str());
    text
}

/// `name`, then `after`.
pub fn phrase_starting(name: &String, after: &str) -> (text: String)
    ensures
        text@ == name@ + after@,
{
    let mut text = name.clone();
    text.append(after);
    text
}

} // verus!
