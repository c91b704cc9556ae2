//! One simulated minute.

use crate::draws::{BallShift, MinuteDraws};
use crate::engine::{PreconditionError, SimulationEngine, STARTERS};
use crate::model::{
    event_views, goals_in, BallPosition, EventKind, EventView, Phase, Side, SimulationEvent,
    SimulationTick, Stat, TickView,
};
use crate::resolve::{resolved_as, sound_outcome, Outcome};
use crate::skills::{fatigue_after, tire, Skill, FATIGUE_FULL};
use crate::state::{
    advanced, fatigue_in_range, fatigue_on_record, in_attacking_third, jittered, on_pitch,
    zone_of, MatchState, MatchStateView,
};
use crate::text::{append_decimal, decimal_text};
use vstd::prelude::*;
use vstd::string::StringExecFns;

verus! {

/// The ball after the first `n` touches of a passage of passing.
pub open spec fn ball_after_touches(ball: BallPosition, touches: Seq<BallShift>, n: int) -> BallPosition
    decreases n,
{
    if n <= 0 {
        ball
    } else {
        jittered(ball_after_touches(ball, touches, n - 1), touches[n - 1])
    }
}

/// Whether any of the events puts its side into an attacking phase.
pub open spec fn any_attacking(events: Seq<EventView>) -> bool {
    exists|i: int| 0 <= i < events.len() && (#[trigger] events[i]).event_type.is_attacking()
}

/// The phase of a minute in which `side` had the ball at its start.
pub open spec fn phase_of(events: Seq<EventView>, side: Side) -> Phase {
    if any_attacking(events) {
        Phase::Attack(side)
    } else {
        Phase::OpenPlay
    }
}

/// The mark that opens every line of commentary: the minute and a dash.
pub open spec fn minute_mark(minute: int) -> Seq<char> {
    decimal_text(minute) + "' - "@
}

/// The commentary on the first `n` events: one line for each, a space between.
pub open spec fn event_lines(minute: int, events: Seq<EventView>, n: int) -> Seq<char>
    decreases n,
{
    if n <= 0 {
        Seq::empty()
    } else if n == 1 {
        minute_mark(minute) + events[0].description
    } else {
        event_lines(minute, events, n - 1) + " "@ + minute_mark(minute) + events[n - 1].description
    }
}

/// The commentary on a minute: a line on who keeps the ball where nothing
/// happened, else a line for each event.
pub open spec fn commentary_text(minute: int, team_name: Seq<char>, events: Seq<EventView>) -> Seq<
    char,
> {
    if events.len() == 0 {
        minute_mark(minute) + team_name + " keep possession in midfield."@
    } else {
        event_lines(minute, events, events.len() as int)
    }
}

/// The room that the counters must have for a minute: one for each pass,
/// and two for what an event may add to one counter.
pub open spec fn room_for(d: MinuteDraws) -> int {
    d.passes@.len() as int + 2
}

impl SimulationEngine {
    /// The record of fatigue after the first `n` starters of `side` have
    /// tired for a minute, each by their stamina.
    pub open spec fn tired_below(&self, fatigue: Map<i64, u32>, side: Side, n: int) -> Map<
        i64,
        u32,
    >
        decreases n,
    {
        if n <= 0 {
            fatigue
        } else {
            let before = self.tired_below(fatigue, side, n - 1);
            let id = self.players(side)[n - 1].id;
            before.insert(
                id,
                fatigue_after(
                    self.base_value(id, Skill::Stamina),
                    fatigue_on_record(before, id),
                ) as u32,
            )
        }
    }

    /// The record of fatigue after every starter has tired for a minute:
    /// the home starters in squad order, then the away starters.
    pub open spec fn tired(&self, fatigue: Map<i64, u32>) -> Map<i64, u32> {
        self.tired_below(
            self.tired_below(fatigue, Side::Home, STARTERS as int),
            Side::Away,
            STARTERS as int,
        )
    }

    /// What the minute's one decision leads to. At most one thing happens,
    /// and the first that its roll allows: a shot (fifteen in a hundred in
    /// the attacking third, three in a hundred elsewhere), a foul (eight in
    /// a hundred), a tackle (twenty in a hundred), an offside (six in a
    /// hundred, in the attacking third only).
    pub open spec fn decision_outcome(&self, s: MatchStateView, side: Side, d: MinuteDraws) -> Outcome {
        let attacking = in_attacking_third(s.ball, side);
        if d.shot_roll < (if attacking {
            150_000u32
        } else {
            30_000u32
        }) {
            self.shot_outcome(s, side, d.shot)
        } else if d.foul_roll < 80_000 {
            self.foul_outcome(s, side, d.foul)
        } else if d.tackle_roll < 200_000 {
            self.tackle_outcome(s, side, d.tackler_roll)
        } else if attacking && d.offside_roll < 60_000 {
            Self::offside_outcome(s, side)
        } else {
            Ok((s, Seq::empty()))
        }
    }

    /// The state as the minute's decision finds it: after minute 60 every
    /// starter has tired, the side in possession has passed the ball about,
    /// and in six minutes of ten it has moved the ball forward.
    pub open spec fn build_up(&self, s: MatchStateView, minute: int, d: MinuteDraws) -> MatchStateView {
        let side = s.possession;
        let fatigue = if minute > 60 {
            self.tired(s.fatigue)
        } else {
            s.fatigue
        };
        let passed = ball_after_touches(s.ball, d.passes@, d.passes@.len() as int);
        let ball = if d.advance_roll < 600_000 {
            advanced(passed, side, d.advance)
        } else {
            passed
        };
        MatchStateView {
            fatigue,
            stats: s.stats.raised(side, Stat::Passes, d.passes@.len() as int),
            ball,
            ..s
        }
    }

    /// What one minute leads to: the state after it and the tick that
    /// reports it, or the reason why it could not be played. A minute is
    /// not begun unless the counters have room for all that it may count.
    ///
    /// After the build-up and the decision, possession changes hands in
    /// thirty-five minutes of a hundred, whatever happened before; the zone
    /// is worked out anew; the minute counts as an attack of the side that
    /// began it with the ball if a goal, a blocked shot or a save is among
    /// its events.
    #[verifier::opaque]
    pub open spec fn minute_outcome(&self, s: MatchStateView, minute: int, d: MinuteDraws) -> Result<
        (MatchStateView, TickView),
        PreconditionError,
    > {
        let side = s.possession;
        if !s.has_room(room_for(d)) {
            Err(PreconditionError::CountersFull)
        } else {
            match self.decision_outcome(self.build_up(s, minute, d), side, d) {
                Err(error) => Err(error),
                Ok((decided, events)) => {
                    let possession = if d.flip_roll < 350_000 {
                        decided.possession.other()
                    } else {
                        decided.possession
                    };
                    let zone = zone_of(decided.ball, possession);
                    Ok(
                        (
                            MatchStateView { possession, zone, ..decided },
                            TickView {
                                minute,
                                phase: phase_of(events, side),
                                possession,
                                zone,
                                ball: decided.ball,
                                events,
                                score: decided.score,
                                stats: decided.stats,
                                commentary: commentary_text(
                                    minute,
                                    self.team(possession).name@,
                                    events,
                                ),
                            },
                        ),
                    )
                },
            }
        }
    }

    /// Tiring never lowers anybody's fatigue and never takes it past full
    /// fatigue.
    pub proof fn lemma_tired_below(&self, fatigue: Map<i64, u32>, side: Side, n: int)
        requires
            fatigue_in_range(fatigue),
            0 <= n,
        ensures
            fatigue_in_range(self.tired_below(fatigue, side, n)),
            forall|id: i64|
                fatigue_on_record(fatigue, id) <= #[trigger] fatigue_on_record(
                    self.tired_below(fatigue, side, n),
                    id,
                ),
        decreases n,
    {
        if n > 0 {
            self.lemma_tired_below(fatigue, side, n - 1);
            let before = self.tired_below(fatigue, side, n - 1);
            let after = self.tired_below(fatigue, side, n);
            assert forall|id: i64|
                fatigue_on_record(fatigue, id) <= #[trigger] fatigue_on_record(after, id) by {
                assert(fatigue_on_record(fatigue, id) <= fatigue_on_record(before, id));
            }
        }
    }

    /// The build-up leaves nobody less tired than before and nobody more
    /// than spent, leaves the ball on the pitch, and touches neither the
    /// score nor the cards; from a state with room for the minute, it
    /// raises no counter but the passes, and leaves room for an event.
    pub proof fn lemma_build_up_sound(&self, s: MatchStateView, minute: int, d: MinuteDraws)
        requires
            s.wf(),
        ensures
            self.build_up(s, minute, d).wf(),
            self.build_up(s, minute, d).score == s.score,
            self.build_up(s, minute, d).yellow_cards == s.yellow_cards,
            self.build_up(s, minute, d).sent_off == s.sent_off,
            forall|id: i64|
                s.fatigue_of(id) <= #[trigger] fatigue_on_record(
                    self.build_up(s, minute, d).fatigue,
                    id,
                ),
            s.has_room(room_for(d)) ==> s.grown_within(
                self.build_up(s, minute, d),
                d.passes@.len() as int,
            ) && self.build_up(s, minute, d).has_room(2),
    {
        let half = self.tired_below(s.fatigue, Side::Home, STARTERS as int);
        self.lemma_tired_below(s.fatigue, Side::Home, STARTERS as int);
        self.lemma_tired_below(half, Side::Away, STARTERS as int);
    }

    /// Every outcome of the minute's decision is sound.
    pub proof fn lemma_decision_sound(&self, s: MatchStateView, side: Side, d: MinuteDraws)
        ensures
            sound_outcome(s, self.decision_outcome(s, side, d)),
            s.has_room(2) ==> self.decision_outcome(s, side, d) != Err::<
                (MatchStateView, Seq<EventView>),
                PreconditionError,
            >(PreconditionError::CountersFull),
    {
        self.lemma_shot_sound(s, side, d.shot);
        self.lemma_foul_sound(s, side, d.foul);
        self.lemma_tackle_sound(s, side, d.tackler_roll);
        Self::lemma_offside_sound(s, side);
    }

    /// A minute in which no roll allows an event is played to its end
    /// without one: the tick reports no event and an open passage of play,
    /// and the score and the cards stay as they were.
    pub proof fn lemma_quiet_minute(&self, s: MatchStateView, minute: int, d: MinuteDraws)
        requires
            s.has_room(room_for(d)),
            d.shot_roll >= 150_000,
            d.foul_roll >= 80_000,
            d.tackle_roll >= 200_000,
            d.offside_roll >= 60_000,
        ensures
            self.minute_outcome(s, minute, d).is_ok(),
            ({
                let (after, tick) = self.minute_outcome(s, minute, d).unwrap();
                &&& tick.events.len() == 0
                &&& tick.phase == Phase::OpenPlay
                &&& tick.minute == minute
                &&& tick.score == s.score
                &&& after.score == s.score
                &&& after.yellow_cards == s.yellow_cards
                &&& after.sent_off == s.sent_off
                &&& tick.commentary == minute_mark(minute) + self.team(tick.possession).name@
                    + " keep possession in midfield."@
            }),
    {
        reveal(SimulationEngine::minute_outcome);
    }

    /// What holds of every minute that is played to its end: the counters
    /// had room for it; neither the score nor any counter has gone down;
    /// the score has grown by the goals that the tick reports; the tick
    /// shows the score, the counters and the possession that the state is
    /// left with; the ball is on the pitch, in the zone that the tick
    /// shows; nobody is less tired than before, and nobody who was sent off
    /// is back.
    #[verifier::rlimit(50)]
    pub proof fn lemma_minute_sound(&self, s: MatchStateView, minute: int, d: MinuteDraws)
        requires
            s.wf(),
        ensures
            match self.minute_outcome(s, minute, d) {
                Ok((after, tick)) => {
                    &&& after.wf()
                    &&& s.has_room(room_for(d))
                    &&& s.grown_within(after, room_for(d))
                    &&& d.passes@.len() <= 8 ==> s.grown_within(after, 8)
                    &&& after.score.home == s.score.home + goals_in(tick.events, Side::Home)
                    &&& after.score.away == s.score.away + goals_in(tick.events, Side::Away)
                    &&& tick.minute == minute
                    &&& tick.score == after.score
                    &&& tick.stats == after.stats
                    &&& tick.possession == after.possession
                    &&& tick.phase != Phase::HalfTime && tick.phase != Phase::FullTime
                    &&& on_pitch(tick.ball)
                    &&& tick.zone == zone_of(tick.ball, tick.possession)
                    &&& forall|id: i64| s.fatigue_of(id) <= #[trigger] after.fatigue_of(id)
                    &&& forall|id: i64| s.is_sent_off(id) ==> #[trigger] after.is_sent_off(id)
                },
                Err(_) => true,
            },
    {
        reveal(SimulationEngine::minute_outcome);
        let built = self.build_up(s, minute, d);
        self.lemma_build_up_sound(s, minute, d);
        self.lemma_decision_sound(built, s.possession, d);
    }

    /// A minute fails for want of room in the counters where there is
    /// none, and else only for want of players.
    pub proof fn lemma_minute_fails(&self, s: MatchStateView, minute: int, d: MinuteDraws)
        requires
            s.wf(),
        ensures
            match self.minute_outcome(s, minute, d) {
                Ok(_) => s.has_room(room_for(d)),
                Err(error) => if s.has_room(room_for(d)) {
                    error.is_lack_of_players()
                } else {
                    error == PreconditionError::CountersFull
                },
            },
    {
        reveal(SimulationEngine::minute_outcome);
        self.lemma_build_up_sound(s, minute, d);
        self.lemma_decision_sound(self.build_up(s, minute, d), s.possession, d);
    }

    fn tire_starters(&self, state: &mut MatchState, side: Side)
        requires
            self.wf(),
            old(state)@.wf(),
        ensures
            final(state)@ == (MatchStateView {
                fatigue: self.tired_below(old(state)@.fatigue, side, STARTERS as int),
                ..old(state)@
            }),
            final(state)@.wf(),
    {
        let squad = self.squad(side);
        let mut i: usize = 0;
        while i < STARTERS
            invariant
                i <= STARTERS <= squad@.len(),
                squad@ == self.players(side),
                state@.wf(),
                state@ == (MatchStateView {
                    fatigue: self.tired_below(old(state)@.fatigue, side, i as int),
                    ..old(state)@
                }),
            decreases STARTERS - i,
        {
            let id: i64 = squad[i].id;
            let after: u32 = tire(self.base_skill(id, Skill::Stamina), state.fatigue(id));
            state.set_fatigue(id, after);
            i += 1;
        }
    }

    /// The commentary on a minute.
    pub fn build_commentary(&self, state: &MatchState, events: &Vec<SimulationEvent>, minute: i64) -> (text:
        String)
        ensures
            text@ == commentary_text(
                minute as int,
                self.team(state@.possession).name@,
                event_views(events@),
            ),
    {
        let mut text = String::new();
        if events.len() == 0 {
            append_decimal(&mut text, minute);
            text.append("' - ");
            text.append(self.team_name(state.possession()).as_str());
            text.append(" keep possession in midfield.");
            return text;
        }
        let mut i: usize = 0;
        while i < events.len()
            invariant
                i <= events@.len(),
                text@ == event_lines(minute as int, event_views(events@), i as int),
            decreases events@.len() - i,
        {
            if i > 0 {
                text.append(" ");
            }
            append_decimal(&mut text, minute);
            text.append("' - ");
            text.append(events[i].description.as_str());
            i += 1;
        }
        text
    }

    fn run_build_up(&self, state: &mut MatchState, minute: i64, draws: &MinuteDraws)
        requires
            self.wf(),
            old(state)@.wf(),
            old(state)@.has_room(room_for(*draws)),
        ensures
            final(state)@ == self.build_up(old(state)@, minute as int, *draws),
            final(state)@.wf(),
            final(state)@.has_room(2),
    {
        let side = state.possession();
        if minute > 60 {
            self.tire_starters(state, Side::Home);
            self.tire_starters(state, Side::Away);
        }
        state.inc_stat(side, Stat::Passes, draws.passes.len() as i64);
        let ghost passing = state@;
        let mut i: usize = 0;
        while i < draws.passes.len()
            invariant
                i <= draws.passes@.len(),
                on_pitch(state@.ball),
                state@ == (MatchStateView {
                    ball: ball_after_touches(passing.ball, draws.passes@, i as int),
                    ..passing
                }),
            decreases draws.passes@.len() - i,
        {
            state.jitter_ball(draws.passes[i]);
            i += 1;
        }
        if draws.advance_roll < 600_000 {
            state.move_ball_forward(side, draws.advance);
        }
    }

    fn decide(&self, state: &mut MatchState, side: Side, draws: &MinuteDraws) -> (result: Result<
        Vec<SimulationEvent>,
        PreconditionError,
    >)
        requires
            self.wf(),
            old(state)@.wf(),
        ensures
            resolved_as(self.decision_outcome(old(state)@, side, *draws), final(state)@, result),
            result.is_err() ==> final(state)@ == old(state)@,
            final(state)@.wf(),
    {
        let attacking = state.is_attacking_third(side);
        let shot_chance: u32 = if attacking {
            150_000
        } else {
            30_000
        };
        if draws.shot_roll < shot_chance {
            self.resolve_shot(state, side, &draws.shot)
        } else if draws.foul_roll < 80_000 {
            self.simulate_foul(state, side, &draws.foul)
        } else if draws.tackle_roll < 200_000 {
            self.resolve_tackle(state, side, draws.tackler_roll)
        } else if attacking && draws.offside_roll < 60_000 {
            self.resolve_offside(state, side)
        } else {
            let events: Vec<SimulationEvent> = Vec::new();
            assert(event_views(events@) =~= Seq::<EventView>::empty());
            Ok(events)
        }
    }

    /// Plays one minute: works the state forward and reports the minute.
    ///
    /// Where the counters have no room for the minute it is not begun, and
    /// the state is left as it was. Where nobody can be chosen for an event
    /// the minute fails, and the state is left as the build-up made it.
    pub fn simulate_minute(&self, state: &mut MatchState, minute: i64, draws: &MinuteDraws) -> (result:
        Result<SimulationTick, PreconditionError>)
        requires
            self.wf(),
            old(state)@.wf(),
        ensures
            match self.minute_outcome(old(state)@, minute as int, *draws) {
                Ok((after, tick)) => result.is_ok() && final(state)@ == after && result.unwrap()@
                    == tick && result.unwrap().events@.len() == tick.events.len(),
                Err(error) => result == Err::<SimulationTick, PreconditionError>(error)
                    && final(state)@ == if error == PreconditionError::CountersFull {
                    old(state)@
                } else {
                    self.build_up(old(state)@, minute as int, *draws)
                },
            },
            final(state)@.wf(),
            forall|id: i64|
                old(state)@.fatigue_of(id) <= #[trigger] final(state)@.fatigue_of(id)
                    <= FATIGUE_FULL,
    {
        reveal(SimulationEngine::minute_outcome);
        proof {
            self.lemma_build_up_sound(old(state)@, minute as int, *draws);
        }
        if (draws.passes.len() as u128) > 9_223_372_036_854_775_805u128 || !state.check_room(
            (draws.passes.len() as i64) + 2,
        ) {
            return Err(PreconditionError::CountersFull);
        }
        proof {
            self.lemma_decision_sound(
                self.build_up(old(state)@, minute as int, *draws),
                old(state)@.possession,
                *draws,
            );
        }
        let side = state.possession();
        self.run_build_up(state, minute, draws);
        let events = match self.decide(state, side, draws) {
            Ok(events) => events,
            Err(error) => {
                return Err(error);
            },
        };
        if draws.flip_roll < 350_000 {
            state.give_possession(state.possession().opponent());
        }
        state.update_zone();
        let phase = phase_for(&events, side);
        let commentary = self.build_commentary(state, &events, minute);
        Ok(
            SimulationTick {
                minute,
                phase,
                possession: state.possession(),
                zone: state.zone(),
                ball: state.ball(),
                events,
                score: state.score(),
                stats: state.stats(),
                commentary,
            },
        )
    }
}

/// The phase of a minute in which `side` had the ball at its start.
pub fn phase_for(events: &Vec<SimulationEvent>, side: Side) -> (phase: Phase)
    ensures
        phase == phase_of(event_views(events@), side),
{
    let ghost views = event_views(events@);
    let mut j: usize = 0;
    while j < events.len()
        invariant
            j <= events@.len(),
            views == event_views(events@),
            forall|k: int| 0 <= k < j ==> !(#[trigger] views[k]).event_type.is_attacking(),
        decreases events@.len() - j,
    {
        let kind = events[j].event_type;
        assert(views[j as int].event_type == kind);
        if kind == EventKind::Goal || kind == EventKind::ShotBlocked || kind == EventKind::Save {
            return Phase::Attack(side);
        }
        j += 1;
    }
    Phase::OpenPlay
}

} // verus!
