//! The match: two halves with injury time, a marker after each, and the
//! share of possession settled at the end.

use crate::discipline::dismissed_stay_out;
use crate::draws::{minutes_in_range, MatchDraws, MinuteDraws};
use crate::engine::{PreconditionError, SimulationEngine};
use crate::model::{
    goals_among, goals_in, goals_reported, home_ticks, tick_views, BallPosition, EventView,
    MatchStats, Phase, Score, Side, SimulationEvent, SimulationTick, TeamStats, TickView, Zone,
};
use crate::state::{centre_spot, on_pitch, zone_of, MatchState, MatchStateView};
use crate::text::{append_decimal, decimal_text};
use vstd::prelude::*;
use vstd::string::StringExecFns;

verus! {

/// The state that play has reached and the ticks reported so far, or the
/// reason why play stopped.
pub type Played = Result<(MatchStateView, Seq<TickView>), PreconditionError>;

/// `part` as a whole percentage of `whole`, halves rounded up.
pub open spec fn rounded_share(part: int, whole: int) -> int {
    (200 * part + whole) / (2 * whole)
}

/// The statistics with the share of possession settled: the home side's
/// share as given, the away side's the rest of the hundred.
pub open spec fn settled(stats: MatchStats, home_share: int) -> MatchStats {
    MatchStats {
        home: TeamStats { possession_pct: home_share as i64, ..stats.home },
        away: TeamStats { possession_pct: (100 - home_share) as i64, ..stats.away },
    }
}

/// The line that a marker tick carries: the opening, then the home team, its
/// goals, a dash, the away side's goals and the away team.
pub open spec fn score_line(opening: Seq<char>, home: Seq<char>, score: Score, away: Seq<char>) -> Seq<
    char,
> {
    opening + home + " "@ + decimal_text(score.home as int) + " - "@ + decimal_text(
        score.away as int,
    ) + " "@ + away
}

/// Whether a tick shows the ball on the pitch and in the zone that goes
/// with where the ball is and who has it.
pub open spec fn well_placed(tick: TickView) -> bool {
    on_pitch(tick.ball) && tick.zone == zone_of(tick.ball, tick.possession)
}

/// What holds of the ticks reported so far and the state that play has
/// reached: every tick shows as many goals for each side as the ticks up to
/// it report, and so does the state; no counter of a tick is above the same
/// counter of a later tick or of the state; no counter has grown by more
/// than eight for each tick; and every tick is well placed.
pub open spec fn record_holds(ticks: Seq<TickView>, s: MatchStateView) -> bool {
    &&& forall|k: int| 0 <= k < ticks.len() ==> well_placed(#[trigger] ticks[k])
    &&& forall|k: int|
        0 <= k < ticks.len() ==> (#[trigger] ticks[k]).score.home == goals_reported(
            ticks,
            Side::Home,
            k + 1,
        ) && ticks[k].score.away == goals_reported(ticks, Side::Away, k + 1)
    &&& s.score.home == goals_reported(ticks, Side::Home, ticks.len() as int)
    &&& s.score.away == goals_reported(ticks, Side::Away, ticks.len() as int)
    &&& forall|k: int|
        0 <= k < ticks.len() ==> (#[trigger] ticks[k]).stats.home.at_most(s.stats.home)
            && ticks[k].stats.away.at_most(s.stats.away)
    &&& forall|i: int, j: int|
        0 <= i <= j < ticks.len() ==> (#[trigger] ticks[i]).stats.home.at_most(
            (#[trigger] ticks[j]).stats.home,
        ) && ticks[i].stats.away.at_most(ticks[j].stats.away)
    &&& MatchStateView::kickoff().grown_within(s, 8 * ticks.len() as int)
}

/// Whether there is one tick for each minute and a marker after each half.
/// The minutes are numbered from 1 in the first half, which ran for `first`
/// minutes, and from 46 in the second, which ran for `second`; the markers
/// are reported as minutes 45 and 90, without events.
pub open spec fn laid_out(ticks: Seq<TickView>, first: int, second: int) -> bool {
    &&& ticks.len() == first + second + 2
    &&& forall|k: int|
        0 <= k < first ==> (#[trigger] ticks[k]).minute == k + 1 && ticks[k].phase
            != Phase::HalfTime && ticks[k].phase != Phase::FullTime
    &&& ticks[first].minute == 45
    &&& ticks[first].phase == Phase::HalfTime
    &&& ticks[first].events.len() == 0
    &&& forall|k: int|
        first < k <= first + second ==> (#[trigger] ticks[k]).minute == 45 + k - first
            && ticks[k].phase != Phase::HalfTime && ticks[k].phase != Phase::FullTime
    &&& ticks.last().minute == 90
    &&& ticks.last().phase == Phase::FullTime
    &&& ticks.last().events.len() == 0
}

/// Whether every tick shows as many goals for each side as the ticks up to
/// and including it report.
pub open spec fn scores_follow_goals(ticks: Seq<TickView>) -> bool {
    forall|k: int|
        0 <= k < ticks.len() ==> (#[trigger] ticks[k]).score.home == goals_reported(
            ticks,
            Side::Home,
            k + 1,
        ) && ticks[k].score.away == goals_reported(ticks, Side::Away, k + 1)
}

/// Whether no counter of a tick is above the same counter of a later tick.
/// The share of possession is no counter.
pub open spec fn counters_never_fall(ticks: Seq<TickView>) -> bool {
    forall|i: int, j: int|
        0 <= i <= j < ticks.len() ==> (#[trigger] ticks[i]).stats.home.at_most(
            (#[trigger] ticks[j]).stats.home,
        ) && ticks[i].stats.away.at_most(ticks[j].stats.away)
}

/// Whether the last tick shows the shares of possession: the home side's is
/// the share of all ticks that have the home side in possession, as a whole
/// percentage, and the two add up to a hundred.
pub open spec fn possession_settled(ticks: Seq<TickView>) -> bool {
    &&& ticks.last().stats.home.possession_pct == rounded_share(
        home_ticks(ticks, ticks.len() as int),
        ticks.len() as int,
    )
    &&& 0 <= ticks.last().stats.home.possession_pct <= 100
    &&& ticks.last().stats.home.possession_pct + ticks.last().stats.away.possession_pct == 100
}

/// Whether every tick is well placed.
pub open spec fn all_well_placed(ticks: Seq<TickView>) -> bool {
    forall|k: int| 0 <= k < ticks.len() ==> well_placed(#[trigger] ticks[k])
}

/// What holds of the ticks of every match, whose halves ran for `first` and
/// `second` minutes.
pub open spec fn lawful_record(ticks: Seq<TickView>, first: int, second: int) -> bool {
    &&& laid_out(ticks, first, second)
    &&& all_well_placed(ticks)
    &&& scores_follow_goals(ticks)
    &&& counters_never_fall(ticks)
    &&& possession_settled(ticks)
}

/// How many of the first `n` ticks have the home side in possession
/// depends on the possession of those ticks alone, and is at most `n`.
pub proof fn lemma_home_ticks(a: Seq<TickView>, b: Seq<TickView>, n: int)
    requires
        0 <= n <= a.len(),
        n <= b.len(),
        forall|k: int| 0 <= k < n ==> a[k].possession == b[k].possession,
    ensures
        home_ticks(a, n) == home_ticks(b, n),
        0 <= home_ticks(a, n) <= n,
    decreases n,
{
    if n > 0 {
        lemma_home_ticks(a, b, n - 1);
    }
}

/// A share of a whole is a percentage.
pub proof fn lemma_rounded_share(part: int, whole: int)
    requires
        0 <= part <= whole,
        0 < whole,
    ensures
        0 <= rounded_share(part, whole) <= 100,
{
    assert(0 <= (200 * part + whole) / (2 * whole) <= 100) by (nonlinear_arith)
        requires
            0 <= part <= whole,
            0 < whole,
    ;
}

/// The record still holds when a tick is added that shows the state that
/// play has moved on to.
pub proof fn lemma_record_push(
    ticks: Seq<TickView>,
    s: MatchStateView,
    after: MatchStateView,
    tick: TickView,
)
    requires
        record_holds(ticks, s),
        s.grown_within(after, 8),
        after.score.home == s.score.home + goals_in(tick.events, Side::Home),
        after.score.away == s.score.away + goals_in(tick.events, Side::Away),
        tick.score == after.score,
        tick.stats == after.stats,
        well_placed(tick),
    ensures
        record_holds(ticks.push(tick), after),
{
    let longer = ticks.push(tick);
    assert forall|k: int| 0 <= k <= ticks.len() implies goals_reported(longer, Side::Home, k)
        == goals_reported(ticks, Side::Home, k) && goals_reported(longer, Side::Away, k)
        == goals_reported(ticks, Side::Away, k) by {
        lemma_goals_reported_same_events(longer, ticks, Side::Home, k);
        lemma_goals_reported_same_events(longer, ticks, Side::Away, k);
    }
}

impl SimulationEngine {
    /// Play after the first `n` of the given minutes, the first of which is
    /// minute `first`, from state `s` with `ticks` reported before.
    pub open spec fn half_outcome(
        &self,
        s: MatchStateView,
        ticks: Seq<TickView>,
        first: int,
        minutes: Seq<MinuteDraws>,
        n: int,
    ) -> Played
        decreases n,
    {
        if n <= 0 {
            Ok((s, ticks))
        } else {
            match self.half_outcome(s, ticks, first, minutes, n - 1) {
                Err(error) => Err(error),
                Ok((before, reported)) => match self.minute_outcome(
                    before,
                    first + n - 1,
                    minutes[n - 1],
                ) {
                    Err(error) => Err(error),
                    Ok((after, tick)) => Ok((after, reported.push(tick))),
                },
            }
        }
    }

    /// What holds of a half that is played to its end: the record holds on,
    /// the ticks reported before are still there, one tick has been added
    /// for each minute, numbered from `first`, and nobody is less tired
    /// than before.
    pub proof fn lemma_half_sound(
        &self,
        s: MatchStateView,
        ticks: Seq<TickView>,
        first: int,
        minutes: Seq<MinuteDraws>,
        n: int,
    )
        requires
            s.wf(),
            record_holds(ticks, s),
            0 <= n <= minutes.len(),
            minutes_in_range(minutes),
            ticks.len() + n <= 1_000,
        ensures
            match self.half_outcome(s, ticks, first, minutes, n) {
                Ok((after, reported)) => {
                    &&& after.wf()
                    &&& record_holds(reported, after)
                    &&& reported.len() == ticks.len() + n
                    &&& forall|k: int| 0 <= k < ticks.len() ==> reported[k] == ticks[k]
                    &&& forall|k: int|
                        ticks.len() <= k < reported.len() ==> (#[trigger] reported[k]).minute
                            == first + k - ticks.len() && reported[k].phase != Phase::HalfTime
                            && reported[k].phase != Phase::FullTime
                    &&& forall|id: i64| s.fatigue_of(id) <= #[trigger] after.fatigue_of(id)
                    &&& forall|id: i64| s.is_sent_off(id) ==> #[trigger] after.is_sent_off(id)
                },
                Err(error) => error.is_lack_of_players(),
            },
        decreases n,
    {
        if n > 0 {
            self.lemma_half_sound(s, ticks, first, minutes, n - 1);
            match self.half_outcome(s, ticks, first, minutes, n - 1) {
                Ok((before, reported)) => {
                    self.lemma_minute_sound(before, first + n - 1, minutes[n - 1]);
                    self.lemma_minute_fails(before, first + n - 1, minutes[n - 1]);
                    match self.minute_outcome(before, first + n - 1, minutes[n - 1]) {
                        Ok((after, tick)) => {
                            lemma_record_push(reported, before, after, tick);
                        },
                        Err(_) => {},
                    }
                },
                Err(_) => {},
            }
        }
    }

    /// The tick that marks the end of a half: no events, the ball on the
    /// centre spot, and the score in words.
    pub open spec fn marker_tick(
        &self,
        s: MatchStateView,
        minute: int,
        phase: Phase,
        opening: Seq<char>,
    ) -> TickView {
        TickView {
            minute,
            phase,
            possession: s.possession,
            zone: Zone::Mid,
            ball: centre_spot(),
            events: Seq::empty(),
            score: s.score,
            stats: s.stats,
            commentary: score_line(
                opening,
                self.team(Side::Home).name@,
                s.score,
                self.team(Side::Away).name@,
            ),
        }
    }

    /// Play up to and including the half-time marker. The first half kicks
    /// off at the centre spot with the home side in possession and starts
    /// with minute 1; its marker is reported as minute 45.
    pub open spec fn first_half_outcome(&self, d: MatchDraws) -> Played {
        match self.half_outcome(
            MatchStateView::kickoff(),
            Seq::empty(),
            1,
            d.first_half@,
            d.first_half@.len() as int,
        ) {
            Err(error) => Err(error),
            Ok((s, ticks)) => Ok(
                (s, ticks.push(self.marker_tick(s, 45, Phase::HalfTime, "Half time! "@))),
            ),
        }
    }

    /// Play up to and including the full-time marker, the share of
    /// possession not yet settled. The second half kicks off at the centre
    /// spot with the away side in possession and starts with minute 46; its
    /// marker is reported as minute 90.
    pub open spec fn full_time_outcome(&self, d: MatchDraws) -> Played {
        match self.first_half_outcome(d) {
            Err(error) => Err(error),
            Ok((s, ticks)) => match self.half_outcome(
                MatchStateView { ball: centre_spot(), possession: Side::Away, ..s },
                ticks,
                46,
                d.second_half@,
                d.second_half@.len() as int,
            ) {
                Err(error) => Err(error),
                Ok((end, reported)) => Ok(
                    (
                        end,
                        reported.push(self.marker_tick(end, 90, Phase::FullTime, "Full time! "@)),
                    ),
                ),
            },
        }
    }

    /// The ticks of a whole match. The last tick shows the share of
    /// possession: the home side's share is the share of all ticks, markers
    /// included, that have the home side in possession.
    pub open spec fn match_outcome(&self, d: MatchDraws) -> Result<Seq<TickView>, PreconditionError> {
        match self.full_time_outcome(d) {
            Err(error) => Err(error),
            Ok((end, ticks)) => {
                let share = rounded_share(
                    home_ticks(ticks, ticks.len() as int),
                    ticks.len() as int,
                );
                Ok(
                    ticks.update(
                        ticks.len() - 1,
                        TickView { stats: settled(end.stats, share), ..ticks.last() },
                    ),
                )
            },
        }
    }
}

impl SimulationEngine {
    /// Every match that is played to its end leaves a lawful record, and
    /// no match stops but for want of players.
    pub proof fn lemma_match_sound(&self, d: MatchDraws)
        requires
            d.in_range(),
        ensures
            match self.match_outcome(d) {
                Ok(ticks) => lawful_record(
                    ticks,
                    d.first_half@.len() as int,
                    d.second_half@.len() as int,
                ),
                Err(error) => error.is_lack_of_players(),
            },
    {
        let first = d.first_half@.len() as int;
        let second = d.second_half@.len() as int;
        let kickoff = MatchStateView::kickoff();
        self.lemma_half_sound(kickoff, Seq::empty(), 1, d.first_half@, first);
        match self.half_outcome(kickoff, Seq::empty(), 1, d.first_half@, first) {
            Ok((s, played)) => {
                let half_time = self.marker_tick(s, 45, Phase::HalfTime, "Half time! "@);
                let ticks = played.push(half_time);
                lemma_record_push(played, s, s, half_time);
                let restart = MatchStateView { ball: centre_spot(), possession: Side::Away, ..s };
                self.lemma_half_sound(restart, ticks, 46, d.second_half@, second);
                match self.half_outcome(restart, ticks, 46, d.second_half@, second) {
                    Ok((end, reported)) => {
                        let full_time = self.marker_tick(end, 90, Phase::FullTime, "Full time! "@);
                        let all = reported.push(full_time);
                        lemma_record_push(reported, end, end, full_time);
                        let share = rounded_share(home_ticks(all, all.len() as int), all.len() as int);
                        lemma_home_ticks(all, all, all.len() as int);
                        lemma_rounded_share(home_ticks(all, all.len() as int), all.len() as int);
                        let last = TickView { stats: settled(end.stats, share), ..full_time };
                        let out = all.update(all.len() - 1, last);
                        lemma_home_ticks(out, all, all.len() as int);
                        assert forall|k: int| 0 <= k <= out.len() implies goals_reported(
                            out,
                            Side::Home,
                            k,
                        ) == goals_reported(all, Side::Home, k) && goals_reported(
                            out,
                            Side::Away,
                            k,
                        ) == goals_reported(all, Side::Away, k) by {
                            lemma_goals_reported_same_events(out, all, Side::Home, k);
                            lemma_goals_reported_same_events(out, all, Side::Away, k);
                        }
                    },
                    Err(_) => {},
                }
            },
            Err(_) => {},
        }
    }
}

/// The goals that the first `n` ticks report depend on the events of those
/// ticks alone.
pub proof fn lemma_goals_reported_same_events(
    a: Seq<TickView>,
    b: Seq<TickView>,
    side: Side,
    n: int,
)
    requires
        n <= a.len(),
        n <= b.len(),
        forall|k: int| 0 <= k < n ==> a[k].events == b[k].events,
    ensures
        goals_reported(a, side, n) == goals_reported(b, side, n),
    decreases n,
{
    if n > 0 {
        lemma_goals_reported_same_events(a, b, side, n - 1);
    }
}

/// The home side's share of possession over the ticks given and one more
/// tick with `last` in possession, as a whole percentage.
pub fn home_share(ticks: &Vec<SimulationTick>, last: Side) -> (share: u64)
    ensures
        share == rounded_share(
            home_ticks(tick_views(ticks@), ticks@.len() as int) + if last == Side::Home {
                1int
            } else {
                0int
            },
            ticks@.len() as int + 1,
        ),
        share <= 100,
{
    let ghost views = tick_views(ticks@);
    let mut home: u128 = 0;
    let mut i: usize = 0;
    while i < ticks.len()
        invariant
            i <= ticks@.len(),
            views == tick_views(ticks@),
            home == home_ticks(views, i as int),
            home <= i,
        decreases ticks@.len() - i,
    {
        if ticks[i].possession == Side::Home {
            home = home + 1;
        }
        i += 1;
    }
    if last == Side::Home {
        home = home + 1;
    }
    let total: u128 = (ticks.len() as u128) + 1;
    proof {
        lemma_rounded_share(home as int, total as int);
    }
    ((200 * home + total) / (2 * total)) as u64
}

/// Whether what a run returned is what `outcome` says: on success the
/// ticks are those of the outcome, on failure the error is.
pub open spec fn played_as(
    outcome: Result<Seq<TickView>, PreconditionError>,
    result: Result<Vec<SimulationTick>, PreconditionError>,
) -> bool {
    match outcome {
        Ok(ticks) => result.is_ok() && tick_views(result.unwrap()@) == ticks
            && result.unwrap()@.len() == ticks.len(),
        Err(error) => result == Err::<Vec<SimulationTick>, PreconditionError>(error),
    }
}

impl SimulationEngine {
    /// Once play has stopped it stays stopped, for the same reason.
    pub proof fn lemma_half_stops(
        &self,
        s: MatchStateView,
        ticks: Seq<TickView>,
        first: int,
        minutes: Seq<MinuteDraws>,
        n: int,
        m: int,
    )
        requires
            0 <= n <= m,
            self.half_outcome(s, ticks, first, minutes, n).is_err(),
        ensures
            self.half_outcome(s, ticks, first, minutes, m) == self.half_outcome(
                s,
                ticks,
                first,
                minutes,
                n,
            ),
        decreases m,
    {
        if m > n {
            self.lemma_half_stops(s, ticks, first, minutes, n, m - 1);
        }
    }

    fn marker(
        &self,
        state: &MatchState,
        minute: i64,
        phase: Phase,
        opening: &str,
        stats: MatchStats,
    ) -> (tick: SimulationTick)
        ensures
            tick@ == (TickView {
                stats,
                ..self.marker_tick(state@, minute as int, phase, opening@)
            }),
    {
        let score = state.score();
        let mut commentary = String::from_str(opening);
        commentary.append(self.team_name(Side::Home).as_str());
        commentary.append(" ");
        append_decimal(&mut commentary, score.home);
        commentary.append(" - ");
        append_decimal(&mut commentary, score.away);
        commentary.append(" ");
        commentary.append(self.team_name(Side::Away).as_str());
        let events: Vec<SimulationEvent> = Vec::new();
        let tick = SimulationTick {
            minute,
            phase,
            possession: state.possession(),
            zone: Zone::Mid,
            ball: BallPosition { x: 50_000, y: 34_000 },
            events,
            score,
            stats,
            commentary,
        };
        assert(tick@.events =~= Seq::<EventView>::empty());
        tick
    }

    fn play_half(
        &self,
        state: &mut MatchState,
        ticks: &mut Vec<SimulationTick>,
        first: i64,
        minutes: &Vec<MinuteDraws>,
    ) -> (result: Result<(), PreconditionError>)
        requires
            self.wf(),
            old(state)@.wf(),
            minutes@.len() <= 1_000,
            0 <= first <= 1_000,
        ensures
            match self.half_outcome(
                old(state)@,
                tick_views(old(ticks)@),
                first as int,
                minutes@,
                minutes@.len() as int,
            ) {
                Ok((after, reported)) => result.is_ok() && final(state)@ == after && tick_views(
                    final(ticks)@,
                ) == reported,
                Err(error) => result == Err::<(), PreconditionError>(error),
            },
    {
        let ghost begun = state@;
        let ghost before = tick_views(ticks@);
        let mut i: usize = 0;
        while i < minutes.len()
            invariant
                self.wf(),
                begun == old(state)@,
                before == tick_views(old(ticks)@),
                minutes@.len() <= 1_000,
                0 <= first <= 1_000,
                i <= minutes@.len(),
                state@.wf(),
                self.half_outcome(begun, before, first as int, minutes@, i as int) == Ok::<
                    (MatchStateView, Seq<TickView>),
                    PreconditionError,
                >((state@, tick_views(ticks@))),
            decreases minutes@.len() - i,
        {
            let minute: i64 = first + (i as i64);
            let ghost reported = tick_views(ticks@);
            match self.simulate_minute(state, minute, &minutes[i]) {
                Ok(tick) => {
                    ticks.push(tick);
                    assert(tick_views(ticks@) =~= reported.push(tick@));
                },
                Err(error) => {
                    proof {
                        self.lemma_half_stops(
                            begun,
                            before,
                            first as int,
                            minutes@,
                            i + 1,
                            minutes@.len() as int,
                        );
                    }
                    return Err(error);
                },
            }
            i += 1;
        }
        Ok(())
    }

    fn play_first_half(&self, draws: &MatchDraws) -> (result: Result<
        (MatchState, Vec<SimulationTick>),
        PreconditionError,
    >)
        requires
            self.wf(),
            draws.in_range(),
        ensures
            match self.first_half_outcome(*draws) {
                Ok((s, reported)) => result.is_ok() && result.unwrap().0@ == s && tick_views(
                    result.unwrap().1@,
                ) == reported && s.wf() && record_holds(reported, s) && reported.len()
                    == draws.first_half@.len() + 1,
                Err(error) => result == Err::<(MatchState, Vec<SimulationTick>), PreconditionError>(
                    error,
                ),
            },
    {
        let mut state = MatchState::kickoff();
        let mut ticks: Vec<SimulationTick> = Vec::new();
        assert(tick_views(ticks@) =~= Seq::<TickView>::empty());
        match self.play_half(&mut state, &mut ticks, 1, &draws.first_half) {
            Ok(()) => {},
            Err(error) => {
                return Err(error);
            },
        }
        proof {
            self.lemma_half_sound(
                MatchStateView::kickoff(),
                Seq::empty(),
                1,
                draws.first_half@,
                draws.first_half@.len() as int,
            );
        }
        let ghost played = tick_views(ticks@);
        let half_time = self.marker(&state, 45, Phase::HalfTime, "Half time! ", state.stats());
        proof {
            lemma_record_push(played, state@, state@, half_time@);
        }
        ticks.push(half_time);
        Ok((state, ticks))
    }

    fn play_second_half(
        &self,
        state: &mut MatchState,
        ticks: &mut Vec<SimulationTick>,
        draws: &MatchDraws,
    ) -> (result: Result<(), PreconditionError>)
        requires
            self.wf(),
            draws.in_range(),
            old(state)@.wf(),
            record_holds(tick_views(old(ticks)@), old(state)@),
            old(ticks)@.len() <= 100,
        ensures
            match self.half_outcome(
                MatchStateView {
                    ball: centre_spot(),
                    possession: Side::Away,
                    ..old(state)@
                },
                tick_views(old(ticks)@),
                46,
                draws.second_half@,
                draws.second_half@.len() as int,
            ) {
                Ok((end, reported)) => result.is_ok() && final(state)@ == end && tick_views(
                    final(ticks)@,
                ) == reported && reported.len() == old(ticks)@.len() + draws.second_half@.len(),
                Err(error) => result == Err::<(), PreconditionError>(error),
            },
    {
        state.centre_ball();
        state.give_possession(Side::Away);
        proof {
            self.lemma_half_sound(
                state@,
                tick_views(ticks@),
                46,
                draws.second_half@,
                draws.second_half@.len() as int,
            );
        }
        self.play_half(state, ticks, 46, &draws.second_half)
    }

    /// Plays a whole match on the chance handed in, from kick-off to the
    /// full-time marker.
    ///
    /// The match fails where a player is to be chosen from a side whose
    /// every starter has been sent off, and for no other reason.
    pub fn play_match(&self, draws: &MatchDraws) -> (result: Result<
        Vec<SimulationTick>,
        PreconditionError,
    >)
        requires
            self.wf(),
            draws.in_range(),
        ensures
            played_as(self.match_outcome(*draws), result),
            result.is_ok() ==> lawful_record(
                tick_views(result.unwrap()@),
                draws.first_half@.len() as int,
                draws.second_half@.len() as int,
            ),
            result.is_err() ==> result.unwrap_err().is_lack_of_players(),
            result.is_ok() && self.names_tell_players_apart() ==> dismissed_stay_out(
                tick_views(result.unwrap()@),
            ),
    {
        proof {
            self.lemma_match_sound(*draws);
            if self.names_tell_players_apart() {
                self.lemma_match_discipline(*draws);
            }
        }
        let (mut state, mut ticks) = match self.play_first_half(draws) {
            Ok(begun) => begun,
            Err(error) => {
                return Err(error);
            },
        };
        match self.play_second_half(&mut state, &mut ticks, draws) {
            Ok(()) => {},
            Err(error) => {
                return Err(error);
            },
        }
        let ghost reported = tick_views(ticks@);
        let ghost full_time = self.marker_tick(state@, 90, Phase::FullTime, "Full time! "@);
        let ghost all = reported.push(full_time);
        let share: u64 = home_share(&ticks, state.possession());
        proof {
            lemma_home_ticks(all, reported, reported.len() as int);
        }
        let stats = state.stats();
        let final_stats = MatchStats {
            home: TeamStats { possession_pct: share as i64, ..stats.home },
            away: TeamStats { possession_pct: 100 - (share as i64), ..stats.away },
        };
        let last = self.marker(&state, 90, Phase::FullTime, "Full time! ", final_stats);
        ticks.push(last);
        assert(tick_views(ticks@) =~= all.update(all.len() - 1, last@));
        Ok(ticks)
    }

    /// Simulates the match on chance drawn from the engine's seed.
    ///
    /// Whatever is drawn, the result is that of [`Self::play_match`] on
    /// draws that a match can draw: between one and four minutes of injury
    /// time in the first half, between one and five in the second.
    pub fn simulate(&self) -> (result: Result<Vec<SimulationTick>, PreconditionError>)
        requires
            self.wf(),
        ensures
            exists|draws: MatchDraws|
                draws.in_range() && #[trigger] played_as(self.match_outcome(draws), result),
            result.is_ok() ==> exists|first_injury: int, second_injury: int|
                1 <= first_injury <= 4 && 1 <= second_injury <= 5 && #[trigger] lawful_record(
                    tick_views(result.unwrap()@),
                    45 + first_injury,
                    45 + second_injury,
                ),
            result.is_err() ==> result.unwrap_err().is_lack_of_players(),
            result.is_ok() && self.names_tell_players_apart() ==> dismissed_stay_out(
                tick_views(result.unwrap()@),
            ),
    {
        let draws = MatchDraws::random(self.seed_value());
        let result = self.play_match(&draws);
        proof {
            if result.is_ok() {
                assert(lawful_record(
                    tick_views(result.unwrap()@),
                    45 + (draws.first_half@.len() - 45),
                    45 + (draws.second_half@.len() - 45),
                ));
            }
        }
        result
    }
}

} // verus!
