//! Dismissal over a whole match: whoever has been sent off takes no further
//! part.
//!
//! Events name players, the state knows them by number. What is said here
//! of names therefore holds for squads whose names tell their starters
//! apart. A save is credited to the goalkeeper of the squad whether or not
//! the goalkeeper is still on the pitch, so saves are left aside.

use crate::draws::{FoulDraws, MatchDraws, MinuteDraws, ShotDraws};
use crate::engine::{SimulationEngine, STARTERS};
use crate::model::{EventKind, EventView, Phase, Side, TickView};
use crate::skills::Skill;
use crate::state::{centre_spot, MatchStateView};
use vstd::prelude::*;

verus! {

/// Whether an event sends its first player off.
pub open spec fn is_dismissal(event: EventView) -> bool {
    event.event_type == EventKind::SecondYellow || event.event_type == EventKind::RedCard
}

/// Whether nobody named by a dismissal is the first player of an event of
/// a later tick, saves apart.
pub open spec fn dismissed_stay_out(ticks: Seq<TickView>) -> bool {
    forall|i: int, k: int, j: int, l: int|
        0 <= i < j < ticks.len() && 0 <= k < ticks[i].events.len() && 0 <= l
            < ticks[j].events.len() && is_dismissal(#[trigger] ticks[i].events[k]) && (
        #[trigger] ticks[j].events[l]).event_type != EventKind::Save
            ==> ticks[j].events[l].primary_player != ticks[i].events[k].primary_player
}

impl SimulationEngine {
    /// Whether starters of the same name are the same player.
    pub open spec fn names_tell_players_apart(&self) -> bool {
        forall|a: Side, i: int, b: Side, j: int|
            0 <= i < STARTERS && 0 <= j < STARTERS && #[trigger] self.name_of(a, i)
                == #[trigger] self.name_of(b, j) ==> self.players(a)[i].id
                == self.players(b)[j].id
    }

    /// Whether a starter of this name is still on the pitch.
    pub open spec fn on_pitch_by_name(&self, s: MatchStateView, name: Seq<char>) -> bool {
        exists|a: Side, i: int|
            0 <= i < STARTERS && (#[trigger] self.name_of(a, i)) == name && !s.is_sent_off(
                self.players(a)[i].id,
            )
    }

    /// Whether every starter of this name has been sent off.
    pub open spec fn off_by_name(&self, s: MatchStateView, name: Seq<char>) -> bool {
        forall|a: Side, i: int|
            0 <= i < STARTERS && (#[trigger] self.name_of(a, i)) == name ==> s.is_sent_off(
                self.players(a)[i].id,
            )
    }

    /// Whether the events of a passage of play are fair to the dismissed:
    /// whoever an event names first, saves apart, was on the pitch before,
    /// and whoever a dismissal names is off afterwards.
    pub open spec fn events_fair(
        &self,
        before: MatchStateView,
        after: MatchStateView,
        events: Seq<EventView>,
    ) -> bool {
        &&& forall|k: int|
            0 <= k < events.len() && (#[trigger] events[k]).event_type != EventKind::Save
                && events[k].primary_player.is_some() ==> self.on_pitch_by_name(
                before,
                events[k].primary_player.unwrap(),
            )
        &&& forall|k: int|
            0 <= k < events.len() && is_dismissal(#[trigger] events[k])
                ==> events[k].primary_player.is_some() && self.off_by_name(
                after,
                events[k].primary_player.unwrap(),
            )
    }

    /// What holds of the ticks reported so far and the state that play has
    /// reached: the dismissed have stayed out, and whoever a dismissal
    /// names is off.
    pub open spec fn discipline_holds(&self, ticks: Seq<TickView>, s: MatchStateView) -> bool {
        &&& dismissed_stay_out(ticks)
        &&& forall|i: int, k: int|
            0 <= i < ticks.len() && 0 <= k < ticks[i].events.len() && is_dismissal(
                #[trigger] ticks[i].events[k],
            ) ==> ticks[i].events[k].primary_player.is_some() && self.off_by_name(
                s,
                ticks[i].events[k].primary_player.unwrap(),
            )
    }

    /// A starter who is on the pitch is on the pitch by name.
    pub proof fn lemma_on_pitch_by_name(&self, s: MatchStateView, side: Side, slot: int)
        requires
            0 <= slot < STARTERS,
            !s.is_sent_off(self.players(side)[slot].id),
        ensures
            self.on_pitch_by_name(s, self.name_of(side, slot)),
    {
    }

    /// Where names tell players apart, a starter who is off is off by name.
    pub proof fn lemma_off_by_name(&self, s: MatchStateView, side: Side, slot: int)
        requires
            self.names_tell_players_apart(),
            0 <= slot < STARTERS,
            s.is_sent_off(self.players(side)[slot].id),
        ensures
            self.off_by_name(s, self.name_of(side, slot)),
    {
        let name = self.name_of(side, slot);
        assert forall|a: Side, i: int|
            0 <= i < STARTERS && (#[trigger] self.name_of(a, i)) == name implies s.is_sent_off(
            self.players(a)[i].id,
        ) by {
            assert(self.name_of(a, i) == self.name_of(side, slot));
        }
    }

    /// The events of a shot are fair to the dismissed.
    pub proof fn lemma_shot_fair(&self, s: MatchStateView, side: Side, d: ShotDraws)
        requires
            self.wf(),
        ensures
            match self.shot_outcome(s, side, d) {
                Ok((after, events)) => self.events_fair(s, after, events) && after.sent_off
                    == s.sent_off,
                Err(_) => true,
            },
    {
        if self.shot_outcome(s, side, d).is_ok() {
            self.lemma_actors_on_pitch(s, side, Skill::Finishing, d.shooter_roll, 0);
            let slot = self.weighted_choice(s, side, Skill::Finishing, d.shooter_roll).unwrap();
            self.lemma_on_pitch_by_name(s, side, slot);
        }
    }

    /// The events of a foul are fair to the dismissed.
    pub proof fn lemma_foul_fair(&self, s: MatchStateView, side: Side, d: FoulDraws)
        requires
            self.wf(),
            self.names_tell_players_apart(),
        ensures
            match self.foul_outcome(s, side, d) {
                Ok((after, events)) => self.events_fair(s, after, events),
                Err(_) => true,
            },
    {
        if self.foul_outcome(s, side, d).is_ok() {
            let team = side.other();
            self.lemma_cards_at_a_foul(s, side, d);
            let slot = self.weighted_choice(s, team, Skill::Aggression, d.fouler_roll).unwrap();
            let (after, events) = self.foul_outcome(s, side, d).unwrap();
            self.lemma_on_pitch_by_name(s, team, slot);
            if after.is_sent_off(self.players(team)[slot].id) {
                self.lemma_off_by_name(after, team, slot);
            }
        }
    }

    /// The event of a tackle is fair to the dismissed.
    pub proof fn lemma_tackle_fair(&self, s: MatchStateView, side: Side, roll: u32)
        requires
            self.wf(),
        ensures
            match self.tackle_outcome(s, side, roll) {
                Ok((after, events)) => self.events_fair(s, after, events) && after.sent_off
                    == s.sent_off,
                Err(_) => true,
            },
    {
        if self.tackle_outcome(s, side, roll).is_ok() {
            self.lemma_actors_on_pitch(s, side.other(), Skill::Tackling, roll, 0);
            let slot = self.weighted_choice(s, side.other(), Skill::Tackling, roll).unwrap();
            self.lemma_on_pitch_by_name(s, side.other(), slot);
        }
    }

    /// The events of a minute are fair to the dismissed.
    pub proof fn lemma_minute_fair(&self, s: MatchStateView, minute: int, d: MinuteDraws)
        requires
            self.wf(),
            self.names_tell_players_apart(),
            s.wf(),
        ensures
            match self.minute_outcome(s, minute, d) {
                Ok((after, tick)) => self.events_fair(s, after, tick.events),
                Err(_) => true,
            },
    {
        reveal(SimulationEngine::minute_outcome);
        let built = self.build_up(s, minute, d);
        self.lemma_build_up_sound(s, minute, d);
        self.lemma_shot_fair(built, s.possession, d.shot);
        self.lemma_foul_fair(built, s.possession, d.foul);
        self.lemma_tackle_fair(built, s.possession, d.tackler_roll);
        match self.minute_outcome(s, minute, d) {
            Ok((after, tick)) => {
                let decided = self.decision_outcome(built, s.possession, d).unwrap().0;
                assert(self.events_fair(built, decided, tick.events));
                self.lemma_fair_on_same_standing(built, s, decided, after, tick.events);
            },
            Err(_) => {},
        }
    }

    /// Fairness to the dismissed depends on who is off alone.
    pub proof fn lemma_fair_on_same_standing(
        &self,
        before: MatchStateView,
        same_before: MatchStateView,
        after: MatchStateView,
        same_after: MatchStateView,
        events: Seq<EventView>,
    )
        requires
            self.events_fair(before, after, events),
            before.sent_off == same_before.sent_off,
            after.sent_off == same_after.sent_off,
        ensures
            self.events_fair(same_before, same_after, events),
    {
        assert forall|k: int|
            0 <= k < events.len() && (#[trigger] events[k]).event_type != EventKind::Save
                && events[k].primary_player.is_some() implies self.on_pitch_by_name(
            same_before,
            events[k].primary_player.unwrap(),
        ) by {
            let name = events[k].primary_player.unwrap();
            assert(self.on_pitch_by_name(before, name));
            let (a, i) = choose|a: Side, i: int|
                0 <= i < STARTERS && (#[trigger] self.name_of(a, i)) == name
                    && !before.is_sent_off(self.players(a)[i].id);
            assert(!same_before.is_sent_off(self.players(a)[i].id));
        }
        assert forall|k: int| 0 <= k < events.len() && is_dismissal(#[trigger] events[k])
            implies events[k].primary_player.is_some() && self.off_by_name(
            same_after,
            events[k].primary_player.unwrap(),
        ) by {
            let name = events[k].primary_player.unwrap();
            assert(self.off_by_name(after, name));
            assert forall|a: Side, i: int|
                0 <= i < STARTERS && (#[trigger] self.name_of(a, i))
                    == name implies same_after.is_sent_off(self.players(a)[i].id) by {
                assert(after.is_sent_off(self.players(a)[i].id));
            }
        }
    }

    /// Discipline holds on when a tick is added whose events are fair to
    /// the dismissed and nobody who was off is back.
    pub proof fn lemma_discipline_push(
        &self,
        ticks: Seq<TickView>,
        s: MatchStateView,
        after: MatchStateView,
        tick: TickView,
    )
        requires
            self.discipline_holds(ticks, s),
            self.events_fair(s, after, tick.events),
            forall|id: i64| s.is_sent_off(id) ==> #[trigger] after.is_sent_off(id),
        ensures
            self.discipline_holds(ticks.push(tick), after),
    {
        let longer = ticks.push(tick);
        assert forall|i: int, k: int|
            0 <= i < longer.len() && 0 <= k < longer[i].events.len() && is_dismissal(
                #[trigger] longer[i].events[k],
            ) implies longer[i].events[k].primary_player.is_some() && self.off_by_name(
            after,
            longer[i].events[k].primary_player.unwrap(),
        ) by {
            if i < ticks.len() {
                assert(longer[i] == ticks[i]);
                let name = ticks[i].events[k].primary_player.unwrap();
                assert(self.off_by_name(s, name));
                assert forall|a: Side, n: int|
                    0 <= n < STARTERS && (#[trigger] self.name_of(a, n))
                        == name implies after.is_sent_off(self.players(a)[n].id) by {
                    assert(s.is_sent_off(self.players(a)[n].id));
                }
            } else {
                assert(longer[i] == tick);
            }
        }
        assert forall|i: int, k: int, j: int, l: int|
            0 <= i < j < longer.len() && 0 <= k < longer[i].events.len() && 0 <= l
                < longer[j].events.len() && is_dismissal(#[trigger] longer[i].events[k]) && (
            #[trigger] longer[j].events[l]).event_type
                != EventKind::Save implies longer[j].events[l].primary_player
            != longer[i].events[k].primary_player by {
            assert(longer[i] == ticks[i]);
            if j < ticks.len() {
                assert(longer[j] == ticks[j]);
            } else {
                assert(longer[j] == tick);
                let name = ticks[i].events[k].primary_player.unwrap();
                assert(self.off_by_name(s, name));
                if tick.events[l].primary_player == Some(name) {
                    assert(self.on_pitch_by_name(s, name));
                    let (a, n) = choose|a: Side, n: int|
                        0 <= n < STARTERS && (#[trigger] self.name_of(a, n)) == name
                            && !s.is_sent_off(self.players(a)[n].id);
                    assert(s.is_sent_off(self.players(a)[n].id));
                }
            }
        }
    }

    /// Discipline holds over a half.
    pub proof fn lemma_half_discipline(
        &self,
        s: MatchStateView,
        ticks: Seq<TickView>,
        first: int,
        minutes: Seq<MinuteDraws>,
        n: int,
    )
        requires
            self.wf(),
            self.names_tell_players_apart(),
            s.wf(),
            self.discipline_holds(ticks, s),
            0 <= n <= minutes.len(),
        ensures
            match self.half_outcome(s, ticks, first, minutes, n) {
                Ok((after, reported)) => after.wf() && self.discipline_holds(reported, after),
                Err(_) => true,
            },
        decreases n,
    {
        if n > 0 {
            self.lemma_half_discipline(s, ticks, first, minutes, n - 1);
            match self.half_outcome(s, ticks, first, minutes, n - 1) {
                Ok((before, reported)) => {
                    self.lemma_minute_sound(before, first + n - 1, minutes[n - 1]);
                    self.lemma_minute_fair(before, first + n - 1, minutes[n - 1]);
                    match self.minute_outcome(before, first + n - 1, minutes[n - 1]) {
                        Ok((after, tick)) => {
                            self.lemma_discipline_push(reported, before, after, tick);
                        },
                        Err(_) => {},
                    }
                },
                Err(_) => {},
            }
        }
    }

    /// Over a whole match of squads whose names tell their starters apart,
    /// nobody named by a dismissal is the first player of an event of a
    /// later tick, saves apart.
    pub proof fn lemma_match_discipline(&self, d: MatchDraws)
        requires
            self.wf(),
            self.names_tell_players_apart(),
        ensures
            match self.match_outcome(d) {
                Ok(ticks) => dismissed_stay_out(ticks),
                Err(_) => true,
            },
    {
        let first = d.first_half@.len() as int;
        let second = d.second_half@.len() as int;
        let kickoff = MatchStateView::kickoff();
        self.lemma_half_discipline(kickoff, Seq::empty(), 1, d.first_half@, first);
        match self.half_outcome(kickoff, Seq::empty(), 1, d.first_half@, first) {
            Ok((s, played)) => {
                let half_time = self.marker_tick(s, 45, Phase::HalfTime, "Half time! "@);
                self.lemma_discipline_push(played, s, s, half_time);
                let ticks = played.push(half_time);
                let restart = MatchStateView { ball: centre_spot(), possession: Side::Away, ..s };
                self.lemma_discipline_same_standing(ticks, s, restart);
                self.lemma_half_discipline(restart, ticks, 46, d.second_half@, second);
                match self.half_outcome(restart, ticks, 46, d.second_half@, second) {
                    Ok((end, reported)) => {
                        let full_time = self.marker_tick(end, 90, Phase::FullTime, "Full time! "@);
                        self.lemma_discipline_push(reported, end, end, full_time);
                        let all = reported.push(full_time);
                        let out = self.match_outcome(d).unwrap();
                        assert(out.len() == all.len());
                        assert forall|i: int| 0 <= i < out.len() implies (#[trigger] out[i]).events
                            == all[i].events by {}
                        assert forall|i: int, k: int, j: int, l: int|
                            0 <= i < j < out.len() && 0 <= k < out[i].events.len() && 0 <= l
                                < out[j].events.len() && is_dismissal(#[trigger] out[i].events[k])
                                && (#[trigger] out[j].events[l]).event_type
                                != EventKind::Save implies out[j].events[l].primary_player
                            != out[i].events[k].primary_player by {
                            assert(out[i].events == all[i].events);
                            assert(out[j].events == all[j].events);
                            assert(is_dismissal(all[i].events[k]));
                            assert(all[j].events[l].event_type != EventKind::Save);
                        }
                    },
                    Err(_) => {},
                }
            },
            Err(_) => {},
        }
    }

    /// Discipline depends on who is off alone.
    pub proof fn lemma_discipline_same_standing(
        &self,
        ticks: Seq<TickView>,
        s: MatchStateView,
        same: MatchStateView,
    )
        requires
            self.discipline_holds(ticks, s),
            s.sent_off == same.sent_off,
        ensures
            self.discipline_holds(ticks, same),
    {
        assert forall|i: int, k: int|
            0 <= i < ticks.len() && 0 <= k < ticks[i].events.len() && is_dismissal(
                #[trigger] ticks[i].events[k],
            ) implies ticks[i].events[k].primary_player.is_some() && self.off_by_name(
            same,
            ticks[i].events[k].primary_player.unwrap(),
        ) by {
            let name = ticks[i].events[k].primary_player.unwrap();
            assert(self.off_by_name(s, name));
            assert forall|a: Side, n: int|
                0 <= n < STARTERS && (#[trigger] self.name_of(a, n)) == name implies same.is_sent_off(
                self.players(a)[n].id,
            ) by {
                assert(s.is_sent_off(self.players(a)[n].id));
            }
        }
    }
}

} // verus!
