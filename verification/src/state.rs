//! The state that one match owns while it is played, and the ball model.

use crate::draws::BallShift;
use crate::model::{BallPosition, MatchStats, Score, Side, Stat, TeamStats, Zone};
use crate::skills::FATIGUE_FULL;
use std::collections::HashMap;
use vstd::prelude::*;

verus! {

/// `v` brought into the range from `low` to `high`.
pub open spec fn clamped(v: int, low: int, high: int) -> int {
    if v < low {
        low
    } else if v > high {
        high
    } else {
        v
    }
}

/// The centre spot.
pub open spec fn centre_spot() -> BallPosition {
    BallPosition { x: 50_000, y: 34_000 }
}

/// Whether the ball lies on the pitch.
pub open spec fn on_pitch(ball: BallPosition) -> bool {
    0 <= ball.x <= 100_000 && 0 <= ball.y <= 68_000
}

/// The ball after a touch that goes nowhere in particular: both coordinates
/// move by the shift and stay on the pitch.
pub open spec fn jittered(ball: BallPosition, shift: BallShift) -> BallPosition {
    BallPosition {
        x: clamped(ball.x + shift.dx, 0, 100_000) as i64,
        y: clamped(ball.y + shift.dy, 0, 68_000) as i64,
    }
}

/// The ball after `side` has moved it forward: along the pitch it moves by
/// `shift.dx` towards the goal that `side` attacks, across by `shift.dy`, and
/// it stays on the pitch.
pub open spec fn advanced(ball: BallPosition, side: Side, shift: BallShift) -> BallPosition {
    let x = match side {
        Side::Home => ball.x + shift.dx,
        Side::Away => ball.x - shift.dx,
    };
    BallPosition {
        x: clamped(x, 0, 100_000) as i64,
        y: clamped(ball.y + shift.dy, 0, 68_000) as i64,
    }
}

/// Whether the ball is in the third of the pitch that `side` attacks.
pub open spec fn in_attacking_third(ball: BallPosition, side: Side) -> bool {
    match side {
        Side::Home => ball.x > 70_000,
        Side::Away => ball.x < 30_000,
    }
}

/// The zone that the ball is in, seen from the side in possession.
pub open spec fn zone_of(ball: BallPosition, possession: Side) -> Zone {
    if ball.x < 33_000 {
        match possession {
            Side::Home => Zone::DefHome,
            Side::Away => Zone::AttAway,
        }
    } else if ball.x > 67_000 {
        match possession {
            Side::Home => Zone::AttHome,
            Side::Away => Zone::DefAway,
        }
    } else {
        Zone::Mid
    }
}

/// The score with one more goal for `side`.
pub open spec fn with_goal(score: Score, side: Side) -> Score {
    match side {
        Side::Home => Score { home: (score.home + 1) as i64, ..score },
        Side::Away => Score { away: (score.away + 1) as i64, ..score },
    }
}

/// A player's fatigue on a record of fatigue, in millionths: a player
/// without an entry is fresh.
pub open spec fn fatigue_on_record(fatigue: Map<i64, u32>, id: i64) -> int {
    if fatigue.contains_key(id) {
        fatigue[id] as int
    } else {
        0
    }
}

/// Whether no fatigue on record is above full fatigue.
pub open spec fn fatigue_in_range(fatigue: Map<i64, u32>) -> bool {
    forall|id: i64| fatigue.contains_key(id) ==> #[trigger] fatigue[id] <= FATIGUE_FULL
}

/// What a [`MatchState`] holds, as mathematical values.
pub struct MatchStateView {
    pub score: Score,
    pub stats: MatchStats,
    pub ball: BallPosition,
    pub possession: Side,
    pub zone: Zone,
    /// Fatigue by player id, in millionths. A player without an entry is fresh.
    pub fatigue: Map<i64, u32>,
    /// Yellow cards shown, by player id.
    pub yellow_cards: Map<i64, u8>,
    /// Who has been sent off, by player id.
    pub sent_off: Map<i64, bool>,
}

impl MatchStateView {
    /// The state at kick-off.
    pub open spec fn kickoff() -> MatchStateView {
        MatchStateView {
            score: Score { home: 0, away: 0 },
            stats: MatchStats { home: TeamStats::fresh(), away: TeamStats::fresh() },
            ball: centre_spot(),
            possession: Side::Home,
            zone: Zone::Mid,
            fatigue: Map::empty(),
            yellow_cards: Map::empty(),
            sent_off: Map::empty(),
        }
    }

    /// A player's fatigue, in millionths.
    pub open spec fn fatigue_of(self, id: i64) -> int {
        fatigue_on_record(self.fatigue, id)
    }

    /// How many yellow cards a player has been shown.
    pub open spec fn yellows_of(self, id: i64) -> int {
        if self.yellow_cards.contains_key(id) {
            self.yellow_cards[id] as int
        } else {
            0
        }
    }

    /// Whether a player has been sent off.
    pub open spec fn is_sent_off(self, id: i64) -> bool {
        self.sent_off.contains_key(id) && self.sent_off[id]
    }

    /// The ball is on the pitch and nobody is more than spent.
    pub open spec fn wf(self) -> bool {
        on_pitch(self.ball) && fatigue_in_range(self.fatigue)
    }

    /// From `self` to `later` neither the score nor any counter has gone
    /// down, and none has gone up by more than `n`.
    pub open spec fn grown_within(self, later: MatchStateView, n: int) -> bool {
        &&& self.stats.home.grown_within(later.stats.home, n)
        &&& self.stats.away.grown_within(later.stats.away, n)
        &&& self.score.home <= later.score.home <= self.score.home + n
        &&& self.score.away <= later.score.away <= self.score.away + n
    }

    /// The score and every counter are at least zero and leave room for `n` more.
    pub open spec fn has_room(self, n: int) -> bool {
        &&& self.stats.home.has_room(n)
        &&& self.stats.away.has_room(n)
        &&& 0 <= self.score.home <= i64::MAX - n
        &&& 0 <= self.score.away <= i64::MAX - n
    }
}

/// The state that one match owns while it is played.
pub struct MatchState {
    score: Score,
    stats: MatchStats,
    ball: BallPosition,
    possession: Side,
    zone: Zone,
    fatigue: HashMap<i64, u32>,
    yellow_cards: HashMap<i64, u8>,
    sent_off: HashMap<i64, bool>,
}

impl View for MatchState {
    type V = MatchStateView;

    closed spec fn view(&self) -> MatchStateView {
        MatchStateView {
            score: self.score,
            stats: self.stats,
            ball: self.ball,
            possession: self.possession,
            zone: self.zone,
            fatigue: self.fatigue@,
            yellow_cards: self.yellow_cards@,
            sent_off: self.sent_off@,
        }
    }
}

impl MatchState {
    /// The state at kick-off: no goals, no counts, the ball on the centre
    /// spot with the home side, everybody fresh and on the pitch.
    pub fn kickoff() -> (state: MatchState)
        ensures
            state@ == MatchStateView::kickoff(),
            state@.wf(),
    {
        let state = MatchState {
            score: Score { home: 0, away: 0 },
            stats: MatchStats { home: TeamStats::new(), away: TeamStats::new() },
            ball: BallPosition { x: 50_000, y: 34_000 },
            possession: Side::Home,
            zone: Zone::Mid,
            fatigue: HashMap::new(),
            yellow_cards: HashMap::new(),
            sent_off: HashMap::new(),
        };
        state
    }

    /// The score.
    pub fn score(&self) -> (score: Score)
        ensures
            score == self@.score,
    {
        self.score
    }

    /// Both sides' statistics.
    pub fn stats(&self) -> (stats: MatchStats)
        ensures
            stats == self@.stats,
    {
        self.stats
    }

    /// Where the ball is.
    pub fn ball(&self) -> (ball: BallPosition)
        ensures
            ball == self@.ball,
    {
        self.ball
    }

    /// The side that has the ball.
    pub fn possession(&self) -> (side: Side)
        ensures
            side == self@.possession,
    {
        self.possession
    }

    /// The zone that was last worked out.
    pub fn zone(&self) -> (zone: Zone)
        ensures
            zone == self@.zone,
    {
        self.zone
    }

    /// A player's fatigue, in millionths.
    pub fn fatigue(&self, player_id: i64) -> (fatigue: u32)
        ensures
            fatigue == self@.fatigue_of(player_id),
    {
        match self.fatigue.get(&player_id) {
            Some(f) => *f,
            None => 0,
        }
    }

    /// How many yellow cards a player has been shown.
    pub fn yellow_cards(&self, player_id: i64) -> (count: u8)
        ensures
            count == self@.yellows_of(player_id),
    {
        match self.yellow_cards.get(&player_id) {
            Some(c) => *c,
            None => 0,
        }
    }

    /// Whether a player has been sent off.
    pub fn is_sent_off(&self, player_id: i64) -> (off: bool)
        ensures
            off == self@.is_sent_off(player_id),
    {
        match self.sent_off.get(&player_id) {
            Some(off) => *off,
            None => false,
        }
    }

    /// Whether the score and every counter are at least zero and leave room
    /// for `n` more.
    pub fn check_room(&self, n: i64) -> (ok: bool)
        requires
            0 <= n,
        ensures
            ok == self@.has_room(n as int),
    {
        self.stats.home.check_room(n) && self.stats.away.check_room(n) && 0 <= self.score.home
            && self.score.home <= i64::MAX - n && 0 <= self.score.away && self.score.away
            <= i64::MAX - n
    }

    /// Raises one counter of one side by `amount`.
    pub fn inc_stat(&mut self, side: Side, stat: Stat, amount: i64)
        requires
            0 <= amount,
            old(self)@.stats.of(side).counter(stat) + amount <= i64::MAX,
        ensures
            final(self)@ == (MatchStateView {
                stats: old(self)@.stats.raised(side, stat, amount as int),
                ..old(self)@
            }),
    {
        let mut team: TeamStats = match side {
            Side::Home => self.stats.home,
            Side::Away => self.stats.away,
        };
        match stat {
            Stat::Shots => team.shots = team.shots + amount,
            Stat::ShotsOnTarget => team.shots_on_target = team.shots_on_target + amount,
            Stat::Corners => team.corners = team.corners + amount,
            Stat::Fouls => team.fouls = team.fouls + amount,
            Stat::YellowCards => team.yellow_cards = team.yellow_cards + amount,
            Stat::RedCards => team.red_cards = team.red_cards + amount,
            Stat::Saves => team.saves = team.saves + amount,
            Stat::Passes => team.passes = team.passes + amount,
            Stat::Tackles => team.tackles = team.tackles + amount,
            Stat::Offsides => team.offsides = team.offsides + amount,
        }
        match side {
            Side::Home => self.stats.home = team,
            Side::Away => self.stats.away = team,
        }
    }

    /// Counts a goal for `side`.
    pub fn add_goal(&mut self, side: Side)
        requires
            old(self)@.score.home < i64::MAX,
            old(self)@.score.away < i64::MAX,
        ensures
            final(self)@ == (MatchStateView {
                score: with_goal(old(self)@.score, side),
                ..old(self)@
            }),
    {
        match side {
            Side::Home => self.score.home = self.score.home + 1,
            Side::Away => self.score.away = self.score.away + 1,
        }
    }

    /// Hands the ball to `side`.
    pub fn give_possession(&mut self, side: Side)
        ensures
            final(self)@ == (MatchStateView { possession: side, ..old(self)@ }),
    {
        self.possession = side;
    }

    /// Puts the ball back on the centre spot.
    pub fn centre_ball(&mut self)
        ensures
            final(self)@ == (MatchStateView { ball: centre_spot(), ..old(self)@ }),
    {
        self.ball = BallPosition { x: 50_000, y: 34_000 };
    }

    /// Moves the ball by a touch that goes nowhere in particular.
    pub fn jitter_ball(&mut self, shift: BallShift)
        requires
            on_pitch(old(self)@.ball),
        ensures
            final(self)@ == (MatchStateView {
                ball: jittered(old(self)@.ball, shift),
                ..old(self)@
            }),
            on_pitch(final(self)@.ball),
    {
        let x: i64 = clamp_to(self.ball.x + (shift.dx as i64), 100_000);
        let y: i64 = clamp_to(self.ball.y + (shift.dy as i64), 68_000);
        self.ball = BallPosition { x, y };
    }

    /// Moves the ball towards the goal that `side` attacks.
    pub fn move_ball_forward(&mut self, side: Side, shift: BallShift)
        requires
            on_pitch(old(self)@.ball),
        ensures
            final(self)@ == (MatchStateView {
                ball: advanced(old(self)@.ball, side, shift),
                ..old(self)@
            }),
            on_pitch(final(self)@.ball),
    {
        let along: i64 = match side {
            Side::Home => self.ball.x + (shift.dx as i64),
            Side::Away => self.ball.x - (shift.dx as i64),
        };
        let x: i64 = clamp_to(along, 100_000);
        let y: i64 = clamp_to(self.ball.y + (shift.dy as i64), 68_000);
        self.ball = BallPosition { x, y };
    }

    /// Whether the ball is in the third of the pitch that `side` attacks.
    pub fn is_attacking_third(&self, side: Side) -> (yes: bool)
        ensures
            yes == in_attacking_third(self@.ball, side),
    {
        match side {
            Side::Home => self.ball.x > 70_000,
            Side::Away => self.ball.x < 30_000,
        }
    }

    /// Works the zone out anew from the ball and the possession.
    pub fn update_zone(&mut self)
        ensures
            final(self)@ == (MatchStateView {
                zone: zone_of(old(self)@.ball, old(self)@.possession),
                ..old(self)@
            }),
    {
        self.zone = if self.ball.x < 33_000 {
            match self.possession {
                Side::Home => Zone::DefHome,
                Side::Away => Zone::AttAway,
            }
        } else if self.ball.x > 67_000 {
            match self.possession {
                Side::Home => Zone::AttHome,
                Side::Away => Zone::DefAway,
            }
        } else {
            Zone::Mid
        };
    }

    /// Records a player's fatigue, which never goes down.
    pub fn set_fatigue(&mut self, player_id: i64, fatigue: u32)
        requires
            old(self)@.wf(),
            old(self)@.fatigue_of(player_id) <= fatigue <= FATIGUE_FULL,
        ensures
            final(self)@ == (MatchStateView {
                fatigue: old(self)@.fatigue.insert(player_id, fatigue),
                ..old(self)@
            }),
            final(self)@.wf(),
    {
        self.fatigue.insert(player_id, fatigue);
    }

    /// Records a player's first yellow card.
    pub fn show_yellow(&mut self, player_id: i64)
        ensures
            final(self)@ == (MatchStateView {
                yellow_cards: old(self)@.yellow_cards.insert(player_id, 1u8),
                ..old(self)@
            }),
    {
        self.yellow_cards.insert(player_id, 1);
    }

    /// Sends a player off.
    pub fn send_off(&mut self, player_id: i64)
        ensures
            final(self)@ == (MatchStateView {
                sent_off: old(self)@.sent_off.insert(player_id, true),
                ..old(self)@
            }),
    {
        self.sent_off.insert(player_id, true);
    }
}

fn clamp_to(v: i64, high: i64) -> (r: i64)
    requires
        0 <= high,
    ensures
        r == clamped(v as int, 0, high as int),
{
    if v < 0 {
        0
    } else if v > high {
        high
    } else {
        v
    }
}

} // verus!
