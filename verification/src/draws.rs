//! The chance that a match consumes, as plain numbers.
//!
//! Every decision of the simulation is a function of the state and of the
//! numbers held here. A roll is a whole number below [`ROLL_SPAN`]; an
//! outcome with a chance of `p` millionths happens when the roll is below
//! `p`. A pick is a whole number below [`PICK_SPAN`], the least number that
//! each of the numbers from one to eleven divides: counted through any
//! group of up to eleven players, the picks fall on each of them equally
//! often.

use rand::rngs::StdRng;
use rand::Rng;
use rand::SeedableRng;
use vstd::prelude::*;

verus! {

/// Rolls are drawn from `0..ROLL_SPAN`.
pub const ROLL_SPAN: u32 = 1_000_000;

/// Picks are drawn from `0..PICK_SPAN`.
pub const PICK_SPAN: u32 = 27_720;

/// Every number of players from one to eleven divides the number of picks.
pub proof fn lemma_picks_divide_evenly(players: int)
    requires
        1 <= players <= 11,
    ensures
        PICK_SPAN as int % players == 0,
{
    assert(27_720int % 1 == 0 && 27_720int % 2 == 0 && 27_720int % 3 == 0 && 27_720int % 4 == 0
        && 27_720int % 5 == 0 && 27_720int % 6 == 0 && 27_720int % 7 == 0 && 27_720int % 8 == 0
        && 27_720int % 9 == 0 && 27_720int % 10 == 0 && 27_720int % 11 == 0);
}

/// A displacement of the ball, in thousandths of a pitch unit.
#[derive(Clone, Copy, Debug, PartialEq, Eq, Structural)]
pub struct BallShift {
    pub dx: i32,
    pub dy: i32,
}

impl BallShift {
    /// A touch in a passage of passing: less than three units either way.
    pub open spec fn is_jitter(self) -> bool {
        -3_000 <= self.dx < 3_000 && -3_000 <= self.dy < 3_000
    }

    /// A forward move: from five to less than fifteen units along the pitch,
    /// less than eight units across.
    pub open spec fn is_advance(self) -> bool {
        5_000 <= self.dx < 15_000 && -8_000 <= self.dy < 8_000
    }

    /// Whether this is a touch in a passage of passing.
    pub fn check_jitter(&self) -> (ok: bool)
        ensures
            ok == self.is_jitter(),
    {
        -3_000 <= self.dx && self.dx < 3_000 && -3_000 <= self.dy && self.dy < 3_000
    }

    /// Whether this is a forward move.
    pub fn check_advance(&self) -> (ok: bool)
        ensures
            ok == self.is_advance(),
    {
        5_000 <= self.dx && self.dx < 15_000 && -8_000 <= self.dy && self.dy < 8_000
    }
}

/// The chance that one shot consumes.
#[derive(Clone, Copy, Debug, PartialEq, Eq, Structural)]
pub struct ShotDraws {
    /// Chooses the shooter, weighted by finishing.
    pub shooter_roll: u32,
    /// Decides whether the shot is blocked.
    pub block_roll: u32,
    /// Decides whether a blocked shot leads to a corner.
    pub block_corner_roll: u32,
    /// Decides whether an unblocked shot misses the target.
    pub miss_roll: u32,
    /// Decides whether a shot on target goes in.
    pub goal_roll: u32,
    /// Decides whether a save leads to a corner.
    pub save_corner_roll: u32,
}

impl ShotDraws {
    /// Every roll is below [`ROLL_SPAN`].
    pub open spec fn in_range(self) -> bool {
        &&& self.shooter_roll < ROLL_SPAN
        &&& self.block_roll < ROLL_SPAN
        &&& self.block_corner_roll < ROLL_SPAN
        &&& self.miss_roll < ROLL_SPAN
        &&& self.goal_roll < ROLL_SPAN
        &&& self.save_corner_roll < ROLL_SPAN
    }

    /// Whether every roll is below [`ROLL_SPAN`].
    pub fn check(&self) -> (ok: bool)
        ensures
            ok == self.in_range(),
    {
        self.shooter_roll < ROLL_SPAN && self.block_roll < ROLL_SPAN && self.block_corner_roll
            < ROLL_SPAN && self.miss_roll < ROLL_SPAN && self.goal_roll < ROLL_SPAN
            && self.save_corner_roll < ROLL_SPAN
    }
}

/// The chance that one foul consumes.
#[derive(Clone, Copy, Debug, PartialEq, Eq, Structural)]
pub struct FoulDraws {
    /// Chooses the player who commits the foul, weighted by aggression.
    pub fouler_roll: u32,
    /// Chooses the player who is fouled, evenly.
    pub fouled_pick: u32,
    /// Decides whether the foul is booked.
    pub card_roll: u32,
    /// Decides whether the foul earns a straight red card.
    pub red_roll: u32,
}

impl FoulDraws {
    /// The rolls are below [`ROLL_SPAN`] and the pick is below [`PICK_SPAN`].
    pub open spec fn in_range(self) -> bool {
        &&& self.fouler_roll < ROLL_SPAN
        &&& self.fouled_pick < PICK_SPAN
        &&& self.card_roll < ROLL_SPAN
        &&& self.red_roll < ROLL_SPAN
    }

    /// Whether the rolls and the pick are in range.
    pub fn check(&self) -> (ok: bool)
        ensures
            ok == self.in_range(),
    {
        self.fouler_roll < ROLL_SPAN && self.fouled_pick < PICK_SPAN && self.card_roll < ROLL_SPAN
            && self.red_roll < ROLL_SPAN
    }
}

/// The chance that one minute consumes. Parts that the minute does not come
/// to use are simply left unread.
#[derive(Clone, Debug, PartialEq, Eq)]
pub struct MinuteDraws {
    /// One touch for each pass of the minute's background passing.
    pub passes: Vec<BallShift>,
    /// Decides whether the ball is moved forward.
    pub advance_roll: u32,
    /// How far the ball moves forward, if it does.
    pub advance: BallShift,
    /// Decides whether a shot is attempted.
    pub shot_roll: u32,
    /// Decides whether a foul is committed.
    pub foul_roll: u32,
    /// Decides whether the ball is won by a tackle.
    pub tackle_roll: u32,
    /// Decides whether the attack is flagged offside.
    pub offside_roll: u32,
    /// Decides whether possession changes hands at the end of the minute.
    pub flip_roll: u32,
    /// What a shot consumes.
    pub shot: ShotDraws,
    /// What a foul consumes.
    pub foul: FoulDraws,
    /// Chooses the tackler, weighted by tackling.
    pub tackler_roll: u32,
}

impl MinuteDraws {
    /// Between three and eight passes, each a jitter; a forward move; and
    /// every roll and pick in its range.
    pub open spec fn in_range(self) -> bool {
        &&& 3 <= self.passes@.len() <= 8
        &&& forall|i: int| 0 <= i < self.passes@.len() ==> (#[trigger] self.passes@[i]).is_jitter()
        &&& self.advance.is_advance()
        &&& self.advance_roll < ROLL_SPAN
        &&& self.shot_roll < ROLL_SPAN
        &&& self.foul_roll < ROLL_SPAN
        &&& self.tackle_roll < ROLL_SPAN
        &&& self.offside_roll < ROLL_SPAN
        &&& self.flip_roll < ROLL_SPAN
        &&& self.shot.in_range()
        &&& self.foul.in_range()
        &&& self.tackler_roll < ROLL_SPAN
    }

    /// Whether the draws are what a minute can draw.
    pub fn check(&self) -> (ok: bool)
        ensures
            ok == self.in_range(),
    {
        if self.passes.len() < 3 || self.passes.len() > 8 {
            return false;
        }
        let mut i: usize = 0;
        while i < self.passes.len()
            invariant
                i <= self.passes@.len(),
                forall|j: int| 0 <= j < i ==> (#[trigger] self.passes@[j]).is_jitter(),
            decreases self.passes@.len() - i,
        {
            if !self.passes[i].check_jitter() {
                return false;
            }
            i += 1;
        }
        self.advance.check_advance() && self.advance_roll < ROLL_SPAN && self.shot_roll < ROLL_SPAN
            && self.foul_roll < ROLL_SPAN && self.tackle_roll < ROLL_SPAN && self.offside_roll
            < ROLL_SPAN && self.flip_roll < ROLL_SPAN && self.shot.check() && self.foul.check()
            && self.tackler_roll < ROLL_SPAN
    }
}

/// Every minute of `minutes` is what a minute can draw.
pub open spec fn minutes_in_range(minutes: Seq<MinuteDraws>) -> bool {
    forall|i: int| 0 <= i < minutes.len() ==> (#[trigger] minutes[i]).in_range()
}

/// The chance that a whole match consumes: one entry for each minute played,
/// injury time included.
#[derive(Clone, Debug, PartialEq, Eq)]
pub struct MatchDraws {
    /// Minutes 1 to 45 and the injury time of the first half.
    pub first_half: Vec<MinuteDraws>,
    /// Minutes 46 to 90 and the injury time of the second half.
    pub second_half: Vec<MinuteDraws>,
}

impl MatchDraws {
    /// One to four minutes of injury time in the first half, one to five in
    /// the second, and every minute what a minute can draw.
    pub open spec fn in_range(self) -> bool {
        &&& 46 <= self.first_half@.len() <= 49
        &&& 46 <= self.second_half@.len() <= 50
        &&& minutes_in_range(self.first_half@)
        &&& minutes_in_range(self.second_half@)
    }

    /// Whether the draws are what a match can draw.
    pub fn check(&self) -> (ok: bool)
        ensures
            ok == self.in_range(),
    {
        if self.first_half.len() < 46 || self.first_half.len() > 49 {
            return false;
        }
        if self.second_half.len() < 46 || self.second_half.len() > 50 {
            return false;
        }
        check_minutes(&self.first_half) && check_minutes(&self.second_half)
    }

    /// Draws a whole match from a generator seeded with `seed`.
    pub fn random(seed: u64) -> (draws: MatchDraws)
        ensures
            draws.in_range(),
    {
        let mut rng = seeded_generator(seed);
        let injury_first: i64 = draw_between(&mut rng, 1, 4);
        let first_half = draw_minutes(&mut rng, (45 + injury_first) as usize);
        let injury_second: i64 = draw_between(&mut rng, 1, 5);
        let second_half = draw_minutes(&mut rng, (45 + injury_second) as usize);
        MatchDraws { first_half, second_half }
    }
}

fn check_minutes(minutes: &Vec<MinuteDraws>) -> (ok: bool)
    ensures
        ok == minutes_in_range(minutes@),
{
    let mut i: usize = 0;
    while i < minutes.len()
        invariant
            i <= minutes@.len(),
            forall|j: int| 0 <= j < i ==> (#[trigger] minutes@[j]).in_range(),
        decreases minutes@.len() - i,
    {
        if !minutes[i].check() {
            return false;
        }
        i += 1;
    }
    true
}

/// `rand::rngs::StdRng`, the generator that the draws come from. Nothing is
/// known of what it holds.
#[verifier::external_type_specification]
#[verifier::external_body]
pub struct ExStdRng(StdRng);

/// `StdRng::seed_from_u64`: a generator whose stream is set by `seed`.
/// Nothing is claimed of the generator that comes back.
#[verifier::external_body]
fn seeded_generator(seed: u64) -> StdRng {
    StdRng::seed_from_u64(seed)
}

/// `Rng::gen_range` on the closed range from `low` to `high`. The claim is
/// only that the number drawn lies in the range; the call panics on an empty
/// range, which `low <= high` rules out.
#[verifier::external_body]
fn draw_between(rng: &mut StdRng, low: i64, high: i64) -> (n: i64)
    requires
        low <= high,
    ensures
        low <= n <= high,
{
    rng.gen_range(low..=high)
}

fn draw_roll(rng: &mut StdRng) -> (roll: u32)
    ensures
        roll < ROLL_SPAN,
{
    draw_between(rng, 0, 999_999) as u32
}

fn draw_jitter(rng: &mut StdRng) -> (shift: BallShift)
    ensures
        shift.is_jitter(),
{
    let dx: i64 = draw_between(rng, -3_000, 2_999);
    let dy: i64 = draw_between(rng, -3_000, 2_999);
    BallShift { dx: dx as i32, dy: dy as i32 }
}

fn draw_shot(rng: &mut StdRng) -> (shot: ShotDraws)
    ensures
        shot.in_range(),
{
    let shooter_roll: u32 = draw_roll(rng);
    let block_roll: u32 = draw_roll(rng);
    let block_corner_roll: u32 = draw_roll(rng);
    let miss_roll: u32 = draw_roll(rng);
    let goal_roll: u32 = draw_roll(rng);
    let save_corner_roll: u32 = draw_roll(rng);
    ShotDraws {
        shooter_roll,
        block_roll,
        block_corner_roll,
        miss_roll,
        goal_roll,
        save_corner_roll,
    }
}

fn draw_foul(rng: &mut StdRng) -> (foul: FoulDraws)
    ensures
        foul.in_range(),
{
    let fouler_roll: u32 = draw_roll(rng);
    let fouled_pick: u32 = draw_between(rng, 0, 27_719) as u32;
    let card_roll: u32 = draw_roll(rng);
    let red_roll: u32 = draw_roll(rng);
    FoulDraws { fouler_roll, fouled_pick, card_roll, red_roll }
}

fn draw_minute(rng: &mut StdRng) -> (draws: MinuteDraws)
    ensures
        draws.in_range(),
{
    let pass_count: i64 = draw_between(rng, 3, 8);
    let mut passes: Vec<BallShift> = Vec::new();
    let mut i: i64 = 0;
    while i < pass_count
        invariant
            0 <= i <= pass_count <= 8,
            passes@.len() == i,
            forall|j: int| 0 <= j < passes@.len() ==> (#[trigger] passes@[j]).is_jitter(),
        decreases pass_count - i,
    {
        let shift = draw_jitter(rng);
        passes.push(shift);
        i += 1;
    }
    let advance_roll: u32 = draw_roll(rng);
    let dx: i64 = draw_between(rng, 5_000, 14_999);
    let dy: i64 = draw_between(rng, -8_000, 7_999);
    let shot_roll: u32 = draw_roll(rng);
    let shot = draw_shot(rng);
    let foul_roll: u32 = draw_roll(rng);
    let foul = draw_foul(rng);
    let tackle_roll: u32 = draw_roll(rng);
    let tackler_roll: u32 = draw_roll(rng);
    let offside_roll: u32 = draw_roll(rng);
    let flip_roll: u32 = draw_roll(rng);
    MinuteDraws {
        passes,
        advance_roll,
        advance: BallShift { dx: dx as i32, dy: dy as i32 },
        shot_roll,
        foul_roll,
        tackle_roll,
        offside_roll,
        flip_roll,
        shot,
        foul,
        tackler_roll,
    }
}

fn draw_minutes(rng: &mut StdRng, count: usize) -> (minutes: Vec<MinuteDraws>)
    ensures
        minutes@.len() == count,
        minutes_in_range(minutes@),
{
    let mut minutes: Vec<MinuteDraws> = Vec::new();
    let mut i: usize = 0;
    while i < count
        invariant
            i <= count,
            minutes@.len() == i,
            minutes_in_range(minutes@),
        decreases count - i,
    {
        let draws = draw_minute(rng);
        minutes.push(draws);
        i += 1;
    }
    minutes
}

} // verus!
