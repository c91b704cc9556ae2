//! Choosing players: evenly, by weight, and the goalkeeper.
//!
//! Only the starting eleven of a side are ever chosen from, and never a
//! player who has been sent off.

use crate::engine::{PreconditionError, SimulationEngine, STARTERS};
use crate::model::{Player, Side};
use crate::skills::{Skill, EFFECTIVE_MAX, SKILL_POINT};
use crate::state::{MatchState, MatchStateView};
use vstd::prelude::*;
use vstd::string::StringExecFns;

verus! {

/// The sum of the first `k` weights.
pub open spec fn sum_below(weights: Seq<int>, k: int) -> int
    decreases k,
{
    if k <= 0 {
        0
    } else {
        sum_below(weights, k - 1) + weights[k - 1]
    }
}

/// The sum of all weights.
pub open spec fn total_weight(weights: Seq<int>) -> int {
    sum_below(weights, weights.len() as int)
}

/// The first position at or after `k` at which the roll is won, or the last
/// position where it is won nowhere.
pub open spec fn roulette_from(weights: Seq<int>, roll: int, k: int) -> int
    decreases weights.len() - k,
{
    if k >= weights.len() - 1 {
        weights.len() - 1
    } else if roll * total_weight(weights) < 1_000_000 * sum_below(weights, k + 1) {
        k
    } else {
        roulette_from(weights, roll, k + 1)
    }
}

/// The position that a roll selects among weighted candidates. The roll,
/// taken as a share of the total weight, falls to the first candidate whose
/// running total lies above it; a roll that no running total lies above
/// falls to the last candidate.
pub open spec fn roulette(weights: Seq<int>, roll: int) -> int {
    roulette_from(weights, roll, 0)
}

/// The roulette always selects one of the candidates.
pub proof fn lemma_roulette_in_range(weights: Seq<int>, roll: int, k: int)
    requires
        0 <= k < weights.len(),
    ensures
        k <= roulette_from(weights, roll, k) < weights.len(),
    decreases weights.len() - k,
{
    if k < weights.len() - 1 && !(roll * total_weight(weights) < 1_000_000 * sum_below(
        weights,
        k + 1,
    )) {
        lemma_roulette_in_range(weights, roll, k + 1);
    }
}

/// Sums of positive weights grow with every weight added.
pub proof fn lemma_sums_grow(weights: Seq<int>, k: int)
    requires
        0 <= k <= weights.len(),
        forall|i: int| 0 <= i < weights.len() ==> weights[i] > 0,
    ensures
        sum_below(weights, k) >= k,
        sum_below(weights, k) <= total_weight(weights),
    decreases weights.len() - k,
{
    lemma_sum_at_least(weights, k);
    if k < weights.len() {
        lemma_sums_grow(weights, k + 1);
    }
}

/// The sum of `k` positive weights is at least `k`.
pub proof fn lemma_sum_at_least(weights: Seq<int>, k: int)
    requires
        0 <= k <= weights.len(),
        forall|i: int| 0 <= i < weights.len() ==> weights[i] > 0,
    ensures
        sum_below(weights, k) >= k,
    decreases k,
{
    if k > 0 {
        lemma_sum_at_least(weights, k - 1);
    }
}

/// A roll falls to the candidate in whose share of the total weight it
/// lies: with the shares laid end to end in order and the roll taken as so
/// many millionths of the total, the candidate selected is the one whose
/// share begins at or below the roll and ends above it. So each candidate
/// is selected by as many of the rolls as its weight has in the total.
pub proof fn lemma_roulette_share(weights: Seq<int>, roll: int, k: int)
    requires
        0 <= roll < 1_000_000,
        0 <= k < weights.len(),
        forall|i: int| 0 <= i < weights.len() ==> weights[i] > 0,
        1_000_000 * sum_below(weights, k) <= roll * total_weight(weights),
    ensures
        ({
            let won = roulette_from(weights, roll, k);
            &&& k <= won < weights.len()
            &&& 1_000_000 * sum_below(weights, won) <= roll * total_weight(weights)
            &&& roll * total_weight(weights) < 1_000_000 * sum_below(weights, won + 1)
        }),
    decreases weights.len() - k,
{
    let total = total_weight(weights);
    if k >= weights.len() - 1 {
        lemma_sums_grow(weights, weights.len() as int);
        assert(roll * total < 1_000_000 * total) by (nonlinear_arith)
            requires
                0 <= roll < 1_000_000,
                total > 0,
        ;
    } else if !(roll * total < 1_000_000 * sum_below(weights, k + 1)) {
        lemma_roulette_share(weights, roll, k + 1);
    }
}

/// Whether a player is listed as a goalkeeper.
pub open spec fn is_keeper(player: Player) -> bool {
    match player.position_short {
        Some(position) => position@ == "GK"@,
        None => false,
    }
}

/// The first slot at or after `i` that holds a goalkeeper, or the first slot
/// of the squad where none does.
pub open spec fn keeper_slot_from(squad: Seq<Player>, i: int) -> int
    decreases squad.len() - i,
{
    if i >= squad.len() {
        0
    } else if is_keeper(squad[i]) {
        i
    } else {
        keeper_slot_from(squad, i + 1)
    }
}

impl SimulationEngine {
    /// The starter slots below `n` whose players are still on the pitch, in order.
    pub open spec fn eligible_below(&self, state: MatchStateView, side: Side, n: int) -> Seq<int>
        decreases n,
    {
        if n <= 0 {
            Seq::empty()
        } else {
            let rest = self.eligible_below(state, side, n - 1);
            if state.is_sent_off(self.players(side)[n - 1].id) {
                rest
            } else {
                rest.push(n - 1)
            }
        }
    }

    /// The starter slots of `side` whose players are still on the pitch, in order.
    pub open spec fn eligible(&self, state: MatchStateView, side: Side) -> Seq<int> {
        self.eligible_below(state, side, STARTERS as int)
    }

    /// The slot that an even pick selects: the eligible slots are counted
    /// through and the pick is taken modulo their number. `None` where
    /// nobody is eligible.
    pub open spec fn even_choice(&self, state: MatchStateView, side: Side, pick: u32) -> Option<int> {
        let slots = self.eligible(state, side);
        if slots.len() == 0 {
            None
        } else {
            Some(slots[pick as int % slots.len() as int])
        }
    }

    /// The weight that a player carries in a selection by `skill`: the
    /// effective value of the skill, and at least one skill point.
    pub open spec fn weight_of(&self, state: MatchStateView, player_id: i64, skill: Skill) -> int {
        let value = self.skill_value(state, player_id, skill);
        if value < SKILL_POINT {
            SKILL_POINT as int
        } else {
            value
        }
    }

    /// The weights of the eligible starters of `side`, in slot order.
    pub open spec fn weights(&self, state: MatchStateView, side: Side, skill: Skill) -> Seq<int> {
        let slots = self.eligible(state, side);
        Seq::new(
            slots.len(),
            |k: int| self.weight_of(state, self.players(side)[slots[k]].id, skill),
        )
    }

    /// The slot that a weighted roll selects. `None` where nobody is eligible.
    pub open spec fn weighted_choice(
        &self,
        state: MatchStateView,
        side: Side,
        skill: Skill,
        roll: u32,
    ) -> Option<int> {
        let slots = self.eligible(state, side);
        if slots.len() == 0 {
            None
        } else {
            Some(slots[roulette(self.weights(state, side, skill), roll as int)])
        }
    }

    /// The slot of the goalkeeper of `side`: the first player of the whole
    /// squad listed as one, or the first player where none is.
    pub open spec fn keeper_slot(&self, side: Side) -> int {
        keeper_slot_from(self.players(side), 0)
    }

    /// An eligible slot is a starter slot whose player is still on the pitch.
    pub proof fn lemma_eligible_slots(&self, state: MatchStateView, side: Side, n: int)
        requires
            0 <= n <= self.players(side).len(),
        ensures
            self.eligible_below(state, side, n).len() <= n,
            forall|k: int|
                0 <= k < self.eligible_below(state, side, n).len() ==> {
                    let slot = #[trigger] self.eligible_below(state, side, n)[k];
                    0 <= slot < n && !state.is_sent_off(self.players(side)[slot].id)
                },
        decreases n,
    {
        if n > 0 {
            self.lemma_eligible_slots(state, side, n - 1);
        }
    }

    /// The starter slots of `side` whose players are still on the pitch.
    pub fn eligible_slots(&self, state: &MatchState, side: Side) -> (slots: Vec<usize>)
        requires
            self.wf(),
        ensures
            slots@.len() == self.eligible(state@, side).len(),
            slots@.len() <= STARTERS,
            forall|k: int|
                0 <= k < slots@.len() ==> (#[trigger] slots@[k]) as int == self.eligible(
                    state@,
                    side,
                )[k],
            forall|k: int|
                0 <= k < slots@.len() ==> (#[trigger] slots@[k]) < STARTERS && !state@.is_sent_off(
                    self.players(side)[slots@[k] as int].id,
                ),
    {
        let squad = self.squad(side);
        let mut slots: Vec<usize> = Vec::new();
        let mut i: usize = 0;
        while i < STARTERS
            invariant
                i <= STARTERS <= squad@.len(),
                squad@ == self.players(side),
                slots@.len() == self.eligible_below(state@, side, i as int).len(),
                slots@.len() <= i,
                forall|k: int|
                    0 <= k < slots@.len() ==> (#[trigger] slots@[k]) as int == self.eligible_below(
                        state@,
                        side,
                        i as int,
                    )[k],
                forall|k: int|
                    0 <= k < slots@.len() ==> (#[trigger] slots@[k]) < i && !state@.is_sent_off(
                        self.players(side)[slots@[k] as int].id,
                    ),
            decreases STARTERS - i,
        {
            if !state.is_sent_off(squad[i].id) {
                slots.push(i);
            }
            i += 1;
        }
        slots
    }

    /// Chooses a starter of `side` who is still on the pitch, each with the
    /// same chance when `pick` is drawn evenly from the picks.
    pub fn pick_player(&self, state: &MatchState, side: Side, pick: u32) -> (chosen: Result<
        &Player,
        PreconditionError,
    >)
        requires
            self.wf(),
        ensures
            match self.even_choice(state@, side, pick) {
                Some(slot) => {
                    &&& 0 <= slot < STARTERS
                    &&& !state@.is_sent_off(self.players(side)[slot].id)
                    &&& chosen == Ok::<&Player, PreconditionError>(&self.players(side)[slot])
                },
                None => chosen == Err::<&Player, PreconditionError>(
                    PreconditionError::NoEligiblePlayer(side),
                ),
            },
    {
        let slots = self.eligible_slots(state, side);
        if slots.len() == 0 {
            return Err(PreconditionError::NoEligiblePlayer(side));
        }
        let k: usize = (pick as usize) % slots.len();
        let squad = self.squad(side);
        Ok(&squad[slots[k]])
    }

    /// Chooses a starter of `side` who is still on the pitch, each with a
    /// chance in proportion to the weight that `skill` gives the player,
    /// when `roll` is drawn evenly from the rolls.
    pub fn pick_weighted_player(
        &self,
        state: &MatchState,
        side: Side,
        skill: Skill,
        roll: u32,
    ) -> (chosen: Result<&Player, PreconditionError>)
        requires
            self.wf(),
            state@.wf(),
        ensures
            match self.weighted_choice(state@, side, skill, roll) {
                Some(slot) => {
                    &&& 0 <= slot < STARTERS
                    &&& !state@.is_sent_off(self.players(side)[slot].id)
                    &&& chosen == Ok::<&Player, PreconditionError>(&self.players(side)[slot])
                },
                None => chosen == Err::<&Player, PreconditionError>(
                    PreconditionError::NoEligiblePlayer(side),
                ),
            },
    {
        let slots = self.eligible_slots(state, side);
        if slots.len() == 0 {
            return Err(PreconditionError::NoEligiblePlayer(side));
        }
        let squad = self.squad(side);
        let ghost w = self.weights(state@, side, skill);
        let mut weights: Vec<i128> = Vec::new();
        let mut total: i128 = 0;
        let mut i: usize = 0;
        while i < slots.len()
            invariant
                self.wf(),
                state@.wf(),
                squad@ == self.players(side),
                w == self.weights(state@, side, skill),
                w.len() == slots@.len() <= STARTERS,
                forall|k: int|
                    0 <= k < slots@.len() ==> (#[trigger] slots@[k]) as int == self.eligible(
                        state@,
                        side,
                    )[k],
                forall|k: int| 0 <= k < slots@.len() ==> (#[trigger] slots@[k]) < STARTERS,
                i <= slots@.len(),
                weights@.len() == i,
                forall|k: int| 0 <= k < i ==> (#[trigger] weights@[k]) as int == w[k],
                forall|k: int| 0 <= k < i ==> 4_000_000 <= (#[trigger] weights@[k]) <= EFFECTIVE_MAX,
                total == sum_below(w, i as int),
                0 <= total <= 36_893_488_147_419_103_232_000_000 * i,
            decreases slots@.len() - i,
        {
            let value: i128 = self.attribute(state, squad[slots[i]].id, skill);
            let weight: i128 = if value < SKILL_POINT {
                SKILL_POINT
            } else {
                value
            };
            weights.push(weight);
            total = total + weight;
            i += 1;
        }
        let last: usize = slots.len() - 1;
        let mut acc: i128 = 0;
        let mut k: usize = 0;
        let mut found: bool = false;
        assert(0 <= (roll as int) * (total as int) <= 0x1_0000_0000
            * 405_828_369_621_610_135_552_000_000) by (nonlinear_arith)
            requires
                0 <= roll < 0x1_0000_0000,
                0 <= total <= 405_828_369_621_610_135_552_000_000,
        ;
        let target: i128 = (roll as i128) * total;
        while k < last && !found
            invariant
                last == slots@.len() - 1,
                w.len() == slots@.len() <= STARTERS,
                weights@.len() == w.len(),
                forall|j: int| 0 <= j < w.len() ==> (#[trigger] weights@[j]) as int == w[j],
                forall|j: int|
                    0 <= j < w.len() ==> 4_000_000 <= (#[trigger] weights@[j]) <= EFFECTIVE_MAX,
                target == roll * total_weight(w),
                k <= last,
                acc == sum_below(w, k as int),
                0 <= acc <= 36_893_488_147_419_103_232_000_000 * k,
                found ==> roulette(w, roll as int) == k,
                !found ==> roulette(w, roll as int) == roulette_from(w, roll as int, k as int),
            decreases last - k + (if found { 0int } else { 1int }),
        {
            let reach: i128 = acc + weights[k];
            if target < 1_000_000 * reach {
                found = true;
            } else {
                acc = reach;
                k += 1;
            }
        }
        Ok(&squad[slots[k]])
    }

    /// The goalkeeper of `side`: the first player of the squad listed as
    /// one, or the first player where none is. A goalkeeper who has been
    /// sent off is still found.
    pub fn pick_goalkeeper(&self, side: Side) -> (keeper: &Player)
        requires
            self.wf(),
        ensures
            0 <= self.keeper_slot(side) < self.players(side).len(),
            *keeper == self.players(side)[self.keeper_slot(side)],
    {
        let squad = self.squad(side);
        let listed = String::from_str("GK");
        let mut i: usize = 0;
        while i < squad.len()
            invariant
                i <= squad@.len(),
                squad@.len() >= STARTERS,
                squad@ == self.players(side),
                listed@ == "GK"@,
                keeper_slot_from(squad@, 0) == keeper_slot_from(squad@, i as int),
            decreases squad@.len() - i,
        {
            let found: bool = match &squad[i].position_short {
                Some(position) => *position == listed,
                None => false,
            };
            if found {
                return &squad[i];
            }
            i += 1;
        }
        &squad[0]
    }
}

} // verus!
