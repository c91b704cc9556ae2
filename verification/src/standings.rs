//! League tables: what a team's results add up to, and who stands where.

use crate::records::StandingEntry;
use vstd::prelude::*;
use vstd::string::StringExecFns;

verus! {

/// The most results that a tally takes from one list, and the highest
/// score, either side of zero, that it takes in a result: with these no sum
/// and no difference leaves the range of a counter.
pub const TALLY_LIMIT: i64 = 0x4000_0000;

/// What a team's results add up to.
#[derive(Clone, Copy, Debug, PartialEq, Eq, Structural)]
pub struct Tally {
    pub won: i64,
    pub drawn: i64,
    pub lost: i64,
    pub goals_for: i64,
    pub goals_against: i64,
}

impl Tally {
    /// A tally of no results.
    pub open spec fn empty() -> Tally {
        Tally { won: 0, drawn: 0, lost: 0, goals_for: 0, goals_against: 0 }
    }

    /// This tally with one more result, given as the team's own goals and
    /// the opponent's.
    pub open spec fn with_result(self, scored: int, conceded: int) -> Tally {
        Tally {
            won: (self.won + if scored > conceded {
                1int
            } else {
                0int
            }) as i64,
            drawn: (self.drawn + if scored == conceded {
                1int
            } else {
                0int
            }) as i64,
            lost: (self.lost + if scored < conceded {
                1int
            } else {
                0int
            }) as i64,
            goals_for: (self.goals_for + scored) as i64,
            goals_against: (self.goals_against + conceded) as i64,
        }
    }

    /// Matches played.
    pub open spec fn played(self) -> int {
        self.won + self.drawn + self.lost
    }

    /// Points won: three for a win, one for a draw.
    pub open spec fn points(self) -> int {
        3 * self.won + self.drawn
    }

    /// Goals scored less goals conceded.
    pub open spec fn goal_difference(self) -> int {
        self.goals_for - self.goals_against
    }
}

/// Whether a score is one that a tally takes.
pub open spec fn score_fits(score: i64) -> bool {
    -TALLY_LIMIT <= score <= TALLY_LIMIT
}

/// Whether a list of results can be tallied: not too many, and no score
/// too far from zero.
pub open spec fn results_fit(results: Seq<(i64, i64)>) -> bool {
    &&& results.len() <= TALLY_LIMIT
    &&& forall|i: int|
        0 <= i < results.len() ==> score_fits((#[trigger] results[i]).0) && score_fits(
            results[i].1,
        )
}

/// The tally `start` with the first `n` results added. A result is the home
/// side's goals and the away side's; `at_home` says which of them the team
/// was.
pub open spec fn tally_after(start: Tally, results: Seq<(i64, i64)>, at_home: bool, n: int) -> Tally
    decreases n,
{
    if n <= 0 {
        start
    } else {
        let before = tally_after(start, results, at_home, n - 1);
        if at_home {
            before.with_result(results[n - 1].0 as int, results[n - 1].1 as int)
        } else {
            before.with_result(results[n - 1].1 as int, results[n - 1].0 as int)
        }
    }
}

/// What a team's home and away results add up to.
pub open spec fn season_tally(home: Seq<(i64, i64)>, away: Seq<(i64, i64)>) -> Tally {
    tally_after(
        tally_after(Tally::empty(), home, true, home.len() as int),
        away,
        false,
        away.len() as int,
    )
}

/// The letter that a result goes into a team's form as.
pub open spec fn form_text(scored: int, conceded: int) -> Seq<char> {
    if scored > conceded {
        "W"@
    } else if scored == conceded {
        "D"@
    } else {
        "L"@
    }
}

/// Whether `a` stands above `b` on merit: on points, then on goal
/// difference, then on goals scored.
pub open spec fn outranks(a: StandingEntry, b: StandingEntry) -> bool {
    a.points > b.points || (a.points == b.points && (a.goal_difference > b.goal_difference || (
    a.goal_difference == b.goal_difference && a.goals_for > b.goals_for)))
}

/// How many entries stand ahead of `x` in a table from place `k` on: those
/// at its head that outrank `x`.
pub open spec fn slot_from(x: StandingEntry, table: Seq<StandingEntry>, k: int) -> int
    decreases table.len() - k,
{
    if 0 <= k < table.len() && outranks(table[k], x) {
        slot_from(x, table, k + 1)
    } else {
        k
    }
}

/// The entries in table order: whoever outranks another stands above, and
/// of two that do not outrank each other the one listed first stands above.
pub open spec fn ranked(entries: Seq<StandingEntry>) -> Seq<StandingEntry>
    decreases entries.len(),
{
    if entries.len() == 0 {
        Seq::empty()
    } else {
        let rest = ranked(entries.drop_first());
        rest.insert(slot_from(entries[0], rest, 0), entries[0])
    }
}

/// The entries with their places written in, counted from one.
pub open spec fn numbered(table: Seq<StandingEntry>) -> Seq<StandingEntry> {
    Seq::new(table.len(), |i: int| StandingEntry { position: (i + 1) as i64, ..table[i] })
}

/// Whether nobody in the table is outranked by somebody further down.
pub open spec fn in_order(table: Seq<StandingEntry>) -> bool {
    forall|i: int, j: int| 0 <= i < j < table.len() ==> !outranks(table[j], table[i])
}

/// Where `x` goes into a table: behind everybody that outranks it at the
/// head of the table, and ahead of the first entry that does not.
pub proof fn lemma_slot(x: StandingEntry, table: Seq<StandingEntry>, k: int)
    requires
        0 <= k <= table.len(),
    ensures
        k <= slot_from(x, table, k) <= table.len(),
        forall|i: int| k <= i < slot_from(x, table, k) ==> outranks(#[trigger] table[i], x),
        slot_from(x, table, k) < table.len() ==> !outranks(table[slot_from(x, table, k)], x),
    decreases table.len() - k,
{
    if k < table.len() && outranks(table[k], x) {
        lemma_slot(x, table, k + 1);
    }
}

/// The table order holds every entry exactly as often as it was listed, and
/// nobody in it is outranked by somebody further down.
pub proof fn lemma_ranked(entries: Seq<StandingEntry>)
    ensures
        ranked(entries).len() == entries.len(),
        ranked(entries).to_multiset() == entries.to_multiset(),
        in_order(ranked(entries)),
    decreases entries.len(),
{
    broadcast use vstd::seq_lib::group_to_multiset_ensures;

    if entries.len() > 0 {
        let x = entries[0];
        let rest = ranked(entries.drop_first());
        lemma_ranked(entries.drop_first());
        lemma_slot(x, rest, 0);
        let slot = slot_from(x, rest, 0);
        let table = rest.insert(slot, x);
        assert(entries =~= seq![x] + entries.drop_first());
        assert(entries.to_multiset() =~= entries.drop_first().to_multiset().insert(x)) by {
            vstd::seq_lib::lemma_multiset_commutative(seq![x], entries.drop_first());
        }
        assert forall|i: int, j: int| 0 <= i < j < table.len() implies !outranks(
            table[j],
            table[i],
        ) by {
            if i == slot && j - 1 > slot {
                assert(!outranks(rest[j - 1], rest[slot]));
            }
        }
    }
}

/// Whether a list of results can be tallied.
pub fn check_results(results: &Vec<(i64, i64)>) -> (ok: bool)
    ensures
        ok == results_fit(results@),
{
    if results.len() > 0x4000_0000 {
        return false;
    }
    let mut i: usize = 0;
    while i < results.len()
        invariant
            i <= results@.len(),
            forall|k: int|
                0 <= k < i ==> score_fits((#[trigger] results@[k]).0) && score_fits(
                    results@[k].1,
                ),
        decreases results@.len() - i,
    {
        let (home_goals, away_goals): (i64, i64) = results[i];
        if home_goals < -TALLY_LIMIT || home_goals > TALLY_LIMIT || away_goals < -TALLY_LIMIT
            || away_goals > TALLY_LIMIT {
            return false;
        }
        i += 1;
    }
    true
}

/// What a team's home and away results add up to. Every result is the home
/// side's goals and the away side's.
pub fn tally(home: &Vec<(i64, i64)>, away: &Vec<(i64, i64)>) -> (sum: Tally)
    requires
        results_fit(home@),
        results_fit(away@),
    ensures
        sum == season_tally(home@, away@),
        sum.played() == home@.len() + away@.len(),
        0 <= sum.won && 0 <= sum.drawn && 0 <= sum.lost,
        -2 * TALLY_LIMIT * TALLY_LIMIT <= sum.goals_for <= 2 * TALLY_LIMIT * TALLY_LIMIT,
        -2 * TALLY_LIMIT * TALLY_LIMIT <= sum.goals_against <= 2 * TALLY_LIMIT * TALLY_LIMIT,
{
    let at_home = add_results(
        Tally { won: 0, drawn: 0, lost: 0, goals_for: 0, goals_against: 0 },
        home,
        true,
    );
    add_results(at_home, away, false)
}

fn add_results(start: Tally, results: &Vec<(i64, i64)>, at_home: bool) -> (sum: Tally)
    requires
        results_fit(results@),
        0 <= start.won && 0 <= start.drawn && 0 <= start.lost,
        start.played() <= TALLY_LIMIT,
        -TALLY_LIMIT * TALLY_LIMIT <= start.goals_for <= TALLY_LIMIT * TALLY_LIMIT,
        -TALLY_LIMIT * TALLY_LIMIT <= start.goals_against <= TALLY_LIMIT * TALLY_LIMIT,
    ensures
        sum == tally_after(start, results@, at_home, results@.len() as int),
        0 <= sum.won && 0 <= sum.drawn && 0 <= sum.lost,
        sum.played() == start.played() + results@.len(),
        start.goals_for - TALLY_LIMIT * TALLY_LIMIT <= sum.goals_for <= start.goals_for
            + TALLY_LIMIT * TALLY_LIMIT,
        start.goals_against - TALLY_LIMIT * TALLY_LIMIT <= sum.goals_against
            <= start.goals_against + TALLY_LIMIT * TALLY_LIMIT,
{
    let mut sum = start;
    let mut i: usize = 0;
    while i < results.len()
        invariant
            results_fit(results@),
            i <= results@.len(),
            sum == tally_after(start, results@, at_home, i as int),
            0 <= sum.won && 0 <= sum.drawn && 0 <= sum.lost,
            sum.played() == start.played() + i,
            start.played() <= TALLY_LIMIT,
            -TALLY_LIMIT * TALLY_LIMIT <= start.goals_for <= TALLY_LIMIT * TALLY_LIMIT,
            -TALLY_LIMIT * TALLY_LIMIT <= start.goals_against <= TALLY_LIMIT * TALLY_LIMIT,
            start.goals_for - TALLY_LIMIT * i <= sum.goals_for <= start.goals_for + TALLY_LIMIT
                * i,
            start.goals_against - TALLY_LIMIT * i <= sum.goals_against <= start.goals_against
                + TALLY_LIMIT * i,
        decreases results@.len() - i,
    {
        let (home_goals, away_goals): (i64, i64) = results[i];
        let (scored, conceded): (i64, i64) = if at_home {
            (home_goals, away_goals)
        } else {
            (away_goals, home_goals)
        };
        if scored > conceded {
            sum.won = sum.won + 1;
        } else if scored == conceded {
            sum.drawn = sum.drawn + 1;
        } else {
            sum.lost = sum.lost + 1;
        }
        sum.goals_for = sum.goals_for + scored;
        sum.goals_against = sum.goals_against + conceded;
        i += 1;
    }
    sum
}

/// The letter that a result goes into a team's form as: `W`, `D` or `L`.
pub fn form_letter(scored: i64, conceded: i64) -> (letter: String)
    ensures
        letter@ == form_text(scored as int, conceded as int),
{
    if scored > conceded {
        String::from_str("W")
    } else if scored == conceded {
        String::from_str("D")
    } else {
        String::from_str("L")
    }
}

/// A team's line of the table, its place not yet known: what its results
/// add up to, the matches played, the goal difference and the points.
pub fn standing_entry(
    team_id: i64,
    team_name: String,
    short_name: Option<String>,
    primary_color: Option<String>,
    home: &Vec<(i64, i64)>,
    away: &Vec<(i64, i64)>,
    form: Vec<String>,
) -> (entry: StandingEntry)
    requires
        results_fit(home@),
        results_fit(away@),
    ensures
        ({
            let sum = season_tally(home@, away@);
            entry == (StandingEntry {
                team_id,
                team_name,
                short_name,
                primary_color,
                played: sum.played() as i64,
                won: sum.won,
                drawn: sum.drawn,
                lost: sum.lost,
                goals_for: sum.goals_for,
                goals_against: sum.goals_against,
                goal_difference: sum.goal_difference() as i64,
                points: sum.points() as i64,
                form,
                position: 0,
            })
        }),
        entry.played == home@.len() + away@.len(),
{
    let sum = tally(home, away);
    StandingEntry {
        team_id,
        team_name,
        short_name,
        primary_color,
        played: sum.won + sum.drawn + sum.lost,
        won: sum.won,
        drawn: sum.drawn,
        lost: sum.lost,
        goals_for: sum.goals_for,
        goals_against: sum.goals_against,
        goal_difference: sum.goals_for - sum.goals_against,
        points: sum.won * 3 + sum.drawn,
        form,
        position: 0,
    }
}

fn stands_above(a: &StandingEntry, b: &StandingEntry) -> (above: bool)
    ensures
        above == outranks(*a, *b),
{
    a.points > b.points || (a.points == b.points && (a.goal_difference > b.goal_difference || (
    a.goal_difference == b.goal_difference && a.goals_for > b.goals_for)))
}

/// Puts the entries into table order and writes their places in.
pub fn rank_standings(entries: Vec<StandingEntry>) -> (table: Vec<StandingEntry>)
    requires
        entries@.len() < i64::MAX,
    ensures
        table@ == numbered(ranked(entries@)),
        table@.len() == entries@.len(),
        ranked(entries@).to_multiset() == entries@.to_multiset(),
        in_order(table@),
{
    let ghost given = entries@;
    let mut entries = entries;
    let mut sorted: Vec<StandingEntry> = Vec::new();
    while entries.len() > 0
        invariant
            entries@.len() <= given.len(),
            entries@ == given.subrange(0, entries@.len() as int),
            sorted@ == ranked(given.subrange(entries@.len() as int, given.len() as int)),
            sorted@.len() == given.len() - entries@.len(),
        decreases entries@.len(),
    {
        let ghost left = entries@.len() as int;
        let x = entries.pop().unwrap();
        let mut k: usize = 0;
        while k < sorted.len() && stands_above(&sorted[k], &x)
            invariant
                k <= sorted@.len(),
                slot_from(x, sorted@, 0) == slot_from(x, sorted@, k as int),
            decreases sorted@.len() - k,
        {
            k += 1;
        }
        proof {
            let tail = given.subrange(left - 1, given.len() as int);
            assert(tail.drop_first() =~= given.subrange(left, given.len() as int));
        }
        sorted.insert(k, x);
    }
    assert(given.subrange(0, given.len() as int) =~= given);
    proof {
        lemma_ranked(given);
    }
    let ghost order = sorted@;
    let mut table: Vec<StandingEntry> = Vec::new();
    while sorted.len() > 0
        invariant
            order.len() == given.len() < i64::MAX,
            table@.len() + sorted@.len() == order.len(),
            sorted@ == order.subrange(table@.len() as int, order.len() as int),
            forall|i: int|
                0 <= i < table@.len() ==> #[trigger] table@[i] == (StandingEntry {
                    position: (i + 1) as i64,
                    ..order[i]
                }),
        decreases sorted@.len(),
    {
        let mut entry = sorted.remove(0);
        entry.position = (table.len() as i64) + 1;
        table.push(entry);
    }
    assert forall|i: int, j: int| 0 <= i < j < table@.len() implies !outranks(
        table@[j],
        table@[i],
    ) by {
        assert(!outranks(order[j], order[i]));
    }
    table
}

} // verus!
