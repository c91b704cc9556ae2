//! Where the starters stand before kick-off.

use crate::engine::{SimulationEngine, STARTERS};
use crate::model::{Formation, FormationPosition, LineupData, LineupPlayer, Player, Side};
use crate::text::{full_name, full_name_text};
use vstd::prelude::*;
use vstd::string::StringExecFns;

verus! {

/// What a [`FormationPosition`] holds, as mathematical values.
pub struct SlotView {
    pub position: Seq<char>,
    pub x: int,
    pub y: int,
}

impl View for FormationPosition {
    type V = SlotView;

    open spec fn view(&self) -> SlotView {
        SlotView { position: self.position@, x: self.x as int, y: self.y as int }
    }
}

/// The views of a list of slots, in order.
pub open spec fn slot_views(slots: Seq<FormationPosition>) -> Seq<SlotView> {
    Seq::new(slots.len(), |i: int| slots[i]@)
}

/// What a [`LineupPlayer`] holds, as mathematical values.
pub struct LineupPlayerView {
    pub id: i64,
    pub name: Seq<char>,
    pub shirt_number: i64,
    pub position: Seq<char>,
    pub x: int,
    pub y: int,
    pub team: Side,
}

impl View for LineupPlayer {
    type V = LineupPlayerView;

    open spec fn view(&self) -> LineupPlayerView {
        LineupPlayerView {
            id: self.id,
            name: self.name@,
            shirt_number: self.shirt_number,
            position: self.position@,
            x: self.x as int,
            y: self.y as int,
            team: self.team,
        }
    }
}

/// The views of a list of placed starters, in order.
pub open spec fn lineup_views(players: Seq<LineupPlayer>) -> Seq<LineupPlayerView> {
    Seq::new(players.len(), |i: int| players[i]@)
}

/// A slot of the layout that stands in where a side has no formation.
pub open spec fn slot_of(position: Seq<char>, x: int, y: int) -> SlotView {
    SlotView { position, x, y }
}

/// The layout that stands in where a side has no formation, or one whose
/// slots could not be read: four defenders, four midfielders, two strikers.
pub open spec fn default_layout() -> Seq<SlotView> {
    seq![
        slot_of("GK"@, 5_000, 34_000),
        slot_of("LB"@, 20_000, 8_000),
        slot_of("CB"@, 20_000, 24_000),
        slot_of("CB"@, 20_000, 44_000),
        slot_of("RB"@, 20_000, 60_000),
        slot_of("LM"@, 45_000, 8_000),
        slot_of("CM"@, 45_000, 24_000),
        slot_of("CM"@, 45_000, 44_000),
        slot_of("RM"@, 45_000, 60_000),
        slot_of("ST"@, 75_000, 24_000),
        slot_of("ST"@, 75_000, 44_000),
    ]
}

/// The slots that a side lines up in.
pub open spec fn layout_of(formation: Option<Formation>) -> Seq<SlotView> {
    match formation {
        Some(f) => match f.positions {
            Some(slots) => slot_views(slots@),
            None => default_layout(),
        },
        None => default_layout(),
    }
}

/// A coordinate along the pitch seen from the other end, kept within what
/// a coordinate can hold.
pub open spec fn mirrored(x: int) -> int {
    if 100_000 - x > i64::MAX {
        i64::MAX as int
    } else {
        100_000 - x
    }
}

/// Where starter `i` of `side` stands: in slot `i` of the layout, seen from
/// the other end for the away side, or in the middle of the pitch's length
/// where the layout has no such slot.
pub open spec fn standing(layout: Seq<SlotView>, side: Side, i: int) -> (int, int) {
    if i < layout.len() {
        match side {
            Side::Home => (layout[i].x, layout[i].y),
            Side::Away => (mirrored(layout[i].x), layout[i].y),
        }
    } else {
        (50_000, 50_000)
    }
}

/// Starter `i` of `side` as placed: the shirt number falls back to the
/// place in the squad, counted from one, and the position to `CM`.
pub open spec fn placed(player: Player, layout: Seq<SlotView>, side: Side, i: int) -> LineupPlayerView {
    LineupPlayerView {
        id: player.id,
        name: full_name_text(player.first_name@, player.last_name@),
        shirt_number: match player.shirt_number {
            Some(number) => number,
            None => (i + 1) as i64,
        },
        position: match player.position_short {
            Some(position) => position@,
            None => "CM"@,
        },
        x: standing(layout, side, i).0,
        y: standing(layout, side, i).1,
        team: side,
    }
}

fn slot(position: &str, x: i64, y: i64) -> (made: FormationPosition)
    ensures
        made@ == slot_of(position@, x as int, y as int),
{
    FormationPosition { position: String::from_str(position), x, y }
}

/// The layout that stands in where a side has no formation.
pub fn default_positions() -> (slots: Vec<FormationPosition>)
    ensures
        slot_views(slots@) == default_layout(),
        slots@.len() == 11,
{
    let mut slots: Vec<FormationPosition> = Vec::new();
    slots.push(slot("GK", 5_000, 34_000));
    slots.push(slot("LB", 20_000, 8_000));
    slots.push(slot("CB", 20_000, 24_000));
    slots.push(slot("CB", 20_000, 44_000));
    slots.push(slot("RB", 20_000, 60_000));
    slots.push(slot("LM", 45_000, 8_000));
    slots.push(slot("CM", 45_000, 24_000));
    slots.push(slot("CM", 45_000, 44_000));
    slots.push(slot("RM", 45_000, 60_000));
    slots.push(slot("ST", 75_000, 24_000));
    slots.push(slot("ST", 75_000, 44_000));
    slots
}

/// The slots that a side lines up in: those of its formation, or the
/// default layout where it has no formation or the slots could not be read.
pub fn parse_formation_positions(formation: &Option<Formation>) -> (slots: Vec<FormationPosition>)
    ensures
        slot_views(slots@) == layout_of(*formation),
        slots@.len() == layout_of(*formation).len(),
{
    match formation {
        Some(f) => match &f.positions {
            Some(given) => {
                let mut slots: Vec<FormationPosition> = Vec::new();
                let mut i: usize = 0;
                while i < given.len()
                    invariant
                        i <= given@.len(),
                        slots@.len() == i,
                        forall|k: int| 0 <= k < i ==> (#[trigger] slots@[k])@ == given@[k]@,
                    decreases given@.len() - i,
                {
                    slots.push(
                        FormationPosition {
                            position: given[i].position.clone(),
                            x: given[i].x,
                            y: given[i].y,
                        },
                    );
                    i += 1;
                }
                slots
            },
            None => default_positions(),
        },
        None => default_positions(),
    }
}

impl SimulationEngine {
    /// The starters of `side` as placed.
    pub open spec fn lineup_of(&self, side: Side) -> Seq<LineupPlayerView> {
        Seq::new(
            STARTERS as nat,
            |i: int| placed(self.players(side)[i], layout_of(self.formation(side)), side, i),
        )
    }

    fn place_side(&self, side: Side) -> (placed_side: Vec<LineupPlayer>)
        requires
            self.wf(),
        ensures
            lineup_views(placed_side@) == self.lineup_of(side),
            placed_side@.len() == STARTERS,
    {
        let slots = parse_formation_positions(self.formation_of(side));
        let squad = self.squad(side);
        let ghost layout = layout_of(self.formation(side));
        let mut out: Vec<LineupPlayer> = Vec::new();
        let mut i: usize = 0;
        while i < STARTERS
            invariant
                i <= STARTERS <= squad@.len(),
                squad@ == self.players(side),
                slot_views(slots@) == layout,
                out@.len() == i,
                forall|k: int|
                    0 <= k < i ==> (#[trigger] out@[k])@ == placed(squad@[k], layout, side, k),
            decreases STARTERS - i,
        {
            let player = &squad[i];
            let (x, y): (i64, i64) = if i < slots.len() {
                let across: i64 = slots[i].y;
                match side {
                    Side::Home => (slots[i].x, across),
                    Side::Away => {
                        let seen: i128 = 100_000 - (slots[i].x as i128);
                        if seen > (i64::MAX as i128) {
                            (i64::MAX, across)
                        } else {
                            (seen as i64, across)
                        }
                    },
                }
            } else {
                (50_000, 50_000)
            };
            let shirt_number: i64 = match player.shirt_number {
                Some(number) => number,
                None => (i as i64) + 1,
            };
            let position = match &player.position_short {
                Some(position) => position.clone(),
                None => String::from_str("CM"),
            };
            out.push(
                LineupPlayer {
                    id: player.id,
                    name: full_name(&player.first_name, &player.last_name),
                    shirt_number,
                    position,
                    x,
                    y,
                    team: side,
                },
            );
            i += 1;
        }
        out
    }

    /// Both starting elevens as placed for display before kick-off. Nothing
    /// here depends on chance.
    pub fn get_lineup_data(&self) -> (lineup: LineupData)
        requires
            self.wf(),
        ensures
            lineup_views(lineup.home@) == self.lineup_of(Side::Home),
            lineup_views(lineup.away@) == self.lineup_of(Side::Away),
            lineup.home@.len() == STARTERS,
            lineup.away@.len() == STARTERS,
    {
        LineupData { home: self.place_side(Side::Home), away: self.place_side(Side::Away) }
    }
}

} // verus!
