//! Tactics: what a new one starts out as, and what a change to one touches.

use crate::model::text_of;
use crate::records::{CreateTacticPayload, Tactic, UpdateTacticPayload};
use vstd::prelude::*;
use vstd::string::StringExecFns;

verus! {

/// One setting of a tactic, with the value that it is to take.
#[derive(Clone, Debug, PartialEq, Eq)]
pub enum TacticChange {
    Name(String),
    Formation(i64),
    Mentality(String),
    Pressing(String),
    Tempo(String),
    Width(String),
    DefensiveLine(String),
}

/// What a [`TacticChange`] holds, as mathematical values.
pub enum TacticChangeView {
    Name(Seq<char>),
    Formation(i64),
    Mentality(Seq<char>),
    Pressing(Seq<char>),
    Tempo(Seq<char>),
    Width(Seq<char>),
    DefensiveLine(Seq<char>),
}

impl View for TacticChange {
    type V = TacticChangeView;

    open spec fn view(&self) -> TacticChangeView {
        match self {
            TacticChange::Name(v) => TacticChangeView::Name(v@),
            TacticChange::Formation(id) => TacticChangeView::Formation(*id),
            TacticChange::Mentality(v) => TacticChangeView::Mentality(v@),
            TacticChange::Pressing(v) => TacticChangeView::Pressing(v@),
            TacticChange::Tempo(v) => TacticChangeView::Tempo(v@),
            TacticChange::Width(v) => TacticChangeView::Width(v@),
            TacticChange::DefensiveLine(v) => TacticChangeView::DefensiveLine(v@),
        }
    }
}

/// The views of a list of changes, in order.
pub open spec fn change_views(changes: Seq<TacticChange>) -> Seq<TacticChangeView> {
    Seq::new(changes.len(), |i: int| changes[i]@)
}

/// The text given, or the fallback where none is given.
pub open spec fn text_or(given: Option<String>, fallback: Seq<char>) -> Seq<char> {
    match given {
        Some(text) => text@,
        None => fallback,
    }
}

/// The changes so far, and one more where something is given.
pub open spec fn and_if<T>(
    changes: Seq<TacticChangeView>,
    given: Option<T>,
    change: spec_fn(T) -> TacticChangeView,
) -> Seq<TacticChangeView> {
    match given {
        Some(value) => changes.push(change(value)),
        None => changes,
    }
}

/// The changes that a payload asks for: one for each setting that it gives,
/// in a fixed order. Team instructions are not among the settings that a
/// change can touch.
pub open spec fn changes_of(payload: UpdateTacticPayload) -> Seq<TacticChangeView> {
    let named = and_if(
        Seq::empty(),
        text_of(payload.name),
        |v: Seq<char>| TacticChangeView::Name(v),
    );
    let formed = and_if(named, payload.formation_id, |id: i64| TacticChangeView::Formation(id));
    let minded = and_if(
        formed,
        text_of(payload.mentality),
        |v: Seq<char>| TacticChangeView::Mentality(v),
    );
    let pressed = and_if(
        minded,
        text_of(payload.pressing),
        |v: Seq<char>| TacticChangeView::Pressing(v),
    );
    let timed = and_if(pressed, text_of(payload.tempo), |v: Seq<char>| TacticChangeView::Tempo(v));
    let widened = and_if(timed, text_of(payload.width), |v: Seq<char>| TacticChangeView::Width(v));
    and_if(
        widened,
        text_of(payload.defensive_line),
        |v: Seq<char>| TacticChangeView::DefensiveLine(v),
    )
}

fn or_default(given: &Option<String>, fallback: &str) -> (text: String)
    ensures
        text@ == text_or(*given, fallback@),
{
    match given {
        Some(text) => text.clone(),
        None => String::from_str(fallback),
    }
}

/// The tactic that a payload makes, once the store has numbered it. A
/// setting that the payload leaves open takes its usual value: a balanced
/// mentality, mixed instructions, pressing sometimes, and the standard
/// tempo, width and defensive line.
pub fn new_tactic(id: i64, payload: &CreateTacticPayload, formation_name: Option<String>) -> (tactic:
    Tactic)
    ensures
        tactic.id == id,
        tactic.name@ == payload.name@,
        tactic.description.is_none(),
        tactic.formation_id == Some(payload.formation_id),
        text_of(tactic.mentality) == Some(text_or(payload.mentality, "balanced"@)),
        text_of(tactic.team_instructions) == Some(text_or(payload.team_instructions, "mixed"@)),
        text_of(tactic.pressing) == Some(text_or(payload.pressing, "sometimes"@)),
        text_of(tactic.tempo) == Some(text_or(payload.tempo, "standard"@)),
        text_of(tactic.width) == Some(text_or(payload.width, "standard"@)),
        text_of(tactic.defensive_line) == Some(text_or(payload.defensive_line, "standard"@)),
        !tactic.offside_trap,
        !tactic.play_out_of_defence,
        tactic.formation_name == formation_name,
{
    Tactic {
        id,
        name: payload.name.clone(),
        description: None,
        formation_id: Some(payload.formation_id),
        mentality: Some(or_default(&payload.mentality, "balanced")),
        team_instructions: Some(or_default(&payload.team_instructions, "mixed")),
        pressing: Some(or_default(&payload.pressing, "sometimes")),
        tempo: Some(or_default(&payload.tempo, "standard")),
        width: Some(or_default(&payload.width, "standard")),
        defensive_line: Some(or_default(&payload.defensive_line, "standard")),
        offside_trap: false,
        play_out_of_defence: false,
        formation_name,
    }
}

/// The changes that a payload asks for, in the order in which they are
/// written to the store.
pub fn tactic_changes(payload: &UpdateTacticPayload) -> (changes: Vec<TacticChange>)
    ensures
        change_views(changes@) == changes_of(*payload),
        changes@.len() == changes_of(*payload).len(),
{
    let mut changes: Vec<TacticChange> = Vec::new();
    if let Some(name) = &payload.name {
        changes.push(TacticChange::Name(name.clone()));
    }
    if let Some(id) = payload.formation_id {
        changes.push(TacticChange::Formation(id));
    }
    if let Some(v) = &payload.mentality {
        changes.push(TacticChange::Mentality(v.clone()));
    }
    if let Some(v) = &payload.pressing {
        changes.push(TacticChange::Pressing(v.clone()));
    }
    if let Some(v) = &payload.tempo {
        changes.push(TacticChange::Tempo(v.clone()));
    }
    if let Some(v) = &payload.width {
        changes.push(TacticChange::Width(v.clone()));
    }
    if let Some(v) = &payload.defensive_line {
        changes.push(TacticChange::DefensiveLine(v.clone()));
    }
    changes
}

} // verus!
