//! The records that a host keeps around a match and that this library
//! fills or reads for it: managers, tactics, positions, fixtures, kept
//! events, league tables.

use vstd::prelude::*;

verus! {

/// A manager's account.
#[derive(Clone, Debug, PartialEq, Eq)]
pub struct User {
    pub id: i64,
    pub name: String,
    pub email: String,
    pub managed_team_id: Option<i64>,
    pub game_date: Option<String>,
}

/// What a manager signs in with.
#[derive(Clone, Debug, PartialEq, Eq)]
pub struct LoginPayload {
    pub email: String,
    pub password: String,
}

/// What a manager signs up with.
#[derive(Clone, Debug, PartialEq, Eq)]
pub struct RegisterPayload {
    pub name: String,
    pub email: String,
    pub password: String,
    pub managed_team_id: i64,
}

/// A team's tactic.
#[derive(Clone, Debug, PartialEq, Eq)]
pub struct Tactic {
    pub id: i64,
    pub name: String,
    pub description: Option<String>,
    pub formation_id: Option<i64>,
    pub mentality: Option<String>,
    pub team_instructions: Option<String>,
    pub pressing: Option<String>,
    pub tempo: Option<String>,
    pub width: Option<String>,
    pub defensive_line: Option<String>,
    pub offside_trap: bool,
    pub play_out_of_defence: bool,
    pub formation_name: Option<String>,
}

/// What a new tactic is made from.
#[derive(Clone, Debug, PartialEq, Eq)]
pub struct CreateTacticPayload {
    pub name: String,
    pub formation_id: i64,
    pub mentality: Option<String>,
    pub team_instructions: Option<String>,
    pub pressing: Option<String>,
    pub tempo: Option<String>,
    pub width: Option<String>,
    pub defensive_line: Option<String>,
}

/// What a tactic is changed by: only what is given changes.
#[derive(Clone, Debug, PartialEq, Eq)]
pub struct UpdateTacticPayload {
    pub name: Option<String>,
    pub formation_id: Option<i64>,
    pub mentality: Option<String>,
    pub team_instructions: Option<String>,
    pub pressing: Option<String>,
    pub tempo: Option<String>,
    pub width: Option<String>,
    pub defensive_line: Option<String>,
}

/// A fixture, played or to be played.
#[derive(Clone, Debug, PartialEq, Eq)]
pub struct GameMatch {
    pub id: i64,
    pub home_team_id: i64,
    pub away_team_id: i64,
    pub league_id: Option<i64>,
    pub season_id: Option<i64>,
    pub manager_id: Option<i64>,
    pub match_date: Option<String>,
    pub matchday: Option<i64>,
    pub home_formation_id: Option<i64>,
    pub away_formation_id: Option<i64>,
    pub home_score: Option<i64>,
    pub away_score: Option<i64>,
    pub status: String,
    pub match_stats: Option<String>,
    pub home_team_name: Option<String>,
    pub away_team_name: Option<String>,
    pub home_team_color: Option<String>,
    pub away_team_color: Option<String>,
    pub home_formation_name: Option<String>,
    pub away_formation_name: Option<String>,
}

/// An event of a match as it is kept once the match is over. Coordinates
/// are thousandths of a pitch unit.
#[derive(Clone, Debug, PartialEq, Eq)]
pub struct MatchEvent {
    pub id: i64,
    pub match_id: i64,
    pub minute: i64,
    pub event_type: String,
    pub team_type: Option<String>,
    pub player_name: Option<String>,
    pub description: Option<String>,
    pub x_coordinate: Option<i64>,
    pub y_coordinate: Option<i64>,
    pub commentary: Option<String>,
    pub sub_events: Option<String>,
}

/// One line of a league table.
#[derive(Clone, Debug, PartialEq, Eq)]
pub struct StandingEntry {
    pub team_id: i64,
    pub team_name: String,
    pub short_name: Option<String>,
    pub primary_color: Option<String>,
    pub played: i64,
    pub won: i64,
    pub drawn: i64,
    pub lost: i64,
    pub goals_for: i64,
    pub goals_against: i64,
    pub goal_difference: i64,
    pub points: i64,
    pub form: Vec<String>,
    pub position: i64,
}

/// A playing position.
#[derive(Clone, Debug, PartialEq, Eq)]
pub struct Position {
    pub id: i64,
    pub name: String,
    pub short_name: String,
    pub category: String,
}

/// Where a manager stands in the calendar.
#[derive(Clone, Debug, PartialEq, Eq)]
pub struct GameTimeResponse {
    pub current_date: String,
    pub formatted_date: String,
    pub next_match: Option<GameMatch>,
    pub days_until_match: Option<i64>,
    pub is_match_day: bool,
}

} // verus!
