//! What a host does with a match: which ticks and events it passes on, on
//! which channel, and which events it keeps once the match is over.

use crate::engine::PreconditionError;
use crate::model::{EventKind, Phase, SimulationEvent, SimulationTick};
use crate::records::{GameMatch, MatchEvent, User};
use vstd::prelude::*;
use vstd::string::StringExecFns;

verus! {

/// The channels that a host passes a match on over.
#[derive(Clone, Copy, Debug, PartialEq, Eq, Structural)]
pub enum Channel {
    /// The starting elevens, before kick-off.
    Lineup,
    /// Every tick.
    Minute,
    /// Every goal.
    Goal,
    /// Every card: yellow, second yellow or red.
    Card,
    /// The half-time marker.
    HalfTime,
    /// The last tick, once more, when the match is over.
    FullTime,
}

impl Channel {
    /// The name of the channel.
    pub open spec fn label(self) -> Seq<char> {
        match self {
            Channel::Lineup => "match:lineup"@,
            Channel::Minute => "match:minute"@,
            Channel::Goal => "match:goal"@,
            Channel::Card => "match:card"@,
            Channel::HalfTime => "match:half_time"@,
            Channel::FullTime => "match:full_time"@,
        }
    }

    /// The name of the channel, such as `match:minute`.
    pub fn as_str(self) -> (s: &'static str)
        ensures
            s@ == self.label(),
    {
        match self {
            Channel::Lineup => "match:lineup",
            Channel::Minute => "match:minute",
            Channel::Goal => "match:goal",
            Channel::Card => "match:card",
            Channel::HalfTime => "match:half_time",
            Channel::FullTime => "match:full_time",
        }
    }
}

/// The channel of its own that an event of this kind is passed on over, if
/// it has one.
pub open spec fn channel_of(kind: EventKind) -> Option<Channel> {
    match kind {
        EventKind::Goal => Some(Channel::Goal),
        EventKind::YellowCard => Some(Channel::Card),
        EventKind::RedCard => Some(Channel::Card),
        EventKind::SecondYellow => Some(Channel::Card),
        _ => None,
    }
}

/// Whether an event of this kind is kept once the match is over.
pub open spec fn is_kept(kind: EventKind) -> bool {
    kind == EventKind::Goal || kind == EventKind::YellowCard || kind == EventKind::RedCard || kind
        == EventKind::SecondYellow || kind == EventKind::Foul || kind == EventKind::Corner
}

/// How long a host waits between two ticks at a given speed, in
/// milliseconds.
pub open spec fn delay_of(speed: Seq<char>) -> u64 {
    if speed == "slow"@ {
        5_000
    } else if speed == "realtime"@ {
        2_500
    } else if speed == "fast"@ {
        500
    } else {
        0
    }
}

/// What a [`MatchEvent`] holds, as mathematical values.
pub struct MatchEventView {
    pub id: i64,
    pub match_id: i64,
    pub minute: i64,
    pub event_type: Seq<char>,
    pub team_type: Option<Seq<char>>,
    pub player_name: Option<Seq<char>>,
    pub description: Option<Seq<char>>,
    pub x_coordinate: Option<i64>,
    pub y_coordinate: Option<i64>,
    pub commentary: Option<Seq<char>>,
    pub sub_events: Option<Seq<char>>,
}

impl View for MatchEvent {
    type V = MatchEventView;

    open spec fn view(&self) -> MatchEventView {
        MatchEventView {
            id: self.id,
            match_id: self.match_id,
            minute: self.minute,
            event_type: self.event_type@,
            team_type: crate::model::text_of(self.team_type),
            player_name: crate::model::text_of(self.player_name),
            description: crate::model::text_of(self.description),
            x_coordinate: self.x_coordinate,
            y_coordinate: self.y_coordinate,
            commentary: crate::model::text_of(self.commentary),
            sub_events: crate::model::text_of(self.sub_events),
        }
    }
}

/// The views of a list of kept events, in order.
pub open spec fn row_views(rows: Seq<MatchEvent>) -> Seq<MatchEventView> {
    Seq::new(rows.len(), |i: int| rows[i]@)
}

/// The row that an event is kept as: tagged with the match and the minute
/// of its tick, not yet numbered, and named after its first player.
pub open spec fn row_of(match_id: i64, minute: i64, event: SimulationEvent) -> MatchEventView {
    MatchEventView {
        id: 0,
        match_id,
        minute,
        event_type: event.event_type.label(),
        team_type: Some(event.team.label()),
        player_name: crate::model::text_of(event.primary_player),
        description: Some(event.description@),
        x_coordinate: Some(event.x),
        y_coordinate: Some(event.y),
        commentary: None,
        sub_events: None,
    }
}

/// The rows kept of the first `n` events of a tick, in order.
pub open spec fn rows_of_events(
    match_id: i64,
    minute: i64,
    events: Seq<SimulationEvent>,
    n: int,
) -> Seq<MatchEventView>
    decreases n,
{
    if n <= 0 {
        Seq::empty()
    } else {
        let before = rows_of_events(match_id, minute, events, n - 1);
        if is_kept(events[n - 1].event_type) {
            before.push(row_of(match_id, minute, events[n - 1]))
        } else {
            before
        }
    }
}

/// The rows kept of the first `n` ticks of a match, in order.
pub open spec fn rows_of_ticks(match_id: i64, ticks: Seq<SimulationTick>, n: int) -> Seq<
    MatchEventView,
>
    decreases n,
{
    if n <= 0 {
        Seq::empty()
    } else {
        rows_of_ticks(match_id, ticks, n - 1) + rows_of_events(
            match_id,
            ticks[n - 1].minute,
            ticks[n - 1].events@,
            ticks[n - 1].events@.len() as int,
        )
    }
}

/// An error as the text that a host reports.
pub fn map_err(e: PreconditionError) -> (text: String)
    ensures
        text@ == e.message_text(),
{
    e.message()
}

/// How long a host waits between two ticks at a given speed, in
/// milliseconds: five seconds when `slow`, two and a half at `realtime`,
/// half a second when `fast`, and not at all at any other speed.
pub fn delay_for_speed(speed: &str) -> (delay_ms: u64)
    ensures
        delay_ms == delay_of(speed@),
{
    let wanted = String::from_str(speed);
    if wanted == String::from_str("slow") {
        5_000
    } else if wanted == String::from_str("realtime") {
        2_500
    } else if wanted == String::from_str("fast") {
        500
    } else {
        0
    }
}

/// What signing in comes to, with the account as the store found it by the
/// address given: whoever has no account is turned away.
pub fn sign_in(found: Option<User>) -> (signed_in: Result<User, String>)
    ensures
        match found {
            Some(user) => signed_in == Ok::<User, String>(user),
            None => signed_in.is_err() && signed_in.unwrap_err()@ == "Invalid credentials"@,
        },
{
    match found {
        Some(user) => Ok(user),
        None => Err(String::from_str("Invalid credentials")),
    }
}

/// A match that is already over is not played again.
pub fn ensure_not_completed(game: &GameMatch) -> (checked: Result<(), String>)
    ensures
        game.status@ == "completed"@ ==> checked.is_err() && checked.unwrap_err()@
            == "Match already completed"@,
        game.status@ != "completed"@ ==> checked.is_ok(),
{
    if game.status == String::from_str("completed") {
        Err(String::from_str("Match already completed"))
    } else {
        Ok(())
    }
}

/// The channel of its own that an event of this kind is passed on over:
/// goals have one, and all cards share one.
pub fn event_channel(kind: EventKind) -> (channel: Option<Channel>)
    ensures
        channel == channel_of(kind),
{
    match kind {
        EventKind::Goal => Some(Channel::Goal),
        EventKind::YellowCard => Some(Channel::Card),
        EventKind::RedCard => Some(Channel::Card),
        EventKind::SecondYellow => Some(Channel::Card),
        _ => None,
    }
}

/// Whether a tick is passed on once more over the half-time channel.
pub fn is_half_time(tick: &SimulationTick) -> (yes: bool)
    ensures
        yes == (tick.phase == Phase::HalfTime),
{
    tick.phase == Phase::HalfTime
}

/// Whether an event of this kind is kept once the match is over: goals,
/// cards of every colour, fouls and corners are.
pub fn is_persisted(kind: EventKind) -> (kept: bool)
    ensures
        kept == is_kept(kind),
{
    match kind {
        EventKind::Goal => true,
        EventKind::YellowCard => true,
        EventKind::RedCard => true,
        EventKind::SecondYellow => true,
        EventKind::Foul => true,
        EventKind::Corner => true,
        _ => false,
    }
}

fn copy_of(text: &Option<String>) -> (copy: Option<String>)
    ensures
        crate::model::text_of(copy) == crate::model::text_of(*text),
{
    match text {
        Some(t) => Some(t.clone()),
        None => None,
    }
}

/// The rows that a host keeps of a match: one for each event of a kind that
/// is kept, in the order of the ticks and of the events within them.
pub fn match_events(match_id: i64, ticks: &Vec<SimulationTick>) -> (rows: Vec<MatchEvent>)
    ensures
        row_views(rows@) == rows_of_ticks(match_id, ticks@, ticks@.len() as int),
        rows@.len() == rows_of_ticks(match_id, ticks@, ticks@.len() as int).len(),
{
    let mut rows: Vec<MatchEvent> = Vec::new();
    let mut i: usize = 0;
    while i < ticks.len()
        invariant
            i <= ticks@.len(),
            row_views(rows@) == rows_of_ticks(match_id, ticks@, i as int),
        decreases ticks@.len() - i,
    {
        let tick = &ticks[i];
        let ghost done = row_views(rows@);
        let mut j: usize = 0;
        while j < tick.events.len()
            invariant
                j <= tick.events@.len(),
                row_views(rows@) == done + rows_of_events(
                    match_id,
                    tick.minute,
                    tick.events@,
                    j as int,
                ),
            decreases tick.events@.len() - j,
        {
            let event = &tick.events[j];
            let ghost before = row_views(rows@);
            if is_persisted(event.event_type) {
                let row = MatchEvent {
                    id: 0,
                    match_id,
                    minute: tick.minute,
                    event_type: String::from_str(event.event_type.as_str()),
                    team_type: Some(String::from_str(event.team.as_str())),
                    player_name: copy_of(&event.primary_player),
                    description: Some(event.description.clone()),
                    x_coordinate: Some(event.x),
                    y_coordinate: Some(event.y),
                    commentary: None,
                    sub_events: None,
                };
                rows.push(row);
                assert(row_views(rows@) =~= before.push(row@));
            }
            j += 1;
        }
        i += 1;
    }
    rows
}

} // verus!
