//! The records that a match is built from and the records that it produces.
//!
//! Pitch coordinates are thousandths of a pitch unit: the pitch spans
//! `0..=100_000` along its length and `0..=68_000` across, and the home side
//! attacks towards the high end of the length.

use vstd::prelude::*;

verus! {

/// One of the two teams of a match.
#[derive(Clone, Copy, Debug, PartialEq, Eq, Structural)]
pub enum Side {
    Home,
    Away,
}

impl Side {
    /// The other team.
    pub open spec fn other(self) -> Side {
        match self {
            Side::Home => Side::Away,
            Side::Away => Side::Home,
        }
    }

    /// The label that hosts know the side by.
    pub open spec fn label(self) -> Seq<char> {
        match self {
            Side::Home => "home"@,
            Side::Away => "away"@,
        }
    }

    /// The other team.
    pub fn opponent(self) -> (opp: Side)
        ensures
            opp == self.other(),
    {
        match self {
            Side::Home => Side::Away,
            Side::Away => Side::Home,
        }
    }

    /// The label that hosts know the side by: `home` or `away`.
    pub fn as_str(self) -> (s: &'static str)
        ensures
            s@ == self.label(),
    {
        match self {
            Side::Home => "home",
            Side::Away => "away",
        }
    }
}

/// What can happen within a minute. The set is closed.
#[derive(Clone, Copy, Debug, PartialEq, Eq, Structural)]
pub enum EventKind {
    Goal,
    ShotBlocked,
    ShotOffTarget,
    Save,
    Corner,
    Foul,
    YellowCard,
    SecondYellow,
    RedCard,
    Tackle,
    Offside,
}

impl EventKind {
    /// The label that hosts know the kind by.
    pub open spec fn label(self) -> Seq<char> {
        match self {
            EventKind::Goal => "goal"@,
            EventKind::ShotBlocked => "shot_blocked"@,
            EventKind::ShotOffTarget => "shot_off_target"@,
            EventKind::Save => "save"@,
            EventKind::Corner => "corner"@,
            EventKind::Foul => "foul"@,
            EventKind::YellowCard => "yellow_card"@,
            EventKind::SecondYellow => "second_yellow"@,
            EventKind::RedCard => "red_card"@,
            EventKind::Tackle => "tackle"@,
            EventKind::Offside => "offside"@,
        }
    }

    /// Whether an event of this kind puts its side into an attacking phase.
    pub open spec fn is_attacking(self) -> bool {
        self == EventKind::Goal || self == EventKind::ShotBlocked || self == EventKind::Save
    }

    /// The label that hosts know the kind by, such as `shot_off_target`.
    pub fn as_str(self) -> (s: &'static str)
        ensures
            s@ == self.label(),
    {
        match self {
            EventKind::Goal => "goal",
            EventKind::ShotBlocked => "shot_blocked",
            EventKind::ShotOffTarget => "shot_off_target",
            EventKind::Save => "save",
            EventKind::Corner => "corner",
            EventKind::Foul => "foul",
            EventKind::YellowCard => "yellow_card",
            EventKind::SecondYellow => "second_yellow",
            EventKind::RedCard => "red_card",
            EventKind::Tackle => "tackle",
            EventKind::Offside => "offside",
        }
    }
}

/// The passage of play that a tick belongs to.
#[derive(Clone, Copy, Debug, PartialEq, Eq, Structural)]
pub enum Phase {
    OpenPlay,
    Attack(Side),
    HalfTime,
    FullTime,
}

impl Phase {
    /// The label that hosts know the phase by.
    pub open spec fn label(self) -> Seq<char> {
        match self {
            Phase::OpenPlay => "open_play"@,
            Phase::Attack(Side::Home) => "attack_home"@,
            Phase::Attack(Side::Away) => "attack_away"@,
            Phase::HalfTime => "half_time"@,
            Phase::FullTime => "full_time"@,
        }
    }

    /// The label that hosts know the phase by, such as `attack_home`.
    pub fn as_str(self) -> (s: &'static str)
        ensures
            s@ == self.label(),
    {
        match self {
            Phase::OpenPlay => "open_play",
            Phase::Attack(Side::Home) => "attack_home",
            Phase::Attack(Side::Away) => "attack_away",
            Phase::HalfTime => "half_time",
            Phase::FullTime => "full_time",
        }
    }
}

/// A coarse region of the pitch, seen from the side in possession.
#[derive(Clone, Copy, Debug, PartialEq, Eq, Structural)]
pub enum Zone {
    DefHome,
    AttHome,
    DefAway,
    AttAway,
    Mid,
}

impl Zone {
    /// The label that hosts know the zone by.
    pub open spec fn label(self) -> Seq<char> {
        match self {
            Zone::DefHome => "def_home"@,
            Zone::AttHome => "att_home"@,
            Zone::DefAway => "def_away"@,
            Zone::AttAway => "att_away"@,
            Zone::Mid => "mid"@,
        }
    }

    /// The label that hosts know the zone by, such as `def_home`.
    pub fn as_str(self) -> (s: &'static str)
        ensures
            s@ == self.label(),
    {
        match self {
            Zone::DefHome => "def_home",
            Zone::AttHome => "att_home",
            Zone::DefAway => "def_away",
            Zone::AttAway => "att_away",
            Zone::Mid => "mid",
        }
    }
}

/// A team's identity. The simulation reads only the name.
#[derive(Clone, Debug, PartialEq, Eq)]
pub struct Team {
    pub id: i64,
    pub name: String,
}

/// A squad member. The first eleven of a squad start the match.
#[derive(Clone, Debug, PartialEq, Eq)]
pub struct Player {
    pub id: i64,
    pub first_name: String,
    pub last_name: String,
    pub shirt_number: Option<i64>,
    pub position_short: Option<String>,
}

/// One slot of a formation: a role and where it stands, in thousandths.
#[derive(Clone, Debug, PartialEq, Eq)]
pub struct FormationPosition {
    pub position: String,
    pub x: i64,
    pub y: i64,
}

/// A formation. `positions` is `None` where its slots could not be read.
#[derive(Clone, Debug, PartialEq, Eq)]
pub struct Formation {
    pub id: i64,
    pub name: String,
    pub display_name: Option<String>,
    pub description: Option<String>,
    pub positions: Option<Vec<FormationPosition>>,
    pub style: Option<String>,
    pub defenders_count: i64,
    pub midfielders_count: i64,
    pub forwards_count: i64,
    pub is_active: bool,
}

/// Where the ball is, in thousandths of a pitch unit.
#[derive(Clone, Copy, Debug, PartialEq, Eq, Structural)]
pub struct BallPosition {
    pub x: i64,
    pub y: i64,
}

/// Goals scored by each side.
#[derive(Clone, Copy, Debug, PartialEq, Eq, Structural)]
pub struct Score {
    pub home: i64,
    pub away: i64,
}

/// One side's running counters. `possession_pct` is a whole percentage and is
/// only settled when the match ends.
#[derive(Clone, Copy, Debug, PartialEq, Eq, Structural)]
pub struct TeamStats {
    pub possession_pct: i64,
    pub shots: i64,
    pub shots_on_target: i64,
    pub corners: i64,
    pub fouls: i64,
    pub yellow_cards: i64,
    pub red_cards: i64,
    pub saves: i64,
    pub passes: i64,
    pub tackles: i64,
    pub offsides: i64,
}

/// The counters that a side's statistics hold besides possession.
#[derive(Clone, Copy, Debug, PartialEq, Eq, Structural)]
pub enum Stat {
    Shots,
    ShotsOnTarget,
    Corners,
    Fouls,
    YellowCards,
    RedCards,
    Saves,
    Passes,
    Tackles,
    Offsides,
}

impl TeamStats {
    /// The statistics at kick-off: an even split of possession, all counters at zero.
    pub open spec fn fresh() -> TeamStats {
        TeamStats {
            possession_pct: 50,
            shots: 0,
            shots_on_target: 0,
            corners: 0,
            fouls: 0,
            yellow_cards: 0,
            red_cards: 0,
            saves: 0,
            passes: 0,
            tackles: 0,
            offsides: 0,
        }
    }

    /// The value of one counter.
    pub open spec fn counter(self, stat: Stat) -> int {
        match stat {
            Stat::Shots => self.shots as int,
            Stat::ShotsOnTarget => self.shots_on_target as int,
            Stat::Corners => self.corners as int,
            Stat::Fouls => self.fouls as int,
            Stat::YellowCards => self.yellow_cards as int,
            Stat::RedCards => self.red_cards as int,
            Stat::Saves => self.saves as int,
            Stat::Passes => self.passes as int,
            Stat::Tackles => self.tackles as int,
            Stat::Offsides => self.offsides as int,
        }
    }

    /// These statistics with one counter set to `value`.
    pub open spec fn with_counter(self, stat: Stat, value: i64) -> TeamStats {
        match stat {
            Stat::Shots => TeamStats { shots: value, ..self },
            Stat::ShotsOnTarget => TeamStats { shots_on_target: value, ..self },
            Stat::Corners => TeamStats { corners: value, ..self },
            Stat::Fouls => TeamStats { fouls: value, ..self },
            Stat::YellowCards => TeamStats { yellow_cards: value, ..self },
            Stat::RedCards => TeamStats { red_cards: value, ..self },
            Stat::Saves => TeamStats { saves: value, ..self },
            Stat::Passes => TeamStats { passes: value, ..self },
            Stat::Tackles => TeamStats { tackles: value, ..self },
            Stat::Offsides => TeamStats { offsides: value, ..self },
        }
    }

    /// Every counter is at least zero and leaves room for `n` more.
    pub open spec fn has_room(self, n: int) -> bool {
        &&& 0 <= self.shots <= i64::MAX - n
        &&& 0 <= self.shots_on_target <= i64::MAX - n
        &&& 0 <= self.corners <= i64::MAX - n
        &&& 0 <= self.fouls <= i64::MAX - n
        &&& 0 <= self.yellow_cards <= i64::MAX - n
        &&& 0 <= self.red_cards <= i64::MAX - n
        &&& 0 <= self.saves <= i64::MAX - n
        &&& 0 <= self.passes <= i64::MAX - n
        &&& 0 <= self.tackles <= i64::MAX - n
        &&& 0 <= self.offsides <= i64::MAX - n
    }

    /// No counter of `self` is above the same counter of `later`.
    pub open spec fn at_most(self, later: TeamStats) -> bool {
        &&& self.shots <= later.shots
        &&& self.shots_on_target <= later.shots_on_target
        &&& self.corners <= later.corners
        &&& self.fouls <= later.fouls
        &&& self.yellow_cards <= later.yellow_cards
        &&& self.red_cards <= later.red_cards
        &&& self.saves <= later.saves
        &&& self.passes <= later.passes
        &&& self.tackles <= later.tackles
        &&& self.offsides <= later.offsides
    }

    /// No counter of `later` is below the same counter of `self`, nor more
    /// than `n` above it.
    pub open spec fn grown_within(self, later: TeamStats, n: int) -> bool {
        &&& self.shots <= later.shots <= self.shots + n
        &&& self.shots_on_target <= later.shots_on_target <= self.shots_on_target + n
        &&& self.corners <= later.corners <= self.corners + n
        &&& self.fouls <= later.fouls <= self.fouls + n
        &&& self.yellow_cards <= later.yellow_cards <= self.yellow_cards + n
        &&& self.red_cards <= later.red_cards <= self.red_cards + n
        &&& self.saves <= later.saves <= self.saves + n
        &&& self.passes <= later.passes <= self.passes + n
        &&& self.tackles <= later.tackles <= self.tackles + n
        &&& self.offsides <= later.offsides <= self.offsides + n
    }

    /// Whether every counter is at least zero and leaves room for `n` more.
    pub fn check_room(&self, n: i64) -> (ok: bool)
        requires
            0 <= n,
        ensures
            ok == self.has_room(n as int),
    {
        let most: i64 = i64::MAX - n;
        0 <= self.shots && self.shots <= most && 0 <= self.shots_on_target
            && self.shots_on_target <= most && 0 <= self.corners && self.corners <= most && 0
            <= self.fouls && self.fouls <= most && 0 <= self.yellow_cards && self.yellow_cards
            <= most && 0 <= self.red_cards && self.red_cards <= most && 0 <= self.saves
            && self.saves <= most && 0 <= self.passes && self.passes <= most && 0
            <= self.tackles && self.tackles <= most && 0 <= self.offsides && self.offsides
            <= most
    }

    /// The statistics at kick-off.
    pub fn new() -> (stats: TeamStats)
        ensures
            stats == TeamStats::fresh(),
    {
        TeamStats {
            possession_pct: 50,
            shots: 0,
            shots_on_target: 0,
            corners: 0,
            fouls: 0,
            yellow_cards: 0,
            red_cards: 0,
            saves: 0,
            passes: 0,
            tackles: 0,
            offsides: 0,
        }
    }
}

/// Both sides' statistics.
#[derive(Clone, Copy, Debug, PartialEq, Eq, Structural)]
pub struct MatchStats {
    pub home: TeamStats,
    pub away: TeamStats,
}

impl MatchStats {
    /// The statistics of one side.
    pub open spec fn of(self, side: Side) -> TeamStats {
        match side {
            Side::Home => self.home,
            Side::Away => self.away,
        }
    }

    /// These statistics with one side's counter raised by `amount`.
    pub open spec fn raised(self, side: Side, stat: Stat, amount: int) -> MatchStats {
        let value = (self.of(side).counter(stat) + amount) as i64;
        match side {
            Side::Home => MatchStats { home: self.home.with_counter(stat, value), ..self },
            Side::Away => MatchStats { away: self.away.with_counter(stat, value), ..self },
        }
    }
}

/// One step of the build-up to an event.
#[derive(Clone, Debug, PartialEq, Eq)]
pub struct SequenceStep {
    pub action: String,
    pub actor: Option<String>,
    pub ball_start: BallPosition,
    pub ball_end: BallPosition,
    pub duration_ms: i64,
}

/// A discrete occurrence within a tick.
#[derive(Clone, Debug, PartialEq, Eq)]
pub struct SimulationEvent {
    pub event_type: EventKind,
    pub team: Side,
    pub primary_player: Option<String>,
    pub secondary_player: Option<String>,
    pub description: String,
    pub x: i64,
    pub y: i64,
    pub sequence: Vec<SequenceStep>,
}

/// What a [`SimulationEvent`] holds, as mathematical values.
pub struct EventView {
    pub event_type: EventKind,
    pub team: Side,
    pub primary_player: Option<Seq<char>>,
    pub secondary_player: Option<Seq<char>>,
    pub description: Seq<char>,
    pub x: int,
    pub y: int,
    pub steps: nat,
}

/// The characters of an optional string.
pub open spec fn text_of(s: Option<String>) -> Option<Seq<char>> {
    match s {
        Some(t) => Some(t@),
        None => None,
    }
}

impl View for SimulationEvent {
    type V = EventView;

    open spec fn view(&self) -> EventView {
        EventView {
            event_type: self.event_type,
            team: self.team,
            primary_player: text_of(self.primary_player),
            secondary_player: text_of(self.secondary_player),
            description: self.description@,
            x: self.x as int,
            y: self.y as int,
            steps: self.sequence@.len(),
        }
    }
}

/// The views of a list of events, in order.
pub open spec fn event_views(events: Seq<SimulationEvent>) -> Seq<EventView> {
    Seq::new(events.len(), |i: int| events[i]@)
}

/// How many of the first `n` events are goals for `side`.
pub open spec fn goals_among(events: Seq<EventView>, side: Side, n: int) -> int
    decreases n,
{
    if n <= 0 {
        0
    } else {
        goals_among(events, side, n - 1) + if events[n - 1].event_type == EventKind::Goal
            && events[n - 1].team == side {
            1int
        } else {
            0int
        }
    }
}

/// How many of the events are goals for `side`.
pub open spec fn goals_in(events: Seq<EventView>, side: Side) -> int {
    goals_among(events, side, events.len() as int)
}

/// One simulated minute, or a half-time or full-time marker.
#[derive(Clone, Debug, PartialEq, Eq)]
pub struct SimulationTick {
    pub minute: i64,
    pub phase: Phase,
    pub possession: Side,
    pub zone: Zone,
    pub ball: BallPosition,
    pub events: Vec<SimulationEvent>,
    pub score: Score,
    pub stats: MatchStats,
    pub commentary: String,
}

/// What a [`SimulationTick`] holds, as mathematical values.
pub struct TickView {
    pub minute: int,
    pub phase: Phase,
    pub possession: Side,
    pub zone: Zone,
    pub ball: BallPosition,
    pub events: Seq<EventView>,
    pub score: Score,
    pub stats: MatchStats,
    pub commentary: Seq<char>,
}

impl View for SimulationTick {
    type V = TickView;

    open spec fn view(&self) -> TickView {
        TickView {
            minute: self.minute as int,
            phase: self.phase,
            possession: self.possession,
            zone: self.zone,
            ball: self.ball,
            events: event_views(self.events@),
            score: self.score,
            stats: self.stats,
            commentary: self.commentary@,
        }
    }
}

/// The views of a list of ticks, in order.
pub open spec fn tick_views(ticks: Seq<SimulationTick>) -> Seq<TickView> {
    Seq::new(ticks.len(), |i: int| ticks[i]@)
}

/// How many goals for `side` the first `n` ticks report.
pub open spec fn goals_reported(ticks: Seq<TickView>, side: Side, n: int) -> int
    decreases n,
{
    if n <= 0 {
        0
    } else {
        goals_reported(ticks, side, n - 1) + goals_in(ticks[n - 1].events, side)
    }
}

/// How many of the first `n` ticks have the home side in possession.
pub open spec fn home_ticks(ticks: Seq<TickView>, n: int) -> int
    decreases n,
{
    if n <= 0 {
        0
    } else {
        home_ticks(ticks, n - 1) + if ticks[n - 1].possession == Side::Home {
            1int
        } else {
            0int
        }
    }
}

/// A starter placed on the pitch for display before kick-off.
#[derive(Clone, Debug, PartialEq, Eq)]
pub struct LineupPlayer {
    pub id: i64,
    pub name: String,
    pub shirt_number: i64,
    pub position: String,
    pub x: i64,
    pub y: i64,
    pub team: Side,
}

/// Both starting elevens, placed.
#[derive(Clone, Debug, PartialEq, Eq)]
pub struct LineupData {
    pub home: Vec<LineupPlayer>,
    pub away: Vec<LineupPlayer>,
}

} // verus!
