//! The engine: what a match is played with, and the skill resolver.

use crate::model::{Formation, Player, Side, Team};
use crate::skills::{
    effective, effective_value, lemma_skill_found_by_name, PlayerAttributes, Skill,
    EFFECTIVE_MAX, NEUTRAL_SKILL,
};
use crate::state::{MatchState, MatchStateView};
use std::collections::HashMap;
use vstd::prelude::*;
use vstd::string::StringExecFns;

verus! {

/// How many players of a squad start the match.
pub const STARTERS: usize = 11;

/// Why a match cannot be played, or cannot be played on: what is handed in
/// does not meet what playing takes.
#[derive(Clone, Copy, Debug, PartialEq, Eq, Structural)]
pub enum PreconditionError {
    /// The squad of this side has fewer than eleven players.
    SquadTooShort(Side),
    /// A player of this side was to be chosen and every starter has been sent off.
    NoEligiblePlayer(Side),
    /// The score or a counter is negative or has no room left for what is to
    /// be counted.
    CountersFull,
}

impl PreconditionError {
    /// Whether the error is that a side has run out of starters.
    pub open spec fn is_lack_of_players(self) -> bool {
        match self {
            PreconditionError::NoEligiblePlayer(_) => true,
            _ => false,
        }
    }

    /// The error in words.
    pub open spec fn message_text(self) -> Seq<char> {
        match self {
            PreconditionError::SquadTooShort(Side::Home) => "the home squad has fewer than eleven players"@,
            PreconditionError::SquadTooShort(Side::Away) => "the away squad has fewer than eleven players"@,
            PreconditionError::NoEligiblePlayer(Side::Home) => "every home starter has been sent off"@,
            PreconditionError::NoEligiblePlayer(Side::Away) => "every away starter has been sent off"@,
            PreconditionError::CountersFull => "the counters have no room left"@,
        }
    }

    /// The error in words.
    pub fn message(&self) -> (text: String)
        ensures
            text@ == self.message_text(),
    {
        match self {
            PreconditionError::SquadTooShort(Side::Home) => String::from_str(
                "the home squad has fewer than eleven players",
            ),
            PreconditionError::SquadTooShort(Side::Away) => String::from_str(
                "the away squad has fewer than eleven players",
            ),
            PreconditionError::NoEligiblePlayer(Side::Home) => String::from_str(
                "every home starter has been sent off",
            ),
            PreconditionError::NoEligiblePlayer(Side::Away) => String::from_str(
                "every away starter has been sent off",
            ),
            PreconditionError::CountersFull => String::from_str("the counters have no room left"),
        }
    }
}

/// Everything that a match is played with. Nothing in it changes while the
/// match is played; what changes is held in a [`MatchState`].
pub struct SimulationEngine {
    home_team: Team,
    away_team: Team,
    home_squad: Vec<Player>,
    away_squad: Vec<Player>,
    home_attrs: HashMap<i64, PlayerAttributes>,
    away_attrs: HashMap<i64, PlayerAttributes>,
    home_formation: Option<Formation>,
    away_formation: Option<Formation>,
    seed: u64,
}

impl SimulationEngine {
    /// The team of one side.
    pub closed spec fn team(&self, side: Side) -> Team {
        match side {
            Side::Home => self.home_team,
            Side::Away => self.away_team,
        }
    }

    /// The squad of one side, starters first.
    pub closed spec fn players(&self, side: Side) -> Seq<Player> {
        match side {
            Side::Home => self.home_squad@,
            Side::Away => self.away_squad@,
        }
    }

    /// The skill profiles handed in for one side, by player id.
    pub closed spec fn profiles(&self, side: Side) -> Map<i64, PlayerAttributes> {
        match side {
            Side::Home => self.home_attrs@,
            Side::Away => self.away_attrs@,
        }
    }

    /// The formation of one side, if it has one.
    pub closed spec fn formation(&self, side: Side) -> Option<Formation> {
        match side {
            Side::Home => self.home_formation,
            Side::Away => self.away_formation,
        }
    }

    /// The seed that the match draws its chance from.
    pub closed spec fn seed(&self) -> u64 {
        self.seed
    }

    /// Both squads can field eleven starters.
    pub open spec fn wf(&self) -> bool {
        self.players(Side::Home).len() >= STARTERS && self.players(Side::Away).len() >= STARTERS
    }

    /// A player's profile: the home side's profiles are searched first, then
    /// the away side's.
    pub open spec fn profile_of(&self, player_id: i64) -> Option<PlayerAttributes> {
        if self.profiles(Side::Home).contains_key(player_id) {
            Some(self.profiles(Side::Home)[player_id])
        } else if self.profiles(Side::Away).contains_key(player_id) {
            Some(self.profiles(Side::Away)[player_id])
        } else {
            None
        }
    }

    /// The raw value of a player's skill: the neutral value where the player
    /// has no profile.
    pub open spec fn base_value(&self, player_id: i64, skill: Skill) -> int {
        match self.profile_of(player_id) {
            Some(profile) => profile.value(skill) as int,
            None => NEUTRAL_SKILL as int,
        }
    }

    /// The raw value of the skill that goes by `name`: the neutral value
    /// where no skill goes by that name.
    pub open spec fn named_base_value(&self, player_id: i64, name: Seq<char>) -> int {
        match Skill::named(name) {
            Some(skill) => self.base_value(player_id, skill),
            None => NEUTRAL_SKILL as int,
        }
    }

    /// Asked for by its name, every skill of a profile is answered with the
    /// value that the profile holds for it.
    pub proof fn lemma_named_skill(&self, player_id: i64, skill: Skill)
        ensures
            self.named_base_value(player_id, skill.name()) == self.base_value(player_id, skill),
    {
        lemma_skill_found_by_name(skill);
    }

    /// What a player's fatigue leaves of a skill, in four-millionths of a
    /// skill point.
    pub open spec fn skill_value(&self, state: MatchStateView, player_id: i64, skill: Skill) -> int {
        effective_value(self.base_value(player_id, skill), state.fatigue_of(player_id))
    }

    /// Sets a match up. Each squad lists its starting eleven first and must
    /// hold at least eleven players; the home squad is looked at first.
    pub fn new(
        home_team: Team,
        away_team: Team,
        home_squad: Vec<Player>,
        away_squad: Vec<Player>,
        home_attrs: HashMap<i64, PlayerAttributes>,
        away_attrs: HashMap<i64, PlayerAttributes>,
        home_formation: Option<Formation>,
        away_formation: Option<Formation>,
        seed: u64,
    ) -> (made: Result<SimulationEngine, PreconditionError>)
        ensures
            home_squad@.len() < STARTERS ==> made == Err::<SimulationEngine, PreconditionError>(
                PreconditionError::SquadTooShort(Side::Home),
            ),
            home_squad@.len() >= STARTERS && away_squad@.len() < STARTERS ==> made == Err::<
                SimulationEngine,
                PreconditionError,
            >(PreconditionError::SquadTooShort(Side::Away)),
            home_squad@.len() >= STARTERS && away_squad@.len() >= STARTERS ==> made.is_ok() && {
                let engine = made.unwrap();
                &&& engine.wf()
                &&& engine.team(Side::Home) == home_team
                &&& engine.team(Side::Away) == away_team
                &&& engine.players(Side::Home) == home_squad@
                &&& engine.players(Side::Away) == away_squad@
                &&& engine.profiles(Side::Home) == home_attrs@
                &&& engine.profiles(Side::Away) == away_attrs@
                &&& engine.formation(Side::Home) == home_formation
                &&& engine.formation(Side::Away) == away_formation
                &&& engine.seed() == seed
            },
    {
        if home_squad.len() < STARTERS {
            return Err(PreconditionError::SquadTooShort(Side::Home));
        }
        if away_squad.len() < STARTERS {
            return Err(PreconditionError::SquadTooShort(Side::Away));
        }
        Ok(
            SimulationEngine {
                home_team,
                away_team,
                home_squad,
                away_squad,
                home_attrs,
                away_attrs,
                home_formation,
                away_formation,
                seed,
            },
        )
    }

    /// The squad of one side, starters first.
    pub fn squad(&self, side: Side) -> (squad: &Vec<Player>)
        ensures
            squad@ == self.players(side),
    {
        match side {
            Side::Home => &self.home_squad,
            Side::Away => &self.away_squad,
        }
    }

    /// The name of one side's team.
    pub fn team_name(&self, side: Side) -> (name: &String)
        ensures
            name@ == self.team(side).name@,
    {
        match side {
            Side::Home => &self.home_team.name,
            Side::Away => &self.away_team.name,
        }
    }

    /// The formation of one side, if it has one.
    pub fn formation_of(&self, side: Side) -> (formation: &Option<Formation>)
        ensures
            *formation == self.formation(side),
    {
        match side {
            Side::Home => &self.home_formation,
            Side::Away => &self.away_formation,
        }
    }

    /// The seed that the match draws its chance from.
    pub fn seed_value(&self) -> (seed: u64)
        ensures
            seed == self.seed(),
    {
        self.seed
    }

    /// The raw value of a player's skill.
    pub fn base_skill(&self, player_id: i64, skill: Skill) -> (v: i64)
        ensures
            v == self.base_value(player_id, skill),
    {
        match self.home_attrs.get(&player_id) {
            Some(profile) => profile.skill(skill),
            None => match self.away_attrs.get(&player_id) {
                Some(profile) => profile.skill(skill),
                None => NEUTRAL_SKILL,
            },
        }
    }

    /// What a player's fatigue leaves of a skill, in four-millionths of a
    /// skill point.
    pub fn attribute(&self, state: &MatchState, player_id: i64, skill: Skill) -> (v: i128)
        requires
            state@.wf(),
        ensures
            v == self.skill_value(state@, player_id, skill),
            -EFFECTIVE_MAX <= v <= EFFECTIVE_MAX,
    {
        effective(self.base_skill(player_id, skill), state.fatigue(player_id))
    }

    /// What a player's fatigue leaves of the skill that goes by `attr`, in
    /// four-millionths of a skill point. A name that no skill goes by is
    /// answered with the neutral value, worn down like any other.
    pub fn get_attr(&self, state: &MatchState, player_id: i64, attr: &str) -> (v: i128)
        requires
            state@.wf(),
        ensures
            v == effective_value(
                self.named_base_value(player_id, attr@),
                state@.fatigue_of(player_id),
            ),
    {
        match Skill::from_name(attr) {
            Some(skill) => self.attribute(state, player_id, skill),
            None => effective(NEUTRAL_SKILL, state.fatigue(player_id)),
        }
    }
}

} // verus!
