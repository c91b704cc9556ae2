//! Skill profiles and what fatigue leaves of them.
//!
//! A skill is a whole number, nominally on a scale from 0 to 20. Fatigue is
//! held in millionths, from 0 (fresh) to 1_000_000 (spent), and takes up to a
//! quarter off every skill. The effective value of a skill is therefore held
//! in units of one four-millionth of a skill point, which keeps it exact.

use vstd::prelude::*;
use vstd::string::StringExecFns;

verus! {

/// Fatigue of a player who is spent, in millionths.
pub const FATIGUE_FULL: u32 = 1_000_000;

/// One skill point, in the units that effective values are held in.
pub const SKILL_POINT: i128 = 4_000_000;

/// The largest magnitude that an effective value can have: the largest raw
/// value a profile can hold, at no fatigue.
pub const EFFECTIVE_MAX: i128 = 36_893_488_147_419_103_232_000_000;

/// The value that stands in where a player has no profile or a skill has no name.
pub const NEUTRAL_SKILL: i64 = 10;

/// The skills that a profile holds, each of which can be asked for by name.
#[derive(Clone, Copy, Debug, PartialEq, Eq, Structural)]
pub enum Skill {
    Finishing,
    Heading,
    LongShots,
    Passing,
    Tackling,
    Technique,
    Crossing,
    Dribbling,
    Composure,
    Decisions,
    OffTheBall,
    Positioning,
    Vision,
    Pace,
    Strength,
    Aggression,
    Bravery,
    Anticipation,
    Concentration,
    Marking,
    Reflexes,
    Handling,
    AerialReach,
    OneOnOnes,
    PenaltyTaking,
    FreeKickTaking,
    Corners,
    Flair,
    Stamina,
    WorkRate,
    FirstTouch,
    LongThrows,
    Determination,
    Leadership,
    Teamwork,
    Acceleration,
    Agility,
    Balance,
    JumpingReach,
    NaturalFitness,
    CommandOfArea,
    Communication,
    Eccentricity,
    Kicking,
    RushingOut,
    Throwing,
}

impl Skill {
    /// The name that a skill goes by.
    pub open spec fn name(self) -> Seq<char> {
        match self {
            Skill::Finishing => "finishing"@,
            Skill::Heading => "heading"@,
            Skill::LongShots => "long_shots"@,
            Skill::Passing => "passing"@,
            Skill::Tackling => "tackling"@,
            Skill::Technique => "technique"@,
            Skill::Crossing => "crossing"@,
            Skill::Dribbling => "dribbling"@,
            Skill::Composure => "composure"@,
            Skill::Decisions => "decisions"@,
            Skill::OffTheBall => "off_the_ball"@,
            Skill::Positioning => "positioning"@,
            Skill::Vision => "vision"@,
            Skill::Pace => "pace"@,
            Skill::Strength => "strength"@,
            Skill::Aggression => "aggression"@,
            Skill::Bravery => "bravery"@,
            Skill::Anticipation => "anticipation"@,
            Skill::Concentration => "concentration"@,
            Skill::Marking => "marking"@,
            Skill::Reflexes => "reflexes"@,
            Skill::Handling => "handling"@,
            Skill::AerialReach => "aerial_reach"@,
            Skill::OneOnOnes => "one_on_ones"@,
            Skill::PenaltyTaking => "penalty_taking"@,
            Skill::FreeKickTaking => "free_kick_taking"@,
            Skill::Corners => "corners"@,
            Skill::Flair => "flair"@,
            Skill::Stamina => "stamina"@,
            Skill::WorkRate => "work_rate"@,
            Skill::FirstTouch => "first_touch"@,
            Skill::LongThrows => "long_throws"@,
            Skill::Determination => "determination"@,
            Skill::Leadership => "leadership"@,
            Skill::Teamwork => "teamwork"@,
            Skill::Acceleration => "acceleration"@,
            Skill::Agility => "agility"@,
            Skill::Balance => "balance"@,
            Skill::JumpingReach => "jumping_reach"@,
            Skill::NaturalFitness => "natural_fitness"@,
            Skill::CommandOfArea => "command_of_area"@,
            Skill::Communication => "communication"@,
            Skill::Eccentricity => "eccentricity"@,
            Skill::Kicking => "kicking"@,
            Skill::RushingOut => "rushing_out"@,
            Skill::Throwing => "throwing"@,
        }
    }

    /// The skill that goes by `name`, if there is one.
    pub open spec fn named(name: Seq<char>) -> Option<Skill> {
        if name == "finishing"@ {
            Some(Skill::Finishing)
        } else if name == "heading"@ {
            Some(Skill::Heading)
        } else if name == "long_shots"@ {
            Some(Skill::LongShots)
        } else if name == "passing"@ {
            Some(Skill::Passing)
        } else if name == "tackling"@ {
            Some(Skill::Tackling)
        } else if name == "technique"@ {
            Some(Skill::Technique)
        } else if name == "crossing"@ {
            Some(Skill::Crossing)
        } else if name == "dribbling"@ {
            Some(Skill::Dribbling)
        } else if name == "composure"@ {
            Some(Skill::Composure)
        } else if name == "decisions"@ {
            Some(Skill::Decisions)
        } else if name == "off_the_ball"@ {
            Some(Skill::OffTheBall)
        } else if name == "positioning"@ {
            Some(Skill::Positioning)
        } else if name == "vision"@ {
            Some(Skill::Vision)
        } else if name == "pace"@ {
            Some(Skill::Pace)
        } else if name == "strength"@ {
            Some(Skill::Strength)
        } else if name == "aggression"@ {
            Some(Skill::Aggression)
        } else if name == "bravery"@ {
            Some(Skill::Bravery)
        } else if name == "anticipation"@ {
            Some(Skill::Anticipation)
        } else if name == "concentration"@ {
            Some(Skill::Concentration)
        } else if name == "marking"@ {
            Some(Skill::Marking)
        } else if name == "reflexes"@ {
            Some(Skill::Reflexes)
        } else if name == "handling"@ {
            Some(Skill::Handling)
        } else if name == "aerial_reach"@ {
            Some(Skill::AerialReach)
        } else if name == "one_on_ones"@ {
            Some(Skill::OneOnOnes)
        } else if name == "penalty_taking"@ {
            Some(Skill::PenaltyTaking)
        } else if name == "free_kick_taking"@ {
            Some(Skill::FreeKickTaking)
        } else if name == "corners"@ {
            Some(Skill::Corners)
        } else if name == "flair"@ {
            Some(Skill::Flair)
        } else if name == "stamina"@ {
            Some(Skill::Stamina)
        } else if name == "work_rate"@ {
            Some(Skill::WorkRate)
        } else if name == "first_touch"@ {
            Some(Skill::FirstTouch)
        } else if name == "long_throws"@ {
            Some(Skill::LongThrows)
        } else if name == "determination"@ {
            Some(Skill::Determination)
        } else if name == "leadership"@ {
            Some(Skill::Leadership)
        } else if name == "teamwork"@ {
            Some(Skill::Teamwork)
        } else if name == "acceleration"@ {
            Some(Skill::Acceleration)
        } else if name == "agility"@ {
            Some(Skill::Agility)
        } else if name == "balance"@ {
            Some(Skill::Balance)
        } else if name == "jumping_reach"@ {
            Some(Skill::JumpingReach)
        } else if name == "natural_fitness"@ {
            Some(Skill::NaturalFitness)
        } else if name == "command_of_area"@ {
            Some(Skill::CommandOfArea)
        } else if name == "communication"@ {
            Some(Skill::Communication)
        } else if name == "eccentricity"@ {
            Some(Skill::Eccentricity)
        } else if name == "kicking"@ {
            Some(Skill::Kicking)
        } else if name == "rushing_out"@ {
            Some(Skill::RushingOut)
        } else if name == "throwing"@ {
            Some(Skill::Throwing)
        } else {
            None
        }
    }

    /// Looks a skill up by its name, such as `off_the_ball`. A name that no
    /// skill goes by gives `None`.
    pub fn from_name(name: &str) -> (skill: Option<Skill>)
        ensures
            skill == Skill::named(name@),
    {
        let wanted = String::from_str(name);
        if wanted == String::from_str("finishing") {
            Some(Skill::Finishing)
        } else if wanted == String::from_str("heading") {
            Some(Skill::Heading)
        } else if wanted == String::from_str("long_shots") {
            Some(Skill::LongShots)
        } else if wanted == String::from_str("passing") {
            Some(Skill::Passing)
        } else if wanted == String::from_str("tackling") {
            Some(Skill::Tackling)
        } else if wanted == String::from_str("technique") {
            Some(Skill::Technique)
        } else if wanted == String::from_str("crossing") {
            Some(Skill::Crossing)
        } else if wanted == String::from_str("dribbling") {
            Some(Skill::Dribbling)
        } else if wanted == String::from_str("composure") {
            Some(Skill::Composure)
        } else if wanted == String::from_str("decisions") {
            Some(Skill::Decisions)
        } else if wanted == String::from_str("off_the_ball") {
            Some(Skill::OffTheBall)
        } else if wanted == String::from_str("positioning") {
            Some(Skill::Positioning)
        } else if wanted == String::from_str("vision") {
            Some(Skill::Vision)
        } else if wanted == String::from_str("pace") {
            Some(Skill::Pace)
        } else if wanted == String::from_str("strength") {
            Some(Skill::Strength)
        } else if wanted == String::from_str("aggression") {
            Some(Skill::Aggression)
        } else if wanted == String::from_str("bravery") {
            Some(Skill::Bravery)
        } else if wanted == String::from_str("anticipation") {
            Some(Skill::Anticipation)
        } else if wanted == String::from_str("concentration") {
            Some(Skill::Concentration)
        } else if wanted == String::from_str("marking") {
            Some(Skill::Marking)
        } else if wanted == String::from_str("reflexes") {
            Some(Skill::Reflexes)
        } else if wanted == String::from_str("handling") {
            Some(Skill::Handling)
        } else if wanted == String::from_str("aerial_reach") {
            Some(Skill::AerialReach)
        } else if wanted == String::from_str("one_on_ones") {
            Some(Skill::OneOnOnes)
        } else if wanted == String::from_str("penalty_taking") {
            Some(Skill::PenaltyTaking)
        } else if wanted == String::from_str("free_kick_taking") {
            Some(Skill::FreeKickTaking)
        } else if wanted == String::from_str("corners") {
            Some(Skill::Corners)
        } else if wanted == String::from_str("flair") {
            Some(Skill::Flair)
        } else if wanted == String::from_str("stamina") {
            Some(Skill::Stamina)
        } else if wanted == String::from_str("work_rate") {
            Some(Skill::WorkRate)
        } else if wanted == String::from_str("first_touch") {
            Some(Skill::FirstTouch)
        } else if wanted == String::from_str("long_throws") {
            Some(Skill::LongThrows)
        } else if wanted == String::from_str("determination") {
            Some(Skill::Determination)
        } else if wanted == String::from_str("leadership") {
            Some(Skill::Leadership)
        } else if wanted == String::from_str("teamwork") {
            Some(Skill::Teamwork)
        } else if wanted == String::from_str("acceleration") {
            Some(Skill::Acceleration)
        } else if wanted == String::from_str("agility") {
            Some(Skill::Agility)
        } else if wanted == String::from_str("balance") {
            Some(Skill::Balance)
        } else if wanted == String::from_str("jumping_reach") {
            Some(Skill::JumpingReach)
        } else if wanted == String::from_str("natural_fitness") {
            Some(Skill::NaturalFitness)
        } else if wanted == String::from_str("command_of_area") {
            Some(Skill::CommandOfArea)
        } else if wanted == String::from_str("communication") {
            Some(Skill::Communication)
        } else if wanted == String::from_str("eccentricity") {
            Some(Skill::Eccentricity)
        } else if wanted == String::from_str("kicking") {
            Some(Skill::Kicking)
        } else if wanted == String::from_str("rushing_out") {
            Some(Skill::RushingOut)
        } else if wanted == String::from_str("throwing") {
            Some(Skill::Throwing)
        } else {
            None
        }
    }
}

/// Every skill is found by its own name, so that the value that a profile
/// holds for a skill is the value that the skill's name is answered with.
pub proof fn lemma_skill_found_by_name(skill: Skill)
    ensures
        Skill::named(skill.name()) == Some(skill),
{
    reveal_strlit("finishing");
    assert("finishing"@.len() == 9 && "finishing"@[0] == 'f' && "finishing"@[2] == 'n');
    reveal_strlit("heading");
    assert("heading"@.len() == 7 && "heading"@[0] == 'h' && "heading"@[2] == 'a');
    reveal_strlit("long_shots");
    assert("long_shots"@.len() == 10 && "long_shots"@[0] == 'l' && "long_shots"@[2] == 'n');
    reveal_strlit("passing");
    assert("passing"@.len() == 7 && "passing"@[0] == 'p' && "passing"@[2] == 's');
    reveal_strlit("tackling");
    assert("tackling"@.len() == 8 && "tackling"@[0] == 't' && "tackling"@[2] == 'c');
    reveal_strlit("technique");
    assert("technique"@.len() == 9 && "technique"@[0] == 't' && "technique"@[2] == 'c');
    reveal_strlit("crossing");
    assert("crossing"@.len() == 8 && "crossing"@[0] == 'c' && "crossing"@[2] == 'o');
    reveal_strlit("dribbling");
    assert("dribbling"@.len() == 9 && "dribbling"@[0] == 'd' && "dribbling"@[2] == 'i');
    reveal_strlit("composure");
    assert("composure"@.len() == 9 && "composure"@[0] == 'c' && "composure"@[2] == 'm');
    reveal_strlit("decisions");
    assert("decisions"@.len() == 9 && "decisions"@[0] == 'd' && "decisions"@[2] == 'c');
    reveal_strlit("off_the_ball");
    assert("off_the_ball"@.len() == 12 && "off_the_ball"@[0] == 'o' && "off_the_ball"@[2] == 'f');
    reveal_strlit("positioning");
    assert("positioning"@.len() == 11 && "positioning"@[0] == 'p' && "positioning"@[2] == 's');
    reveal_strlit("vision");
    assert("vision"@.len() == 6 && "vision"@[0] == 'v' && "vision"@[2] == 's');
    reveal_strlit("pace");
    assert("pace"@.len() == 4 && "pace"@[0] == 'p' && "pace"@[2] == 'c');
    reveal_strlit("strength");
    assert("strength"@.len() == 8 && "strength"@[0] == 's' && "strength"@[2] == 'r');
    reveal_strlit("aggression");
    assert("aggression"@.len() == 10 && "aggression"@[0] == 'a' && "aggression"@[2] == 'g');
    reveal_strlit("bravery");
    assert("bravery"@.len() == 7 && "bravery"@[0] == 'b' && "bravery"@[2] == 'a');
    reveal_strlit("anticipation");
    assert("anticipation"@.len() == 12 && "anticipation"@[0] == 'a' && "anticipation"@[2] == 't');
    reveal_strlit("concentration");
    assert("concentration"@.len() == 13 && "concentration"@[0] == 'c' && "concentration"@[2] == 'n');
    reveal_strlit("marking");
    assert("marking"@.len() == 7 && "marking"@[0] == 'm' && "marking"@[2] == 'r');
    reveal_strlit("reflexes");
    assert("reflexes"@.len() == 8 && "reflexes"@[0] == 'r' && "reflexes"@[2] == 'f');
    reveal_strlit("handling");
    assert("handling"@.len() == 8 && "handling"@[0] == 'h' && "handling"@[2] == 'n');
    reveal_strlit("aerial_reach");
    assert("aerial_reach"@.len() == 12 && "aerial_reach"@[0] == 'a' && "aerial_reach"@[2] == 'r');
    reveal_strlit("one_on_ones");
    assert("one_on_ones"@.len() == 11 && "one_on_ones"@[0] == 'o' && "one_on_ones"@[2] == 'e');
    reveal_strlit("penalty_taking");
    assert("penalty_taking"@.len() == 14 && "penalty_taking"@[0] == 'p' && "penalty_taking"@[2] == 'n');
    reveal_strlit("free_kick_taking");
    assert("free_kick_taking"@.len() == 16 && "free_kick_taking"@[0] == 'f' && "free_kick_taking"@[2] == 'e');
    reveal_strlit("corners");
    assert("corners"@.len() == 7 && "corners"@[0] == 'c' && "corners"@[2] == 'r');
    reveal_strlit("flair");
    assert("flair"@.len() == 5 && "flair"@[0] == 'f' && "flair"@[2] == 'a');
    reveal_strlit("stamina");
    assert("stamina"@.len() == 7 && "stamina"@[0] == 's' && "stamina"@[2] == 'a');
    reveal_strlit("work_rate");
    assert("work_rate"@.len() == 9 && "work_rate"@[0] == 'w' && "work_rate"@[2] == 'r');
    reveal_strlit("first_touch");
    assert("first_touch"@.len() == 11 && "first_touch"@[0] == 'f' && "first_touch"@[2] == 'r');
    reveal_strlit("long_throws");
    assert("long_throws"@.len() == 11 && "long_throws"@[0] == 'l' && "long_throws"@[2] == 'n');
    reveal_strlit("determination");
    assert("determination"@.len() == 13 && "determination"@[0] == 'd' && "determination"@[2] == 't');
    reveal_strlit("leadership");
    assert("leadership"@.len() == 10 && "leadership"@[0] == 'l' && "leadership"@[2] == 'a');
    reveal_strlit("teamwork");
    assert("teamwork"@.len() == 8 && "teamwork"@[0] == 't' && "teamwork"@[2] == 'a');
    reveal_strlit("acceleration");
    assert("acceleration"@.len() == 12 && "acceleration"@[0] == 'a' && "acceleration"@[2] == 'c');
    reveal_strlit("agility");
    assert("agility"@.len() == 7 && "agility"@[0] == 'a' && "agility"@[2] == 'i');
    reveal_strlit("balance");
    assert("balance"@.len() == 7 && "balance"@[0] == 'b' && "balance"@[2] == 'l');
    reveal_strlit("jumping_reach");
    assert("jumping_reach"@.len() == 13 && "jumping_reach"@[0] == 'j' && "jumping_reach"@[2] == 'm');
    reveal_strlit("natural_fitness");
    assert("natural_fitness"@.len() == 15 && "natural_fitness"@[0] == 'n' && "natural_fitness"@[2] == 't');
    reveal_strlit("command_of_area");
    assert("command_of_area"@.len() == 15 && "command_of_area"@[0] == 'c' && "command_of_area"@[2] == 'm');
    reveal_strlit("communication");
    assert("communication"@.len() == 13 && "communication"@[0] == 'c' && "communication"@[2] == 'm');
    reveal_strlit("eccentricity");
    assert("eccentricity"@.len() == 12 && "eccentricity"@[0] == 'e' && "eccentricity"@[2] == 'c');
    reveal_strlit("kicking");
    assert("kicking"@.len() == 7 && "kicking"@[0] == 'k' && "kicking"@[2] == 'c');
    reveal_strlit("rushing_out");
    assert("rushing_out"@.len() == 11 && "rushing_out"@[0] == 'r' && "rushing_out"@[2] == 's');
    reveal_strlit("throwing");
    assert("throwing"@.len() == 8 && "throwing"@[0] == 't' && "throwing"@[2] == 'r');
}

/// One player's skill profile.
#[derive(Clone, Copy, Debug, PartialEq, Eq, Structural)]
pub struct PlayerAttributes {
    pub player_id: i64,
    // Technical
    pub finishing: i64,
    pub first_touch: i64,
    pub free_kick_taking: i64,
    pub heading: i64,
    pub long_shots: i64,
    pub long_throws: i64,
    pub marking: i64,
    pub passing: i64,
    pub penalty_taking: i64,
    pub tackling: i64,
    pub technique: i64,
    pub corners: i64,
    pub crossing: i64,
    pub dribbling: i64,
    // Mental
    pub aggression: i64,
    pub anticipation: i64,
    pub bravery: i64,
    pub composure: i64,
    pub concentration: i64,
    pub decisions: i64,
    pub determination: i64,
    pub flair: i64,
    pub leadership: i64,
    pub off_the_ball: i64,
    pub positioning: i64,
    pub teamwork: i64,
    pub vision: i64,
    pub work_rate: i64,
    // Physical
    pub acceleration: i64,
    pub agility: i64,
    pub balance: i64,
    pub jumping_reach: i64,
    pub natural_fitness: i64,
    pub pace: i64,
    pub stamina: i64,
    pub strength: i64,
    // Goalkeeping
    pub aerial_reach: i64,
    pub command_of_area: i64,
    pub communication: i64,
    pub eccentricity: i64,
    pub handling: i64,
    pub kicking: i64,
    pub one_on_ones: i64,
    pub reflexes: i64,
    pub rushing_out: i64,
    pub throwing: i64,
}

impl PlayerAttributes {
    /// The raw value of one skill.
    pub open spec fn value(self, skill: Skill) -> i64 {
        match skill {
            Skill::Finishing => self.finishing,
            Skill::Heading => self.heading,
            Skill::LongShots => self.long_shots,
            Skill::Passing => self.passing,
            Skill::Tackling => self.tackling,
            Skill::Technique => self.technique,
            Skill::Crossing => self.crossing,
            Skill::Dribbling => self.dribbling,
            Skill::Composure => self.composure,
            Skill::Decisions => self.decisions,
            Skill::OffTheBall => self.off_the_ball,
            Skill::Positioning => self.positioning,
            Skill::Vision => self.vision,
            Skill::Pace => self.pace,
            Skill::Strength => self.strength,
            Skill::Aggression => self.aggression,
            Skill::Bravery => self.bravery,
            Skill::Anticipation => self.anticipation,
            Skill::Concentration => self.concentration,
            Skill::Marking => self.marking,
            Skill::Reflexes => self.reflexes,
            Skill::Handling => self.handling,
            Skill::AerialReach => self.aerial_reach,
            Skill::OneOnOnes => self.one_on_ones,
            Skill::PenaltyTaking => self.penalty_taking,
            Skill::FreeKickTaking => self.free_kick_taking,
            Skill::Corners => self.corners,
            Skill::Flair => self.flair,
            Skill::Stamina => self.stamina,
            Skill::WorkRate => self.work_rate,
            Skill::FirstTouch => self.first_touch,
            Skill::LongThrows => self.long_throws,
            Skill::Determination => self.determination,
            Skill::Leadership => self.leadership,
            Skill::Teamwork => self.teamwork,
            Skill::Acceleration => self.acceleration,
            Skill::Agility => self.agility,
            Skill::Balance => self.balance,
            Skill::JumpingReach => self.jumping_reach,
            Skill::NaturalFitness => self.natural_fitness,
            Skill::CommandOfArea => self.command_of_area,
            Skill::Communication => self.communication,
            Skill::Eccentricity => self.eccentricity,
            Skill::Kicking => self.kicking,
            Skill::RushingOut => self.rushing_out,
            Skill::Throwing => self.throwing,
        }
    }

    /// The raw value of one skill.
    pub fn skill(&self, skill: Skill) -> (v: i64)
        ensures
            v == self.value(skill),
    {
        match skill {
            Skill::Finishing => self.finishing,
            Skill::Heading => self.heading,
            Skill::LongShots => self.long_shots,
            Skill::Passing => self.passing,
            Skill::Tackling => self.tackling,
            Skill::Technique => self.technique,
            Skill::Crossing => self.crossing,
            Skill::Dribbling => self.dribbling,
            Skill::Composure => self.composure,
            Skill::Decisions => self.decisions,
            Skill::OffTheBall => self.off_the_ball,
            Skill::Positioning => self.positioning,
            Skill::Vision => self.vision,
            Skill::Pace => self.pace,
            Skill::Strength => self.strength,
            Skill::Aggression => self.aggression,
            Skill::Bravery => self.bravery,
            Skill::Anticipation => self.anticipation,
            Skill::Concentration => self.concentration,
            Skill::Marking => self.marking,
            Skill::Reflexes => self.reflexes,
            Skill::Handling => self.handling,
            Skill::AerialReach => self.aerial_reach,
            Skill::OneOnOnes => self.one_on_ones,
            Skill::PenaltyTaking => self.penalty_taking,
            Skill::FreeKickTaking => self.free_kick_taking,
            Skill::Corners => self.corners,
            Skill::Flair => self.flair,
            Skill::Stamina => self.stamina,
            Skill::WorkRate => self.work_rate,
            Skill::FirstTouch => self.first_touch,
            Skill::LongThrows => self.long_throws,
            Skill::Determination => self.determination,
            Skill::Leadership => self.leadership,
            Skill::Teamwork => self.teamwork,
            Skill::Acceleration => self.acceleration,
            Skill::Agility => self.agility,
            Skill::Balance => self.balance,
            Skill::JumpingReach => self.jumping_reach,
            Skill::NaturalFitness => self.natural_fitness,
            Skill::CommandOfArea => self.command_of_area,
            Skill::Communication => self.communication,
            Skill::Eccentricity => self.eccentricity,
            Skill::Kicking => self.kicking,
            Skill::RushingOut => self.rushing_out,
            Skill::Throwing => self.throwing,
        }
    }
}

/// What fatigue leaves of a raw skill value: the value less a share that grows
/// linearly with fatigue up to a quarter, in four-millionths of a skill point.
pub open spec fn effective_value(base: int, fatigue: int) -> int {
    base * (4_000_000 - fatigue)
}

/// What a player's fatigue grows by in one late minute, in millionths: a
/// hundredth of `1 - stamina / 40`, rounded down, and never less than a
/// five-hundredth. `stamina` is an effective value.
pub open spec fn fatigue_step(stamina: int) -> int {
    if 160_000_000 - stamina <= 32_000_000 {
        2_000
    } else {
        (160_000_000 - stamina) / 16_000
    }
}

/// A player's fatigue after one more late minute: it grows by the step and
/// stops at full fatigue.
pub open spec fn fatigue_after(base_stamina: int, fatigue: int) -> int {
    let grown = fatigue + fatigue_step(effective_value(base_stamina, fatigue));
    if grown >= 1_000_000 {
        1_000_000
    } else {
        grown
    }
}

/// A late minute never lowers fatigue and never takes it past full
/// fatigue; short of full fatigue it always raises it, whatever the stamina.
pub proof fn lemma_fatigue_after_bounds(base_stamina: int, fatigue: int)
    requires
        0 <= fatigue <= FATIGUE_FULL,
    ensures
        fatigue <= fatigue_after(base_stamina, fatigue) <= FATIGUE_FULL,
        fatigue < FATIGUE_FULL ==> fatigue < fatigue_after(base_stamina, fatigue),
{
}

/// What fatigue leaves of a raw skill value.
pub fn effective(base: i64, fatigue: u32) -> (v: i128)
    requires
        fatigue <= FATIGUE_FULL,
    ensures
        v == effective_value(base as int, fatigue as int),
        -EFFECTIVE_MAX <= v <= EFFECTIVE_MAX,
{
    let b: i128 = base as i128;
    let rest: i128 = 4_000_000 - (fatigue as i128);
    assert(-36_893_488_147_419_103_232_000_000 <= b * rest <= 36_893_488_147_419_103_232_000_000)
        by (nonlinear_arith)
        requires
            -0x8000_0000_0000_0000 <= b < 0x8000_0000_0000_0000,
            0 <= rest <= 4_000_000,
    ;
    b * rest
}

/// A player's fatigue after one more late minute.
pub fn tire(base_stamina: i64, fatigue: u32) -> (after: u32)
    requires
        fatigue <= FATIGUE_FULL,
    ensures
        after == fatigue_after(base_stamina as int, fatigue as int),
        fatigue <= after <= FATIGUE_FULL,
        fatigue < FATIGUE_FULL ==> fatigue < after,
{
    let stamina: i128 = effective(base_stamina, fatigue);
    let slack: i128 = 160_000_000 - stamina;
    let step: i128 = if slack <= 32_000_000 {
        2_000
    } else {
        slack / 16_000
    };
    let grown: i128 = (fatigue as i128) + step;
    if grown >= 1_000_000 {
        FATIGUE_FULL
    } else {
        grown as u32
    }
}

} // verus!
