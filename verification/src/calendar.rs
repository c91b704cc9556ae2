//! Where a manager stands in the calendar: the date of the game, the next
//! fixture and the days until it.
//!
//! Dates are texts of year, month and day. They are read by `chrono`; what
//! is made of what it reads is decided here.

use crate::records::{GameMatch, GameTimeResponse, RegisterPayload, User};
use chrono::{Datelike, NaiveDate};
use vstd::prelude::*;
use vstd::string::{StrSliceExecFns, StringExecFns};

verus! {

/// The first place at or after `k` that holds a `T`, or the length of the
/// text where none does.
pub open spec fn first_t_from(text: Seq<char>, k: int) -> int
    decreases text.len() - k,
{
    if 0 <= k < text.len() && text[k] != 'T' {
        first_t_from(text, k + 1)
    } else {
        k
    }
}

/// The date of a timestamp: what stands before its first `T`, or all of it
/// where it holds none.
pub open spec fn day_text(timestamp: Seq<char>) -> Seq<char> {
    timestamp.subrange(0, first_t_from(timestamp, 0))
}

/// The date that a game starts on.
pub open spec fn opening_day() -> Seq<char> {
    "2025-08-01"@
}

/// The date that a manager's game has reached: the opening day where none
/// is on record.
pub open spec fn game_date_of(user: User) -> Seq<char> {
    match user.game_date {
        Some(date) => date@,
        None => opening_day(),
    }
}

/// What the calendar knows of a date.
#[derive(Clone, Debug, PartialEq, Eq)]
pub struct DateFacts {
    /// The day's number, counted from the first day of the year 1.
    pub day_number: i32,
    /// The date written out, weekday and month by name.
    pub long_form: String,
    /// The date of the day after, as year, month and day, if a day follows.
    pub next_day: Option<String>,
}

/// What a [`DateFacts`] holds, as mathematical values.
pub struct DateFactsView {
    pub day_number: int,
    pub long_form: Seq<char>,
    pub next_day: Option<Seq<char>>,
}

impl View for DateFacts {
    type V = DateFactsView;

    open spec fn view(&self) -> DateFactsView {
        DateFactsView {
            day_number: self.day_number as int,
            long_form: self.long_form@,
            next_day: crate::model::text_of(self.next_day),
        }
    }
}

/// What `chrono` makes of a text that is to be a date: the facts of the
/// date, or the words in which it turns the text down. The text is read by
/// the pattern `day`, in which the day after is written too; the date is
/// written out by the pattern `long`.
pub uninterp spec fn date_facts(text: Seq<char>, day: Seq<char>, long: Seq<char>) -> Result<
    DateFactsView,
    Seq<char>,
>;

/// The pattern that the dates of a game are read and written by: year,
/// month and day, with dashes between.
pub open spec fn day_pattern() -> Seq<char> {
    "%Y-%m-%d"@
}

/// The pattern that a date is written out by: the weekday by name, the
/// month by name, the day of the month and the year.
pub open spec fn long_pattern() -> Seq<char> {
    "%A, %B %e, %Y"@
}

/// What `chrono` makes of the date of a game.
pub open spec fn game_date_facts(text: Seq<char>) -> Result<DateFactsView, Seq<char>> {
    date_facts(text, day_pattern(), long_pattern())
}

/// The number of the day that a text names, where it names one.
pub open spec fn day_number_of(text: Seq<char>) -> Option<i32> {
    match game_date_facts(text) {
        Ok(facts) => Some(facts.day_number as i32),
        Err(_) => None,
    }
}

/// The days from the date of the game to the next fixture: none where
/// there is no fixture, where it has no date, or where either date cannot
/// be read. Of the fixture's date only the part before the time counts.
pub open spec fn days_to_match(game_date: Seq<char>, next_match: Option<GameMatch>) -> Option<
    i64,
> {
    match next_match {
        Some(fixture) => match fixture.match_date {
            Some(date) => match day_number_of(day_text(date@)) {
                Some(due) => days_from(Some(due), day_number_of(game_date)),
                None => None,
            },
            None => None,
        },
        None => None,
    }
}

/// The date of the game written out, or as it stands where it cannot be
/// read.
pub open spec fn written_out(game_date: Seq<char>) -> Seq<char> {
    match game_date_facts(game_date) {
        Ok(facts) => facts.long_form,
        Err(_) => game_date,
    }
}

/// The date that follows the date of the game, or why there is none: the
/// words in which the text was turned down, or that the calendar ends here.
pub open spec fn day_after(game_date: Seq<char>) -> Result<Seq<char>, Seq<char>> {
    match game_date_facts(game_date) {
        Ok(facts) => match facts.next_day {
            Some(next) => Ok(next),
            None => Err("the calendar ends on this day"@),
        },
        Err(words) => Err(words),
    }
}

/// The days from today to the day of the next fixture, where both days are
/// known. Days are counted from a common first day.
pub open spec fn days_from(match_day: Option<i32>, today: Option<i32>) -> Option<i64> {
    match (match_day, today) {
        (Some(due), Some(now)) => Some((due - now) as i64),
        _ => None,
    }
}

/// The account that a payload opens, once the store has numbered it: the
/// game starts on the opening day.
pub fn registered_user(id: i64, payload: &RegisterPayload) -> (user: User)
    ensures
        user.id == id,
        user.name@ == payload.name@,
        user.email@ == payload.email@,
        user.managed_team_id == Some(payload.managed_team_id),
        crate::model::text_of(user.game_date) == Some(opening_day()),
{
    User {
        id,
        name: payload.name.clone(),
        email: payload.email.clone(),
        managed_team_id: Some(payload.managed_team_id),
        game_date: Some(String::from_str("2025-08-01")),
    }
}

/// The date that a manager's game has reached.
pub fn current_game_date(user: &User) -> (date: String)
    ensures
        date@ == game_date_of(*user),
{
    match &user.game_date {
        Some(date) => date.clone(),
        None => String::from_str("2025-08-01"),
    }
}

/// The team that a manager is in charge of. A manager without a team is
/// turned away.
pub fn managed_team(user: &User) -> (team: Result<i64, String>)
    ensures
        match user.managed_team_id {
            Some(id) => team == Ok::<i64, String>(id),
            None => team.is_err() && team.unwrap_err()@ == "No team assigned"@,
        },
{
    match user.managed_team_id {
        Some(id) => Ok(id),
        None => Err(String::from_str("No team assigned")),
    }
}

/// The date of a timestamp: what stands before its first `T`.
pub fn date_part(timestamp: &str) -> (date: String)
    ensures
        date@ == day_text(timestamp@),
{
    let length: usize = timestamp.unicode_len();
    let mut k: usize = 0;
    while k < length && timestamp.get_char(k) != 'T'
        invariant
            length == timestamp@.len(),
            k <= length,
            first_t_from(timestamp@, 0) == first_t_from(timestamp@, k as int),
        decreases length - k,
    {
        k += 1;
    }
    String::from_str(timestamp.substring_char(0, k))
}

/// The days from today to the day of the next fixture, where both days are
/// known.
pub fn days_until(match_day: Option<i32>, today: Option<i32>) -> (days: Option<i64>)
    ensures
        days == days_from(match_day, today),
{
    match (match_day, today) {
        (Some(due), Some(now)) => Some((due as i64) - (now as i64)),
        _ => None,
    }
}

/// `NaiveDate::parse_from_str` with the pattern `day`, and of the date that
/// it reads `Datelike::num_days_from_ce`, `NaiveDate::format` with the
/// pattern `long` and, on what `NaiveDate::succ_opt` gives, with the
/// pattern `day`; of the error that it gives, the text. The claim is only
/// that all of this depends on the text and the patterns alone, which is
/// what gives the result its name. Writing a date out fails on a pattern
/// that is not well formed; the two that are let in here are.
#[verifier::external_body]
fn read_date(text: &str, day: &str, long: &str) -> (read: Result<DateFacts, String>)
    requires
        day@ == day_pattern(),
        long@ == long_pattern(),
    ensures
        match read {
            Ok(facts) => date_facts(text@, day@, long@) == Ok::<DateFactsView, Seq<char>>(facts@),
            Err(words) => date_facts(text@, day@, long@) == Err::<DateFactsView, Seq<char>>(
                words@,
            ),
        },
{
    match NaiveDate::parse_from_str(text, day) {
        Ok(date) => Ok(DateFacts {
            day_number: date.num_days_from_ce(),
            long_form: date.format(long).to_string(),
            next_day: match date.succ_opt() {
                Some(next) => Some(next.format(day).to_string()),
                None => None,
            },
        }),
        Err(error) => Err(error.to_string()),
    }
}

fn read_game_date(text: &str) -> (read: Result<DateFacts, String>)
    ensures
        match read {
            Ok(facts) => game_date_facts(text@) == Ok::<DateFactsView, Seq<char>>(facts@),
            Err(words) => game_date_facts(text@) == Err::<DateFactsView, Seq<char>>(words@),
        },
{
    read_date(text, "%Y-%m-%d", "%A, %B %e, %Y")
}

fn read_day_number(text: &str) -> (day: Option<i32>)
    ensures
        day == day_number_of(text@),
{
    match read_game_date(text) {
        Ok(facts) => Some(facts.day_number),
        Err(_) => None,
    }
}

/// Where a manager stands in the calendar on the date of the game, with
/// the next fixture as the store found it.
pub fn game_time_for(game_date: String, next_match: Option<GameMatch>) -> (answer: GameTimeResponse)
    ensures
        answer.current_date == game_date,
        answer.formatted_date@ == written_out(game_date@),
        answer.next_match == next_match,
        answer.days_until_match == days_to_match(game_date@, next_match),
        answer.is_match_day == (answer.days_until_match == Some(0i64)),
{
    let days: Option<i64> = match &next_match {
        Some(fixture) => match &fixture.match_date {
            Some(date) => {
                let day = date_part(date.as_str());
                match read_day_number(day.as_str()) {
                    Some(due) => days_until(Some(due), read_day_number(game_date.as_str())),
                    None => None,
                }
            },
            None => None,
        },
        None => None,
    };
    let formatted = match read_game_date(game_date.as_str()) {
        Ok(facts) => facts.long_form,
        Err(_) => game_date.clone(),
    };
    game_time(game_date, formatted, next_match, days)
}

/// The date that the game moves on to when a day passes.
pub fn next_game_date(game_date: &str) -> (next: Result<String, String>)
    ensures
        match day_after(game_date@) {
            Ok(date) => next.is_ok() && next.unwrap()@ == date,
            Err(words) => next.is_err() && next.unwrap_err()@ == words,
        },
{
    match read_game_date(game_date) {
        Ok(facts) => match facts.next_day {
            Some(next) => Ok(next),
            None => Err(String::from_str("the calendar ends on this day")),
        },
        Err(words) => Err(words),
    }
}

/// Where a manager stands in the calendar. It is match day when no day is
/// left until the next fixture.
pub fn game_time(
    current_date: String,
    formatted_date: String,
    next_match: Option<GameMatch>,
    days_until_match: Option<i64>,
) -> (answer: GameTimeResponse)
    ensures
        answer == (GameTimeResponse {
            current_date,
            formatted_date,
            next_match,
            days_until_match,
            is_match_day: days_until_match == Some(0i64),
        }),
{
    let is_match_day: bool = match days_until_match {
        Some(days) => days == 0,
        None => false,
    };
    GameTimeResponse { current_date, formatted_date, next_match, days_until_match, is_match_day }
}

} // verus!
