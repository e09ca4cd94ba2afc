//! Dates as the user writes them, brought to the ISO form `YYYY-MM-DD`.

use crate::text::{push_zero_padded, zero_padded};
use chrono::Datelike;
use vstd::prelude::*;
use vstd::string::*;

verus! {

/// A day of the proleptic Gregorian calendar.
#[derive(Debug, Clone, Copy, PartialEq, Eq, Structural)]
pub struct CalendarDate {
    pub year: i32,
    /// 1 for January up to 12 for December.
    pub month: u32,
    /// The day of the month, from 1.
    pub day: u32,
}

impl CalendarDate {
    /// Month and day lie in the ranges that a calendar has.
    pub open spec fn well_formed(self) -> bool {
        1 <= self.month <= 12 && 1 <= self.day <= 31
    }

    /// The year of the ISO form: four digits from 0 to 9999, otherwise a
    /// sign followed by at least four digits.
    pub open spec fn year_text(self) -> Seq<char> {
        if 0 <= self.year <= 9999 {
            zero_padded(self.year as nat, 4)
        } else if self.year < 0 {
            seq!['-'] + zero_padded((-self.year) as nat, 4)
        } else {
            seq!['+'] + zero_padded(self.year as nat, 4)
        }
    }

    /// The ISO form of the date.
    pub open spec fn iso_text(self) -> Seq<char> {
        self.year_text() + seq!['-'] + zero_padded(self.month as nat, 2) + seq!['-'] + zero_padded(
            self.day as nat,
            2,
        )
    }

    /// Writes the date in ISO form.
    pub fn to_iso_string(&self) -> (iso: String)
        ensures
            iso@ == self.iso_text(),
    {
        let mut out = String::new();
        proof {
            reveal_strlit("-");
            reveal_strlit("+");
        }
        if self.year < 0 {
            out.append("-");
            let magnitude: u64 = (-(self.year as i64)) as u64;
            push_zero_padded(&mut out, magnitude, 4);
        } else {
            if self.year > 9999 {
                out.append("+");
            }
            push_zero_padded(&mut out, self.year as u64, 4);
        }
        assert(out@ =~= self.year_text());
        out.append("-");
        push_zero_padded(&mut out, self.month as u64, 2);
        out.append("-");
        push_zero_padded(&mut out, self.day as u64, 2);
        assert(out@ =~= self.iso_text());
        out
    }
}

/// The date that the calendar library reads from `text` under the pattern
/// `format`, if it reads one.
pub uninterp spec fn parsed_date(text: Seq<char>, format: Seq<char>) -> Option<CalendarDate>;

/// Calls `chrono::NaiveDate::parse_from_str` and takes year, month and day
/// out of the date. Trusted: the outcome depends on the two texts alone, and
/// a date that was read has its month from 1 to 12 and its day from 1 to 31.
#[verifier::external_body]
fn parse_date(text: &str, format: &str) -> (date: Option<CalendarDate>)
    ensures
        date == parsed_date(text@, format@),
        date matches Some(d) ==> d.well_formed(),
{
    match chrono::NaiveDate::parse_from_str(text, format) {
        Ok(d) => Some(CalendarDate { year: d.year(), month: d.month(), day: d.day() }),
        Err(_) => None,
    }
}

/// Calls `chrono::Utc::now` and takes year, month and day out of its date.
/// Trusted: month and day lie in their ranges. Nothing else is known of the
/// result, which changes with the clock. The call returns as long as the
/// system clock is not set before the year 1970.
#[verifier::external_body]
fn today_utc() -> (today: CalendarDate)
    ensures
        today.well_formed(),
{
    let d = chrono::Utc::now().date_naive();
    CalendarDate { year: d.year(), month: d.month(), day: d.day() }
}

/// The patterns a date is tried against, in this order: ISO, dotted
/// day-first, US slash, hyphenated day-first, written month, slash
/// year-first.
pub open spec fn possible_formats() -> Seq<Seq<char>> {
    seq!["%Y-%m-%d"@, "%d.%m.%Y"@, "%m/%d/%Y"@, "%d-%m-%Y"@, "%d %b %Y"@, "%Y/%m/%d"@]
}

/// The date read under the first of `formats`, from `from` on, that reads one.
pub open spec fn first_parsed(text: Seq<char>, formats: Seq<Seq<char>>, from: int) -> Option<
    CalendarDate,
>
    decreases formats.len() - from,
{
    if from < 0 || from >= formats.len() {
        None
    } else {
        match parsed_date(text, formats[from]) {
            Some(d) => Some(d),
            None => first_parsed(text, formats, from + 1),
        }
    }
}

/// The date that a text is understood as, if any pattern reads it.
pub open spec fn recognized(text: Seq<char>) -> Option<CalendarDate> {
    first_parsed(text, possible_formats(), 0)
}

/// The date that a request is made for: the one written, if it was written
/// and understood, otherwise today.
pub open spec fn effective_date(input: Option<Seq<char>>, today: CalendarDate) -> CalendarDate {
    match input {
        Some(text) => match recognized(text) {
            Some(d) => d,
            None => today,
        },
        None => today,
    }
}

/// The ISO form of the date that a request is made for.
pub open spec fn normalized(input: Option<Seq<char>>, today: CalendarDate) -> Seq<char> {
    effective_date(input, today).iso_text()
}

fn formats() -> (list: Vec<&'static str>)
    ensures
        list@.len() == possible_formats().len(),
        forall|i: int| 0 <= i < list@.len() ==> (#[trigger] list@[i])@ == possible_formats()[i],
{
    let mut list: Vec<&'static str> = Vec::new();
    list.push("%Y-%m-%d");
    list.push("%d.%m.%Y");
    list.push("%m/%d/%Y");
    list.push("%d-%m-%Y");
    list.push("%d %b %Y");
    list.push("%Y/%m/%d");
    list
}

/// Reads a date written in any of the supported patterns; the first pattern
/// that reads one decides.
pub fn parse_date_with_unknown_format(date_str: &str) -> (date: Option<CalendarDate>)
    ensures
        date == recognized(date_str@),
        date matches Some(d) ==> d.well_formed(),
{
    let list = formats();
    let mut i: usize = 0;
    while i < list.len()
        invariant
            i <= list@.len(),
            list@.len() == possible_formats().len(),
            forall|k: int| 0 <= k < list@.len() ==> (#[trigger] list@[k])@ == possible_formats()[k],
            recognized(date_str@) == first_parsed(date_str@, possible_formats(), i as int),
        decreases list@.len() - i,
    {
        match parse_date(date_str, list[i]) {
            Some(d) => {
                return Some(d);
            },
            None => {},
        }
        i += 1;
    }
    None
}

/// Brings a date to ISO form as of a given day: the date written, if it was
/// written and understood; otherwise `today`. Never fails.
pub fn normalize_date_on(date_str: Option<&str>, today: CalendarDate) -> (iso: String)
    ensures
        iso@ == normalized(crate::text::option_str_text(date_str), today),
{
    let date = match date_str {
        Some(text) => match parse_date_with_unknown_format(text) {
            Some(d) => d,
            None => today,
        },
        None => today,
    };
    date.to_iso_string()
}

/// Brings a date to ISO form. A date that was written and understood gives
/// its own ISO form; an absent one, or one that no pattern reads, gives the
/// ISO form of the current UTC day. Never fails.
pub fn normalize_date(date_str: Option<&str>) -> (iso: String)
    ensures
        exists|today: CalendarDate|
            today.well_formed() && iso@ == #[trigger] normalized(
                crate::text::option_str_text(date_str),
                today,
            ),
        date_str matches Some(text) ==> (recognized(text@) matches Some(d) ==> iso@
            == d.iso_text()),
{
    let today = today_utc();
    normalize_date_on(date_str, today)
}

/// Two texts that are understood as the same day have the same ISO form,
/// whatever the current day is.
pub proof fn lemma_same_day_same_iso(
    a: Seq<char>,
    b: Seq<char>,
    today_a: CalendarDate,
    today_b: CalendarDate,
)
    requires
        recognized(a) is Some,
        recognized(a) == recognized(b),
    ensures
        normalized(Some(a), today_a) == normalized(Some(b), today_b),
{
}

/// With no date written, the result is the ISO form of the current day, and
/// so the same for every request made within that day.
pub proof fn lemma_absent_is_today(today: CalendarDate)
    ensures
        normalized(None, today) == today.iso_text(),
{
}

/// A text that no pattern reads counts as no date at all.
pub proof fn lemma_unreadable_is_absent(text: Seq<char>, today: CalendarDate)
    requires
        recognized(text) is None,
    ensures
        normalized(Some(text), today) == normalized(None, today),
{
}

} // verus!
