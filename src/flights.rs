//! The flight booker: dates written `day.month.year`, the validity of the
//! outbound and return fields, and whether a booking can be made.
use vstd::prelude::*;
use crate::text::{chars_of, remove_white_space, split_at_char, split_char, strip_white_space};

verus! {

/// Why a date could not be read.
#[derive(Clone, Copy, PartialEq, Eq, Debug)]
pub enum DateError {
    /// Fewer than three fields separated by `.`.
    Incomplete,
    /// A field is not a decimal number from 0 to 65535.
    InvalidNumber,
}

/// The value of a digit character.
pub open spec fn digit_value(c: char) -> int {
    c as int - '0' as int
}

pub open spec fn is_digit(c: char) -> bool {
    '0' <= c && c <= '9'
}

pub open spec fn all_digits(s: Seq<char>) -> bool {
    forall|k: int| 0 <= k < s.len() ==> is_digit(#[trigger] s[k])
}

/// The number that a string of decimal digits writes.
pub open spec fn decimal_value(s: Seq<char>) -> int
    decreases s.len(),
{
    if s.len() == 0 {
        0
    } else {
        decimal_value(s.drop_last()) * 10 + digit_value(s.last())
    }
}

/// The digits of an unsigned number written with an optional leading `+`.
pub open spec fn unsigned_digits(s: Seq<char>) -> Seq<char> {
    if s.len() > 0 && s[0] == '+' {
        s.drop_first()
    } else {
        s
    }
}

/// `s` read as a `u16` the way `str::parse` reads one: an optional `+`,
/// then at least one decimal digit, with a value that fits.
pub open spec fn parse_u16(s: Seq<char>) -> Option<u16> {
    let d = unsigned_digits(s);
    if d.len() > 0 && all_digits(d) && decimal_value(d) <= u16::MAX {
        Some(decimal_value(d) as u16)
    } else {
        None
    }
}

proof fn lemma_decimal_value_grows(s: Seq<char>, i: int)
    requires
        all_digits(s),
        0 <= i <= s.len(),
    ensures
        0 <= decimal_value(s.take(i)) <= decimal_value(s),
    decreases s.len() - i,
{
    if i < s.len() {
        lemma_decimal_value_grows(s, i + 1);
        assert(s.take(i + 1).drop_last() == s.take(i));
        assert(all_digits(s.take(i + 1)));
    } else {
        assert(s.take(i) == s);
        lemma_decimal_value_nonneg(s);
    }
}

proof fn lemma_decimal_value_nonneg(s: Seq<char>)
    requires
        all_digits(s),
    ensures
        decimal_value(s) >= 0,
    decreases s.len(),
{
    if s.len() > 0 {
        assert(all_digits(s.drop_last()));
        lemma_decimal_value_nonneg(s.drop_last());
    }
}

/// Reads a field as a `u16` (see `parse_u16`).
pub fn read_u16(s: &Vec<char>) -> (r: Option<u16>)
    ensures
        r == parse_u16(s@),
{
    let start: usize = if s.len() > 0 && s[0] == '+' {
        1
    } else {
        0
    };
    let ghost d = unsigned_digits(s@);
    assert(d == s@.subrange(start as int, s@.len() as int));
    if start >= s.len() {
        return None;
    }
    let mut value: u32 = 0;
    let mut i: usize = start;
    while i < s.len()
        invariant
            start <= i <= s.len(),
            start < s.len(),
            d == s@.subrange(start as int, s@.len() as int),
            d == unsigned_digits(s@),
            all_digits(d.take(i - start)),
            value == decimal_value(d.take(i - start)),
            value <= u16::MAX,
        decreases s.len() - i,
    {
        let c = s[i];
        if c < '0' || c > '9' {
            assert(d[i - start] == c);
            assert(!all_digits(d));
            return None;
        }
        let ghost k = i - start;
        assert(d.take(k + 1).drop_last() == d.take(k));
        assert(d.take(k + 1).last() == c);
        let next: u32 = value * 10 + (c as u32 - '0' as u32);
        assert(next == decimal_value(d.take(k + 1)));
        assert(all_digits(d.take(k + 1))) by {
            assert forall|j: int| 0 <= j < k + 1 implies is_digit(#[trigger] d.take(k + 1)[j]) by {
                if j < k {
                    assert(d.take(k + 1)[j] == d.take(k)[j]);
                }
            }
        }
        if next > 65535 {
            proof {
                if all_digits(d) {
                    lemma_decimal_value_grows(d, k + 1);
                }
            }
            return None;
        }
        value = next;
        i = i + 1;
    }
    assert(d.take(d.len() as int) == d);
    Some(value as u16)
}

/// A calendar date as the booker reads it; the numbers are not checked
/// against a calendar.
#[derive(Clone, Copy, PartialEq, Eq, Debug)]
pub struct Date {
    pub day: u16,
    pub month: u16,
    pub year: u16,
}

/// The date that `s` writes: whitespace anywhere is ignored, the rest is
/// cut at each `.`, and the first three pieces are day, month and year.
/// Pieces after the third are ignored.
pub open spec fn date_of(s: Seq<char>) -> Result<Date, DateError> {
    let parts = split_at_char(strip_white_space(s), '.');
    if parts.len() < 3 {
        Err(DateError::Incomplete)
    } else {
        match (parse_u16(parts[0]), parse_u16(parts[1]), parse_u16(parts[2])) {
            (Some(day), Some(month), Some(year)) => Ok(Date { day, month, year }),
            _ => Err(DateError::InvalidNumber),
        }
    }
}

/// `a` falls after `b`: by year, then month, then day.
pub open spec fn later(a: Date, b: Date) -> bool {
    a.year > b.year || (a.year == b.year && (a.month > b.month || (a.month == b.month && a.day
        > b.day)))
}

impl Date {
    /// Reads a date written `day.month.year` (see `date_of`).
    pub fn from_str(input: &str) -> (r: Result<Date, DateError>)
        ensures
            r == date_of(input@),
    {
        let chars = chars_of(input);
        let compact = remove_white_space(&chars);
        let parts = split_char(&compact, '.');
        if parts.len() < 3 {
            return Err(DateError::Incomplete);
        }
        let day = read_u16(&parts[0]);
        let month = read_u16(&parts[1]);
        let year = read_u16(&parts[2]);
        match (day, month, year) {
            (Some(day), Some(month), Some(year)) => Ok(Date { day, month, year }),
            _ => Err(DateError::InvalidNumber),
        }
    }

    /// Whether `self` falls after `other`.
    pub fn is_after(&self, other: &Date) -> (r: bool)
        ensures
            r == later(*self, *other),
    {
        if self.year > other.year {
            true
        } else if self.year < other.year {
            false
        } else if self.month > other.month {
            true
        } else if self.month < other.month {
            false
        } else {
            self.day > other.day
        }
    }

    /// Whether `self` falls before `other`.
    pub fn is_before(&self, other: &Date) -> (r: bool)
        ensures
            r == later(*other, *self),
    {
        if self.is_equal(other) {
            false
        } else {
            !self.is_after(other)
        }
    }

    /// Whether `self` and `other` are the same date.
    pub fn is_equal(&self, other: &Date) -> (r: bool)
        ensures
            r == (*self == *other),
    {
        self.year == other.year && self.month == other.month && self.day == other.day
    }
}

/// How a date field is shown.
#[derive(Clone, Copy, PartialEq, Eq, Structural, Debug)]
pub enum TboxState {
    Standard,
    Invalid,
    Disabled,
}

/// A booking that can be made.
#[derive(Clone, Copy, PartialEq, Eq, Debug)]
pub enum Booking {
    OneWay,
    Return,
}

/// The booker's state: whether a return flight is wanted, the two date
/// fields as typed, and how each is shown.
#[derive(Clone, PartialEq, Debug)]
pub struct AppData {
    pub return_flight: bool,
    pub out_flight: String,
    pub in_flight: String,
    pub out_state: TboxState,
    pub in_state: TboxState,
}

/// The state of the outbound field for its text `out`.
pub open spec fn out_state_of(out: Seq<char>) -> TboxState {
    if date_of(out) is Ok {
        TboxState::Standard
    } else {
        TboxState::Invalid
    }
}

/// The state of the return field: disabled for a one-way flight; invalid
/// when it does not read as a date, or reads as one before a readable
/// outbound date; standard otherwise.
pub open spec fn in_state_of(return_flight: bool, out: Seq<char>, inb: Seq<char>) -> TboxState {
    if !return_flight {
        TboxState::Disabled
    } else {
        match date_of(inb) {
            Ok(d) => if date_of(out) is Ok && later(date_of(out)->Ok_0, d) {
                TboxState::Invalid
            } else {
                TboxState::Standard
            },
            Err(_) => TboxState::Invalid,
        }
    }
}

/// The booking that the fields allow: a one-way flight on a readable
/// outbound date; a return flight when both dates read and the outbound
/// date comes strictly first.
pub open spec fn booking_of(return_flight: bool, out: Seq<char>, inb: Seq<char>) -> Option<
    Booking,
> {
    if return_flight {
        if date_of(out) is Ok && date_of(inb) is Ok && later(
            date_of(inb)->Ok_0,
            date_of(out)->Ok_0,
        ) {
            Some(Booking::Return)
        } else {
            None
        }
    } else if date_of(out) is Ok {
        Some(Booking::OneWay)
    } else {
        None
    }
}

impl AppData {
    /// A one-way booking with both fields filled in.
    pub fn new() -> (r: AppData)
        ensures
            !r.return_flight,
            r.out_flight@ == "27.03.2021"@,
            r.in_flight@ == "14.04.2021"@,
            r.out_state == TboxState::Standard,
            r.in_state == TboxState::Disabled,
    {
        AppData {
            return_flight: false,
            out_flight: String::from_str("27.03.2021"),
            in_flight: String::from_str("14.04.2021"),
            out_state: TboxState::Standard,
            in_state: TboxState::Disabled,
        }
    }

    /// Whether the "Book" button is enabled: the outbound field is valid,
    /// and for a return flight the return field too.
    pub fn btn_valid(&self) -> (r: bool)
        ensures
            r == (self.out_state == TboxState::Standard && (self.return_flight ==> self.in_state
                == TboxState::Standard)),
    {
        if self.return_flight {
            self.in_state == TboxState::Standard && self.out_state == TboxState::Standard
        } else {
            self.out_state == TboxState::Standard
        }
    }

    /// Recomputes how both fields are shown from what they hold.
    pub fn update_states(&mut self)
        ensures
            final(self).out_state == out_state_of(old(self).out_flight@),
            final(self).in_state == in_state_of(
                old(self).return_flight,
                old(self).out_flight@,
                old(self).in_flight@,
            ),
            final(self).return_flight == old(self).return_flight,
            final(self).out_flight@ == old(self).out_flight@,
            final(self).in_flight@ == old(self).in_flight@,
    {
        let out_date = Date::from_str(self.out_flight.as_str());
        let in_date = Date::from_str(self.in_flight.as_str());
        match out_date {
            Ok(_) => self.out_state = TboxState::Standard,
            Err(_) => self.out_state = TboxState::Invalid,
        }
        if self.return_flight {
            match in_date {
                Ok(date) => {
                    let before = match out_date {
                        Ok(out) => date.is_before(&out),
                        Err(_) => false,
                    };
                    if before {
                        self.in_state = TboxState::Invalid;
                    } else {
                        self.in_state = TboxState::Standard;
                    }
                },
                Err(_) => self.in_state = TboxState::Invalid,
            }
        } else {
            self.in_state = TboxState::Disabled;
        }
    }

    /// Switches between one-way and return flight, then recomputes how the
    /// fields are shown.
    pub fn toggle_return(&mut self)
        ensures
            final(self).return_flight == !old(self).return_flight,
            final(self).out_state == out_state_of(old(self).out_flight@),
            final(self).in_state == in_state_of(
                !old(self).return_flight,
                old(self).out_flight@,
                old(self).in_flight@,
            ),
            final(self).out_flight@ == old(self).out_flight@,
            final(self).in_flight@ == old(self).in_flight@,
    {
        self.return_flight = !self.return_flight;
        self.update_states();
    }
}

/// The booking that "Book" makes, if the fields allow one.
pub fn submit(data: &AppData) -> (r: Option<Booking>)
    ensures
        r == booking_of(data.return_flight, data.out_flight@, data.in_flight@),
{
    let out_flight = Date::from_str(data.out_flight.as_str());
    if data.return_flight {
        let in_flight = Date::from_str(data.in_flight.as_str());
        match (out_flight, in_flight) {
            (Ok(out), Ok(inb)) => if out.is_before(&inb) {
                Some(Booking::Return)
            } else {
                None
            },
            _ => None,
        }
    } else {
        match out_flight {
            Ok(_) => Some(Booking::OneWay),
            Err(_) => None,
        }
    }
}

} // verus!
