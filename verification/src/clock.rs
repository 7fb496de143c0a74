//! The time of day at which a log entry was captured, and how it is shown.

use crate::trusted::clock_text_millis;
use vstd::prelude::*;
use vstd::string::StrSliceExecFns;

verus! {

/// How many nanoseconds make a second.
pub const NANOS_PER_SECOND: u32 = 1_000_000_000;

/// How many nanoseconds make a millisecond.
pub const NANOS_PER_MILLI: u32 = 1_000_000;

/// How many characters the time takes when it is shown to the second.
pub const CLOCK_WIDTH: usize = 8;

/// A time of day on the local clock: hour, minute and second, and the
/// nanoseconds since that second began. During a leap second, which follows
/// second 59, the second stays 59 and the nanoseconds run on from a thousand
/// million.
#[derive(Debug, Clone, Copy, PartialEq, Eq, Structural)]
pub struct Timestamp {
    pub(crate) hour: u32,
    pub(crate) minute: u32,
    pub(crate) second: u32,
    pub(crate) nanosecond: u32,
}

/// Whether the four numbers are a time of day.
pub open spec fn is_time_of_day(hour: u32, minute: u32, second: u32, nanosecond: u32) -> bool {
    &&& hour < 24
    &&& minute < 60
    &&& second < 60
    &&& nanosecond < 2 * NANOS_PER_SECOND
    &&& nanosecond >= NANOS_PER_SECOND ==> second == 59
}

/// The character for the decimal digit `d`.
pub open spec fn digit(d: int) -> char {
    seq!['0', '1', '2', '3', '4', '5', '6', '7', '8', '9'][d]
}

/// `n`, below a hundred, as two decimal digits.
pub open spec fn two_digits(n: int) -> Seq<char> {
    seq![digit(n / 10), digit(n % 10)]
}

/// `n`, below a thousand, as three decimal digits.
pub open spec fn three_digits(n: int) -> Seq<char> {
    seq![digit(n / 100), digit(n / 10 % 10), digit(n % 10)]
}

impl Timestamp {
    /// Whether the numbers of the timestamp are a time of day. Every
    /// timestamp is valid.
    #[verifier::type_invariant]
    pub open spec fn valid(self) -> bool {
        is_time_of_day(self.hour_of(), self.minute_of(), self.second_of(), self.nanosecond_of())
    }

    /// The hour, from 0 to 23.
    pub closed spec fn hour_of(self) -> u32 {
        self.hour
    }

    /// The minute, from 0 to 59.
    pub closed spec fn minute_of(self) -> u32 {
        self.minute
    }

    /// The second, from 0 to 59.
    pub closed spec fn second_of(self) -> u32 {
        self.second
    }

    /// The nanoseconds since the second began.
    pub closed spec fn nanosecond_of(self) -> u32 {
        self.nanosecond
    }

    /// The time as a clock shows it: hour, minute and second, each of two
    /// digits, with colons between them. A leap second shows as second 60.
    pub open spec fn clock(self) -> Seq<char> {
        two_digits(self.hour_of() as int) + seq![':'] + two_digits(self.minute_of() as int)
            + seq![':'] + two_digits(
            (self.second_of() + self.nanosecond_of() / NANOS_PER_SECOND) as int,
        )
    }

    /// The time as a clock shows it to the millisecond: as `clock`, then a
    /// point and three digits of milliseconds.
    pub open spec fn clock_millis(self) -> Seq<char> {
        self.clock() + seq!['.'] + three_digits(
            (self.nanosecond_of() / NANOS_PER_MILLI % 1000) as int,
        )
    }

    /// The time of day with these numbers, if they are one.
    pub fn new(hour: u32, minute: u32, second: u32, nanosecond: u32) -> (stamp: Option<Timestamp>)
        ensures
            stamp is Some <==> is_time_of_day(hour, minute, second, nanosecond),
            stamp matches Some(t) ==> t.hour_of() == hour && t.minute_of() == minute
                && t.second_of() == second && t.nanosecond_of() == nanosecond,
    {
        if hour < 24 && minute < 60 && second < 60 && nanosecond < 2 * NANOS_PER_SECOND && (
        nanosecond < NANOS_PER_SECOND || second == 59) {
            Some(Timestamp { hour, minute, second, nanosecond })
        } else {
            None
        }
    }

    /// The hour, from 0 to 23.
    pub fn hour(&self) -> (hour: u32)
        ensures
            hour == self.hour_of(),
            hour < 24,
    {
        proof {
            use_type_invariant(self);
        }
        self.hour
    }

    /// The minute, from 0 to 59.
    pub fn minute(&self) -> (minute: u32)
        ensures
            minute == self.minute_of(),
            minute < 60,
    {
        proof {
            use_type_invariant(self);
        }
        self.minute
    }

    /// The second, from 0 to 59.
    pub fn second(&self) -> (second: u32)
        ensures
            second == self.second_of(),
            second < 60,
    {
        proof {
            use_type_invariant(self);
        }
        self.second
    }

    /// The nanoseconds since the second began.
    pub fn nanosecond(&self) -> (nanosecond: u32)
        ensures
            nanosecond == self.nanosecond_of(),
            nanosecond < 2 * NANOS_PER_SECOND,
    {
        proof {
            use_type_invariant(self);
        }
        self.nanosecond
    }

    /// The time as a clock shows it to the millisecond, such as
    /// `12:34:56.789`.
    pub fn to_clock_millis(&self) -> (text: String)
        ensures
            text@ == self.clock_millis(),
    {
        proof {
            use_type_invariant(self);
        }
        clock_text_millis(self)
    }

    /// The time as a clock shows it to the second, such as `12:34:56`: what
    /// stands before the point when it is shown to the millisecond.
    pub fn to_clock(&self) -> (text: String)
        ensures
            text@ == self.clock(),
    {
        let full = self.to_clock_millis();
        full.as_str().substring_char(0, CLOCK_WIDTH).to_owned()
    }
}

} // verus!
