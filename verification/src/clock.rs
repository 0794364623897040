//! A time on the face of a clock: hours, minutes, seconds and hundredths.

use vstd::prelude::*;
use vstd::arithmetic::div_mod::{lemma_div_denominator, lemma_fundamental_div_mod};

verus! {

/// A time in milliseconds, broken into what a clock shows of it.
#[derive(Clone, Copy, Debug, PartialEq, Eq, Structural)]
pub struct ClockFields {
    /// Whether the time is below 0. The other fields are those of its size.
    pub negative: bool,
    pub hours: u64,
    /// Minutes of the hour, below 60.
    pub minutes: u64,
    /// Seconds of the minute, below 60.
    pub seconds: u64,
    /// Hundredths of the second, below 100. What is left of the time below a
    /// hundredth is dropped.
    pub hundredths: u64,
}

/// The size of a time: the time itself, or what it lies below 0.
pub open spec fn size_of(milliseconds: int) -> int {
    if milliseconds < 0 {
        -milliseconds
    } else {
        milliseconds
    }
}

/// The clock fields of a time.
pub open spec fn spec_clock_fields(milliseconds: i64) -> ClockFields {
    let size = size_of(milliseconds as int);
    ClockFields {
        negative: milliseconds < 0,
        hours: (size / 3_600_000) as u64,
        minutes: (size / 60_000 % 60) as u64,
        seconds: (size / 1_000 % 60) as u64,
        hundredths: (size / 10 % 100) as u64,
    }
}

/// The time that clock fields show, in milliseconds and without its sign.
pub open spec fn shown_by(fields: ClockFields) -> int {
    fields.hours * 3_600_000 + fields.minutes * 60_000 + fields.seconds * 1_000
        + fields.hundredths * 10
}

/// The clock fields of a time in milliseconds.
pub fn clock_fields(milliseconds: i64) -> (fields: ClockFields)
    ensures
        fields == spec_clock_fields(milliseconds),
{
    let negative = milliseconds < 0;
    let size: u64 = if negative {
        (-(milliseconds + 1)) as u64 + 1
    } else {
        milliseconds as u64
    };
    ClockFields {
        negative,
        hours: size / 3_600_000,
        minutes: size / 60_000 % 60,
        seconds: size / 1_000 % 60,
        hundredths: size / 10 % 100,
    }
}

/// The clock fields of a time make up its size, to the hundredth: put
/// together again they are at most the size, and less than a hundredth of a
/// second below it.
pub proof fn lemma_clock_fields_make_the_time(milliseconds: i64)
    ensures
        spec_clock_fields(milliseconds).minutes < 60,
        spec_clock_fields(milliseconds).seconds < 60,
        spec_clock_fields(milliseconds).hundredths < 100,
        shown_by(spec_clock_fields(milliseconds)) <= size_of(milliseconds as int) < shown_by(
            spec_clock_fields(milliseconds),
        ) + 10,
{
    let size = size_of(milliseconds as int);
    let tens = size / 10;
    let seconds = tens / 100;
    let minutes = seconds / 60;
    let hours = minutes / 60;
    lemma_div_denominator(size, 10, 100);
    lemma_div_denominator(size, 1_000, 60);
    lemma_div_denominator(size, 60_000, 60);
    assert(seconds == size / 1_000 && minutes == size / 60_000 && hours == size / 3_600_000);
    lemma_fundamental_div_mod(size, 10);
    lemma_fundamental_div_mod(tens, 100);
    lemma_fundamental_div_mod(seconds, 60);
    lemma_fundamental_div_mod(minutes, 60);
}

} // verus!
