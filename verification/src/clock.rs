//! Time-of-day value type and the model of the battery-backed hardware
//! clock register.

use crate::text::{spec_two_digits, zero_pad};
use vstd::prelude::*;
use vstd::string::StringExecFns;

verus! {

/// A time of day split into hours, minutes and seconds.
#[derive(Copy, Clone, Debug, PartialEq, Eq, Structural)]
pub struct Time {
    pub hours: u8,
    pub minutes: u8,
    pub seconds: u8,
}

/// Seconds in one day; the raw counter value is reduced modulo this.
pub const SECONDS_PER_DAY: u32 = 86400;

impl Time {
    /// A well-formed time of day: every field within its calendar range.
    pub open spec fn valid(self) -> bool {
        self.hours < 24 && self.minutes < 60 && self.seconds < 60
    }

    /// The seconds-since-midnight integer this time stands for.
    pub open spec fn spec_to_seconds(self) -> u32
        recommends
            self.valid(),
    {
        (self.hours * 3600 + self.minutes * 60 + self.seconds) as u32
    }

    /// The time of day named by a raw seconds counter, reduced modulo one day.
    pub open spec fn spec_from_seconds(total: u32) -> Time {
        Time {
            hours: ((total % SECONDS_PER_DAY) / 3600) as u8,
            minutes: (((total % SECONDS_PER_DAY) % 3600) / 60) as u8,
            seconds: (((total % SECONDS_PER_DAY) % 3600) % 60) as u8,
        }
    }

    /// Split a raw seconds counter into a valid time of day, reducing
    /// modulo one day so that any counter value is accepted.
    pub fn from_seconds(total: u32) -> (t: Time)
        ensures
            t == Time::spec_from_seconds(total),
            t.valid(),
            t.spec_to_seconds() == total % SECONDS_PER_DAY,
    {
        let rem = total % SECONDS_PER_DAY;
        let hours = (rem / 3600) as u8;
        let minutes = ((rem % 3600) / 60) as u8;
        let seconds = ((rem % 3600) % 60) as u8;
        proof {
            lemma_split_seconds(rem);
        }
        Time { hours, minutes, seconds }
    }

    /// Flatten this time of day back into seconds since midnight.
    pub fn to_seconds(&self) -> (total: u32)
        requires
            self.valid(),
        ensures
            total == self.spec_to_seconds(),
            total < SECONDS_PER_DAY,
    {
        self.hours as u32 * 3600 + self.minutes as u32 * 60 + self.seconds as u32
    }
}

/// The zero-padded `HH:MM:SS` rendering of a time of day.
pub open spec fn spec_time_text(t: Time) -> Seq<char>
    recommends
        t.valid(),
{
    spec_two_digits(t.hours) + seq![':'] + spec_two_digits(t.minutes) + seq![':']
        + spec_two_digits(t.seconds)
}

impl Time {
    /// Render this time of day as zero-padded `HH:MM:SS`.
    pub fn format(&self) -> (r: String)
        requires
            self.valid(),
        ensures
            r@ == spec_time_text(*self),
    {
        let mut r = zero_pad(self.hours);
        proof {
            reveal_strlit(":");
        }
        r.append(":");
        let m = zero_pad(self.minutes);
        r.append(m.as_str());
        r.append(":");
        let s = zero_pad(self.seconds);
        r.append(s.as_str());
        proof {
            assert(r@ =~= spec_time_text(*self));
        }
        r
    }
}

/// Model of the battery-backed hardware clock: the one piece of state that
/// survives a restart. The surrounding firmware mirrors the real register
/// into and out of this value.
pub struct Clock {
    time: Time,
}

impl View for Clock {
    type V = Time;

    /// The time of day the hardware register currently holds.
    closed spec fn view(&self) -> Time {
        self.time
    }
}

impl Clock {
    /// A clock's register always holds a well-formed time of day.
    pub open spec fn wf(&self) -> bool {
        self@.valid()
    }

    /// Start the clock from a raw seconds counter, as read out of the
    /// hardware register at boot.
    pub fn new(counter: u32) -> (c: Clock)
        ensures
            c@ == Time::spec_from_seconds(counter),
            c.wf(),
    {
        Clock { time: Time::from_seconds(counter) }
    }

    /// Read the current time of day.
    pub fn get_time(&self) -> (t: Time)
        ensures
            t == self@,
    {
        self.time
    }

    /// Write a new time of day into the register.
    pub fn set_time(&mut self, time: &Time)
        requires
            time.valid(),
        ensures
            final(self)@ == *time,
            final(self).wf(),
    {
        self.time = *time;
    }
}

/// Splitting a seconds count below one day into fields and summing them
/// back is the identity; the fields land in their calendar ranges.
proof fn lemma_split_seconds(rem: u32)
    requires
        rem < 86400,
    ensures
        rem / 3600 < 24,
        (rem % 3600) / 60 < 60,
        (rem % 3600) % 60 < 60,
        (rem / 3600) * 3600 + ((rem % 3600) / 60) * 60 + (rem % 3600) % 60 == rem,
{
    assert(rem / 3600 < 24) by (nonlinear_arith)
        requires rem < 86400;
    assert(rem % 3600 < 3600) by (nonlinear_arith);
    assert((rem % 3600) / 60 < 60) by (nonlinear_arith)
        requires rem % 3600 < 3600;
    assert((rem % 3600) % 60 < 60) by (nonlinear_arith);
    assert((rem / 3600) * 3600 + rem % 3600 == rem) by (nonlinear_arith);
    assert(((rem % 3600) / 60) * 60 + (rem % 3600) % 60 == rem % 3600) by (nonlinear_arith);
}

/// Converting a seconds count below one day to a `Time` and back returns
/// the same count.
pub proof fn lemma_seconds_round_trip(x: u32)
    requires
        x < SECONDS_PER_DAY,
    ensures
        Time::spec_from_seconds(x).spec_to_seconds() == x,
{
    lemma_split_seconds(x);
    assert(x % SECONDS_PER_DAY == x);
}

} // verus!
