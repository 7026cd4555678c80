use vstd::prelude::*;
use vstd::arithmetic::div_mod::lemma_fundamental_div_mod;
use vstd::arithmetic::div_mod::lemma_fundamental_div_mod_converse;
use vstd::arithmetic::div_mod::lemma_div_denominator;

verus! {

/// Utility for working with time.
pub struct TimeUtils;

/// Enumeration representing different time units.
#[allow(non_camel_case_types)]
#[derive(Clone, Copy, PartialEq, Eq, Structural, Debug)]
pub enum TimeUnit {
    MILLIS,
    NANOS,
    MICROS,
    SEC,
}

/// The platform clock reported a time before the Unix epoch.
#[derive(Clone, Copy, PartialEq, Eq, Structural, Debug)]
pub struct ClockError;

/// One reading of the platform clock, as the elapsed time since the Unix
/// epoch: whole seconds together with the nanoseconds of the current second.
#[derive(Clone, Copy, PartialEq, Eq, Structural, Debug)]
pub struct ClockSample {
    secs: u64,
    nanos: u32,
}

impl ClockSample {
    /// A sample is well formed when its sub-second part is below one second.
    pub closed spec fn wf(&self) -> bool {
        self.nanos < 1_000_000_000
    }

    /// The single mathematical value a sample stands for: the elapsed time
    /// since the Unix epoch in nanoseconds.
    pub closed spec fn total_nanos(&self) -> nat {
        self.secs as nat * 1_000_000_000 + self.nanos as nat
    }

    /// Build a sample from whole seconds and the nanoseconds of the current
    /// second.
    pub fn new(secs: u64, nanos: u32) -> (s: ClockSample)
        requires
            nanos < 1_000_000_000,
        ensures
            s.wf(),
            s.total_nanos() == secs as nat * 1_000_000_000 + nanos as nat,
    {
        ClockSample { secs, nanos }
    }

    /// The elapsed time in whole seconds, dropping sub-second precision.
    pub fn as_secs(&self) -> (r: u64)
        requires
            self.wf(),
        ensures
            r == self.total_nanos() / 1_000_000_000,
    {
        proof {
            lemma_fundamental_div_mod_converse(
                self.total_nanos() as int,
                1_000_000_000,
                self.secs as int,
                self.nanos as int,
            );
        }
        self.secs
    }

    /// The elapsed time in whole milliseconds, dropping finer precision.
    pub fn as_millis(&self) -> (r: u128)
        requires
            self.wf(),
        ensures
            r == self.total_nanos() / 1_000_000,
    {
        let r: u128 = (self.secs as u128) * 1_000 + ((self.nanos / 1_000_000) as u128);
        proof {
            lemma_fundamental_div_mod(self.nanos as int, 1_000_000);
            lemma_fundamental_div_mod_converse(
                self.total_nanos() as int,
                1_000_000,
                self.secs as int * 1_000 + self.nanos as int / 1_000_000,
                self.nanos as int % 1_000_000,
            );
        }
        r
    }

    /// The elapsed time in whole microseconds, dropping finer precision.
    pub fn as_micros(&self) -> (r: u128)
        requires
            self.wf(),
        ensures
            r == self.total_nanos() / 1_000,
    {
        let r: u128 = (self.secs as u128) * 1_000_000 + ((self.nanos / 1_000) as u128);
        proof {
            lemma_fundamental_div_mod(self.nanos as int, 1_000);
            lemma_fundamental_div_mod_converse(
                self.total_nanos() as int,
                1_000,
                self.secs as int * 1_000_000 + self.nanos as int / 1_000,
                self.nanos as int % 1_000,
            );
        }
        r
    }

    /// The elapsed time in nanoseconds, the full precision of a sample.
    pub fn as_nanos(&self) -> (r: u128)
        ensures
            r == self.total_nanos(),
    {
        (self.secs as u128) * 1_000_000_000 + (self.nanos as u128)
    }

    /// The elapsed time in the requested unit, with truncating conversion.
    pub fn offset_in(&self, unit: TimeUnit) -> (r: u128)
        requires
            self.wf(),
        ensures
            r == offset_spec(*self, unit),
    {
        match unit {
            TimeUnit::MILLIS => self.as_millis(),
            TimeUnit::NANOS => self.as_nanos(),
            TimeUnit::MICROS => self.as_micros(),
            TimeUnit::SEC => self.as_secs() as u128,
        }
    }
}

/// The elapsed offset a well-formed sample yields in the given unit:
/// the sample's nanosecond count, truncated to the unit's granularity.
pub open spec fn offset_spec(s: ClockSample, unit: TimeUnit) -> nat {
    match unit {
        TimeUnit::MILLIS => s.total_nanos() / 1_000_000,
        TimeUnit::NANOS => s.total_nanos(),
        TimeUnit::MICROS => s.total_nanos() / 1_000,
        TimeUnit::SEC => s.total_nanos() / 1_000_000_000,
    }
}

/// Unit-conversion consistency: for one clock sample, the offsets in the
/// four units agree with one another under the conversion factors between
/// them. The nanosecond offset truncated to milliseconds is the millisecond
/// offset, the microsecond offset truncated by a thousand is the millisecond
/// offset, and the second offset scaled to milliseconds lies at most one
/// second below the millisecond offset.
pub proof fn lemma_unit_consistency(s: ClockSample)
    requires
        s.wf(),
    ensures
        offset_spec(s, TimeUnit::NANOS) / 1_000_000 == offset_spec(s, TimeUnit::MILLIS),
        offset_spec(s, TimeUnit::MICROS) / 1_000 == offset_spec(s, TimeUnit::MILLIS),
        offset_spec(s, TimeUnit::SEC) * 1_000 <= offset_spec(s, TimeUnit::MILLIS),
        offset_spec(s, TimeUnit::MILLIS) < offset_spec(s, TimeUnit::SEC) * 1_000 + 1_000,
{
    let total = s.total_nanos() as int;
    lemma_div_denominator(total, 1_000, 1_000);
    let q = total / 1_000_000_000;
    lemma_fundamental_div_mod(total, 1_000_000_000);
    let rm = total % 1_000_000_000;
    lemma_fundamental_div_mod(rm, 1_000_000);
    lemma_fundamental_div_mod_converse(
        total,
        1_000_000,
        q * 1_000 + rm / 1_000_000,
        rm % 1_000_000,
    );
}

/// Selecting milliseconds through the unit selector yields the very value
/// the millisecond entry point computes for the same sample: the two entry
/// points share one semantics.
pub proof fn lemma_millis_selection(s: ClockSample)
    ensures
        offset_spec(s, TimeUnit::MILLIS) == s.total_nanos() / 1_000_000,
{
}

/// Some well-formed clock sample yields this value in the given unit.
/// Every successful result of the clock-reading entry points satisfies it.
pub open spec fn is_offset_in(v: u128, unit: TimeUnit) -> bool {
    exists|s: ClockSample| s.wf() && v == offset_spec(s, unit)
}

#[verifier::external_type_specification]
#[verifier::external_body]
pub struct ExSystemTime(std::time::SystemTime);

/// Relies on std::time::SystemTime::now, which reads the platform clock.
/// Nothing is assumed of the instant it returns: the clock may report any
/// time, including one before the Unix epoch.
#[verifier::external_body]
fn read_system_clock() -> std::time::SystemTime {
    std::time::SystemTime::now()
}

/// Relies on std::time::SystemTime::duration_since, measured against
/// std::time::UNIX_EPOCH: it returns the elapsed duration when the instant
/// is at or after the epoch, and an error when it is before. The error is
/// mapped to this library's own kind.
#[verifier::external_body]
fn elapsed_since_epoch(t: std::time::SystemTime) -> Result<std::time::Duration, ClockError> {
    match t.duration_since(std::time::UNIX_EPOCH) {
        Ok(d) => Ok(d),
        Err(_) => Err(ClockError),
    }
}

/// Relies on std::time::Duration::as_secs: the whole seconds of the
/// duration. The duration itself is opaque here, so nothing relates the
/// result to it; the sub-second part is read separately.
#[verifier::external_body]
fn duration_secs(d: &std::time::Duration) -> u64 {
    d.as_secs()
}

/// Relies on std::time::Duration::subsec_nanos: the fractional part of the
/// duration in nanoseconds, documented to be below one billion.
#[verifier::external_body]
fn duration_subsec_nanos(d: &std::time::Duration) -> (r: u32)
    ensures
        r < 1_000_000_000,
{
    d.subsec_nanos()
}

impl TimeUtils {
    /// Read the platform clock once and return the elapsed time since the
    /// Unix epoch as a well-formed sample, or an error when the clock
    /// reports a time before the epoch.
    fn duration() -> (r: Result<ClockSample, ClockError>)
        ensures
            r matches Ok(s) ==> s.wf(),
    {
        let t = read_system_clock();
        match elapsed_since_epoch(t) {
            Ok(d) => {
                let secs = duration_secs(&d);
                let nanos = duration_subsec_nanos(&d);
                Ok(ClockSample::new(secs, nanos))
            }
            Err(e) => Err(e),
        }
    }

    /// Turn the outcome of a clock reading into the elapsed offset in the
    /// requested unit: a successful reading is converted exactly, with
    /// truncation to the unit's granularity, and a failed reading passes
    /// its error through unchanged.
    pub fn offset_of_reading(reading: Result<ClockSample, ClockError>, unit: TimeUnit) -> (r:
        Result<u128, ClockError>)
        requires
            reading matches Ok(s) ==> s.wf(),
        ensures
            reading matches Ok(s) ==> r matches Ok(v) && v == offset_spec(s, unit),
            reading matches Err(e) ==> r == Err::<u128, ClockError>(e),
    {
        match reading {
            Ok(s) => Ok(s.offset_in(unit)),
            Err(e) => Err(e),
        }
    }

    /// Get the current time in milliseconds since the Unix epoch.
    ///
    /// Every successful result is the millisecond offset of a well-formed
    /// clock sample, never a wrapped-around or otherwise fabricated value;
    /// the error is surfaced to the caller when the platform clock reports
    /// a time before the Unix epoch.
    pub fn now() -> (r: Result<u128, ClockError>)
        ensures
            r matches Ok(ms) ==> 0 <= ms && is_offset_in(ms, TimeUnit::MILLIS),
    {
        let reading = Self::duration();
        let r = Self::offset_of_reading(reading, TimeUnit::MILLIS);
        proof {
            if let Ok(s) = reading {
                assert(s.wf() && offset_spec(s, TimeUnit::MILLIS) == r->Ok_0);
            }
        }
        r
    }

    /// Get the current time in the specified time unit.
    ///
    /// The same clock reading as `now`, converted to the requested unit
    /// with truncation; the error behaves exactly as in `now`.
    pub fn now_as_timeunit(time_unit: TimeUnit) -> (r: Result<u128, ClockError>)
        ensures
            r matches Ok(v) ==> 0 <= v && is_offset_in(v, time_unit),
    {
        let reading = Self::duration();
        let r = Self::offset_of_reading(reading, time_unit);
        proof {
            if let Ok(s) = reading {
                assert(s.wf() && offset_spec(s, time_unit) == r->Ok_0);
            }
        }
        r
    }
}

} // verus!

