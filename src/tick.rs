//! Time granularity of a channel, and sampling of the wall clock.
use std::time::Duration;
use vstd::prelude::*;

verus! {

/// Relies on `Duration::as_secs`: the whole seconds of `d`.
#[verifier::external_body]
fn duration_secs(d: &Duration) -> (r: u64) {
    d.as_secs()
}

/// Relies on `Duration::subsec_nanos`: the fractional part of `d` in
/// nanoseconds, always below one billion.
#[verifier::external_body]
fn duration_subsec_nanos(d: &Duration) -> (r: u32)
    ensures
        r < 1_000_000_000,
{
    d.subsec_nanos()
}

/// Relies on `SystemTime::now` and `SystemTime::duration_since`: the time elapsed
/// since the Unix epoch, `None` when the clock reads an earlier instant.
#[verifier::external_body]
fn since_unix_epoch() -> (r: Option<Duration>) {
    std::time::SystemTime::now().duration_since(std::time::UNIX_EPOCH).ok()
}

/// The granularity of every timestamp and interval of a channel.
#[derive(PartialEq, Eq, Debug, Copy, Clone, Structural)]
pub enum TickUnit {
    /// One thousandth of a microsecond.
    Nanos,
    /// One thousandth of a millisecond.
    Micros,
    /// One thousandth of a second.
    Millis,
    /// One second.
    Secs,
}

/// Tells whether `id` names a tick unit.
pub open spec fn valid_tick_id(id: u8) -> bool {
    id == 9 || id == 6 || id == 3 || id == 0
}

impl TickUnit {
    /// The stable id of a tick unit.
    pub open spec fn spec_id(self) -> u8 {
        match self {
            TickUnit::Nanos => 9,
            TickUnit::Micros => 6,
            TickUnit::Millis => 3,
            TickUnit::Secs => 0,
        }
    }

    /// The tick unit with a given stable id.
    pub open spec fn spec_from_id(id: u8) -> TickUnit {
        if id == 9 {
            TickUnit::Nanos
        } else if id == 6 {
            TickUnit::Micros
        } else if id == 3 {
            TickUnit::Millis
        } else {
            TickUnit::Secs
        }
    }

    /// Ticks in a duration of `secs` seconds and `nanos` nanoseconds, before truncation to 64 bits.
    pub open spec fn spec_ticks(self, secs: u64, nanos: u32) -> int {
        match self {
            TickUnit::Nanos => secs as int * 1_000_000_000 + nanos as int,
            TickUnit::Micros => secs as int * 1_000_000 + nanos as int / 1_000,
            TickUnit::Millis => secs as int * 1_000 + nanos as int / 1_000_000,
            TickUnit::Secs => secs as int,
        }
    }

    /// Returns the stable `u8` id of the tick unit: 9, 6, 3 or 0.
    pub fn id(self) -> (r: u8)
        ensures
            r == self.spec_id(),
            valid_tick_id(r),
    {
        match self {
            TickUnit::Nanos => 9,
            TickUnit::Micros => 6,
            TickUnit::Millis => 3,
            TickUnit::Secs => 0,
        }
    }

    /// Returns the tick unit whose id is `id`.
    pub fn from_id(id: u8) -> (r: TickUnit)
        requires
            valid_tick_id(id),
        ensures
            r == TickUnit::spec_from_id(id),
            r.spec_id() == id,
    {
        match id {
            9 => TickUnit::Nanos,
            6 => TickUnit::Micros,
            3 => TickUnit::Millis,
            _ => TickUnit::Secs,
        }
    }

    /// Number of ticks in `secs` seconds plus `nanos` nanoseconds, truncated to the low 64 bits.
    pub fn ticks(self, secs: u64, nanos: u32) -> (r: u64)
        requires
            nanos < 1_000_000_000,
        ensures
            r as int == self.spec_ticks(secs, nanos) % 0x1_0000_0000_0000_0000,
    {
        let s = secs as u128;
        let n = nanos as u128;
        let total: u128 = match self {
            TickUnit::Nanos => s * 1_000_000_000 + n,
            TickUnit::Micros => s * 1_000_000 + n / 1_000,
            TickUnit::Millis => s * 1_000 + n / 1_000_000,
            TickUnit::Secs => s,
        };
        (total % 0x1_0000_0000_0000_0000u128) as u64
    }

    /// Number of ticks in `duration`, truncated to the low 64 bits.
    pub fn convert(self, duration: Duration) -> (r: u64) {
        let secs = duration_secs(&duration);
        let nanos = duration_subsec_nanos(&duration);
        self.ticks(secs, nanos)
    }

    /// Ticks elapsed since midnight, January 1, 1970 UTC (zero if the clock reads earlier).
    pub fn nix_time(self) -> (r: u64) {
        match since_unix_epoch() {
            Some(d) => self.convert(d),
            None => 0,
        }
    }
}

} // verus!
