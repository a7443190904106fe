//! Points in time, as microseconds since the Unix epoch.

use vstd::prelude::*;

verus! {

/// Microseconds in one minute.
pub const MICROS_PER_MINUTE: i64 = 60_000_000;

/// A point in time (UTC), in microseconds since the Unix epoch.
#[derive(Clone, Copy, Debug, PartialEq, Eq, Structural)]
pub struct Timestamp {
    pub micros: i64,
}

impl Timestamp {
    /// Build a timestamp from microseconds since the epoch.
    pub fn from_micros(micros: i64) -> (r: Timestamp)
        ensures
            r.micros == micros,
    {
        Timestamp { micros }
    }

    /// Whether `self` lies strictly before `other`.
    pub fn is_before(&self, other: &Timestamp) -> (r: bool)
        ensures
            r == (self.micros < other.micros),
    {
        self.micros < other.micros
    }

    /// Whether `minutes` is a non-negative span of minutes whose length in
    /// microseconds fits in an `i64`, and going back by it from `self`
    /// stays within the representable range.
    pub open spec fn can_go_back(self, minutes: i64) -> bool {
        &&& 0 <= minutes <= i64::MAX / MICROS_PER_MINUTE
        &&& self.micros - minutes * MICROS_PER_MINUTE >= i64::MIN
    }

    /// The point `minutes` minutes before `self`.
    pub fn minus_minutes(&self, minutes: i64) -> (r: Timestamp)
        requires
            self.can_go_back(minutes),
        ensures
            r.micros == self.micros - minutes * MICROS_PER_MINUTE,
    {
        assert(0 <= minutes * MICROS_PER_MINUTE <= i64::MAX) by (nonlinear_arith)
            requires
                0 <= minutes <= i64::MAX / MICROS_PER_MINUTE,
                MICROS_PER_MINUTE == 60_000_000,
        ;
        Timestamp { micros: self.micros - minutes * MICROS_PER_MINUTE }
    }
}

} // verus!
