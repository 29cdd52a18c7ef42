//! Fixed-point media time: 90 kHz ticks, with checked arithmetic throughout so
//! that timestamp math never overflows silently.

use vstd::prelude::*;

verus! {

/// Ticks per second of the 90 kHz H.264 media time base.
pub const H264_SECOND: i64 = 90_000;

/// Ticks per millisecond of the 90 kHz H.264 media time base.
pub const H264_MILLISECOND: i64 = 90;

/// A span of media time, counted in 90 kHz ticks; may be negative.
#[derive(Clone, Copy, PartialEq, Eq, Structural, Debug)]
pub struct DurationH264 {
    pub ticks: i64,
}

impl View for DurationH264 {
    type V = int;

    open spec fn view(&self) -> int {
        self.ticks as int
    }
}

impl DurationH264 {
    pub fn new(ticks: i64) -> (r: Self)
        ensures
            r@ == ticks,
    {
        DurationH264 { ticks }
    }

    pub fn is_zero(&self) -> (r: bool)
        ensures
            r == (self@ == 0),
    {
        self.ticks == 0
    }

    pub fn checked_add(self, other: Self) -> (r: Option<Self>)
        ensures
            match r {
                Some(d) => i64::MIN <= self@ + other@ <= i64::MAX && d@ == self@ + other@,
                None => !(i64::MIN <= self@ + other@ <= i64::MAX),
            },
    {
        match self.ticks.checked_add(other.ticks) {
            Some(t) => Some(DurationH264 { ticks: t }),
            None => None,
        }
    }

    pub fn checked_sub(self, other: Self) -> (r: Option<Self>)
        ensures
            match r {
                Some(d) => i64::MIN <= self@ - other@ <= i64::MAX && d@ == self@ - other@,
                None => !(i64::MIN <= self@ - other@ <= i64::MAX),
            },
    {
        match self.ticks.checked_sub(other.ticks) {
            Some(t) => Some(DurationH264 { ticks: t }),
            None => None,
        }
    }

    pub fn checked_mul(self, other: Self) -> (r: Option<Self>)
        ensures
            match r {
                Some(d) => i64::MIN <= self@ * other@ <= i64::MAX && d@ == self@ * other@,
                None => !(i64::MIN <= self@ * other@ <= i64::MAX),
            },
    {
        match self.ticks.checked_mul(other.ticks) {
            Some(t) => Some(DurationH264 { ticks: t }),
            None => None,
        }
    }

    /// Division of non-negative spans; fails exactly on a zero divisor.
    pub fn checked_div(self, other: Self) -> (r: Option<Self>)
        requires
            self@ >= 0,
            other@ >= 0,
        ensures
            match r {
                Some(d) => other@ > 0 && d@ == self@ / other@,
                None => other@ == 0,
            },
    {
        proof {
            if other@ > 0 {
                vstd::arithmetic::div_mod::lemma_div_pos_is_pos(self@, other@);
                vstd::arithmetic::div_mod::lemma_div_nonincreasing(self@, other@);
            }
        }
        match self.ticks.checked_div(other.ticks) {
            Some(t) => Some(DurationH264 { ticks: t }),
            None => None,
        }
    }

    /// Remainder of non-negative spans; fails exactly on a zero divisor.
    pub fn checked_rem(self, other: Self) -> (r: Option<Self>)
        requires
            self@ >= 0,
            other@ >= 0,
        ensures
            match r {
                Some(d) => other@ > 0 && d@ == self@ % other@,
                None => other@ == 0,
            },
    {
        proof {
            if other@ > 0 {
                vstd::arithmetic::div_mod::lemma_mod_bound(self@, other@);
                vstd::arithmetic::div_mod::lemma_small_mod(0nat, other@ as nat);
            }
        }
        match self.ticks.checked_rem(other.ticks) {
            Some(t) => Some(DurationH264 { ticks: t }),
            None => None,
        }
    }
}

/// A wall-clock instant, counted in 90 kHz ticks since the Unix epoch.
#[derive(Clone, Copy, PartialEq, Eq, Structural, Debug)]
pub struct UnixH264 {
    pub ticks: i64,
}

impl View for UnixH264 {
    type V = int;

    open spec fn view(&self) -> int {
        self.ticks as int
    }
}

impl UnixH264 {
    pub fn new(ticks: i64) -> (r: Self)
        ensures
            r@ == ticks,
    {
        UnixH264 { ticks }
    }
}

} // verus!
