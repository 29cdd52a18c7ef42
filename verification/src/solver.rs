//! Part-duration compatibility solver.
//!
//! A streaming client rejects a part whose realized length falls below 85% of
//! the declared target part duration.  Parts are cut on sample boundaries, so
//! for a declared part duration `p` and a sample duration `s` the realized
//! length is `ceil(p / s) * s`.  The solver searches, in 5 ms steps from a
//! configured floor up to a 5 s bound, for the smallest declared duration that
//! every observed sample duration keeps within that tolerance.

use vstd::prelude::*;

use crate::time::{DurationH264, H264_MILLISECOND, H264_SECOND};

verus! {

/// Exclusive upper bound of the part-duration search, in ticks.
pub const PART_DURATION_LIMIT: i64 = 5 * H264_SECOND;

/// Step of the part-duration search, in ticks.
pub const PART_DURATION_STEP: i64 = 5 * H264_MILLISECOND;

/// `ceil(p / s)`: how many whole samples of duration `s` cover a part of
/// duration `p`.
pub open spec fn ceil_div(p: int, s: int) -> int {
    p / s + if p % s == 0 {
        0int
    } else {
        1int
    }
}

/// The media time actually spanned by the samples that cover one part.
pub open spec fn covered_duration(p: int, s: int) -> int {
    ceil_div(p, s) * s
}

/// Whether a declared part duration `p` is compatible with a sample duration
/// `s`: the sample fits in one part, and `p` exceeds 85% (in integer
/// arithmetic) of the realized part length.
pub open spec fn compatible(p: int, s: int) -> bool {
    s <= p && p > covered_duration(p, s) * 85 / 100
}

/// Whether the checked fixed-point arithmetic of the compatibility test
/// succeeds for `p` and `s` (with `s > 0`): either the sample is rejected
/// outright for not fitting, or the intermediate products stay in range.
pub open spec fn compat_arith_ok(p: int, s: int) -> bool {
    s > p || (covered_duration(p, s) <= i64::MAX && covered_duration(p, s) * 85 <= i64::MAX)
}

/// Whether `p` is compatible with every observed sample duration.
pub open spec fn all_compatible(p: int, durations: Set<int>) -> bool {
    forall|s: int| durations.contains(s) ==> compatible(p, s)
}

/// The candidates the search visits for a floor `floor`: every duration from
/// the floor up to (excluding) the 5 s bound, in 5 ms steps.
pub open spec fn grid_candidate(floor: int, c: int) -> bool {
    floor <= c < PART_DURATION_LIMIT && (c - floor) % (PART_DURATION_STEP as int) == 0
}

/// Whether any candidate of the search is compatible with the whole set.
pub open spec fn some_grid_compatible(floor: int, durations: Set<int>) -> bool {
    exists|c: int| grid_candidate(floor, c) && all_compatible(c, durations)
}

/// Whether `d` is the smallest candidate compatible with the whole set.
pub open spec fn is_least_grid_compatible(d: int, floor: int, durations: Set<int>) -> bool {
    &&& grid_candidate(floor, d)
    &&& all_compatible(d, durations)
    &&& forall|c: int| grid_candidate(floor, c) && c < d ==> !all_compatible(c, durations)
}

/// The realized part length is at least the declared duration and overshoots
/// it by less than one sample.
pub proof fn lemma_covered_bounds(p: int, s: int)
    requires
        0 < s <= p,
    ensures
        p <= covered_duration(p, s) < p + s,
{
    vstd::arithmetic::div_mod::lemma_fundamental_div_mod(p, s);
    vstd::arithmetic::div_mod::lemma_mod_bound(p, s);
    let q = p / s;
    let r = p % s;
    if r == 0 {
        assert(covered_duration(p, s) == q * s);
        assert(q * s == p) by (nonlinear_arith)
            requires
                p == s * q + r,
                r == 0,
        {
        }
    } else {
        assert(covered_duration(p, s) == (q + 1) * s);
        assert((q + 1) * s == p - r + s) by (nonlinear_arith)
            requires
                p == s * q + r,
        {
        }
    }
}

/// Below the search bound the checked arithmetic of the compatibility test
/// never overflows for a positive sample duration.
pub proof fn lemma_arith_ok_below_limit(p: int, s: int)
    requires
        s > 0,
        p < PART_DURATION_LIMIT,
    ensures
        compat_arith_ok(p, s),
{
    if s <= p {
        lemma_covered_bounds(p, s);
        let c = covered_duration(p, s);
        assert(c < 2 * PART_DURATION_LIMIT);
        assert(c * 85 < 2 * PART_DURATION_LIMIT * 85) by (nonlinear_arith)
            requires
                0 < c < 2 * PART_DURATION_LIMIT,
        {
        }
    }
}

/// A part duration the search settles on is at or above the configured
/// floor, large enough for every observed sample duration, and strictly
/// above 85% of the part length that whole samples of each observed duration
/// realize for it.
pub proof fn lemma_found_duration_is_tolerable(d: int, floor: int, s: int, durations: Set<int>)
    requires
        s > 0,
        durations.contains(s),
        is_least_grid_compatible(d, floor, durations),
    ensures
        floor <= d,
        s <= d,
        d > covered_duration(d, s) * 85 / 100,
{
}

/// The set of distinct positive sample durations observed so far, in the
/// order they were first seen.
pub struct DurationSet {
    items: Vec<DurationH264>,
}

impl DurationSet {
    /// The observed durations as ticks, in observation order.
    pub closed spec fn sq(&self) -> Seq<int> {
        self.items@.map_values(|d: DurationH264| d@)
    }

    /// Distinct and positive.
    pub open spec fn wf(&self) -> bool {
        &&& forall|j: int| 0 <= j < self.sq().len() ==> self.sq()[j] > 0
        &&& forall|j: int, k: int|
            0 <= j < k < self.sq().len() ==> self.sq()[j] != self.sq()[k]
    }

    pub open spec fn view(&self) -> Set<int> {
        self.sq().to_set()
    }

    pub proof fn lemma_members_positive(&self)
        requires
            self.wf(),
        ensures
            forall|x: int| self@.contains(x) ==> x > 0,
    {
        assert forall|x: int| self@.contains(x) implies x > 0 by {
            let j = choose|j: int| 0 <= j < self.sq().len() && self.sq()[j] == x;
        }
    }

    pub fn new() -> (r: Self)
        ensures
            r.wf(),
            r.sq() == Seq::<int>::empty(),
            r@ == Set::<int>::empty(),
    {
        let r = DurationSet { items: Vec::new() };
        proof {
            assert(r.sq() =~= Seq::<int>::empty());
            assert(r@ =~= Set::<int>::empty());
        }
        r
    }

    pub fn len(&self) -> (r: usize)
        ensures
            r == self.sq().len(),
    {
        self.items.len()
    }

    pub fn contains(&self, d: DurationH264) -> (r: bool)
        ensures
            r == self@.contains(d@),
    {
        let n = self.items.len();
        let mut idx: usize = 0;
        while idx < n
            invariant
                n == self.items@.len(),
                idx <= n,
                forall|j: int| 0 <= j < idx ==> self.sq()[j] != d@,
            decreases n - idx,
        {
            if self.items[idx].ticks == d.ticks {
                proof {
                    assert(self.sq()[idx as int] == d@);
                    assert(self.sq().contains(d@));
                }
                return true;
            }
            idx += 1;
        }
        proof {
            assert(!self.sq().contains(d@));
        }
        false
    }

    pub fn insert(&mut self, d: DurationH264)
        requires
            old(self).wf(),
            d@ > 0,
            !old(self)@.contains(d@),
        ensures
            final(self).wf(),
            final(self).sq() == old(self).sq().push(d@),
            final(self)@ == old(self)@.insert(d@),
    {
        proof {
            assert(!old(self).sq().contains(d@));
        }
        self.items.push(d);
        proof {
            assert(self.sq() =~= old(self).sq().push(d@));
            assert forall|x: int| self@.contains(x) implies old(self)@.insert(d@).contains(x) by {
                let j = choose|j: int| 0 <= j < self.sq().len() && self.sq()[j] == x;
                if j < old(self).sq().len() {
                    assert(old(self).sq()[j] == x);
                    assert(old(self).sq().contains(x));
                } else {
                    assert(x == d@);
                }
            }
            assert forall|x: int| old(self)@.insert(d@).contains(x) implies self@.contains(x) by {
                if x == d@ {
                    assert(self.sq()[self.sq().len() - 1] == d@);
                    assert(self.sq().contains(x));
                } else {
                    let j = choose|j: int|
                        0 <= j < old(self).sq().len() && old(self).sq()[j] == x;
                    assert(self.sq()[j] == x);
                    assert(self.sq().contains(x));
                }
            }
            assert(self@ =~= old(self)@.insert(d@));
        }
    }

    /// Removes the duration observed last, undoing the most recent `insert`.
    pub fn drop_newest(&mut self)
        requires
            old(self).wf(),
            old(self).sq().len() > 0,
        ensures
            final(self).wf(),
            final(self).sq() == old(self).sq().drop_last(),
    {
        let _ = self.items.pop();
        proof {
            assert(self.sq() =~= old(self).sq().drop_last());
        }
    }
}

/// Whether one sample duration keeps the declared part duration within the
/// client's 85% tolerance; fails if the checked arithmetic cannot represent
/// an intermediate product.
pub fn part_duration_is_compatible(part_duration: DurationH264, sample_duration: DurationH264) -> (r:
    Option<bool>)
    requires
        sample_duration@ > 0,
    ensures
        match r {
            Some(b) => compat_arith_ok(part_duration@, sample_duration@) && b == compatible(
                part_duration@,
                sample_duration@,
            ),
            None => !compat_arith_ok(part_duration@, sample_duration@),
        },
{
    if sample_duration.ticks > part_duration.ticks {
        return Some(false);
    }
    let ghost p = part_duration@;
    let ghost s = sample_duration@;
    let mut f = match part_duration.checked_div(sample_duration) {
        Some(f) => f,
        None => {
            return None;
        },
    };
    let rem = match part_duration.checked_rem(sample_duration) {
        Some(rem) => rem,
        None => {
            return None;
        },
    };
    if rem.ticks != 0 {
        proof {
            assert(s >= 2) by {
                if s == 1 {
                    assert(p % 1 == 0) by (nonlinear_arith);
                }
            }
            vstd::arithmetic::div_mod::lemma_div_is_ordered_by_denominator(p, 2, s);
            vstd::arithmetic::div_mod::lemma_div_decreases(p, 2);
        }
        f = match f.checked_add(DurationH264::new(1)) {
            Some(f) => f,
            None => {
                return None;
            },
        };
    }
    proof {
        assert(f@ == ceil_div(p, s));
        assert(f@ >= 1) by {
            vstd::arithmetic::div_mod::lemma_div_is_ordered(s, p, s);
            vstd::arithmetic::div_mod::lemma_div_by_self(s);
        }
    }
    let covered = match f.checked_mul(sample_duration) {
        Some(covered) => covered,
        None => {
            proof {
                assert(f@ * s >= 1) by (nonlinear_arith)
                    requires
                        f@ >= 1,
                        s >= 1,
                {
                }
            }
            return None;
        },
    };
    proof {
        assert(covered@ == covered_duration(p, s));
        lemma_covered_bounds(p, s);
    }
    let scaled = match covered.checked_mul(DurationH264::new(85)) {
        Some(scaled) => scaled,
        None => {
            proof {
                assert(covered@ * 85 >= 85) by (nonlinear_arith)
                    requires
                        covered@ >= 1,
                {
                }
            }
            return None;
        },
    };
    let threshold = match scaled.checked_div(DurationH264::new(100)) {
        Some(threshold) => threshold,
        None => {
            return None;
        },
    };
    proof {
        assert(scaled@ >= 0) by (nonlinear_arith)
            requires
                covered@ >= 1,
                scaled@ == covered@ * 85,
        {
        }
    }
    Some(part_duration.ticks > threshold.ticks)
}

/// Whether the declared part duration is compatible with every observed
/// sample duration, testing them in observation order and stopping at the
/// first failure.
pub fn part_duration_is_compatible_with_all(
    part_duration: DurationH264,
    sample_durations: &DurationSet,
) -> (r: Option<bool>)
    requires
        sample_durations.wf(),
    ensures
        (r == Some(true)) <==> (forall|s: int|
            sample_durations@.contains(s) ==> compat_arith_ok(part_duration@, s) && compatible(
                part_duration@,
                s,
            )),
        r == Some(false) ==> (exists|s: int|
            sample_durations@.contains(s) && compat_arith_ok(part_duration@, s) && !compatible(
                part_duration@,
                s,
            )),
        r is None ==> (exists|s: int|
            sample_durations@.contains(s) && !compat_arith_ok(part_duration@, s)),
{
    let n = sample_durations.items.len();
    let mut idx: usize = 0;
    while idx < n
        invariant
            sample_durations.wf(),
            n == sample_durations.items@.len(),
            idx <= n,
            forall|j: int|
                0 <= j < idx ==> compat_arith_ok(part_duration@, sample_durations.sq()[j])
                    && compatible(part_duration@, sample_durations.sq()[j]),
        decreases n - idx,
    {
        let sd = sample_durations.items[idx];
        proof {
            assert(sd@ == sample_durations.sq()[idx as int]);
            assert(sample_durations.sq().contains(sd@));
        }
        match part_duration_is_compatible(part_duration, sd) {
            None => {
                return None;
            },
            Some(false) => {
                return Some(false);
            },
            Some(true) => {},
        }
        idx += 1;
    }
    proof {
        assert forall|s: int|
            sample_durations@.contains(s) implies compat_arith_ok(part_duration@, s) && compatible(
            part_duration@,
            s,
        ) by {
            let j = choose|j: int|
                0 <= j < sample_durations.sq().len() && sample_durations.sq()[j] == s;
        }
    }
    Some(true)
}

/// Every candidate the search visits for this floor that lies in `[i, i +
/// step)` is `i` itself.
proof fn lemma_grid_step(floor: int, i: int)
    requires
        (i - floor) % (PART_DURATION_STEP as int) == 0,
    ensures
        forall|c: int|
            grid_candidate(floor, c) && i <= c < i + PART_DURATION_STEP ==> c == i,
{
    let step = PART_DURATION_STEP as int;
    assert forall|c: int| grid_candidate(floor, c) && i <= c < i + step implies c == i by {
        vstd::arithmetic::div_mod::lemma_fundamental_div_mod(c - floor, step);
        vstd::arithmetic::div_mod::lemma_fundamental_div_mod(i - floor, step);
        let a = (c - floor) / step;
        let b = (i - floor) / step;
        assert(c - i == step * (a - b)) by (nonlinear_arith)
            requires
                c - floor == step * a,
                i - floor == step * b,
        {
        }
        assert(a == b) by (nonlinear_arith)
            requires
                c - i == step * (a - b),
                0 <= c - i < step,
                step > 0,
        {
        }
    }
}

/// Finds the smallest part duration at or above the configured floor, within
/// the 5 s search bound, that is compatible with every observed sample
/// duration; fails exactly when no visited candidate is compatible.
pub fn find_compatible_part_duration(
    min_part_duration: DurationH264,
    sample_durations: &DurationSet,
) -> (r: Option<DurationH264>)
    requires
        sample_durations.wf(),
    ensures
        match r {
            Some(d) => is_least_grid_compatible(d@, min_part_duration@, sample_durations@),
            None => !some_grid_compatible(min_part_duration@, sample_durations@),
        },
{
    let mut i = min_part_duration;
    while i.ticks < 5 * H264_SECOND
        invariant
            sample_durations.wf(),
            i@ >= min_part_duration@,
            (i@ - min_part_duration@) % (PART_DURATION_STEP as int) == 0,
            forall|c: int|
                grid_candidate(min_part_duration@, c) && c < i@ ==> !all_compatible(
                    c,
                    sample_durations@,
                ),
        decreases PART_DURATION_LIMIT + PART_DURATION_STEP - i.ticks,
    {
        proof {
            sample_durations.lemma_members_positive();
            assert forall|s: int|
                sample_durations@.contains(s) implies compat_arith_ok(i@, s) by {
                lemma_arith_ok_below_limit(i@, s);
            }
        }
        match part_duration_is_compatible_with_all(i, sample_durations) {
            None => {
                // unreachable: every member's checked arithmetic succeeds here
                proof {
                    assert(false);
                }
                return None;
            },
            Some(true) => {
                return Some(i);
            },
            Some(false) => {},
        }
        let next = match i.checked_add(DurationH264::new(PART_DURATION_STEP)) {
            Some(next) => next,
            None => {
                // unreachable: i is below the search bound, so the step fits
                proof {
                    assert(false);
                }
                return None;
            },
        };
        proof {
            lemma_grid_step(min_part_duration@, i@);
            vstd::arithmetic::div_mod::lemma_mod_add_multiples_vanish(
                i@ - min_part_duration@,
                PART_DURATION_STEP as int,
            );
        }
        i = next;
    }
    None
}

} // verus!
