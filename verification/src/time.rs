//! The `Duration` value type: a signed span of time as whole seconds plus a
//! nanosecond remainder, normalized by the carry/borrow rule of
//! [`crate::norm`].

use vstd::prelude::*;

use crate::norm::{
    borrow_down, carry_up, lemma_carry_fits, lemma_carry_lower_bound, lemma_norm_reduced,
    lemma_norm_total, needs_borrow, needs_carry, norm, reduced, total_nanos,
};
use crate::NANOS_PER_SEC;

verus! {

/// A signed span of time. `secs` carries the sign of the whole duration;
/// `nanos` is the sub-second remainder, kept sign-consistent with `secs`
/// by the constructor.
#[derive(Copy, Clone)]
pub struct Duration {
    pub secs: i64,
    pub nanos: i32,
}

impl Duration {
    /// The whole value as a single count of nanoseconds.
    pub open spec fn total(self) -> int {
        total_nanos(self.secs as int, self.nanos as int)
    }

    /// The value is in the normal form that the constructor establishes.
    pub open spec fn normalized(self) -> bool {
        reduced(self.secs as int, self.nanos as int)
    }

    /// Create a new duration, normalizing the given pair: carry whole
    /// seconds up while the nanoseconds overflow a second or stand positive
    /// against negative seconds, then borrow seconds down while the
    /// nanoseconds stand negative against positive seconds.
    ///
    /// The precondition only rules out pairs whose carried seconds would
    /// overflow the machine word.
    pub fn new(secs: i64, nanos: i32) -> (r: Duration)
        requires
            nanos < NANOS_PER_SEC || secs <= i64::MAX - 2,
        ensures
            r.secs as int == norm(secs as int, nanos as int).0,
            r.nanos as int == norm(secs as int, nanos as int).1,
            r.normalized(),
            r.total() == total_nanos(secs as int, nanos as int),
    {
        let mut s: i64 = secs;
        let mut n: i32 = nanos;

        proof {
            lemma_carry_fits(secs as int, nanos as int);
        }

        while n >= NANOS_PER_SEC || (n > 0 && s < 0)
            invariant
                carry_up(s as int, n as int) == carry_up(secs as int, nanos as int),
                carry_up(secs as int, nanos as int).0 <= i64::MAX,
            decreases (if n > 0 { n as int } else { 0 }),
        {
            proof {
                lemma_carry_lower_bound(s as int + 1, n as int - NANOS_PER_SEC as int);
            }
            s = s + 1;
            n = n - NANOS_PER_SEC;
        }

        proof {
            assert(!needs_carry(s as int, n as int));
            assert((s as int, n as int) == carry_up(secs as int, nanos as int));
        }

        while n < 0 && s > 0
            invariant
                borrow_down(s as int, n as int) == norm(secs as int, nanos as int),
                n < NANOS_PER_SEC,
            decreases (if s > 0 { s as int } else { 0 }),
        {
            s = s - 1;
            n = n + NANOS_PER_SEC;
        }

        proof {
            assert(!needs_borrow(s as int, n as int));
            assert((s as int, n as int) == norm(secs as int, nanos as int));
            lemma_norm_reduced(secs as int, nanos as int);
            lemma_norm_total(secs as int, nanos as int);
        }

        Duration { secs: s, nanos: n }
    }

    /// The sum of two durations, renormalized. The preconditions only rule
    /// out sums that overflow the machine words.
    pub fn add(self, other: Duration) -> (r: Duration)
        requires
            i64::MIN <= self.secs + other.secs <= i64::MAX,
            i32::MIN <= self.nanos + other.nanos <= i32::MAX,
            self.nanos + other.nanos < NANOS_PER_SEC || self.secs + other.secs <= i64::MAX - 2,
        ensures
            r.secs as int == norm(self.secs + other.secs, self.nanos + other.nanos).0,
            r.nanos as int == norm(self.secs + other.secs, self.nanos + other.nanos).1,
            r.normalized(),
            r.total() == self.total() + other.total(),
    {
        Duration::new(self.secs + other.secs, self.nanos + other.nanos)
    }

    /// The difference of two durations, renormalized. The preconditions
    /// only rule out differences that overflow the machine words.
    pub fn sub(self, other: Duration) -> (r: Duration)
        requires
            i64::MIN <= self.secs - other.secs <= i64::MAX,
            i32::MIN <= self.nanos - other.nanos <= i32::MAX,
            self.nanos - other.nanos < NANOS_PER_SEC || self.secs - other.secs <= i64::MAX - 2,
        ensures
            r.secs as int == norm(self.secs - other.secs, self.nanos - other.nanos).0,
            r.nanos as int == norm(self.secs - other.secs, self.nanos - other.nanos).1,
            r.normalized(),
            r.total() == self.total() - other.total(),
    {
        Duration::new(self.secs - other.secs, self.nanos - other.nanos)
    }

    /// The whole value as a machine count of nanoseconds; every `Duration`
    /// fits in 128 bits.
    fn total_i128(&self) -> (r: i128)
        ensures
            r as int == self.total(),
            i64::MIN * (NANOS_PER_SEC as int) + i32::MIN <= r as int <= i64::MAX * (
            NANOS_PER_SEC as int) + i32::MAX,
    {
        proof {
            assert(i64::MIN * (NANOS_PER_SEC as int) <= (self.secs as int) * (NANOS_PER_SEC as int)
                <= i64::MAX * (NANOS_PER_SEC as int)) by (nonlinear_arith)
                requires
                    i64::MIN <= self.secs as int <= i64::MAX,
            ;
        }
        (self.secs as i128) * (NANOS_PER_SEC as i128) + (self.nanos as i128)
    }
}

impl Duration {
    /// Get the current reading of the monotonic clock, normalized. That
    /// the reading never decreases within a process's life is the
    /// kernel's guarantee, not this type's; nothing is assumed of the
    /// value here.
    pub fn monotonic() -> (r: Duration)
        ensures
            r.normalized(),
    {
        Duration::query(false)
    }

    /// Get the current reading of the wall clock, normalized. The wall
    /// clock may jump under external adjustment; nothing is assumed of
    /// the value here.
    pub fn realtime() -> (r: Duration)
        ensures
            r.normalized(),
    {
        Duration::query(true)
    }

    /// Ask the kernel for a clock reading and normalize it. A fault is
    /// not surfaced: it yields the zero duration, as a query that left a
    /// zeroed-out pair untouched would. A reading whose carried seconds
    /// would not fit the machine word saturates instead.
    fn query(realtime: bool) -> (r: Duration)
        ensures
            r.normalized(),
    {
        match crate::sys::clock_query(realtime) {
            Result::Ok((secs, nanos)) => {
                if nanos < NANOS_PER_SEC || secs <= i64::MAX - 2 {
                    Duration::new(secs, nanos)
                } else {
                    Duration { secs: i64::MAX, nanos: NANOS_PER_SEC - 1 }
                }
            },
            Result::Err(_) => Duration { secs: 0, nanos: 0 },
        }
    }

    /// Does strictly more time than `target` lie between `start` and
    /// `now`? This is the comparison `now - start > target` under this
    /// type's subtraction and ordering, carried out without overflow.
    pub fn elapsed_exceeds(now: Duration, start: Duration, target: Duration) -> (r: bool)
        ensures
            r == (now.total() - start.total() > target.total()),
    {
        now.total_i128() - start.total_i128() > target.total_i128()
    }

    /// One iteration of the cooperative busy-wait that sleeps for `self`:
    /// sample the monotonic clock, and either report that strictly more
    /// than `self` has elapsed since `start`, or yield the processor and
    /// report not done. The comparison is deliberately strict: an elapsed
    /// time exactly equal to `self` yields once more. The caller repeats
    /// this step until it reports done; how many steps that takes is in
    /// the clock's and the scheduler's hands, so no step count is stated.
    pub fn sleep_step(&self, start: Duration) -> (r: (bool, Duration))
        ensures
            r.1.normalized(),
            r.0 == (r.1.total() - start.total() > self.total()),
    {
        let now = Duration::monotonic();
        let done = Duration::elapsed_exceeds(now, start, *self);
        if !done {
            crate::sys::yield_now();
        }
        (done, now)
    }

    /// Convert to a string: the signed whole seconds in base ten. The
    /// fractional nanoseconds are dropped, not rounded; rendering them is
    /// deliberately left out.
    pub fn to_string(&self) -> (r: String)
        ensures
            r@ == crate::dec::signed_dec_rep(self.secs as int),
    {
        crate::dec::signed_dec_string(self.secs)
    }
}

/// Two durations are equal when their difference normalizes to zero
/// seconds and zero nanoseconds; by the normalization rule that is exactly
/// when they stand for the same total count of nanoseconds.
impl PartialEq for Duration {
    fn eq(&self, other: &Duration) -> (r: bool) {
        self.total_i128() == other.total_i128()
    }
}

impl vstd::std_specs::cmp::PartialEqSpecImpl for Duration {
    open spec fn obeys_eq_spec() -> bool {
        true
    }

    open spec fn eq_spec(&self, other: &Duration) -> bool {
        self.total() == other.total()
    }
}

/// Durations are totally ordered by the sign of their difference after
/// normalization: positive seconds (or, at zero seconds, positive
/// nanoseconds) mean greater, the negative counterparts mean less.
impl PartialOrd for Duration {
    fn partial_cmp(&self, other: &Duration) -> (r: Option<core::cmp::Ordering>) {
        let a = self.total_i128();
        let b = other.total_i128();
        if a < b {
            Option::Some(core::cmp::Ordering::Less)
        } else if a == b {
            Option::Some(core::cmp::Ordering::Equal)
        } else {
            Option::Some(core::cmp::Ordering::Greater)
        }
    }
}

impl vstd::std_specs::cmp::PartialOrdSpecImpl for Duration {
    open spec fn obeys_partial_cmp_spec() -> bool {
        true
    }

    open spec fn partial_cmp_spec(&self, other: &Duration) -> Option<core::cmp::Ordering> {
        if self.total() < other.total() {
            Option::Some(core::cmp::Ordering::Less)
        } else if self.total() == other.total() {
            Option::Some(core::cmp::Ordering::Equal)
        } else {
            Option::Some(core::cmp::Ordering::Greater)
        }
    }
}

} // verus!
