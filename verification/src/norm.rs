//! Mathematical model of the sign-aware carry/borrow normalization that the
//! `Duration` constructor performs on a (seconds, nanoseconds) pair.

use vstd::prelude::*;

use crate::NANOS_PER_SEC;

verus! {

/// The whole pair as a single count of nanoseconds.
pub open spec fn total_nanos(s: int, n: int) -> int {
    s * (NANOS_PER_SEC as int) + n
}

/// A carry step is due: the nanoseconds overflow one second, or a positive
/// nanosecond part stands against negative seconds.
pub open spec fn needs_carry(s: int, n: int) -> bool {
    n >= NANOS_PER_SEC as int || (n > 0 && s < 0)
}

/// A borrow step is due: a negative nanosecond part stands against positive
/// seconds.
pub open spec fn needs_borrow(s: int, n: int) -> bool {
    n < 0 && s > 0
}

/// Repeatedly carry one second up out of the nanosecond part.
pub open spec fn carry_up(s: int, n: int) -> (int, int)
    decreases (if n > 0 { n } else { 0 }),
{
    if needs_carry(s, n) {
        carry_up(s + 1, n - NANOS_PER_SEC as int)
    } else {
        (s, n)
    }
}

/// Repeatedly borrow one second down into the nanosecond part.
pub open spec fn borrow_down(s: int, n: int) -> (int, int)
    decreases (if s > 0 { s } else { 0 }),
{
    if needs_borrow(s, n) {
        borrow_down(s - 1, n + NANOS_PER_SEC as int)
    } else {
        (s, n)
    }
}

/// The normal form that the constructor computes: carry first, then borrow.
pub open spec fn norm(s: int, n: int) -> (int, int) {
    borrow_down(carry_up(s, n).0, carry_up(s, n).1)
}

/// A pair in normal form: nanoseconds below one second, and seconds and
/// nanoseconds never of strictly opposite signs. Note that a non-positive
/// seconds part may keep a nanosecond part at or below a whole negative
/// second: the borrow rule never touches non-positive seconds.
pub open spec fn reduced(s: int, n: int) -> bool {
    &&& n < NANOS_PER_SEC as int
    &&& !(n > 0 && s < 0)
    &&& !(n < 0 && s > 0)
}

/// Carrying keeps the total amount of time unchanged.
pub proof fn lemma_carry_total(s: int, n: int)
    ensures
        total_nanos(carry_up(s, n).0, carry_up(s, n).1) == total_nanos(s, n),
    decreases (if n > 0 { n } else { 0 }),
{
    if needs_carry(s, n) {
        lemma_carry_total(s + 1, n - NANOS_PER_SEC as int);
    }
}

/// Borrowing keeps the total amount of time unchanged.
pub proof fn lemma_borrow_total(s: int, n: int)
    ensures
        total_nanos(borrow_down(s, n).0, borrow_down(s, n).1) == total_nanos(s, n),
    decreases (if s > 0 { s } else { 0 }),
{
    if needs_borrow(s, n) {
        lemma_borrow_total(s - 1, n + NANOS_PER_SEC as int);
    }
}

/// When the carry loop stops, no carry step is due any more.
pub proof fn lemma_carry_exit(s: int, n: int)
    ensures
        !needs_carry(carry_up(s, n).0, carry_up(s, n).1),
    decreases (if n > 0 { n } else { 0 }),
{
    if needs_carry(s, n) {
        lemma_carry_exit(s + 1, n - NANOS_PER_SEC as int);
    }
}

/// The carry loop only ever increments the seconds.
pub proof fn lemma_carry_lower_bound(s: int, n: int)
    ensures
        carry_up(s, n).0 >= s,
    decreases (if n > 0 { n } else { 0 }),
{
    if needs_carry(s, n) {
        lemma_carry_lower_bound(s + 1, n - NANOS_PER_SEC as int);
    }
}

/// At most `k` whole seconds hide in a nanosecond part bounded by
/// `k` seconds plus a remainder, so the seconds grow by at most `k`
/// (and never above `k` when they start negative).
pub proof fn lemma_carry_upper_bound(s: int, n: int, k: int)
    requires
        0 <= k,
        n <= k * (NANOS_PER_SEC as int) + (NANOS_PER_SEC as int - 1),
    ensures
        carry_up(s, n).0 <= (if s >= 0 { s } else { 0 }) + k,
    decreases (if n > 0 { n } else { 0 }),
{
    if needs_carry(s, n) {
        if n >= NANOS_PER_SEC as int {
            assert(k >= 1);
            lemma_carry_upper_bound(s + 1, n - NANOS_PER_SEC as int, k - 1);
        } else {
            lemma_carry_upper_bound(s + 1, n - NANOS_PER_SEC as int, k);
        }
    }
}

/// With a nanosecond part that fits in 32 bits, the carried seconds stay
/// within the machine word as long as the seconds leave room for the at
/// most two whole seconds hidden in the nanoseconds.
pub proof fn lemma_carry_fits(s: int, n: int)
    requires
        i32::MIN <= n <= i32::MAX,
        i64::MIN <= s <= i64::MAX,
        n < NANOS_PER_SEC as int || s <= i64::MAX - 2,
    ensures
        carry_up(s, n).0 <= i64::MAX,
{
    if !needs_carry(s, n) {
        assert(carry_up(s, n).0 == s);
    } else if n >= NANOS_PER_SEC as int {
        lemma_carry_upper_bound(s, n, 2);
    } else {
        // 0 < n < NANOS_PER_SEC against s < 0: one carry step ends the loop
        // with non-positive nanoseconds and seconds at most zero.
        assert(carry_up(s, n) == carry_up(s + 1, n - NANOS_PER_SEC as int));
        assert(carry_up(s + 1, n - NANOS_PER_SEC as int).0 == s + 1);
    }
}

/// The borrow loop undoes no carry: it keeps the carry loop's exit
/// condition, and it never drives the seconds below zero once they were
/// non-negative.
pub proof fn lemma_borrow_keeps(s: int, n: int)
    requires
        !needs_carry(s, n),
    ensures
        !needs_carry(borrow_down(s, n).0, borrow_down(s, n).1),
        !needs_borrow(borrow_down(s, n).0, borrow_down(s, n).1),
    decreases (if s > 0 { s } else { 0 }),
{
    if needs_borrow(s, n) {
        lemma_borrow_keeps(s - 1, n + NANOS_PER_SEC as int);
    }
}

/// The normal form is reduced.
pub proof fn lemma_norm_reduced(s: int, n: int)
    ensures
        reduced(norm(s, n).0, norm(s, n).1),
{
    lemma_carry_exit(s, n);
    lemma_borrow_keeps(carry_up(s, n).0, carry_up(s, n).1);
}

/// Normalization keeps the total amount of time unchanged.
pub proof fn lemma_norm_total(s: int, n: int)
    ensures
        total_nanos(norm(s, n).0, norm(s, n).1) == total_nanos(s, n),
{
    lemma_carry_total(s, n);
    lemma_borrow_total(carry_up(s, n).0, carry_up(s, n).1);
}

/// A reduced pair is a fixed point of normalization.
pub proof fn lemma_norm_fixed(s: int, n: int)
    requires
        reduced(s, n),
    ensures
        norm(s, n) == (s, n),
{
}

/// After normalization the sign of the seconds (and, at zero seconds, of
/// the nanoseconds) is the sign of the total amount of time.
pub proof fn lemma_norm_sign(s: int, n: int)
    ensures
        total_nanos(s, n) > 0 <==> (norm(s, n).0 > 0 || (norm(s, n).0 == 0 && norm(s, n).1 > 0)),
        total_nanos(s, n) == 0 <==> (norm(s, n).0 == 0 && norm(s, n).1 == 0),
        total_nanos(s, n) < 0 <==> (norm(s, n).0 < 0 || (norm(s, n).0 == 0 && norm(s, n).1 < 0)),
{
    lemma_norm_reduced(s, n);
    lemma_norm_total(s, n);
}

} // verus!
