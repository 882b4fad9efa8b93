//! Laws of the duration algebra, stated over the normalization model and
//! proved once and for all.

use core::cmp::Ordering;
use vstd::prelude::*;
use vstd::std_specs::cmp::{PartialEqSpec, PartialOrdSpec};

use crate::norm::{
    lemma_norm_fixed, lemma_norm_reduced, lemma_norm_sign, norm, total_nanos,
};
use crate::time::Duration;

verus! {

/// The normalized difference of two durations, the quantity that both
/// equality and ordering go by.
pub open spec fn dif_norm(a: Duration, b: Duration) -> (int, int) {
    norm(a.secs - b.secs, a.nanos - b.nanos)
}

/// Normalization is idempotent: constructing a duration from the parts
/// of an already-constructed one gives the same parts back.
pub proof fn lemma_new_idempotent(s: int, n: int)
    ensures
        norm(norm(s, n).0, norm(s, n).1) == norm(s, n),
{
    lemma_norm_reduced(s, n);
    lemma_norm_fixed(norm(s, n).0, norm(s, n).1);
}

/// The zero duration is the additive identity: adding the parts of the
/// zero duration to a constructed duration and renormalizing gives the
/// constructed duration back.
pub proof fn lemma_add_identity(s: int, n: int)
    ensures
        norm(0, 0) == (0int, 0int),
        norm(norm(s, n).0 + norm(0, 0).0, norm(s, n).1 + norm(0, 0).1) == norm(s, n),
{
    lemma_new_idempotent(s, n);
}

/// Every duration is its own additive inverse: subtracting a duration
/// from itself normalizes to zero seconds and zero nanoseconds.
pub proof fn lemma_sub_self(a: Duration)
    ensures
        dif_norm(a, a) == (0int, 0int),
{
}

/// The ordering is total — exactly one of less, equal and greater holds
/// of any two durations — and it agrees with the sign of the normalized
/// difference, seconds first and nanoseconds at zero seconds; equality
/// agrees with the difference normalizing to exactly zero.
pub proof fn lemma_order_trichotomy(a: Duration, b: Duration)
    ensures
        a.partial_cmp_spec(&b) == Option::Some(Ordering::Less) || a.partial_cmp_spec(&b)
            == Option::Some(Ordering::Equal) || a.partial_cmp_spec(&b) == Option::Some(
            Ordering::Greater,
        ),
        a.partial_cmp_spec(&b) == Option::Some(Ordering::Greater) <==> (dif_norm(a, b).0 > 0 || (
        dif_norm(a, b).0 == 0 && dif_norm(a, b).1 > 0)),
        a.partial_cmp_spec(&b) == Option::Some(Ordering::Less) <==> (dif_norm(a, b).0 < 0 || (
        dif_norm(a, b).0 == 0 && dif_norm(a, b).1 < 0)),
        a.partial_cmp_spec(&b) == Option::Some(Ordering::Equal) <==> (dif_norm(a, b).0 == 0
            && dif_norm(a, b).1 == 0),
        a.eq_spec(&b) <==> a.partial_cmp_spec(&b) == Option::Some(Ordering::Equal),
{
    lemma_norm_sign(a.secs - b.secs, a.nanos - b.nanos);
    assert(total_nanos(a.secs - b.secs, a.nanos - b.nanos) == a.total() - b.total());
}

} // verus!
