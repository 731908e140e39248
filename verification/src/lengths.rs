//! How lengths compare.
//!
//! A length is any type with an order. Where the order is known to be one (`i64`, say), a
//! comparison comes out as it must; where it is not (floating-point numbers, among which some
//! compare with nothing), what is decided is stated by how the comparisons come out.

use vstd::prelude::*;
use vstd::std_specs::cmp::{PartialOrdIs, PartialOrdSpec};

verus! {

/// `a < b` may come out as `found`.
pub open spec fn finds_less<L: PartialOrd>(a: L, b: L, found: bool) -> bool {
    call_ensures(L::lt, (&a, &b), found)
}

/// `a <= b` may come out as `found`.
pub open spec fn finds_at_most<L: PartialOrd>(a: L, b: L, found: bool) -> bool {
    call_ensures(L::le, (&a, &b), found)
}

/// `a >= b` may come out as `found`.
pub open spec fn finds_reached<L: PartialOrd>(a: L, b: L, found: bool) -> bool {
    call_ensures(L::ge, (&a, &b), found)
}

/// Where the order is known, a comparison comes out in one way only.
pub proof fn comparisons_come_out_one_way<L: PartialOrd>(a: L, b: L, found: bool)
    requires
        L::obeys_partial_cmp_spec(),
    ensures
        finds_less(a, b, found) ==> found == a.is_lt(&b),
        finds_at_most(a, b, found) ==> found == a.is_le(&b),
        finds_reached(a, b, found) ==> found == a.is_ge(&b),
{
}

/// The smaller of two lengths; the second where the first compares with nothing.
pub open spec fn lesser<L: PartialOrd>(a: L, b: L) -> L {
    if b.is_lt(&a) || !a.is_le(&a) {
        b
    } else {
        a
    }
}

/// The larger of two lengths; the second where the first compares with nothing.
pub open spec fn larger<L: PartialOrd>(a: L, b: L) -> L {
    if a.is_lt(&b) || !a.is_le(&a) {
        b
    } else {
        a
    }
}

/// `chosen` is the smaller of two lengths by how they compare.
pub open spec fn is_lesser<L: PartialOrd>(a: L, b: L, chosen: L) -> bool {
    ||| finds_less(b, a, true) && chosen == b
    ||| finds_less(b, a, false) && finds_at_most(a, a, false) && chosen == b
    ||| finds_less(b, a, false) && finds_at_most(a, a, true) && chosen == a
}

/// `chosen` is the larger of two lengths by how they compare.
pub open spec fn is_larger<L: PartialOrd>(a: L, b: L, chosen: L) -> bool {
    ||| finds_less(a, b, true) && chosen == b
    ||| finds_less(a, b, false) && finds_at_most(a, a, false) && chosen == b
    ||| finds_less(a, b, false) && finds_at_most(a, a, true) && chosen == a
}

/// The smaller of two lengths. One that compares with nothing is passed over.
pub fn lesser_length<L: PartialOrd>(a: L, b: L) -> (chosen: L)
    ensures
        is_lesser(a, b, chosen),
        L::obeys_partial_cmp_spec() ==> chosen == lesser(a, b),
{
    if b < a {
        b
    } else if a <= a {
        a
    } else {
        b
    }
}

/// The larger of two lengths. One that compares with nothing is passed over.
pub fn larger_length<L: PartialOrd>(a: L, b: L) -> (chosen: L)
    ensures
        is_larger(a, b, chosen),
        L::obeys_partial_cmp_spec() ==> chosen == larger(a, b),
{
    if a < b {
        b
    } else if a <= a {
        a
    } else {
        b
    }
}

/// Of two lengths in whole numbers the smaller one is no larger than either, and the larger one
/// no smaller; each is one of the two.
pub proof fn one_of_two_is_chosen(a: i64, b: i64)
    ensures
        lesser(a, b) <= a && lesser(a, b) <= b && (lesser(a, b) == a || lesser(a, b) == b),
        larger(a, b) >= a && larger(a, b) >= b && (larger(a, b) == a || larger(a, b) == b),
{
}

} // verus!
