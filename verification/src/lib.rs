//! Small numeric utilities: an absolute-difference helper and a safe
//! paired-identifier generator.

use vstd::prelude::*;

verus! {

use core::cmp::Ordering;
use core::ops::Sub;
use vstd::std_specs::cmp::PartialOrdSpec;
use vstd::std_specs::ops::SubSpec;

/// What `abs_diff` returns: the left operand minus the right when the left
/// compares strictly greater, and the right minus the left otherwise
/// (also when the two are incomparable under a partial order).
pub open spec fn abs_diff_spec<T: PartialOrd + Sub<Output = U>, U>(a: T, b: T) -> U {
    if a.partial_cmp_spec(&b) == Some(Ordering::Greater) {
        a.sub_spec(b)
    } else {
        b.sub_spec(a)
    }
}

/// Returns the absolute difference between two values.
///
/// The comparison decides which side is subtracted from which, so unsigned
/// types never underflow on ordered inputs; when the order is partial and the
/// values are incomparable, the result falls through to `b - a`.
pub fn abs_diff<T: PartialOrd + Sub<Output = U>, U>(a: T, b: T) -> (r: U)
    requires
        T::obeys_partial_cmp_spec(),
        a.partial_cmp_spec(&b) == Some(Ordering::Greater) ==> a.sub_req(b),
        a.partial_cmp_spec(&b) != Some(Ordering::Greater) ==> b.sub_req(a),
    ensures
        T::obeys_sub_spec() ==> r == abs_diff_spec(a, b),
{
    if a > b {
        a - b
    } else {
        b - a
    }
}

/// The absolute difference is symmetric: swapping the operands does not
/// change the result, provided the order is antisymmetric and subtraction
/// agrees on operand pairs that neither side compares strictly greater on.
/// Both provisos hold of every primitive integer type.
pub proof fn lemma_abs_diff_symmetric<T: PartialOrd + Sub<Output = U>, U>(a: T, b: T)
    requires
        forall|x: T, y: T|
            #![trigger x.partial_cmp_spec(&y)]
            x.partial_cmp_spec(&y) == Some(Ordering::Less) <==> y.partial_cmp_spec(&x) == Some(
                Ordering::Greater,
            ),
        forall|x: T, y: T|
            #![trigger x.sub_spec(y)]
            x.partial_cmp_spec(&y) != Some(Ordering::Greater) && y.partial_cmp_spec(&x) != Some(
                Ordering::Greater,
            ) ==> x.sub_spec(y) == y.sub_spec(x),
    ensures
        abs_diff_spec(a, b) == abs_diff_spec(b, a),
{
    if a.partial_cmp_spec(&b) == Some(Ordering::Greater) {
        assert(b.partial_cmp_spec(&a) == Some(Ordering::Less));
    } else if b.partial_cmp_spec(&a) != Some(Ordering::Greater) {
        assert(b.sub_spec(a) == a.sub_spec(b));
    }
}

/// The absolute difference of a value with itself is the subtraction-defined
/// zero of the result type: the value minus itself.
pub proof fn lemma_abs_diff_self<T: PartialOrd + Sub<Output = U>, U>(a: T)
    ensures
        abs_diff_spec(a, a) == a.sub_spec(a),
{
}

/// Turns one drawn identifier into a pair of sequential identifiers, shifting
/// the pair down by one when the draw is the largest representable value, so
/// that the increment never overflows.
pub fn sequential_identifiers_from(id: u16) -> (r: (u16, u16))
    ensures
        r.1 == r.0 + 1,
        id < u16::MAX ==> r.0 == id && r.1 == id + 1,
        id == u16::MAX ==> r.0 == id - 1 && r.1 == id,
{
    if id.checked_add(1).is_some() {
        (id, id + 1)
    } else {
        (id - 1, id)
    }
}

/// Relies on rand::random: draws a value of the requested type from the
/// thread-local generator. Nothing is assumed about which value comes back.
#[verifier::external_body]
fn random_u16() -> u16 {
    rand::random()
}

/// Safely generates two sequential connection identifiers.
///
/// Draws one random identifier and pairs it with its successor; a draw of the
/// largest representable value yields the pair just below it, so the second
/// identifier always equals the first plus one and no overflow can occur.
pub fn generate_sequential_identifiers() -> (r: (u16, u16))
    ensures
        r.1 == r.0 + 1,
{
    let id = random_u16();
    sequential_identifiers_from(id)
}

} // verus!
