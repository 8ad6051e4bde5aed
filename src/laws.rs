use crate::bytes::{from_cow_spec, to_cow_spec, CowBytes};
use crate::decode::{decoded_from, ByteInput};
use std::borrow::Cow;
use vstd::prelude::*;
use vstd::std_specs::cmp::PartialEqSpec;

verus! {

/// Encoding a value emits its bytes and nothing of its form; decoding that
/// payload, in whichever shape the decoder hands it over, gives an owned value
/// equal to the first, of any length, the empty one included.
pub proof fn lemma_round_trip<'a, 'b, 'c>(c: CowBytes<'a>, input: ByteInput<'b>, r: CowBytes<'c>)
    requires
        input@ == c@,
        decoded_from(r, input),
    ensures
        r.is_owned(),
        r@ == c@,
{
}

/// A view of some bytes and an owned copy of them are equal, in either order.
pub proof fn lemma_eq_ignores_form<'a>(b: &'a [u8], v: Vec<u8>)
    requires
        v@ == b@,
    ensures
        CowBytes::Borrowed(b).eq_spec(&CowBytes::Owned(v)),
        CowBytes::Owned(v).eq_spec(&CowBytes::Borrowed(b)),
{
}

/// Equality is reflexive, symmetric and transitive.
pub proof fn lemma_eq_is_equivalence<'a>(x: CowBytes<'a>, y: CowBytes<'a>, z: CowBytes<'a>)
    ensures
        x.eq_spec(&x),
        x.eq_spec(&y) <==> y.eq_spec(&x),
        x.eq_spec(&y) && y.eq_spec(&z) ==> x.eq_spec(&z),
{
}

/// Turning a value into a `Cow` and back gives the same value, its vector
/// moved and not copied; and the other way round.
pub proof fn lemma_cow_round_trip<'a>(c: CowBytes<'a>, w: Cow<'a, [u8]>)
    ensures
        from_cow_spec(to_cow_spec(c)) == c,
        to_cow_spec(from_cow_spec(w)) == w,
        to_cow_spec(c)@ == c@,
{
}

} // verus!
