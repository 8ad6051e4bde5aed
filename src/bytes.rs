use std::borrow::Cow;
use std::ops::Deref;
use vstd::prelude::*;

verus! {

/// A byte sequence that is either a view into memory owned by the caller
/// (`Borrowed`) or a copy of its own (`Owned`). It is never changed after it
/// is made.
#[derive(Debug, Eq)]
pub enum CowBytes<'a> {
    Borrowed(&'a [u8]),
    Owned(Vec<u8>),
}

impl<'a> View for CowBytes<'a> {
    type V = Seq<u8>;

    /// The bytes held, whichever form holds them.
    open spec fn view(&self) -> Seq<u8> {
        match self {
            CowBytes::Borrowed(b) => b@,
            CowBytes::Owned(v) => v@,
        }
    }
}

impl<'a> CowBytes<'a> {
    pub open spec fn spec_is_borrowed(&self) -> bool {
        self is Borrowed
    }

    pub open spec fn spec_is_owned(&self) -> bool {
        self is Owned
    }

    /// Whether the bytes are a view into memory owned elsewhere.
    #[verifier::when_used_as_spec(spec_is_borrowed)]
    pub fn is_borrowed(&self) -> (r: bool)
        ensures
            r == (self is Borrowed),
    {
        match self {
            CowBytes::Borrowed(_) => true,
            CowBytes::Owned(_) => false,
        }
    }

    /// Whether the bytes are a copy of this value's own.
    #[verifier::when_used_as_spec(spec_is_owned)]
    pub fn is_owned(&self) -> (r: bool)
        ensures
            r == (self is Owned),
    {
        match self {
            CowBytes::Borrowed(_) => false,
            CowBytes::Owned(_) => true,
        }
    }
}

impl<'a> Deref for CowBytes<'a> {
    type Target = [u8];

    /// The bytes held, read alike in both forms.
    fn deref(&self) -> (r: &[u8])
        ensures
            r@ == self@,
    {
        match self {
            CowBytes::Borrowed(b) => b,
            CowBytes::Owned(v) => v.as_slice(),
        }
    }
}

/// Whether `a` and `b` hold the same bytes in the same order.
fn same_bytes(a: &[u8], b: &[u8]) -> (r: bool)
    ensures
        r == (a@ == b@),
{
    if a.len() != b.len() {
        return false;
    }
    let mut i: usize = 0;
    while i < a.len()
        invariant
            a@.len() == b@.len(),
            i <= a@.len(),
            forall|j: int| 0 <= j < i ==> a@[j] == b@[j],
        decreases a@.len() - i,
    {
        if a[i] != b[i] {
            return false;
        }
        i = i + 1;
    }
    assert(a@ =~= b@);
    true
}

impl<'a> PartialEq for CowBytes<'a> {
    /// Equal exactly when the bytes are, whichever form either side is in.
    fn eq(&self, other: &Self) -> (r: bool)
        ensures
            r == (self@ == other@),
    {
        same_bytes(self.deref(), other.deref())
    }
}

impl<'a> vstd::std_specs::cmp::PartialEqSpecImpl for CowBytes<'a> {
    open spec fn obeys_eq_spec() -> bool {
        true
    }

    open spec fn eq_spec(&self, other: &Self) -> bool {
        self@ == other@
    }
}

impl<'a> From<&'a [u8]> for CowBytes<'a> {
    /// A view into `value`: nothing is copied.
    fn from(value: &'a [u8]) -> (r: Self)
        ensures
            r == CowBytes::Borrowed(value),
    {
        CowBytes::Borrowed(value)
    }
}

impl<'a> vstd::std_specs::convert::FromSpecImpl<&'a [u8]> for CowBytes<'a> {
    open spec fn obeys_from_spec() -> bool {
        true
    }

    open spec fn from_spec(value: &'a [u8]) -> Self {
        CowBytes::Borrowed(value)
    }
}

impl<'a> From<&'a Vec<u8>> for CowBytes<'a> {
    /// A view into the vector's storage: nothing is copied.
    fn from(value: &'a Vec<u8>) -> (r: Self)
        ensures
            r is Borrowed,
            r@ == value@,
    {
        CowBytes::from(value.as_slice())
    }
}

/// What `from` gives here is a view of the vector's storage, which a spec
/// cannot name; the method's own `ensures` says what holds of it.
impl<'a> vstd::std_specs::convert::FromSpecImpl<&'a Vec<u8>> for CowBytes<'a> {
    open spec fn obeys_from_spec() -> bool {
        false
    }

    open spec fn from_spec(value: &'a Vec<u8>) -> Self {
        vstd::pervasive::arbitrary()
    }
}

/// The value that keeps the form of `value`, moving what it owns.
pub open spec fn from_cow_spec<'a>(value: Cow<'a, [u8]>) -> CowBytes<'a> {
    match value {
        Cow::Borrowed(b) => CowBytes::Borrowed(b),
        Cow::Owned(v) => CowBytes::Owned(v),
    }
}

/// The `Cow` that keeps the form of `value`, moving what it owns.
pub open spec fn to_cow_spec<'a>(value: CowBytes<'a>) -> Cow<'a, [u8]> {
    match value {
        CowBytes::Borrowed(b) => Cow::Borrowed(b),
        CowBytes::Owned(v) => Cow::Owned(v),
    }
}

impl<'a> From<Cow<'a, [u8]>> for CowBytes<'a> {
    /// Keeps the form: a borrowed `Cow` gives a view, an owned one hands over
    /// its vector.
    fn from(value: Cow<'a, [u8]>) -> (r: Self)
        ensures
            r == from_cow_spec(value),
    {
        match value {
            Cow::Borrowed(b) => CowBytes::Borrowed(b),
            Cow::Owned(v) => CowBytes::Owned(v),
        }
    }
}

impl<'a> vstd::std_specs::convert::FromSpecImpl<Cow<'a, [u8]>> for CowBytes<'a> {
    open spec fn obeys_from_spec() -> bool {
        true
    }

    open spec fn from_spec(value: Cow<'a, [u8]>) -> Self {
        from_cow_spec(value)
    }
}

impl<'a> From<CowBytes<'a>> for Cow<'a, [u8]> {
    /// Keeps the form: a view gives a borrowed `Cow`, an owned value hands over
    /// its vector.
    fn from(value: CowBytes<'a>) -> (r: Cow<'a, [u8]>)
        ensures
            r == to_cow_spec(value),
    {
        match value {
            CowBytes::Borrowed(b) => Cow::Borrowed(b),
            CowBytes::Owned(v) => Cow::Owned(v),
        }
    }
}

impl<'a> vstd::std_specs::convert::FromSpecImpl<CowBytes<'a>> for Cow<'a, [u8]> {
    open spec fn obeys_from_spec() -> bool {
        true
    }

    open spec fn from_spec(value: CowBytes<'a>) -> Cow<'a, [u8]> {
        to_cow_spec(value)
    }
}

} // verus!
