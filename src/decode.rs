use crate::bytes::CowBytes;
use vstd::prelude::*;
use vstd::slice::slice_to_vec;
use vstd::utf8::encode_utf8;

verus! {

/// Relies on `String::into_bytes`: the vector is the string's UTF-8 encoding,
/// handed over without a copy.
pub assume_specification[ String::into_bytes ](s: String) -> (r: Vec<u8>)
    ensures
        r@ == encode_utf8(s@),
;

/// The shapes in which a decoder may hand over the payload of a byte array.
pub enum ByteInput<'b> {
    /// Text that the decoder still owns.
    Text(&'b str),
    /// Text handed over to the receiver.
    TextBuf(String),
    /// Bytes that the decoder still owns.
    Bytes(&'b [u8]),
    /// Bytes handed over to the receiver.
    ByteBuf(Vec<u8>),
}

impl<'b> View for ByteInput<'b> {
    type V = Seq<u8>;

    /// The payload as bytes; text counts as its UTF-8 encoding.
    open spec fn view(&self) -> Seq<u8> {
        match self {
            ByteInput::Text(s) => encode_utf8(s@),
            ByteInput::TextBuf(s) => encode_utf8(s@),
            ByteInput::Bytes(b) => b@,
            ByteInput::ByteBuf(v) => v@,
        }
    }
}

/// Whether `r` is what decoding `input` gives: a value that owns a copy of, or
/// has taken over, the payload.
pub open spec fn decoded_from<'a, 'b>(r: CowBytes<'a>, input: ByteInput<'b>) -> bool {
    r is Owned && r@ == input@
}

/// Builds a `CowBytes` from what a decoder hands over. The result always owns
/// its bytes: a decoder's buffer may be gone or reused once decoding returns.
pub struct CowBytesVisitor<'a>(&'a ());

impl<'a> CowBytesVisitor<'a> {
    pub fn new() -> (r: Self) {
        CowBytesVisitor(&())
    }

    /// Copies the encoding of text that the decoder keeps.
    pub fn visit_str(self, v: &str) -> (r: CowBytes<'a>)
        ensures
            r is Owned,
            r@ == encode_utf8(v@),
    {
        CowBytes::Owned(slice_to_vec(v.as_bytes()))
    }

    /// Takes over the buffer of text handed over, without a copy.
    pub fn visit_string(self, v: String) -> (r: CowBytes<'a>)
        ensures
            r is Owned,
            r@ == encode_utf8(v@),
    {
        CowBytes::Owned(v.into_bytes())
    }

    /// Copies bytes that the decoder keeps.
    pub fn visit_bytes(self, v: &[u8]) -> (r: CowBytes<'a>)
        ensures
            r is Owned,
            r@ == v@,
    {
        CowBytes::Owned(slice_to_vec(v))
    }

    /// Takes over a byte buffer handed over, without a copy.
    pub fn visit_byte_buf(self, v: Vec<u8>) -> (r: CowBytes<'a>)
        ensures
            r is Owned,
            r@ == v@,
    {
        CowBytes::Owned(v)
    }

    /// Builds the value from the payload in whichever shape it came, copying
    /// only what the decoder keeps.
    pub fn visit(self, input: ByteInput) -> (r: CowBytes<'a>)
        ensures
            decoded_from(r, input),
    {
        match input {
            ByteInput::Text(s) => self.visit_str(s),
            ByteInput::TextBuf(s) => self.visit_string(s),
            ByteInput::Bytes(b) => self.visit_bytes(b),
            ByteInput::ByteBuf(v) => self.visit_byte_buf(v),
        }
    }
}

} // verus!
