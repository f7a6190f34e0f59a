//! Canonical CBOR encoding of the signed payloads. A record is written as a
//! CBOR map from its field names, in declaration order, to its field values:
//! the form a serde serializer gives a struct.

use vstd::prelude::*;

verus! {

/// A value with one canonical byte encoding, which is what a signature covers.
pub trait Canonical {
    /// The canonical encoding.
    spec fn canonical(&self) -> Seq<u8>;

    fn encode(&self) -> (r: Vec<u8>)
        ensures
            r@ == self.canonical(),
    ;
}

/// The CBOR encoding of a text string.
pub uninterp spec fn text_cbor(text: Seq<char>) -> Seq<u8>;

/// The CBOR encoding of an integer.
pub uninterp spec fn integer_cbor(x: i128) -> Seq<u8>;

/// The CBOR header of a map with `n` entries, for `n` below 24: major type 5
/// with the count in the initial byte.
pub open spec fn map_header(n: nat) -> Seq<u8>
    recommends
        n < 24,
{
    seq![(0xa0 + n) as u8]
}

/// One entry of a record's map: the field name, then the encoded value.
pub open spec fn field(name: Seq<char>, value: Seq<u8>) -> Seq<u8> {
    text_cbor(name) + value
}

/// Relies on ciborium::ser::into_writer: the CBOR of a string, a function of its
/// characters alone. Writing into a `Vec` cannot fail, nor can a string's
/// serialization.
#[verifier::external_body]
pub(crate) fn cbor_text(text: &str) -> (r: Vec<u8>)
    ensures
        r@ == text_cbor(text@),
{
    let mut out: Vec<u8> = Vec::new();
    ciborium::ser::into_writer(text, &mut out).expect("a string encodes into a Vec");
    out
}

/// Relies on ciborium::ser::into_writer: the CBOR of an integer, a function of
/// its value alone; within the 64-bit ranges it is the header that `i64` and
/// `u64` values get. Writing into a `Vec` cannot fail, nor can an integer's
/// serialization.
#[verifier::external_body]
pub(crate) fn cbor_integer(x: i128) -> (r: Vec<u8>)
    ensures
        r@ == integer_cbor(x),
{
    let mut out: Vec<u8> = Vec::new();
    ciborium::ser::into_writer(&x, &mut out).expect("an integer encodes into a Vec");
    out
}

/// A map header for `n` entries.
pub(crate) fn cbor_map_header(n: u8) -> (r: Vec<u8>)
    requires
        n < 24,
    ensures
        r@ == map_header(n as nat),
{
    let mut out: Vec<u8> = Vec::new();
    out.push(0xa0 + n);
    assert(out@ =~= map_header(n as nat));
    out
}

/// Appends the entry `name`, `value` to a record's encoding.
pub(crate) fn push_field(out: &mut Vec<u8>, name: &str, value: Vec<u8>)
    ensures
        final(out)@ == old(out)@ + field(name@, value@),
{
    let mut key = cbor_text(name);
    let mut value = value;
    key.append(&mut value);
    out.append(&mut key);
}

impl Canonical for String {
    open spec fn canonical(&self) -> Seq<u8> {
        text_cbor(self@)
    }

    fn encode(&self) -> (r: Vec<u8>) {
        cbor_text(self.as_str())
    }
}

} // verus!
