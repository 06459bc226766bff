//! The CBOR terms that the runtime exchanges: single text atoms such as
//! `":ping"` and arrays of text such as `[":ok", "<cid>"]`.
//!
//! Encoding and decoding are done by `ciborium`; the byte layout of the
//! encodings the runtime produces is stated exactly (RFC 8949 preferred
//! serialization: shortest argument, definite lengths).

use vstd::prelude::*;
use vstd::utf8::encode_utf8;

verus! {

/// A decoded CBOR data item, as far as the runtime reads it: a text string,
/// or anything else.
pub enum Term {
    Text(String),
    Other,
}

/// The mathematical value of a [`Term`].
pub enum TermView {
    Text(Seq<char>),
    Other,
}

impl View for Term {
    type V = TermView;

    open spec fn view(&self) -> TermView {
        match self {
            Term::Text(s) => TermView::Text(s@),
            Term::Other => TermView::Other,
        }
    }
}

/// `n` as `k` big-endian bytes (the low `k` bytes of `n`).
pub open spec fn be_bytes(n: nat, k: nat) -> Seq<u8>
    decreases k,
{
    if k == 0 {
        Seq::empty()
    } else {
        be_bytes(n / 256, (k - 1) as nat).push((n % 256) as u8)
    }
}

/// The head of a CBOR data item of major type `major` (0..=7) with argument
/// `n`, in its shortest form.
pub open spec fn cbor_head(major: nat, n: nat) -> Seq<u8>
    recommends
        major < 8,
{
    let m = major * 32;
    if n <= 23 {
        seq![(m + n) as u8]
    } else if n <= 0xff {
        seq![(m + 24) as u8] + be_bytes(n, 1)
    } else if n <= 0xffff {
        seq![(m + 25) as u8] + be_bytes(n, 2)
    } else if n <= 0xffff_ffff {
        seq![(m + 26) as u8] + be_bytes(n, 4)
    } else {
        seq![(m + 27) as u8] + be_bytes(n, 8)
    }
}

/// The CBOR encoding of the text string `s` (major type 3).
pub open spec fn cbor_text(s: Seq<char>) -> Seq<u8> {
    cbor_head(3, encode_utf8(s).len()) + encode_utf8(s)
}

/// The encodings of the text strings `items`, one after the other.
pub open spec fn cbor_text_items(items: Seq<Seq<char>>) -> Seq<u8>
    decreases items.len(),
{
    if items.len() == 0 {
        Seq::empty()
    } else {
        cbor_text_items(items.drop_last()) + cbor_text(items.last())
    }
}

/// The CBOR encoding of a definite-length array of text strings (major type 4).
pub open spec fn cbor_text_array(items: Seq<Seq<char>>) -> Seq<u8> {
    cbor_head(4, items.len()) + cbor_text_items(items)
}

/// The views of a sequence of strings.
pub open spec fn strings_view(v: Seq<String>) -> Seq<Seq<char>> {
    v.map_values(|s: String| s@)
}

/// What `ciborium::de::from_reader` decodes from `bytes` into a
/// `ciborium::Value`, seen as a [`TermView`]; `None` where decoding fails.
pub uninterp spec fn cbor_decode(bytes: Seq<u8>) -> Option<TermView>;

/// Decodes one CBOR data item with `ciborium::de::from_reader` into a
/// `ciborium::Value` and keeps whether it is a text string.
///
/// Trusted: the result is the named [`cbor_decode`] of the bytes, and the
/// shortest-form encoding of a text string decodes to that text string (the
/// decoder reads the text header, then that many bytes as UTF-8). Nothing is
/// said of other inputs.
#[verifier::external_body]
pub fn decode_term(bytes: &[u8]) -> (term: Option<Term>)
    ensures
        match term {
            Some(t) => cbor_decode(bytes@) == Some(t@),
            None => cbor_decode(bytes@) is None,
        },
        forall|s: Seq<char>|
            #![trigger cbor_text(s)]
            cbor_text(s) == bytes@ ==> term is Some && term.unwrap()@ == TermView::Text(s),
{
    match ciborium::de::from_reader::<ciborium::Value, _>(bytes) {
        Ok(ciborium::Value::Text(s)) => Some(Term::Text(s)),
        Ok(_) => Some(Term::Other),
        Err(_) => None,
    }
}

/// Encodes `s` as a CBOR text string with `ciborium::ser::into_writer`.
///
/// Trusted: ciborium writes a text string as its shortest-form head followed
/// by the UTF-8 bytes; writing into a `Vec` cannot fail.
#[verifier::external_body]
pub fn encode_text(s: &str) -> (bytes: Vec<u8>)
    ensures
        bytes@ == cbor_text(s@),
{
    let mut out = Vec::new();
    let _ = ciborium::ser::into_writer(&ciborium::Value::Text(s.to_string()), &mut out);
    out
}

/// Encodes `items` as a CBOR array of text strings with
/// `ciborium::ser::into_writer`.
///
/// Trusted: ciborium writes a definite-length array head with the item count
/// in shortest form, then each item; writing into a `Vec` cannot fail.
#[verifier::external_body]
pub fn encode_text_array(items: &Vec<String>) -> (bytes: Vec<u8>)
    ensures
        bytes@ == cbor_text_array(strings_view(items@)),
{
    let value = ciborium::Value::Array(items.iter().map(|s| ciborium::Value::Text(s.clone())).collect());
    let mut out = Vec::new();
    let _ = ciborium::ser::into_writer(&value, &mut out);
    out
}

} // verus!
