//! What is stored for a value: its payload as text, as it stands when it is
//! UTF-8 and in base64 otherwise, and the name of its encoding.

use base64::Engine;
use vstd::prelude::*;
use vstd::string::StrSliceExecFns;
use vstd::utf8::{decode_utf8, decode_utf8_encode_utf8, encode_utf8, valid_utf8};

verus! {

/// The encoding of a payload: a number for a known media type and,
/// optionally, a schema that refines it.
pub struct Encoding {
    pub id: u16,
    pub schema: Option<Vec<u8>>,
}

/// The mathematical value of an [`Encoding`].
pub struct EncodingView {
    pub id: u16,
    pub schema: Option<Seq<u8>>,
}

impl View for Encoding {
    type V = EncodingView;

    open spec fn view(&self) -> EncodingView {
        EncodingView {
            id: self.id,
            schema: match self.schema {
                Some(s) => Some(s@),
                None => None,
            },
        }
    }
}

/// A payload with its encoding.
pub struct Value {
    pub payload: Vec<u8>,
    pub encoding: Encoding,
}

/// How `zenoh::bytes::Encoding` writes an encoding as text.
pub uninterp spec fn encoding_text(e: EncodingView) -> Seq<char>;

/// The encoding that `zenoh::bytes::Encoding::from` reads from a text.
pub uninterp spec fn encoding_of_text(text: Seq<char>) -> EncodingView;

/// The base64 text that `base64`'s standard engine gives for some bytes.
pub uninterp spec fn base64_text(bytes: Seq<u8>) -> Seq<char>;

/// The bytes that `base64`'s standard engine reads from a text; `None`
/// where it refuses the text.
pub uninterp spec fn base64_bytes(text: Seq<char>) -> Option<Seq<u8>>;

/// Builds the `zenoh::bytes::Encoding` with this number and schema and takes
/// what its `Display` writes.
#[verifier::external_body]
fn encoding_to_text(e: &Encoding) -> (text: String)
    ensures
        text@ == encoding_text(e@),
{
    let schema = e.schema.clone().map(zenoh::internal::buffers::ZSlice::from);
    zenoh::bytes::Encoding::new(e.id, schema).to_string()
}

/// Calls `zenoh::bytes::Encoding::from` on the text and copies the number
/// and the schema of what it returns.
#[verifier::external_body]
fn encoding_from_text(text: &str) -> (e: Encoding)
    ensures
        e@ == encoding_of_text(text@),
{
    let e = zenoh::bytes::Encoding::from(text);
    Encoding { id: e.id(), schema: e.schema().map(|s| s.as_slice().to_vec()) }
}

/// Calls `encode` of `base64::engine::general_purpose::STANDARD`. What the
/// engine has encoded it decodes to the same bytes.
#[verifier::external_body]
fn base64_encode(bytes: &Vec<u8>) -> (text: String)
    ensures
        text@ == base64_text(bytes@),
        base64_bytes(text@) == Some(bytes@),
{
    base64::engine::general_purpose::STANDARD.encode(bytes)
}

/// Calls `decode` of `base64::engine::general_purpose::STANDARD`.
#[verifier::external_body]
fn base64_decode(text: &str) -> (r: Option<Vec<u8>>)
    ensures
        match r {
            Some(bytes) => base64_bytes(text@) == Some(bytes@),
            None => base64_bytes(text@) is None,
        },
{
    base64::engine::general_purpose::STANDARD.decode(text).ok()
}

/// Calls `String::from_utf8` of the standard library on a copy of the
/// bytes: it gives the text whose UTF-8 form the bytes are, and refuses
/// bytes that are no UTF-8.
#[verifier::external_body]
fn utf8_text(bytes: &Vec<u8>) -> (r: Option<String>)
    ensures
        match r {
            Some(text) => valid_utf8(bytes@) && encode_utf8(text@) == bytes@,
            None => !valid_utf8(bytes@),
        },
{
    String::from_utf8(bytes.clone()).ok()
}

/// What is stored for a payload: whether it is in base64, and the text.
pub open spec fn stored_value(payload: Seq<u8>) -> (bool, Seq<char>) {
    if valid_utf8(payload) {
        (false, decode_utf8(payload))
    } else {
        (true, base64_text(payload))
    }
}

/// The payload that a stored text stands for; `None` where it is marked as
/// base64 and is none.
pub open spec fn payload_of(base64: bool, value: Seq<char>) -> Option<Seq<u8>> {
    if base64 {
        base64_bytes(value)
    } else {
        Some(encode_utf8(value))
    }
}

/// The encoding that a stored point stands for: read from the name where
/// there is one, else the bare number.
pub open spec fn stored_encoding(prefix: u16, suffix: Seq<char>) -> EncodingView {
    if suffix.len() == 0 {
        EncodingView { id: prefix, schema: None }
    } else {
        encoding_of_text(suffix)
    }
}

impl Encoding {
    /// The name under which the encoding is stored.
    pub fn to_text(&self) -> (text: String)
        ensures
            text@ == encoding_text(self@),
    {
        encoding_to_text(self)
    }

    /// The encoding that a name stands for.
    pub fn from_text(text: &str) -> (e: Encoding)
        ensures
            e@ == encoding_of_text(text@),
    {
        encoding_from_text(text)
    }

    /// The encoding of a stored point.
    pub fn from_stored(prefix: u16, suffix: &str) -> (e: Encoding)
        ensures
            e@ == stored_encoding(prefix, suffix@),
    {
        if suffix.is_empty() {
            Encoding { id: prefix, schema: None }
        } else {
            encoding_from_text(suffix)
        }
    }
}

/// Turns a payload into the text that is stored, and says whether that text
/// is base64. Reading the stored text gives the payload back.
pub fn encode_payload(payload: &Vec<u8>) -> (r: (bool, String))
    ensures
        (r.0, r.1@) == stored_value(payload@),
        payload_of(r.0, r.1@) == Some(payload@),
{
    match utf8_text(payload) {
        Some(text) => {
            proof {
                vstd::utf8::encode_utf8_decode_utf8(text@);
            }
            (false, text)
        },
        None => (true, base64_encode(payload)),
    }
}

/// Reads the payload from a stored text.
pub fn decode_payload(base64: bool, value: &str) -> (r: Option<Vec<u8>>)
    ensures
        match r {
            Some(bytes) => payload_of(base64, value@) == Some(bytes@),
            None => payload_of(base64, value@) is None,
        },
{
    if base64 {
        base64_decode(value)
    } else {
        Some(value.as_bytes_vec())
    }
}

/// A payload that is UTF-8 is stored as the text it spells, and that text
/// spells it again.
pub proof fn lemma_text_payload_round_trip(payload: Seq<u8>)
    requires
        valid_utf8(payload),
    ensures
        stored_value(payload) == (false, decode_utf8(payload)),
        payload_of(false, decode_utf8(payload)) == Some(payload),
{
    decode_utf8_encode_utf8(payload);
}

} // verus!
