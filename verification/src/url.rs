//! Text that arrives percent-encoded, as in the path of a URL.
use std::str::Utf8Error;
use vstd::prelude::*;
use vstd::string::StringSliceAdditionalSpecFns;
use vstd::utf8::{decode_utf8, valid_utf8};

verus! {

/// The error of std for bytes that are not UTF-8.
#[verifier::external_type_specification]
#[verifier::external_body]
pub struct ExUtf8Error(Utf8Error);

/// The number that the byte `b` stands for as a hexadecimal digit, in
/// either case.
pub open spec fn hex_nibble(b: u8) -> Option<u8> {
    if 0x30 <= b <= 0x39 {
        Some((b - 0x30) as u8)
    } else if 0x61 <= b <= 0x66 {
        Some((b - 0x61 + 10) as u8)
    } else if 0x41 <= b <= 0x46 {
        Some((b - 0x41 + 10) as u8)
    } else {
        None
    }
}

/// Whether `b` starts with `%` and two hexadecimal digits.
pub open spec fn starts_escaped(b: Seq<u8>) -> bool {
    b.len() >= 3 && b[0] == 0x25 && hex_nibble(b[1]).is_some() && hex_nibble(b[2]).is_some()
}

/// The bytes `b` with every `%` and two hexadecimal digits replaced by the
/// byte that the digits write. A `%` that no two digits follow stays.
pub open spec fn percent_decoded(b: Seq<u8>) -> Seq<u8>
    decreases b.len(),
{
    if b.len() == 0 {
        Seq::empty()
    } else if starts_escaped(b) {
        seq![(hex_nibble(b[1]).unwrap() * 16 + hex_nibble(b[2]).unwrap()) as u8] + percent_decoded(
            b.skip(3),
        )
    } else {
        seq![b[0]] + percent_decoded(b.skip(1))
    }
}

/// `percent_encoding::percent_decode` followed by `decode_utf8`: the bytes
/// of `s` are percent-decoded and the result is read as UTF-8. It fails
/// exactly if the decoded bytes are not UTF-8.
#[verifier::external_body]
fn percent_decode_utf8(s: &str) -> (r: Result<String, Utf8Error>)
    ensures
        r.is_ok() == valid_utf8(percent_decoded(s.spec_bytes())),
        r.is_ok() ==> r.unwrap()@ == decode_utf8(percent_decoded(s.spec_bytes())),
{
    match percent_encoding::percent_decode(s.as_bytes()).decode_utf8() {
        Ok(text) => Ok(text.into_owned()),
        Err(e) => Err(e),
    }
}

/// A text that was percent-decoded.
#[derive(Debug)]
pub struct UrlEncodedString(pub String);

impl View for UrlEncodedString {
    type V = Seq<char>;

    /// The decoded text.
    open spec fn view(&self) -> Seq<char> {
        self.0@
    }
}

impl UrlEncodedString {
    /// Decodes a percent-encoded text. It fails exactly if the decoded
    /// bytes are not UTF-8.
    pub fn decode(s: &str) -> (r: Result<UrlEncodedString, Utf8Error>)
        ensures
            r.is_ok() == valid_utf8(percent_decoded(s.spec_bytes())),
            r.is_ok() ==> r.unwrap()@ == decode_utf8(percent_decoded(s.spec_bytes())),
    {
        match percent_decode_utf8(s) {
            Ok(text) => Ok(UrlEncodedString(text)),
            Err(e) => Err(e),
        }
    }

    /// The decoded text.
    pub fn into_string(self) -> (r: String)
        ensures
            r == self.0,
    {
        self.0
    }
}

impl std::str::FromStr for UrlEncodedString {
    type Err = Utf8Error;

    /// Decodes a percent-encoded text, as [`UrlEncodedString::decode`]
    /// does. It fails exactly if the decoded bytes are not UTF-8.
    fn from_str(s: &str) -> (r: Result<UrlEncodedString, Utf8Error>)
        ensures
            r.is_ok() == valid_utf8(percent_decoded(s.spec_bytes())),
            r.is_ok() ==> r.unwrap()@ == decode_utf8(percent_decoded(s.spec_bytes())),
    {
        UrlEncodedString::decode(s)
    }
}

impl From<UrlEncodedString> for String {
    /// The decoded text.
    fn from(value: UrlEncodedString) -> (r: String) {
        value.into_string()
    }
}

impl vstd::std_specs::convert::FromSpecImpl<UrlEncodedString> for String {
    open spec fn obeys_from_spec() -> bool {
        true
    }

    open spec fn from_spec(value: UrlEncodedString) -> String {
        value.0
    }
}

/// Bytes without a `%` are their own decoding.
pub proof fn lemma_plain_bytes(b: Seq<u8>)
    requires
        forall|i: int| 0 <= i < b.len() ==> b[i] != 0x25,
    ensures
        percent_decoded(b) == b,
    decreases b.len(),
{
    if b.len() > 0 {
        lemma_plain_bytes(b.skip(1));
        assert(seq![b[0]] + b.skip(1) =~= b);
    }
}

} // verus!
