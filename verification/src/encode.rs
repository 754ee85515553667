//! Base64 text form of the ticket bytes.
//!
//! The encoding itself is done by the `base64` crate; the library names its
//! result `b64_of` and proves everything downstream (the configuration text,
//! its round trip) against that name. The decoder is only used to state and
//! check that the encoded text leads back to the original bytes.

use vstd::prelude::*;

verus! {

/// The standard base64 text (with padding) of a byte sequence. The encoding
/// is a pure function of the bytes, so it can be given a name; what the name
/// denotes is fixed by the trusted contracts below and nowhere else.
pub uninterp spec fn b64_of(bytes: Seq<u8>) -> Seq<char>;

/// Whether a character may occur in standard padded base64 text: the
/// sixty-four alphabet characters and the padding character.
pub open spec fn is_base64_char(c: char) -> bool {
    ('A' <= c && c <= 'Z') || ('a' <= c && c <= 'z') || ('0' <= c && c <= '9') || c == '+' || c
        == '/' || c == '='
}

/// Base64 text contains no line break, so it always fits on one line of the
/// configuration file.
pub open spec fn is_base64_text(s: Seq<char>) -> bool {
    forall|i: int| 0 <= i < s.len() ==> is_base64_char(#[trigger] s[i])
}

/// Relies on `base64::engine::Engine::encode` with the `STANDARD` engine:
/// it produces the standard padded base64 text of its input, drawn from the
/// standard alphabet (`A`-`Z`, `a`-`z`, `0`-`9`, `+`, `/`) plus `=` padding.
/// The length bound keeps the engine's internal output-size computation from
/// overflowing.
#[verifier::external_body]
pub(crate) fn base64_encode(bytes: &Vec<u8>) -> (r: String)
    requires
        bytes@.len() < 0x4000_0000,
    ensures
        r@ == b64_of(bytes@),
        is_base64_text(r@),
{
    base64::Engine::encode(&base64::prelude::BASE64_STANDARD, bytes)
}

/// Relies on `base64::engine::Engine::decode` with the `STANDARD` engine:
/// decoding is the inverse of encoding, so on text that `encode` produced it
/// succeeds and returns exactly the bytes that were encoded.
#[verifier::external_body]
pub(crate) fn base64_decode(text: &str) -> (r: Option<Vec<u8>>)
    ensures
        forall|orig: Seq<u8>| text@ == b64_of(orig) ==> r is Some && r.unwrap()@ == orig,
{
    base64::Engine::decode(&base64::prelude::BASE64_STANDARD, text).ok()
}

/// Checks that two byte vectors hold the same bytes.
pub fn bytes_eq(a: &Vec<u8>, b: &Vec<u8>) -> (r: bool)
    ensures
        r == (a@ == b@),
{
    if a.len() != b.len() {
        return false;
    }
    let mut i: usize = 0;
    while i < a.len()
        invariant
            0 <= i <= a.len(),
            a@.len() == b@.len(),
            forall|j: int| 0 <= j < i ==> a@[j] == b@[j],
        decreases a.len() - i,
    {
        if a[i] != b[i] {
            return false;
        }
        i += 1;
    }
    proof {
        assert(a@ =~= b@);
    }
    true
}

/// Encoding a ticket and decoding the text again always yields the original
/// bytes: the persisted `ticket` value is faithful to what the ticket source
/// returned.
pub fn ticket_round_trips(bytes: &Vec<u8>) -> (ok: bool)
    requires
        bytes@.len() < 0x4000_0000,
    ensures
        ok,
{
    let text = base64_encode(bytes);
    let decoded = base64_decode(text.as_str());
    match decoded {
        Some(back) => bytes_eq(&back, bytes),
        None => false,
    }
}

} // verus!
