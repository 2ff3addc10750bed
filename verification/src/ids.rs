//! Random identifiers: hyphenated UUID strings for accounts and storage
//! keys, and base64url-encoded UUID bytes for product identifiers.

use vstd::prelude::*;

verus! {

/// Whether `c` is a lower-case hexadecimal digit.
pub open spec fn is_hex_digit_lower(c: char) -> bool {
    ('0' <= c && c <= '9') || ('a' <= c && c <= 'f')
}

/// What character the hyphenated UUID text form holds at position `i`:
/// a hyphen at the four group separators, a lower-case hex digit elsewhere.
pub open spec fn uuid_char_ok(s: Seq<char>, i: int) -> bool {
    if i == 8 || i == 13 || i == 18 || i == 23 {
        s[i] == '-'
    } else {
        is_hex_digit_lower(s[i])
    }
}

/// Whether `s` is the hyphenated lower-case text form of a UUID
/// (8-4-4-4-12 hex digits, 36 characters in all).
pub open spec fn is_uuid_text(s: Seq<char>) -> bool {
    &&& s.len() == 36
    &&& forall|i: int| 0 <= i < 36 ==> #[trigger] uuid_char_ok(s, i)
}

/// Relies on `uuid::Uuid::new_v4` and its `Display` impl: a fresh random
/// UUID formatted as hyphenated lower-case text.
#[verifier::external_body]
fn fresh_uuid_string() -> (r: String)
    ensures
        is_uuid_text(r@),
{
    uuid::Uuid::new_v4().to_string()
}

/// Relies on `uuid::Uuid::new_v4` and `as_bytes`: the sixteen raw bytes of
/// a fresh random UUID.
#[verifier::external_body]
fn fresh_uuid_bytes() -> (r: Vec<u8>)
    ensures
        r@.len() == 16,
{
    uuid::Uuid::new_v4().as_bytes().to_vec()
}

/// The base64url encoding, without padding, of a byte sequence.
pub uninterp spec fn b64url_of(bytes: Seq<u8>) -> Seq<char>;

/// Relies on data_encoding's `BASE64URL_NOPAD.encode`: deterministic
/// base64url text, four characters for every three bytes, unpadded.
#[verifier::external_body]
fn base64url_nopad(bytes: &[u8]) -> (r: String)
    ensures
        r@ == b64url_of(bytes@),
        r@.len() == (bytes@.len() * 4 + 2) / 3,
{
    data_encoding::BASE64URL_NOPAD.encode(bytes)
}

/// A fresh account or storage identifier: hyphenated UUID text.
pub fn new_uuid() -> (r: String)
    ensures
        is_uuid_text(r@),
{
    fresh_uuid_string()
}

/// Check that a string is hyphenated lower-case UUID text.
pub fn is_uuid_string(s: &str) -> (r: bool)
    ensures
        r == is_uuid_text(s@),
{
    let n = s.unicode_len();
    if n != 36 {
        return false;
    }
    let mut i: usize = 0;
    while i < 36
        invariant
            n == s@.len(),
            n == 36,
            i <= 36,
            forall|j: int| 0 <= j < i ==> #[trigger] uuid_char_ok(s@, j),
        decreases 36 - i,
    {
        let c = s.get_char(i);
        if i == 8 || i == 13 || i == 18 || i == 23 {
            if c != '-' {
                proof {
                    assert(!uuid_char_ok(s@, i as int));
                }
                return false;
            }
        } else {
            if !(('0' <= c && c <= '9') || ('a' <= c && c <= 'f')) {
                proof {
                    assert(!uuid_char_ok(s@, i as int));
                }
                return false;
            }
        }
        i = i + 1;
    }
    true
}

/// A fresh product identifier: the base64url text, 22 characters and
/// unpadded, of sixteen random UUID bytes.
pub fn new_product_id() -> (r: String)
    ensures
        r@.len() == 22,
        exists|b: Seq<u8>| b.len() == 16 && r@ == b64url_of(b),
{
    let bytes = fresh_uuid_bytes();
    base64url_nopad(bytes.as_slice())
}

} // verus!
