//! Deriving the credential that authenticates every request.

use vstd::prelude::*;
use crate::error::DexError;

verus! {

/// How the credential is derived from the raw API key.
#[derive(Clone, Copy, Debug, PartialEq, Eq, Structural)]
pub enum AuthMode {
    /// The key itself.
    Plain,
    /// The lowercase hexadecimal SHA-256 digest of the key's bytes.
    Hashed,
}

/// The SHA-256 digest of the UTF-8 bytes of a text.
pub uninterp spec fn sha256_of(s: Seq<char>) -> Seq<u8>;

/// The lowercase hexadecimal digit for `n < 16`.
pub open spec fn hex_char(n: int) -> char {
    seq!['0', '1', '2', '3', '4', '5', '6', '7', '8', '9', 'a', 'b', 'c', 'd', 'e', 'f'][n]
}

/// Two lowercase hexadecimal digits per byte, high nibble first.
pub open spec fn lower_hex(b: Seq<u8>) -> Seq<char> {
    Seq::new(
        2 * b.len(),
        |i: int|
            if i % 2 == 0 {
                hex_char(b[i / 2] as int / 16)
            } else {
                hex_char(b[i / 2] as int % 16)
            },
    )
}

/// A character that may stand in an HTTP header value: visible ASCII, a
/// space, a tab, or any non-ASCII character (whose UTF-8 bytes are all
/// above 0x7f).
pub open spec fn header_char(c: char) -> bool {
    c == '\t' || (c as u32 >= 32 && c as u32 != 127)
}

pub open spec fn is_header_value(s: Seq<char>) -> bool {
    forall|i: int| 0 <= i < s.len() ==> header_char(#[trigger] s[i])
}

/// The credential for a raw key.
pub open spec fn credential_of(mode: AuthMode, key: Seq<char>) -> Seq<char> {
    match mode {
        AuthMode::Plain => key,
        AuthMode::Hashed => lower_hex(sha256_of(key)),
    }
}

/// Relies on `sha2::Sha256::digest` over `text.as_bytes()`: the 32-byte digest.
#[verifier::external_body]
fn sha256_digest(text: &str) -> (r: Vec<u8>)
    ensures
        r@ == sha256_of(text@),
        r@.len() == 32,
{
    <sha2::Sha256 as sha2::Digest>::digest(text.as_bytes()).to_vec()
}

/// Relies on `reqwest::header::HeaderValue::from_str`, which accepts a text
/// exactly when each of its bytes is a tab or at least 32 and not 127.
#[verifier::external_body]
fn accepted_as_header(text: &str) -> (r: bool)
    ensures
        r == is_header_value(text@),
{
    reqwest::header::HeaderValue::from_str(text).is_ok()
}

/// The one-character text of a lowercase hexadecimal digit.
pub(crate) fn hex_digit(n: u8) -> (r: &'static str)
    requires
        n < 16,
    ensures
        r@ == seq![hex_char(n as int)],
{
    let digits = "0123456789abcdef";
    proof {
        reveal_strlit("0123456789abcdef");
    }
    let r = digits.substring_char(n as usize, n as usize + 1);
    assert(r@ =~= seq![hex_char(n as int)]);
    r
}

/// Lowercase hexadecimal text of a byte string.
pub fn to_lower_hex(bytes: &Vec<u8>) -> (r: String)
    requires
        bytes@.len() <= usize::MAX / 2,
    ensures
        r@ == lower_hex(bytes@),
{
    let mut out = String::new();
    let mut i: usize = 0;
    while i < bytes.len()
        invariant
            i <= bytes@.len(),
            bytes@.len() <= usize::MAX / 2,
            out@ =~= lower_hex(bytes@.subrange(0, i as int)),
        decreases bytes@.len() - i,
    {
        let b = bytes[i];
        out.append(hex_digit(b / 16));
        out.append(hex_digit(b % 16));
        proof {
            assert(lower_hex(bytes@.subrange(0, i + 1)) =~= lower_hex(bytes@.subrange(0, i as int))
                + seq![hex_char(b as int / 16), hex_char(b as int % 16)]);
        }
        i = i + 1;
    }
    assert(bytes@.subrange(0, bytes@.len() as int) =~= bytes@);
    out
}

/// Every hexadecimal text can stand in a header.
pub proof fn lemma_hex_is_header_value(b: Seq<u8>)
    ensures
        is_header_value(lower_hex(b)),
{
    assert forall|i: int| 0 <= i < lower_hex(b).len() implies header_char(#[trigger] lower_hex(b)[i]) by {
        let n = if i % 2 == 0 { b[i / 2] as int / 16 } else { b[i / 2] as int % 16 };
        assert(0 <= n < 16);
        assert(lower_hex(b)[i] == hex_char(n));
    }
}

/// Derives the credential from a raw key. It fails, as a construction
/// failure, exactly when the credential cannot stand in a header value,
/// which never happens in hashed mode.
pub fn derive_credential(mode: AuthMode, raw_key: &str) -> (r: Result<String, DexError>)
    ensures
        match r {
            Ok(c) => c@ == credential_of(mode, raw_key@),
            Err(e) => e is Construction && !is_header_value(credential_of(mode, raw_key@)),
        },
        r is Ok <==> is_header_value(credential_of(mode, raw_key@)),
        mode == AuthMode::Hashed ==> r is Ok,
{
    let credential = match mode {
        AuthMode::Plain => raw_key.to_owned(),
        AuthMode::Hashed => {
            let credential = derive_hashed(raw_key);
            proof {
                lemma_hex_is_header_value(sha256_of(raw_key@));
            }
            credential
        },
    };
    if accepted_as_header(credential.as_str()) {
        Ok(credential)
    } else {
        Err(DexError::Construction(String::from_str("the API key cannot be sent as a header value")))
    }
}

/// The credential of the hashed mode.
pub fn derive_hashed(raw_key: &str) -> (r: String)
    ensures
        r@ == credential_of(AuthMode::Hashed, raw_key@),
{
    let digest = sha256_digest(raw_key);
    to_lower_hex(&digest)
}

} // verus!
