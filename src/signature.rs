//! Authentication of a webhook body against a repository secret.

use vstd::prelude::*;
use subtle::ConstantTimeEq;
use crate::error::Error;
use crate::text::{has_prefix, starts_with};

verus! {

/// HMAC-SHA256 of `msg` keyed by the UTF-8 bytes of `key`.
pub uninterp spec fn hmac_of(key: Seq<char>, msg: Seq<u8>) -> Seq<u8>;

/// The literal that starts every signature header.
pub open spec fn signature_prefix() -> Seq<char> {
    seq!['s', 'h', 'a', '2', '5', '6', '=']
}

pub open spec fn is_hex_digit(c: char) -> bool {
    ('0' <= c && c <= '9') || ('a' <= c && c <= 'f') || ('A' <= c && c <= 'F')
}

/// Value of a hexadecimal digit, either case.
pub open spec fn hex_value(c: char) -> nat {
    if '0' <= c && c <= '9' {
        (c as nat - '0' as nat) as nat
    } else if 'a' <= c && c <= 'f' {
        (c as nat - 'a' as nat + 10) as nat
    } else {
        (c as nat - 'A' as nat + 10) as nat
    }
}

/// An even number of hexadecimal digits.
pub open spec fn is_hex_text(s: Seq<char>) -> bool {
    s.len() % 2 == 0 && forall|i: int| 0 <= i < s.len() ==> is_hex_digit(#[trigger] s[i])
}

/// The bytes that a valid hexadecimal text spells, two digits per byte, high digit first.
pub open spec fn hex_bytes(s: Seq<char>) -> Seq<u8> {
    Seq::new(s.len() / 2, |i: int| (16 * hex_value(s[2 * i]) + hex_value(s[2 * i + 1])) as u8)
}

/// Lowercase digit of a value below sixteen.
pub open spec fn hex_digit_char(v: nat) -> char {
    if v < 10 {
        ('0' as nat + v) as char
    } else {
        ('a' as nat + v - 10) as char
    }
}

/// Lowercase hexadecimal encoding of bytes.
pub open spec fn hex_text(b: Seq<u8>) -> Seq<char> {
    Seq::new(
        2 * b.len(),
        |i: int|
            if i % 2 == 0 {
                hex_digit_char((b[i / 2] / 16) as nat)
            } else {
                hex_digit_char((b[i / 2] % 16) as nat)
            },
    )
}

/// What checking `header` against `body` and `secret` yields: a header without the
/// prefix or with a non-hexadecimal rest is malformed; otherwise the result tells
/// whether the decoded bytes are the body's HMAC.
pub open spec fn signature_outcome(body: Seq<u8>, secret: Seq<char>, header: Seq<char>) -> Result<
    bool,
    Error,
> {
    if !has_prefix(header, signature_prefix()) {
        Err(Error::MissingSignaturePrefix)
    } else {
        let rest = header.skip(7);
        if !is_hex_text(rest) {
            Err(Error::InvalidSignatureHex)
        } else {
            Ok(hex_bytes(rest) == hmac_of(secret, body))
        }
    }
}

/// Relies on hmac_sha256::HMAC::mac: the 32-byte HMAC-SHA256 of `msg` under `key`.
#[verifier::external_body]
fn hmac_sha256(key: &str, msg: &[u8]) -> (r: Vec<u8>)
    ensures
        r@ == hmac_of(key@, msg@),
        r@.len() == 32,
{
    hmac_sha256::HMAC::mac(msg, key.as_bytes()).to_vec()
}

/// Relies on hex::decode: even-length text of hex digits (either case) decodes to
/// one byte per digit pair; anything else is an error.
#[verifier::external_body]
fn decode_hex(s: &str) -> (r: Option<Vec<u8>>)
    ensures
        r.is_some() == is_hex_text(s@),
        r.is_some() ==> r.unwrap()@ == hex_bytes(s@),
{
    hex::decode(s).ok()
}

/// Relies on subtle's ConstantTimeEq for slices: equal lengths and contents, compared
/// without short-circuiting on the contents.
#[verifier::external_body]
fn constant_time_eq(a: &[u8], b: &[u8]) -> (r: bool)
    ensures
        r == (a@ == b@),
{
    bool::from(a.ct_eq(b))
}

/// Checks a `sha256=<hex>` signature header against the body's HMAC under `secret`.
/// Returns `Ok(false)` on a mismatch and an error only for a malformed header.
pub fn verify_signature(body: &[u8], secret: &str, header: &str) -> (r: Result<bool, Error>)
    ensures
        r == signature_outcome(body@, secret@, header@),
{
    proof {
        reveal_strlit("sha256=");
        assert("sha256="@ =~= signature_prefix());
    }
    if !starts_with(header, "sha256=") {
        return Err(Error::MissingSignaturePrefix);
    }
    let n = header.unicode_len();
    let rest = header.substring_char(7, n);
    assert(rest@ =~= header@.skip(7));
    match decode_hex(rest) {
        None => Err(Error::InvalidSignatureHex),
        Some(provided) => {
            let expected = hmac_sha256(secret, body);
            Ok(constant_time_eq(expected.as_slice(), provided.as_slice()))
        },
    }
}

/// Lowercase hexadecimal text decodes back to the bytes it encodes.
pub proof fn lemma_hex_round_trip(b: Seq<u8>)
    ensures
        is_hex_text(hex_text(b)),
        hex_bytes(hex_text(b)) == b,
{
    let t = hex_text(b);
    assert forall|i: int| 0 <= i < t.len() implies is_hex_digit(#[trigger] t[i]) by {
        let v: nat = if i % 2 == 0 { (b[i / 2] / 16) as nat } else { (b[i / 2] % 16) as nat };
        assert(v < 16);
        assert(t[i] == hex_digit_char(v));
    }
    assert forall|i: int| 0 <= i < b.len() implies #[trigger] hex_bytes(t)[i] == b[i] by {
        let hi = (b[i] / 16) as nat;
        let lo = (b[i] % 16) as nat;
        assert((2 * i) / 2 == i);
        assert((2 * i + 1) / 2 == i);
        assert((2 * i) % 2 == 0);
        assert((2 * i + 1) % 2 == 1);
        assert(t[2 * i] == hex_digit_char(hi));
        assert(t[2 * i + 1] == hex_digit_char(lo));
        assert(hex_value(hex_digit_char(hi)) == hi);
        assert(hex_value(hex_digit_char(lo)) == lo);
        assert(16 * hi + lo == b[i]);
    }
    assert(hex_bytes(t) =~= b);
}

/// A header made of the prefix and the lowercase hex of the body's HMAC under the
/// secret is accepted; the same header against any other body is accepted exactly
/// when that body has the same HMAC.
pub proof fn lemma_genuine_signature_accepted(body: Seq<u8>, other: Seq<u8>, secret: Seq<char>)
    ensures
        signature_outcome(body, secret, signature_prefix() + hex_text(hmac_of(secret, body)))
            == Ok::<bool, Error>(true),
        signature_outcome(other, secret, signature_prefix() + hex_text(hmac_of(secret, body)))
            == Ok::<bool, Error>(hmac_of(secret, other) == hmac_of(secret, body)),
{
    let mac = hmac_of(secret, body);
    let header = signature_prefix() + hex_text(mac);
    lemma_hex_round_trip(mac);
    assert(header.subrange(0, 7) =~= signature_prefix());
    assert(header.skip(7) =~= hex_text(mac));
}

/// A header that lacks the `sha256=` prefix is malformed, never a mismatch.
pub proof fn lemma_missing_prefix_malformed(body: Seq<u8>, secret: Seq<char>, header: Seq<char>)
    requires
        !has_prefix(header, signature_prefix()),
    ensures
        signature_outcome(body, secret, header) == Err::<bool, Error>(Error::MissingSignaturePrefix),
        signature_outcome(body, secret, header) != Err::<bool, Error>(Error::InvalidSignature),
{
}

} // verus!
