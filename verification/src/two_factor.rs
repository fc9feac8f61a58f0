//! TOTP two-factor authentication: enrollment (a random secret and its
//! provisioning URI) and code verification.

use vstd::prelude::*;
use vstd::utf8::encode_utf8;
use crate::error::{AuthError, AuthErrorView};
use crate::text::{push_str, str_eq, string_of};

verus! {

/// Enrollment payload returned to the client.
#[derive(Debug, Clone, PartialEq, Eq)]
pub struct TwoFactorEnrollment {
    pub secret: String,
    pub otpauth_uri: String,
}

/// The character of the six-bit value `v` in the standard base64 alphabet
/// (`A`-`Z`, `a`-`z`, `0`-`9`, `+`, `/`).
pub open spec fn b64_char(v: int) -> char {
    if v < 26 {
        (65 + v) as char
    } else if v < 52 {
        (97 + v - 26) as char
    } else if v < 62 {
        (48 + v - 52) as char
    } else if v == 62 {
        '+'
    } else {
        '/'
    }
}

/// Standard, padded base64 of `bytes` (RFC 4648, section 4): each three bytes
/// give four characters; a last one or two bytes give two or three characters
/// and `=` padding up to four.
pub open spec fn base64_standard_encode(bytes: Seq<u8>) -> Seq<char>
    decreases bytes.len(),
{
    if bytes.len() == 0 {
        seq![]
    } else if bytes.len() == 1 {
        let a = bytes[0] as int;
        seq![b64_char(a / 4), b64_char((a % 4) * 16), '=', '=']
    } else if bytes.len() == 2 {
        let a = bytes[0] as int;
        let b = bytes[1] as int;
        seq![b64_char(a / 4), b64_char((a % 4) * 16 + b / 16), b64_char((b % 16) * 4), '=']
    } else {
        let a = bytes[0] as int;
        let b = bytes[1] as int;
        let c = bytes[2] as int;
        seq![
            b64_char(a / 4),
            b64_char((a % 4) * 16 + b / 16),
            b64_char((b % 16) * 4 + c / 64),
            b64_char(c % 64),
        ] + base64_standard_encode(bytes.skip(3))
    }
}

/// What `base64::engine::general_purpose::STANDARD.decode` returns for
/// `input`: the decoded bytes, or the text of its `DecodeError`.
pub uninterp spec fn base64_standard_decode(input: Seq<u8>) -> Result<Seq<u8>, Seq<char>>;

/// What `totp_lite::totp_custom::<Sha1>(30, 6, secret, 0)` returns: the
/// six-digit SHA-1 TOTP code for 30-second steps at Unix time 0.
pub uninterp spec fn totp_sha1_epoch_code(secret: Seq<u8>) -> Seq<char>;

/// Sixteen bytes of a fresh random (version 4) UUID.
///
/// Calls `uuid::Uuid::new_v4` and `Uuid::as_bytes`. The contract claims only
/// the length; the bytes are random and nothing more is said of them.
#[verifier::external_body]
fn random_uuid_bytes() -> (r: Vec<u8>)
    ensures
        r@.len() == 16,
{
    uuid::Uuid::new_v4().as_bytes().to_vec()
}

/// Whether standard base64 decoding of the UTF-8 bytes of `text` gives `bytes`.
pub open spec fn decodes_to(text: Seq<char>, bytes: Seq<u8>) -> bool {
    base64_standard_decode(encode_utf8(text)) == Ok::<Seq<u8>, Seq<char>>(bytes)
}

/// Standard, padded base64 of `bytes`.
///
/// Calls `base64::Engine::encode` on `general_purpose::STANDARD`. The contract
/// claims the result is the standard padded base64 text of `bytes` (as
/// [`base64_standard_encode`] spells it out), and that decoding its UTF-8 bytes with the same
/// engine gives `bytes` back (what the crate's round-trip tests check); the
/// bound keeps the crate's buffer-size computation from overflowing, which it
/// would answer with a panic.
#[verifier::external_body]
fn base64_encode(bytes: &[u8]) -> (r: String)
    requires
        bytes@.len() <= 0x1000_0000,
    ensures
        r@ == base64_standard_encode(bytes@),
        decodes_to(r@, bytes@),
{
    base64::Engine::encode(&base64::engine::general_purpose::STANDARD, bytes)
}

/// Standard base64 decoding of `input`.
///
/// Calls `base64::Engine::decode` on `general_purpose::STANDARD` and turns a
/// `DecodeError` into its display text. The contract claims the result is the
/// named decoding of `input`.
#[verifier::external_body]
fn base64_decode(input: &[u8]) -> (r: Result<Vec<u8>, String>)
    ensures
        match r {
            Ok(v) => base64_standard_decode(input@) == Ok::<Seq<u8>, Seq<char>>(v@),
            Err(m) => base64_standard_decode(input@) == Err::<Seq<u8>, Seq<char>>(m@),
        },
{
    match base64::Engine::decode(&base64::engine::general_purpose::STANDARD, input) {
        Ok(v) => Ok(v),
        Err(e) => Err(e.to_string()),
    }
}

/// The six-digit SHA-1 TOTP code of `secret` for 30-second steps at time 0.
///
/// Calls `totp_lite::totp_custom::<totp_lite::Sha1>(30, 6, secret, 0)`. The
/// contract claims the result is the named code, and, as the crate formats the
/// number modulo one million padded to six places, that it is six ASCII digits.
#[verifier::external_body]
fn totp_code(secret: &[u8]) -> (r: String)
    ensures
        r@ == totp_sha1_epoch_code(secret@),
        r@.len() == 6,
        forall|i: int| 0 <= i < 6 ==> '0' <= #[trigger] r@[i] <= '9',
{
    totp_lite::totp_custom::<totp_lite::Sha1>(30, 6, secret, 0)
}

/// The secret made of two UUIDs' bytes: all of `first` followed by the first
/// four bytes of `second`.
pub fn secret_from_uuids(first: &[u8], second: &[u8]) -> (r: Vec<u8>)
    requires
        second@.len() >= 4,
    ensures
        r@ == first@ + second@.take(4),
{
    let mut out: Vec<u8> = Vec::new();
    let mut i: usize = 0;
    while i < first.len()
        invariant
            i <= first@.len(),
            out@ == first@.take(i as int),
        decreases first@.len() - i,
    {
        out.push(first[i]);
        assert(out@ =~= first@.take(i + 1));
        i += 1;
    }
    assert(out@ =~= first@);
    let mut j: usize = 0;
    while j < 4
        invariant
            j <= 4,
            second@.len() >= 4,
            out@ == first@ + second@.take(j as int),
        decreases 4 - j,
    {
        out.push(second[j]);
        assert(out@ =~= first@ + second@.take(j + 1));
        j += 1;
    }
    out
}

/// A fresh 20-byte secret: all sixteen bytes of one random UUID followed by the
/// first four of another (see [`secret_from_uuids`]).
pub fn rand_secret() -> (r: Vec<u8>)
    ensures
        r@.len() == 20,
        exists|a: Seq<u8>, b: Seq<u8>| a.len() == 16 && b.len() == 16 && r@ == a + b.take(4),
{
    let a = random_uuid_bytes();
    let b = random_uuid_bytes();
    secret_from_uuids(a.as_slice(), b.as_slice())
}

/// The `otpauth://` provisioning URI for an account.
pub open spec fn otpauth_uri(issuer: Seq<char>, email: Seq<char>, secret: Seq<char>) -> Seq<char> {
    "otpauth://totp/"@ + issuer + ":"@ + email + "?secret="@ + secret + "&issuer="@ + issuer
        + "&algorithm=SHA1&digits=6&period=30"@
}

/// The enrollment for `secret_bytes`: their base64 text and its URI.
pub fn enrollment_for(email: &str, issuer: &str, secret_bytes: &[u8]) -> (r: TwoFactorEnrollment)
    requires
        secret_bytes@.len() <= 0x1000_0000,
    ensures
        r.secret@ == base64_standard_encode(secret_bytes@),
        r.otpauth_uri@ == otpauth_uri(issuer@, email@, r.secret@),
        verify_result(r.secret@, totp_sha1_epoch_code(secret_bytes@)) == Ok::<bool, AuthErrorView>(true),
{
    let secret = base64_encode(secret_bytes);
    let mut uri: Vec<char> = Vec::new();
    push_str(&mut uri, "otpauth://totp/");
    push_str(&mut uri, issuer);
    push_str(&mut uri, ":");
    push_str(&mut uri, email);
    push_str(&mut uri, "?secret=");
    push_str(&mut uri, secret.as_str());
    push_str(&mut uri, "&issuer=");
    push_str(&mut uri, issuer);
    push_str(&mut uri, "&algorithm=SHA1&digits=6&period=30");
    TwoFactorEnrollment { secret, otpauth_uri: string_of(&uri) }
}

/// Generate a new TOTP secret and provisioning URI for enrollment. Always
/// succeeds; the secret is the base64 text of 20 random bytes.
pub fn enroll(email: &str, issuer: &str) -> (r: Result<TwoFactorEnrollment, AuthError>)
    ensures
        r is Ok,
        r matches Ok(e) ==> exists|b: Seq<u8>|
            b.len() == 20 && #[trigger] base64_standard_encode(b) == e.secret@ && verify_result(
                e.secret@,
                totp_sha1_epoch_code(b),
            ) == Ok::<bool, AuthErrorView>(true),
        r matches Ok(e) ==> e.otpauth_uri@ == otpauth_uri(issuer@, email@, e.secret@),
{
    let bytes = rand_secret();
    let e = enrollment_for(email, issuer, bytes.as_slice());
    Ok(e)
}

/// What verifying `code` against the base64 secret `secret_b64` yields.
pub open spec fn verify_result(secret_b64: Seq<char>, code: Seq<char>) -> Result<bool, AuthErrorView> {
    match base64_standard_decode(encode_utf8(secret_b64)) {
        Ok(secret) => Ok(totp_sha1_epoch_code(secret) == code),
        Err(m) => Err(AuthErrorView::TwoFactor("invalid secret: "@ + m)),
    }
}

/// Verify a 6-digit TOTP code against a base64-encoded secret.
pub fn verify_code(secret_b64: &str, code: &str) -> (r: Result<bool, AuthError>)
    ensures
        match r {
            Ok(b) => verify_result(secret_b64@, code@) == Ok::<bool, AuthErrorView>(b),
            Err(e) => verify_result(secret_b64@, code@) == Err::<bool, AuthErrorView>(e@),
        },
{
    let secret = match base64_decode(secret_b64.as_bytes()) {
        Ok(s) => s,
        Err(m) => {
            let mut msg: Vec<char> = Vec::new();
            push_str(&mut msg, "invalid secret: ");
            push_str(&mut msg, m.as_str());
            return Err(AuthError::TwoFactor(string_of(&msg)));
        },
    };
    let expected = totp_code(secret.as_slice());
    Ok(str_eq(expected.as_str(), code))
}

} // verus!
