//! JWT bearer tokens: signing the access and refresh pair (HS256 with
//! `jsonwebtoken`), verifying a token, and the `Authorization` header format.
//! The application reads the clock and the header and hands them in.

use vstd::prelude::*;
use crate::config::JwtConfig;
use crate::error::{AuthError, AuthErrorView};
use jsonwebtoken::{Algorithm, DecodingKey, EncodingKey, Header, Validation};
use serde_json::Value;
use crate::text::{chars_of, matches_at, slice_chars, starts_with, string_of, trim, trim_chars};

verus! {

/// Issued token pair.
#[derive(Debug, Clone, PartialEq, Eq)]
pub struct TokenPair {
    pub access_token: String,
    pub refresh_token: String,
    pub token_type: String,
    pub expires_in: u64,
}

/// The pair answered for signed `access` and `refresh` tokens: bearer tokens
/// that expire after the configured access lifetime.
pub fn token_pair(access: String, refresh: String, config: &JwtConfig) -> (r: TokenPair)
    ensures
        r.access_token@ == access@,
        r.refresh_token@ == refresh@,
        r.token_type@ == "Bearer"@,
        r.expires_in == config.access_ttl,
{
    TokenPair {
        access_token: access,
        refresh_token: refresh,
        token_type: "Bearer".to_owned(),
        expires_in: config.access_ttl,
    }
}

/// The token of an `Authorization: Bearer <token>` value: after the exact
/// prefix `Bearer `, trimmed, and not empty.
pub open spec fn bearer_spec(header: Seq<char>) -> Option<Seq<char>> {
    if starts_with(header, "Bearer "@) && trim(header.skip(7)).len() > 0 {
        Some(trim(header.skip(7)))
    } else {
        None
    }
}

/// The bearer token of an `Authorization` header value, if it carries one.
pub fn bearer_token(header: Option<&str>) -> (r: Option<String>)
    ensures
        match r {
            Some(t) => header is Some && bearer_spec(header->0@) == Some(t@),
            None => header is None || bearer_spec(header->0@) is None,
        },
{
    let h = match header {
        Some(h) => chars_of(h),
        None => return None,
    };
    let prefix = chars_of("Bearer ");
    proof {
        reveal_strlit("Bearer ");
    }
    if !matches_at(&h, &prefix, 0) {
        return None;
    }
    let rest = slice_chars(&h, 7, h.len());
    assert(rest@ =~= h@.skip(7));
    let t = trim_chars(&rest);
    if t.len() == 0 {
        return None;
    }
    Some(string_of(&t))
}

/// A token with no whitespace at its ends comes back out of the
/// `Bearer <token>` header that carries it.
pub proof fn bearer_roundtrip(token: Seq<char>)
    requires
        token.len() > 0,
        !crate::text::is_ws(token[0]),
        !crate::text::is_ws(token.last()),
    ensures
        bearer_spec("Bearer "@ + token) == Some(token),
{
    reveal_strlit("Bearer ");
    let h = "Bearer "@ + token;
    assert(h.subrange(0, 7) =~= "Bearer "@);
    assert(h.skip(7) =~= token);
    assert(crate::text::trim_start(token) == token);
    assert(crate::text::trim_end(token) == token);
}

/// The claims of a verified token as plain values; the subject is its JSON
/// text.
#[derive(Debug, Clone, PartialEq, Eq)]
pub struct JwtClaimsView {
    pub sub_json: String,
    pub exp: i64,
    pub iat: i64,
    pub iss: Option<String>,
    pub typ: Option<String>,
}

/// The claims a decoded token carries: each where present with the expected
/// type (the subject as JSON text, the times as integers, the issuer and type
/// as strings).
#[derive(Debug, Clone, PartialEq, Eq)]
pub struct DecodedClaims {
    pub sub_json: Option<String>,
    pub exp: Option<i64>,
    pub iat: Option<i64>,
    pub iss: Option<String>,
    pub typ: Option<String>,
}

/// The characters of an optional string.
pub open spec fn opt_chars(o: Option<String>) -> Option<Seq<char>> {
    match o {
        Some(s) => Some(s@),
        None => None,
    }
}

/// The characters of an optional string slice.
pub open spec fn opt_str_chars(o: Option<&str>) -> Option<Seq<char>> {
    match o {
        Some(s) => Some(s@),
        None => None,
    }
}

/// The characters of a signing result.
pub open spec fn text_result(r: Result<String, String>) -> Result<Seq<char>, Seq<char>> {
    match r {
        Ok(t) => Ok(t@),
        Err(m) => Err(m@),
    }
}

/// What `jsonwebtoken::encode` with the default HS256 header and the secret's
/// bytes as key returns for the claims `{"sub": <sub_json>, "exp": exp,
/// "iat": iat, "iss": iss (only when present), "typ": typ}`, in that order:
/// the token, or the text of the error (the subject not being JSON).
pub uninterp spec fn hs256_jwt(
    sub_json: Seq<char>,
    iat: int,
    exp: int,
    iss: Option<Seq<char>>,
    typ: Seq<char>,
    secret: Seq<char>,
) -> Result<Seq<char>, Seq<char>>;

/// An HS256 token for the given claims.
///
/// Parses `sub_json` with `serde_json::from_str`, builds the claims object
/// field by field (`sub`, `exp`, `iat`, `iss` when given, `typ`) and calls
/// `jsonwebtoken::encode` with `Header::default()` and
/// `EncodingKey::from_secret`; errors become their display text. The contract
/// claims only that the result is the named one for these arguments (HMAC
/// signing reads no clock or randomness).
#[verifier::external_body]
fn sign_hs256(sub_json: &str, iat: i64, exp: i64, iss: Option<&str>, typ: &str, secret: &str) -> (r: Result<
    String,
    String,
>)
    ensures
        text_result(r) == hs256_jwt(sub_json@, iat as int, exp as int, opt_str_chars(iss), typ@, secret@),
{
    let sub: Value = serde_json::from_str(sub_json).map_err(|e| e.to_string())?;
    let mut claims = serde_json::Map::new();
    claims.insert("sub".to_owned(), sub);
    claims.insert("exp".to_owned(), Value::from(exp));
    claims.insert("iat".to_owned(), Value::from(iat));
    claims.extend(iss.map(|i| ("iss".to_owned(), Value::from(i))));
    claims.insert("typ".to_owned(), Value::from(typ));
    let key = EncodingKey::from_secret(secret.as_bytes());
    jsonwebtoken::encode(&Header::default(), &claims, &key).map_err(|e| e.to_string())
}

/// The claims a decoded token carries, as characters and integers.
pub open spec fn decoded_view(d: DecodedClaims) -> (
    Option<Seq<char>>,
    Option<i64>,
    Option<i64>,
    Option<Seq<char>>,
    Option<Seq<char>>,
) {
    (opt_chars(d.sub_json), d.exp, d.iat, opt_chars(d.iss), opt_chars(d.typ))
}

/// Decoded claims as the clock-free decision gives them.
pub open spec fn decoded_ok(d: DecodedClaims) -> Result<
    (Option<Seq<char>>, Option<i64>, Option<i64>, Option<Seq<char>>, Option<Seq<char>>),
    Seq<char>,
> {
    Ok(decoded_view(d))
}

/// What `jsonwebtoken::decode::<Value>` with HS256 validation, the secret's
/// bytes as key and `issuer` as the accepted issuer (when given) decides of
/// `token` apart from the clock: the signature, the claims' JSON, the
/// required `exp`, and the issuer check give either the claims (read as in
/// [`decoded_view`]) or an error text.
pub uninterp spec fn hs256_decoded(token: Seq<char>, secret: Seq<char>, issuer: Option<Seq<char>>) -> Result<
    (Option<Seq<char>>, Option<i64>, Option<i64>, Option<Seq<char>>, Option<Seq<char>>),
    Seq<char>,
>;

/// The claims of `token` when it verifies.
///
/// Calls `jsonwebtoken::decode::<Value>` with
/// `Validation::new(Algorithm::HS256)`, its issuer set to `issuer` when one is
/// given, and `DecodingKey::from_secret`; the claims are read field by field
/// and errors become their display text. Only the expiry check reads the
/// clock; everything else the crate checks is named [`hs256_decoded`]. The
/// contract claims: claims come back only where the named decision gives
/// exactly them, a token the named decision refuses is refused, and when an
/// issuer is checked and the token names one, it is that issuer (the crate
/// checks `iss` only where the token carries it).
#[verifier::external_body]
fn verify_hs256(token: &str, secret: &str, issuer: Option<&str>) -> (r: Result<DecodedClaims, String>)
    ensures
        r matches Ok(c) ==> hs256_decoded(token@, secret@, opt_str_chars(issuer)) == decoded_ok(c),
        hs256_decoded(token@, secret@, opt_str_chars(issuer)) is Err ==> r is Err,
        r matches Ok(c) ==> (issuer matches Some(i) && c.iss matches Some(s) ==> s@ == i@),
{
    let mut validation = Validation::new(Algorithm::HS256);
    validation.iss = issuer.map(|i| std::collections::HashSet::from([i.to_owned()]));
    let key = DecodingKey::from_secret(secret.as_bytes());
    let c = jsonwebtoken::decode::<Value>(token, &key, &validation).map_err(|e| e.to_string())?.claims;
    Ok(DecodedClaims {
        sub_json: c.get("sub").map(ToString::to_string),
        exp: c.get("exp").and_then(Value::as_i64),
        iat: c.get("iat").and_then(Value::as_i64),
        iss: c.get("iss").and_then(Value::as_str).map(str::to_owned),
        typ: c.get("typ").and_then(Value::as_str).map(str::to_owned),
    })
}

/// The signed access and refresh tokens for the subject `sub_json` at time
/// `now`, or the first signing error.
pub open spec fn issue_spec(config: JwtConfig, sub_json: Seq<char>, now: int) -> Result<
    (Seq<char>, Seq<char>),
    AuthErrorView,
> {
    let iss = opt_chars(config.issuer);
    match hs256_jwt(sub_json, now, now + config.access_ttl, iss, "access"@, config.secret@) {
        Err(m) => Err(AuthErrorView::Jwt(m)),
        Ok(a) => match hs256_jwt(sub_json, now, now + config.refresh_ttl, iss, "refresh"@, config.secret@) {
            Err(m) => Err(AuthErrorView::Jwt(m)),
            Ok(b) => Ok((a, b)),
        },
    }
}

fn issuer_str(config: &JwtConfig) -> (r: Option<&str>)
    ensures
        opt_str_chars(r) == opt_chars(config.issuer),
{
    match &config.issuer {
        Some(s) => Some(s.as_str()),
        None => None,
    }
}

/// An access and a refresh token for the subject `sub_json` (JSON text),
/// issued at `now` (seconds) and expiring after the configured lifetimes, with
/// the configured issuer and `typ` set to `access` or `refresh`; a signing
/// error becomes `AuthError::Jwt`.
pub fn issue_tokens(config: &JwtConfig, sub_json: &str, now: i64) -> (r: Result<TokenPair, AuthError>)
    requires
        config.access_ttl <= i64::MAX,
        config.refresh_ttl <= i64::MAX,
        now + config.access_ttl <= i64::MAX,
        now + config.refresh_ttl <= i64::MAX,
    ensures
        match r {
            Ok(p) => {
                &&& issue_spec(*config, sub_json@, now as int) == Ok::<(Seq<char>, Seq<char>), AuthErrorView>(
                    (p.access_token@, p.refresh_token@),
                )
                &&& p.token_type@ == "Bearer"@
                &&& p.expires_in == config.access_ttl
            },
            Err(e) => issue_spec(*config, sub_json@, now as int) == Err::<(Seq<char>, Seq<char>), AuthErrorView>(e@),
        },
{
    let iss = issuer_str(config);
    let secret = config.secret.as_str();
    let access = match sign_hs256(sub_json, now, now + config.access_ttl as i64, iss, "access", secret) {
        Ok(t) => t,
        Err(m) => return Err(AuthError::Jwt(m)),
    };
    let refresh = match sign_hs256(sub_json, now, now + config.refresh_ttl as i64, iss, "refresh", secret) {
        Ok(t) => t,
        Err(m) => return Err(AuthError::Jwt(m)),
    };
    Ok(token_pair(access, refresh, config))
}

/// The claims view of decoded claims: the subject and both times are
/// required, in the order `sub`, `exp`, `iat`; a missing one is a JSON error
/// naming it.
pub open spec fn claims_spec(d: DecodedClaims) -> Result<
    (Seq<char>, i64, i64, Option<Seq<char>>, Option<Seq<char>>),
    AuthErrorView,
> {
    match (d.sub_json, d.exp, d.iat) {
        (None, _, _) => Err(AuthErrorView::Jwt("JSON error: missing field `sub`"@)),
        (Some(_), None, _) => Err(AuthErrorView::Jwt("JSON error: missing field `exp`"@)),
        (Some(_), Some(_), None) => Err(AuthErrorView::Jwt("JSON error: missing field `iat`"@)),
        (Some(s), Some(e), Some(i)) => Ok((s@, e, i, opt_chars(d.iss), opt_chars(d.typ))),
    }
}

/// The claims view of what a decoded token carries.
pub fn claims_from_decoded(d: DecodedClaims) -> (r: Result<JwtClaimsView, AuthError>)
    ensures
        match r {
            Ok(c) => claims_spec(d) == Ok::<(Seq<char>, i64, i64, Option<Seq<char>>, Option<Seq<char>>), AuthErrorView>(
                (c.sub_json@, c.exp, c.iat, opt_chars(c.iss), opt_chars(c.typ)),
            ),
            Err(e) => claims_spec(d) == Err::<(Seq<char>, i64, i64, Option<Seq<char>>, Option<Seq<char>>), AuthErrorView>(e@),
        },
{
    let sub_json = match d.sub_json {
        Some(s) => s,
        None => return Err(AuthError::Jwt("JSON error: missing field `sub`".to_owned())),
    };
    let exp = match d.exp {
        Some(e) => e,
        None => return Err(AuthError::Jwt("JSON error: missing field `exp`".to_owned())),
    };
    let iat = match d.iat {
        Some(i) => i,
        None => return Err(AuthError::Jwt("JSON error: missing field `iat`".to_owned())),
    };
    Ok(JwtClaimsView { sub_json, exp, iat, iss: d.iss, typ: d.typ })
}

/// What the clock-free part of verifying `token` gives under `config`.
pub open spec fn decided(config: JwtConfig, token: Seq<char>) -> Result<
    (Option<Seq<char>>, Option<i64>, Option<i64>, Option<Seq<char>>, Option<Seq<char>>),
    Seq<char>,
> {
    hs256_decoded(token, config.secret@, opt_chars(config.issuer))
}

/// The characters and integers of a claims view.
pub open spec fn claims_view(c: JwtClaimsView) -> (Seq<char>, i64, i64, Option<Seq<char>>, Option<Seq<char>>) {
    (c.sub_json@, c.exp, c.iat, opt_chars(c.iss), opt_chars(c.typ))
}

/// The claims of `token` when it verifies with the configured secret (and
/// the configured issuer, when one is set): claims come back only as the
/// clock-free decision reads them from this token under this secret and
/// issuer, with the subject and both times present; a token that decision
/// refuses is refused; a token naming an issuer names the configured one;
/// and every error is a JWT error. Whether an unexpired-looking token is
/// accepted depends on the clock.
pub fn verify_token(config: &JwtConfig, token: &str) -> (r: Result<JwtClaimsView, AuthError>)
    ensures
        r matches Ok(c) ==> exists|d: DecodedClaims|
            decided(*config, token@) == #[trigger] decoded_ok(d) && claims_spec(d) == Ok::<
                (Seq<char>, i64, i64, Option<Seq<char>>, Option<Seq<char>>),
                AuthErrorView,
            >(claims_view(c)),
        decided(*config, token@) is Err ==> r is Err,
        r matches Ok(c) ==> (config.issuer is Some && c.iss is Some ==> opt_chars(c.iss) == opt_chars(config.issuer)),
        r matches Err(e) ==> e@ is Jwt,
{
    match verify_hs256(token, config.secret.as_str(), issuer_str(config)) {
        Ok(d) => {
            let r = claims_from_decoded(d);
            proof {
                if r is Ok {
                    assert(decoded_ok(d) == decoded_ok(d));
                }
            }
            r
        },
        Err(m) => Err(AuthError::Jwt(m)),
    }
}

/// The subject (JSON text) of the request's bearer token: `None` without one;
/// otherwise the subject that verifying the token gives, which is the one
/// the clock-free decision reads from that very token, or a JWT error (always
/// one when that decision refuses the token).
pub fn authenticate_bearer(config: &JwtConfig, header: Option<&str>) -> (r: Result<Option<String>, AuthError>)
    ensures
        (header is None || bearer_spec(header->0@) is None) ==> r matches Ok(None),
        header is Some ==> (bearer_spec(header->0@) matches Some(t) ==> {
            &&& (r matches Ok(Some(s)) ==> exists|d: DecodedClaims|
                decided(*config, t) == #[trigger] decoded_ok(d) && d.sub_json is Some && d.sub_json->0@ == s@
                    && claims_spec(d) is Ok)
            &&& (decided(*config, t) is Err ==> r is Err)
            &&& (r matches Err(e) ==> e@ is Jwt)
            &&& r != Ok::<Option<String>, AuthError>(None)
        }),
{
    match bearer_token(header) {
        None => Ok(None),
        Some(t) => match verify_token(config, t.as_str()) {
            Ok(c) => Ok(Some(c.sub_json)),
            Err(e) => Err(e),
        },
    }
}

/// Both tokens of an issued pair are signed under the configured secret for
/// the same subject, issue time and issuer (the configured one); they differ
/// only in type and expiry, each expiring after its configured lifetime.
pub proof fn issued_pair_claims(config: JwtConfig, sub_json: Seq<char>, now: int, access: Seq<char>, refresh: Seq<char>)
    requires
        issue_spec(config, sub_json, now) == Ok::<(Seq<char>, Seq<char>), AuthErrorView>((access, refresh)),
    ensures
        hs256_jwt(sub_json, now, now + config.access_ttl, opt_chars(config.issuer), "access"@, config.secret@)
            == Ok::<Seq<char>, Seq<char>>(access),
        hs256_jwt(sub_json, now, now + config.refresh_ttl, opt_chars(config.issuer), "refresh"@, config.secret@)
            == Ok::<Seq<char>, Seq<char>>(refresh),
{
}

} // verus!
