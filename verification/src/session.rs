//! Cookie/session strategy: cookie names, the `Set-Cookie` values it issues,
//! reading a cookie from a `Cookie` header, and the `timeoutable` expiry rule.

use vstd::prelude::*;
use crate::config::{AuthConfig, AuthModule};
use crate::text::{
    chars_of, has_char, index_of, is_ws, push_all, push_str, seq_eq, slice_chars, string_of, trim, trim_chars,
};
use crate::route_plan::find_char;

verus! {

/// Session data key for the authenticated user's id.
pub const USER_ID_KEY: &'static str = "user_id";

/// Session data key for the sign-in timestamp (used by `timeoutable`).
pub const SIGNED_IN_AT_KEY: &'static str = "signed_in_at";

/// Cookie name for the encrypted session.
pub const SESSION_COOKIE: &'static str = "_doido_session";

/// The pieces of `s` between occurrences of `c` (`str::split(c)`); there is
/// always at least one piece.
pub open spec fn split_char(s: Seq<char>, c: char) -> Seq<Seq<char>>
    decreases s.len(),
{
    let k = index_of(s, c);
    if k < 0 {
        seq![s]
    } else {
        proof {
            crate::text::lemma_index_of_bounds(s, c);
        }
        seq![s.take(k)] + split_char(s.skip(k + 1), c)
    }
}

/// The value of the first `name=value` pair among `pairs` (each trimmed and
/// split at its first `=`; pairs without `=` are skipped).
pub open spec fn cookie_in(pairs: Seq<Seq<char>>, name: Seq<char>) -> Option<Seq<char>>
    decreases pairs.len(),
{
    if pairs.len() == 0 {
        None
    } else {
        let t = trim(pairs[0]);
        let k = index_of(t, '=');
        if k >= 0 && t.take(k) == name {
            Some(t.skip(k + 1))
        } else {
            cookie_in(pairs.drop_first(), name)
        }
    }
}

/// The value of cookie `name` in a `Cookie` header.
pub open spec fn cookie_value_in(header: Seq<char>, name: Seq<char>) -> Option<Seq<char>> {
    cookie_in(split_char(header, ';'), name)
}

/// Looks up cookie `name` in the `Cookie` header value `header`.
pub fn find_cookie(header: &str, name: &str) -> (r: Option<String>)
    ensures
        match r {
            Some(v) => cookie_value_in(header@, name@) == Some(v@),
            None => cookie_value_in(header@, name@) is None,
        },
{
    let h = chars_of(header);
    let n = chars_of(name);
    let mut i: usize = 0;
    assert(h@.skip(0) =~= h@);
    loop
        invariant
            i <= h.len(),
            h@ == header@,
            n@ == name@,
            cookie_value_in(header@, name@) == cookie_in(split_char(h@.skip(i as int), ';'), name@),
        decreases h.len() - i,
    {
        let ghost rest = h@.skip(i as int);
        let mut j = i;
        while j < h.len() && h[j] != ';'
            invariant
                i <= j <= h.len(),
                forall|t: int| i <= t < j ==> h@[t] != ';',
            decreases h.len() - j,
        {
            j += 1;
        }
        proof {
            crate::text::lemma_index_of_is(rest, ';', j - i);
            assert(rest.take(j - i) =~= h@.subrange(i as int, j as int));
        }
        let piece = slice_chars(&h, i, j);
        let t = trim_chars(&piece);
        let k = find_char(&t, '=');
        if k < t.len() {
            let key = slice_chars(&t, 0, k);
            assert(key@ =~= t@.take(k as int));
            if seq_eq(&key, &n) {
                let value = slice_chars(&t, k + 1, t.len());
                assert(value@ =~= t@.skip(k + 1));
                return Some(string_of(&value));
            }
        }
        assert(piece@ == rest.take(j - i));
        assert(!(index_of(t@, '=') >= 0 && t@.take(index_of(t@, '=')) == name@));
        assert(split_char(rest, ';')[0] == rest.take(j - i));
        assert(cookie_in(split_char(rest, ';'), name@) == cookie_in(
            split_char(rest, ';').drop_first(),
            name@,
        ));
        if j == h.len() {
            proof {
                assert(rest =~= h@.subrange(i as int, j as int));
                assert(split_char(rest, ';') == seq![rest]);
                assert(split_char(rest, ';').drop_first() =~= Seq::<Seq<char>>::empty());
            }
            return None;
        }
        proof {
            assert(rest.skip(j - i + 1) =~= h@.skip(j + 1));
            assert(split_char(rest, ';').drop_first() == split_char(h@.skip(j + 1), ';'));
        }
        i = j + 1;
    }
}

/// The `Set-Cookie` value that stores an encoded session.
pub open spec fn session_cookie_spec(encoded: Seq<char>) -> Seq<char> {
    SESSION_COOKIE@ + "="@ + encoded + "; Path=/; HttpOnly; SameSite=Lax"@
}

/// The `Set-Cookie` value for `_doido_session` holding `encoded`.
pub fn session_cookie(encoded: &str) -> (r: String)
    ensures
        r@ == session_cookie_spec(encoded@),
{
    let mut out: Vec<char> = Vec::new();
    push_str(&mut out, SESSION_COOKIE);
    push_str(&mut out, "=");
    push_str(&mut out, encoded);
    push_str(&mut out, "; Path=/; HttpOnly; SameSite=Lax");
    string_of(&out)
}

/// Reading the session cookie back: splitting a `Set-Cookie` value issued by
/// `session_cookie` (or the `name=value` pair a browser echoes from it) the way
/// `find_cookie` does gives back the encoded session, when that value holds no
/// `;` and does not end in whitespace.
pub proof fn session_cookie_roundtrip(encoded: Seq<char>)
    requires
        !has_char(encoded, ';'),
        encoded.len() > 0 ==> !is_ws(encoded.last()),
    ensures
        cookie_value_in(session_cookie_spec(encoded), SESSION_COOKIE@) == Some(encoded),
        cookie_value_in(SESSION_COOKIE@ + "="@ + encoded, SESSION_COOKIE@) == Some(encoded),
{
    reveal_strlit("_doido_session");
    reveal_strlit("=");
    reveal_strlit("; Path=/; HttpOnly; SameSite=Lax");
    let name = SESSION_COOKIE@;
    let pair = name + "="@ + encoded;
    let m = pair.len() as int;
    assert(!is_ws(pair[0]));
    assert(!is_ws(pair.last()));
    assert(trim(pair) == pair);
    crate::text::lemma_index_of_is(pair, '=', 14);
    assert(pair.take(14) =~= name);
    assert(pair.skip(15) =~= encoded);
    let full = session_cookie_spec(encoded);
    assert forall|t: int| 0 <= t < m implies full[t] != ';' by {
        if t >= 15 {
            assert(full[t] == encoded[t - 15]);
        }
    }
    crate::text::lemma_index_of_is(full, ';', m);
    assert(full.take(m) =~= pair);
    assert(split_char(full, ';')[0] == pair);
    assert forall|t: int| 0 <= t < m implies pair[t] != ';' by {
        if t >= 15 {
            assert(pair[t] == encoded[t - 15]);
        }
    }
    crate::text::lemma_index_of_is(pair, ';', m);
    assert(split_char(pair, ';') == seq![pair]);
}

/// The `Set-Cookie` value that clears the session cookie.
pub fn clear_session_cookie() -> (r: String)
    ensures
        r@ == SESSION_COOKIE@ + "=; Path=/; Max-Age=0; HttpOnly; SameSite=Lax"@,
{
    let mut out: Vec<char> = Vec::new();
    push_str(&mut out, SESSION_COOKIE);
    push_str(&mut out, "=; Path=/; Max-Age=0; HttpOnly; SameSite=Lax");
    string_of(&out)
}

/// Whether a session signed in at `signed_in_at` has outlived `auth.timeout`
/// at time `now` (all in seconds): only when the `timeoutable` module is on.
pub open spec fn session_expired_spec(
    config: Option<AuthConfig>,
    signed_in_at: Option<i64>,
    now: i64,
) -> bool {
    match config {
        None => false,
        Some(c) => c.modules@.contains(AuthModule::Timeoutable) && match signed_in_at {
            Some(t) => now - t > (c.timeout as i64),
            None => false,
        },
    }
}

/// Whether the session has exceeded `auth.timeout` since sign-in, when the
/// `timeoutable` module is enabled. `false` when the module is disabled, auth
/// is not initialised (`config` is `None`), or the session carries no
/// sign-in time.
pub fn is_session_expired(config: Option<&AuthConfig>, signed_in_at: Option<i64>, now: i64) -> (r: bool)
    requires
        signed_in_at matches Some(t) ==> i64::MIN <= now - t <= i64::MAX,
    ensures
        r == session_expired_spec(
            match config { Some(c) => Some(*c), None => None },
            signed_in_at,
            now,
        ),
{
    let c = match config {
        Some(c) => c,
        None => return false,
    };
    if !c.has_module(AuthModule::Timeoutable) {
        return false;
    }
    match signed_in_at {
        Some(t) => now - t > c.timeout as i64,
        None => false,
    }
}

} // verus!
