//! Config-driven OAuth 2.0 authorization-code providers: the authorization
//! redirect URL and the token-exchange request. The HTTP exchange itself is the
//! application's.

use vstd::prelude::*;
use crate::config::{OAuthProviderConfig, OAuthProviderType};
use crate::error::{AuthError, AuthErrorView};
use crate::text::{join, join_strings, push_all, push_str, string_of};
use vstd::utf8::encode_utf8;

verus! {

/// Token payload returned after a successful authorization-code exchange.
#[derive(Debug, Clone, PartialEq, Eq)]
pub struct OAuthTokenResponse {
    pub access_token: String,
    pub token_type: Option<String>,
    pub refresh_token: Option<String>,
    pub expires_in: Option<u64>,
    pub id_token: Option<String>,
}

/// The token-exchange request to POST as `application/x-www-form-urlencoded`.
#[derive(Debug, Clone, PartialEq, Eq)]
pub struct TokenRequest {
    pub url: String,
    pub body: String,
}

/// Config-driven OAuth 2.0 authorization-code provider.
pub struct OAuth2Provider {
    name: String,
    config: OAuthProviderConfig,
}

/// Bytes left as they are by percent-encoding: `A-Z a-z 0-9 - _ . ~`.
pub open spec fn unreserved(b: u8) -> bool {
    (65 <= b <= 90) || (97 <= b <= 122) || (48 <= b <= 57) || b == 45 || b == 95 || b == 46
        || b == 126
}

/// Upper-case hexadecimal digit for `d < 16`.
pub open spec fn hex_digit(d: u8) -> char {
    if d < 10 {
        ((48 + d) as u8) as char
    } else {
        ((55 + d) as u8) as char
    }
}

/// Percent-encoding of a byte string: unreserved bytes as themselves, every
/// other byte as `%` and two upper-case hex digits.
pub open spec fn percent_encode(bytes: Seq<u8>) -> Seq<char>
    decreases bytes.len(),
{
    if bytes.len() == 0 {
        seq![]
    } else {
        let b = bytes[0];
        let head = if unreserved(b) {
            seq![b as char]
        } else {
            seq!['%', hex_digit(b / 16), hex_digit(b % 16)]
        };
        head + percent_encode(bytes.drop_first())
    }
}


fn hex_digit_exec(d: u8) -> (r: char)
    requires
        d < 16,
    ensures
        r == hex_digit(d),
{
    if d < 10 {
        (48 + d) as char
    } else {
        (55 + d) as char
    }
}

/// Percent-encodes `value` byte by byte.
pub fn url_encode(value: &str) -> (r: String)
    ensures
        r@ == percent_encode(encode_utf8(value@)),
{
    let bytes = value.as_bytes();
    let mut out: Vec<char> = Vec::new();
    let mut i: usize = bytes.len();
    let ghost bs = bytes@;
    let mut tail: Vec<char> = Vec::new();
    assert(bs.skip(i as int) =~= Seq::<u8>::empty());
    while i > 0
        invariant
            i <= bytes@.len(),
            bs == bytes@,
            tail@ == percent_encode(bs.skip(i as int)),
        decreases i,
    {
        i -= 1;
        let b = bytes[i];
        let mut piece: Vec<char> = Vec::new();
        if (65 <= b && b <= 90) || (97 <= b && b <= 122) || (48 <= b && b <= 57) || b == 45 || b
            == 95 || b == 46 || b == 126 {
            piece.push(b as char);
        } else {
            piece.push('%');
            piece.push(hex_digit_exec(b / 16));
            piece.push(hex_digit_exec(b % 16));
        }
        assert(bs.skip(i as int).drop_first() =~= bs.skip(i + 1));
        push_all(&mut piece, &tail);
        tail = piece;
    }
    assert(bs.skip(0) =~= bs);
    push_all(&mut out, &tail);
    string_of(&out)
}

/// The characters of an optional string.
pub open spec fn opt_view(o: Option<String>) -> Option<Seq<char>> {
    match o {
        Some(s) => Some(s@),
        None => None,
    }
}

/// The space-joined scopes.
pub open spec fn scope_list(c: OAuthProviderConfig) -> Seq<char> {
    join(c.scopes@.map_values(|s: String| s@), " "@)
}

/// The `&scope=` suffix: empty when no scope is configured.
pub open spec fn scope_suffix(c: OAuthProviderConfig) -> Seq<char> {
    if c.scopes@.len() == 0 {
        seq![]
    } else {
        "&scope="@ + percent_encode(encode_utf8(scope_list(c)))
    }
}

/// The authorization redirect URL, or why it cannot be built.
pub open spec fn authorize_url_spec(
    c: OAuthProviderConfig,
    state: Seq<char>,
) -> Result<Seq<char>, AuthErrorView> {
    if c.client_id is None {
        Err(AuthErrorView::OAuth("missing client_id"@))
    } else if c.authorize_url is None {
        Err(AuthErrorView::OAuth("missing authorize_url"@))
    } else if c.redirect_uri is None {
        Err(AuthErrorView::OAuth("missing redirect_uri"@))
    } else {
        Ok(
            c.authorize_url->0@ + "?client_id="@ + percent_encode(
                encode_utf8(c.client_id->0@),
            ) + "&redirect_uri="@ + percent_encode(encode_utf8(c.redirect_uri->0@))
                + "&response_type=code&state="@ + percent_encode(encode_utf8(state))
                + scope_suffix(c),
        )
    }
}

/// The token-exchange request for `code`, or why it cannot be built. The
/// body's values are sent as they are.
pub open spec fn token_request_spec(
    c: OAuthProviderConfig,
    code: Seq<char>,
) -> Result<(Seq<char>, Seq<char>), AuthErrorView> {
    if c.token_url is None {
        Err(AuthErrorView::OAuth("missing token_url"@))
    } else if c.client_id is None {
        Err(AuthErrorView::OAuth("missing client_id"@))
    } else if c.client_secret is None {
        Err(AuthErrorView::OAuth("missing client_secret"@))
    } else if c.redirect_uri is None {
        Err(AuthErrorView::OAuth("missing redirect_uri"@))
    } else {
        Ok(
            (
                c.token_url->0@,
                "grant_type=authorization_code&code="@ + code + "&redirect_uri="@
                    + c.redirect_uri->0@ + "&client_id="@ + c.client_id->0@ + "&client_secret="@
                    + c.client_secret->0@,
            ),
        )
    }
}

/// Field-by-field equality of two provider configs.
pub open spec fn same_config(a: OAuthProviderConfig, b: OAuthProviderConfig) -> bool {
    &&& a.provider_type == b.provider_type
    &&& opt_view(a.client_id) == opt_view(b.client_id)
    &&& opt_view(a.client_secret) == opt_view(b.client_secret)
    &&& opt_view(a.consumer_key) == opt_view(b.consumer_key)
    &&& opt_view(a.consumer_secret) == opt_view(b.consumer_secret)
    &&& opt_view(a.redirect_uri) == opt_view(b.redirect_uri)
    &&& a.scopes@.map_values(|s: String| s@) == b.scopes@.map_values(|s: String| s@)
    &&& opt_view(a.authorize_url) == opt_view(b.authorize_url)
    &&& opt_view(a.token_url) == opt_view(b.token_url)
}

fn copy_opt(o: &Option<String>) -> (r: Option<String>)
    ensures
        opt_view(r) == opt_view(*o),
{
    match o {
        Some(s) => Some(s.clone()),
        None => None,
    }
}

/// A copy of a provider config.
pub fn copy_config(c: &OAuthProviderConfig) -> (r: OAuthProviderConfig)
    ensures
        same_config(r, *c),
{
    let mut scopes: Vec<String> = Vec::new();
    let mut i: usize = 0;
    while i < c.scopes.len()
        invariant
            i <= c.scopes.len(),
            scopes@.len() == i,
            forall|k: int| 0 <= k < i ==> #[trigger] scopes@[k]@ == c.scopes@[k]@,
        decreases c.scopes.len() - i,
    {
        let sc = c.scopes[i].clone();
        scopes.push(sc);
        i += 1;
    }
    assert(scopes@.map_values(|s: String| s@) =~= c.scopes@.map_values(|s: String| s@));
    OAuthProviderConfig {
        provider_type: c.provider_type,
        client_id: copy_opt(&c.client_id),
        client_secret: copy_opt(&c.client_secret),
        consumer_key: copy_opt(&c.consumer_key),
        consumer_secret: copy_opt(&c.consumer_secret),
        redirect_uri: copy_opt(&c.redirect_uri),
        scopes,
        authorize_url: copy_opt(&c.authorize_url),
        token_url: copy_opt(&c.token_url),
    }
}

fn oauth_error(message: &str) -> (r: AuthError)
    ensures
        r@ == AuthErrorView::OAuth(message@),
{
    AuthError::OAuth(message.to_owned())
}

impl OAuth2Provider {
    /// The provider's registry key.
    pub closed spec fn name_view(&self) -> Seq<char> {
        self.name@
    }

    /// The provider's configuration.
    pub closed spec fn config_view(&self) -> OAuthProviderConfig {
        self.config
    }

    pub fn new(name: String, config: OAuthProviderConfig) -> (r: Self)
        ensures
            r.name_view() == name@,
            r.config_view() == config,
    {
        OAuth2Provider { name, config }
    }

    /// A provider for an `oauth2` config entry; other types are refused.
    pub fn from_config(name: String, config: OAuthProviderConfig) -> (r: Result<Self, AuthError>)
        ensures
            config.provider_type == OAuthProviderType::Oauth2 <==> r is Ok,
            r matches Ok(p) ==> p.name_view() == name@ && p.config_view() == config,
            r matches Err(e) ==> e@ == AuthErrorView::OAuth(
                "provider "@ + name@ + " is not oauth2"@,
            ),
    {
        if config.provider_type != OAuthProviderType::Oauth2 {
            let mut msg: Vec<char> = Vec::new();
            push_str(&mut msg, "provider ");
            push_str(&mut msg, name.as_str());
            push_str(&mut msg, " is not oauth2");
            return Err(AuthError::OAuth(string_of(&msg)));
        }
        Ok(Self::new(name, config))
    }

    /// Registry key (matches the `:provider` route segment and config entry name).
    pub fn name(&self) -> (r: &str)
        ensures
            r@ == self.name_view(),
    {
        self.name.as_str()
    }

    /// The authorization redirect URL for the CSRF `state`.
    pub fn authorize_url(&self, state: &str) -> (r: Result<String, AuthError>)
        ensures
            match r {
                Ok(u) => authorize_url_spec(self.config_view(), state@) == Ok::<Seq<char>, AuthErrorView>(u@),
                Err(e) => authorize_url_spec(self.config_view(), state@) == Err::<Seq<char>, AuthErrorView>(e@),
            },
    {
        let client_id = match &self.config.client_id {
            Some(v) => v,
            None => return Err(oauth_error("missing client_id")),
        };
        let authorize_url = match &self.config.authorize_url {
            Some(v) => v,
            None => return Err(oauth_error("missing authorize_url")),
        };
        let redirect_uri = match &self.config.redirect_uri {
            Some(v) => v,
            None => return Err(oauth_error("missing redirect_uri")),
        };
        let mut out: Vec<char> = Vec::new();
        push_str(&mut out, authorize_url.as_str());
        push_str(&mut out, "?client_id=");
        push_str(&mut out, url_encode(client_id.as_str()).as_str());
        push_str(&mut out, "&redirect_uri=");
        push_str(&mut out, url_encode(redirect_uri.as_str()).as_str());
        push_str(&mut out, "&response_type=code&state=");
        push_str(&mut out, url_encode(state).as_str());
        let ghost before = out@;
        if self.config.scopes.len() > 0 {
            let scopes = join_strings(&self.config.scopes, " ");
            assert(scopes@ == scope_list(self.config));
            push_str(&mut out, "&scope=");
            push_str(&mut out, url_encode(scopes.as_str()).as_str());
        }
        assert(out@ == before + scope_suffix(self.config));
        Ok(string_of(&out))
    }

    /// The token-exchange request for an authorization `code`.
    pub fn token_request(&self, code: &str) -> (r: Result<TokenRequest, AuthError>)
        ensures
            match r {
                Ok(t) => token_request_spec(self.config_view(), code@) == Ok::<(Seq<char>, Seq<char>), AuthErrorView>((t.url@, t.body@)),
                Err(e) => token_request_spec(self.config_view(), code@) == Err::<(Seq<char>, Seq<char>), AuthErrorView>(e@),
            },
    {
        let token_url = match &self.config.token_url {
            Some(v) => v,
            None => return Err(oauth_error("missing token_url")),
        };
        let client_id = match &self.config.client_id {
            Some(v) => v,
            None => return Err(oauth_error("missing client_id")),
        };
        let client_secret = match &self.config.client_secret {
            Some(v) => v,
            None => return Err(oauth_error("missing client_secret")),
        };
        let redirect_uri = match &self.config.redirect_uri {
            Some(v) => v,
            None => return Err(oauth_error("missing redirect_uri")),
        };
        let mut body: Vec<char> = Vec::new();
        push_str(&mut body, "grant_type=authorization_code&code=");
        push_str(&mut body, code);
        push_str(&mut body, "&redirect_uri=");
        push_str(&mut body, redirect_uri.as_str());
        push_str(&mut body, "&client_id=");
        push_str(&mut body, client_id.as_str());
        push_str(&mut body, "&client_secret=");
        push_str(&mut body, client_secret.as_str());
        Ok(TokenRequest { url: token_url.clone(), body: string_of(&body) })
    }
}

/// The `oauth2` entries of `entries`, in order.
pub open spec fn oauth2_entries(entries: Seq<(String, OAuthProviderConfig)>) -> Seq<
    (String, OAuthProviderConfig),
> {
    entries.filter(oauth2_entry())
}

/// Whether an entry configures an OAuth 2.0 provider.
pub open spec fn oauth2_entry() -> spec_fn((String, OAuthProviderConfig)) -> bool {
    |e: (String, OAuthProviderConfig)| e.1.provider_type == OAuthProviderType::Oauth2
}

/// Providers for the `oauth2` entries of the config, in order (OAuth 1 entries
/// are skipped).
pub fn providers_from_config(oauth: &Vec<(String, OAuthProviderConfig)>) -> (r: Vec<OAuth2Provider>)
    ensures
        r@.len() == oauth2_entries(oauth@).len(),
        forall|k: int|
            0 <= k < r@.len() ==> {
                &&& #[trigger] r@[k].name_view() == oauth2_entries(oauth@)[k].0@
                &&& same_config(r@[k].config_view(), oauth2_entries(oauth@)[k].1)
            },
{
    let ghost pred = oauth2_entry();
    let mut out: Vec<OAuth2Provider> = Vec::new();
    let mut i: usize = 0;
    while i < oauth.len()
        invariant
            i <= oauth.len(),
            pred == oauth2_entry(),
            out@.len() == oauth@.take(i as int).filter(pred).len(),
            forall|k: int|
                0 <= k < out@.len() ==> {
                    &&& #[trigger] out@[k].name_view() == oauth@.take(i as int).filter(pred)[k].0@
                    &&& same_config(out@[k].config_view(), oauth@.take(i as int).filter(pred)[k].1)
                },
        decreases oauth.len() - i,
    {
        proof {
            reveal_with_fuel(Seq::<_>::filter, 1);
            assert(oauth@.take(i + 1).drop_last() =~= oauth@.take(i as int));
        }
        let entry = &oauth[i];
        let ghost prev = oauth@.take(i as int).filter(pred);
        assert(oauth@.take(i + 1).last() == oauth@[i as int]);
        if entry.1.provider_type == OAuthProviderType::Oauth2 {
            assert(oauth@.take(i + 1).filter(pred) == prev.push(oauth@[i as int]));
            let ghost old_out = out@;
            let p = OAuth2Provider::new(entry.0.clone(), copy_config(&entry.1));
            assert(p.name_view() == oauth@[i as int].0@);
            assert(same_config(p.config_view(), oauth@[i as int].1));
            out.push(p);
            assert forall|k: int| 0 <= k < out@.len() implies {
                &&& #[trigger] out@[k].name_view() == oauth@.take(i + 1).filter(pred)[k].0@
                &&& same_config(out@[k].config_view(), oauth@.take(i + 1).filter(pred)[k].1)
            } by {
                if k < old_out.len() {
                    assert(out@[k] == old_out[k]);
                }
            }
        } else {
            assert(oauth@.take(i + 1).filter(pred) == prev);
        }
        i += 1;
    }
    assert(oauth@.take(oauth.len() as int) =~= oauth@);
    assert(oauth@.take(i as int).filter(pred) == oauth2_entries(oauth@));
    assert forall|k: int| 0 <= k < out@.len() implies #[trigger] out@[k].name_view() == oauth2_entries(oauth@)[k].0@ by {
    }
    assert forall|k: int| 0 <= k < out@.len() implies same_config(#[trigger] out@[k].config_view(), oauth2_entries(oauth@)[k].1) by {
        assert(out@[k].name_view() == oauth2_entries(oauth@)[k].0@);
    }
    out
}

/// Index of the first provider named `name`, or -1.
pub open spec fn provider_index(ps: Seq<OAuth2Provider>, name: Seq<char>) -> int
    decreases ps.len(),
{
    if ps.len() == 0 {
        -1
    } else if ps[0].name_view() == name {
        0
    } else if provider_index(ps.drop_first(), name) < 0 {
        -1
    } else {
        provider_index(ps.drop_first(), name) + 1
    }
}

proof fn lemma_provider_index(ps: Seq<OAuth2Provider>, name: Seq<char>, k: int)
    requires
        0 <= k <= ps.len(),
        forall|t: int| 0 <= t < k ==> (#[trigger] ps[t]).name_view() != name,
        k < ps.len() ==> ps[k].name_view() == name,
    ensures
        provider_index(ps, name) == if k < ps.len() { k } else { -1 },
    decreases k,
{
    if k > 0 {
        let d = ps.drop_first();
        assert forall|t: int| 0 <= t < k - 1 implies (#[trigger] d[t]).name_view() != name by {
            assert(d[t] == ps[t + 1]);
        }
        lemma_provider_index(d, name, k - 1);
    }
}

fn position_of(ps: &Vec<OAuth2Provider>, name: &str) -> (r: Option<usize>)
    ensures
        match r {
            Some(i) => i < ps@.len() && provider_index(ps@, name@) == i && ps@[i as int].name_view() == name@,
            None => provider_index(ps@, name@) == -1,
        },
{
    let mut i: usize = 0;
    while i < ps.len()
        invariant
            i <= ps@.len(),
            forall|t: int| 0 <= t < i ==> (#[trigger] ps@[t]).name_view() != name@,
        decreases ps@.len() - i,
    {
        if crate::text::str_eq(ps[i].name(), name) {
            proof {
                lemma_provider_index(ps@, name@, i as int);
            }
            return Some(i);
        }
        i += 1;
    }
    proof {
        lemma_provider_index(ps@, name@, ps@.len() as int);
    }
    None
}

/// The provider for the `{provider}` route segment: the configured one of
/// that name, else the registered one, else `unknown provider <name>`.
pub fn find_provider<'a>(
    configured: &'a Vec<OAuth2Provider>,
    registered: &'a Vec<OAuth2Provider>,
    name: &str,
) -> (r: Result<&'a OAuth2Provider, AuthError>)
    ensures
        match r {
            Ok(p) => p.name_view() == name@ && (if provider_index(configured@, name@) >= 0 {
                *p == configured@[provider_index(configured@, name@)]
            } else {
                provider_index(registered@, name@) >= 0 && *p == registered@[provider_index(
                    registered@,
                    name@,
                )]
            }),
            Err(e) => provider_index(configured@, name@) == -1 && provider_index(registered@, name@)
                == -1 && e@ == AuthErrorView::OAuth("unknown provider "@ + name@),
        },
{
    match position_of(configured, name) {
        Some(i) => {
            return Ok(&configured[i]);
        },
        None => {},
    }
    match position_of(registered, name) {
        Some(i) => Ok(&registered[i]),
        None => {
            let mut msg: Vec<char> = Vec::new();
            push_str(&mut msg, "unknown provider ");
            push_str(&mut msg, name);
            Err(AuthError::OAuth(string_of(&msg)))
        },
    }
}

} // verus!
