pub mod account;
pub mod azauth;
pub mod microsoft;
pub mod yggdrasil;

use vstd::prelude::*;

use crate::foundation::pkce::{base64url, random_state, sha256, PkceChallenge};
use crate::foundation::time::sat_sub;
use crate::foundation::text::{append, chars_of, opt_view, str_eq, string_of, trim, trim_exec};
use crate::foundation::urls::{pair_views, query_pairs, url_query_pairs, url_with_query};
use crate::providers::microsoft::{
    spec_authorize_endpoint, spec_authorize_pairs, spec_default_redirect_uri, Authority,
    MicrosoftOAuth,
};
use account::{no_profile_message, Account, Ownership};

verus! {

/// How long before its deadline an access token is renewed rather than only the profile
/// reloaded, in milliseconds (two hours).
pub const REFRESH_MARGIN_MILLIS: u64 = 7_200_000;

/// Why signing in failed, for the failures the sign-in flows decide themselves.
#[derive(Debug, Clone, PartialEq, Eq)]
pub enum Error {
    DeviceCodeDeclined,
    DeviceCodeExpired,
    InvalidRedirectUrl,
    StateMismatch,
    AuthorizationDenied { error: String, description: Option<String> },
    MissingRefreshToken,
    MissingUserHash,
    NoProfile { ownership: Ownership },
}

/// The message of an error, as it is shown to users.
pub open spec fn spec_error_message(e: Error) -> Seq<char> {
    match e {
        Error::DeviceCodeDeclined => "the user declined the sign-in request"@,
        Error::DeviceCodeExpired => "the device code expired before the user signed in"@,
        Error::InvalidRedirectUrl => "the redirect url is not a valid url or has no `code` parameter"@,
        Error::StateMismatch => "the `state` of the redirect does not match the authorization request"@,
        Error::AuthorizationDenied { error, description } => "authorization denied: "@ + error@
            + " ("@ + (match description {
            Some(d) => d@,
            None => "no description"@,
        }) + ")"@,
        Error::MissingRefreshToken => "microsoft did not return a refresh token; make sure the `offline_access` scope is requested"@,
        Error::MissingUserHash => "xbox live response did not contain a user hash"@,
        Error::NoProfile { ownership } => account::spec_no_profile_message(ownership),
    }
}

impl Error {
    /// The message of the error.
    pub fn message(&self) -> (r: String)
        ensures
            r@ == spec_error_message(*self),
    {
        match self {
            Error::DeviceCodeDeclined => "the user declined the sign-in request".to_owned(),
            Error::DeviceCodeExpired => "the device code expired before the user signed in".to_owned(),
            Error::InvalidRedirectUrl => "the redirect url is not a valid url or has no `code` parameter".to_owned(),
            Error::StateMismatch => "the `state` of the redirect does not match the authorization request".to_owned(),
            Error::AuthorizationDenied { error, description } => {
                let mut m = chars_of("authorization denied: ");
                append(&mut m, error.as_str());
                append(&mut m, " (");
                match description {
                    Some(d) => append(&mut m, d.as_str()),
                    None => append(&mut m, "no description"),
                }
                append(&mut m, ")");
                string_of(&m)
            },
            Error::MissingRefreshToken => "microsoft did not return a refresh token; make sure the `offline_access` scope is requested".to_owned(),
            Error::MissingUserHash => "xbox live response did not contain a user hash".to_owned(),
            Error::NoProfile { ownership } => no_profile_message(*ownership).to_owned(),
        }
    }
}

/// A browser sign-in in progress: the URL to open, the state it carries, where it redirects,
/// and the PKCE verifier when the authority uses one.
#[derive(Debug, Clone)]
pub struct AuthorizeRequest {
    pub url: String,
    pub state: String,
    pub redirect_uri: String,
    pub code_verifier: Option<String>,
}

/// The value last given to `key` among query pairs.
pub open spec fn spec_last_value(pairs: Seq<(Seq<char>, Seq<char>)>, key: Seq<char>) -> Option<Seq<char>>
    decreases pairs.len(),
{
    if pairs.len() == 0 {
        None
    } else if pairs.last().0 == key {
        Some(pairs.last().1)
    } else {
        spec_last_value(pairs.drop_last(), key)
    }
}

fn last_value(pairs: &Vec<(String, String)>, key: &str) -> (r: Option<String>)
    ensures
        opt_view(r) == spec_last_value(pair_views(pairs@), key@),
{
    let ghost pv = pair_views(pairs@);
    let mut found: Option<String> = None;
    let mut i: usize = 0;
    while i < pairs.len()
        invariant
            i <= pairs.len(),
            pv == pair_views(pairs@),
            opt_view(found) == spec_last_value(pv.subrange(0, i as int), key@),
        decreases pairs.len() - i,
    {
        let ghost pre = pv.subrange(0, i + 1);
        assert(pre.drop_last() =~= pv.subrange(0, i as int));
        if str_eq(pairs[i].0.as_str(), key) {
            found = Some(pairs[i].1.clone());
        }
        i = i + 1;
    }
    assert(pv.subrange(0, pairs.len() as int) =~= pv);
    found
}

impl AuthorizeRequest {
    /// The authorization code of a redirect URL (trimmed), or why there is none: a URL that
    /// does not parse or has no code, an `error` the server sent (with its description), or a
    /// `state` other than this request's.
    pub fn extract_code(&self, redirect_url: &str) -> (r: Result<String, Error>)
        ensures
            match url_query_pairs(trim(redirect_url@)) {
                None => r == Err::<String, Error>(Error::InvalidRedirectUrl),
                Some(p) => match spec_last_value(p, "error"@) {
                    Some(e) => (r matches Err(Error::AuthorizationDenied { error, description })
                        && error@ == e && opt_view(description) == spec_last_value(p, "error_description"@)),
                    None => if spec_last_value(p, "state"@) != Some(self.state@) {
                        r == Err::<String, Error>(Error::StateMismatch)
                    } else {
                        match spec_last_value(p, "code"@) {
                            Some(c) => (r matches Ok(s) && s@ == c),
                            None => r == Err::<String, Error>(Error::InvalidRedirectUrl),
                        }
                    },
                },
            },
    {
        let trimmed = string_of(&trim_exec(&chars_of(redirect_url)));
        let pairs = match query_pairs(trimmed.as_str()) {
            Some(p) => p,
            None => {
                return Err(Error::InvalidRedirectUrl);
            },
        };
        let code = last_value(&pairs, "code");
        let state = last_value(&pairs, "state");
        let error = last_value(&pairs, "error");
        let description = last_value(&pairs, "error_description");
        if let Some(error) = error {
            return Err(Error::AuthorizationDenied { error, description });
        }
        let matches = match &state {
            Some(s) => str_eq(s.as_str(), self.state.as_str()),
            None => false,
        };
        if !matches {
            return Err(Error::StateMismatch);
        }
        match code {
            Some(c) => Ok(c),
            None => Err(Error::InvalidRedirectUrl),
        }
    }
}

/// The sign-in URL of an authorization request: the authority's authorize endpoint with the
/// OAuth query for a redirect URI, the challenge of a PKCE verifier, and a state.
pub open spec fn spec_request_url(oauth: MicrosoftOAuth, redirect_uri: Seq<char>, verifier: Option<Seq<char>>, state: Seq<char>) -> Option<Seq<char>> {
    url_with_query(
        spec_authorize_endpoint(oauth.authority_value()),
        spec_authorize_pairs(
            oauth.client_id_text(),
            oauth.scope_text(),
            oauth.authority_value(),
            redirect_uri,
            match verifier {
                Some(v) => Some(base64url(sha256(vstd::utf8::encode_utf8(v)))),
                None => None,
            },
            state,
        ),
    )
}

/// A browser sign-in for a redirect URI: a fresh random state, a fresh PKCE verifier when the
/// authority uses PKCE, and the URL that carries them; `None` when the authority's endpoint
/// does not parse as a URL.
pub fn authorize_request_with_redirect(oauth: &MicrosoftOAuth, redirect_uri: &str) -> (r: Option<AuthorizeRequest>)
    ensures
        r matches Some(q) ==> {
            &&& q.redirect_uri@ == redirect_uri@
            &&& (q.code_verifier is Some <==> oauth.authority_value() == Authority::Entra)
            &&& (q.code_verifier matches Some(v) ==> exists|bytes: Seq<u8>| bytes.len() == 32 && v@ == base64url(bytes))
            &&& exists|bytes: Seq<u8>| bytes.len() == 16 && q.state@ == base64url(bytes)
            &&& spec_request_url(*oauth, redirect_uri@, opt_view(q.code_verifier), q.state@)
                == Some(q.url@)
        },
        r is None ==> exists|v: Option<Seq<char>>, st: Seq<char>| spec_request_url(*oauth, redirect_uri@, v, st) is None,
{
    let pkce = if oauth.authority().supports_pkce() {
        Some(PkceChallenge::generate())
    } else {
        None
    };
    let state = random_state();
    let url = match &pkce {
        Some(p) => oauth.authorize_url(redirect_uri, Some(p), state.as_str()),
        None => oauth.authorize_url(redirect_uri, None, state.as_str()),
    };
    let code_verifier = match &pkce {
        Some(p) => Some(p.code_verifier().to_owned()),
        None => None,
    };
    match url {
        Some(url) => Some(AuthorizeRequest {
            url,
            state,
            redirect_uri: redirect_uri.to_owned(),
            code_verifier,
        }),
        None => {
            assert(spec_request_url(*oauth, redirect_uri@, opt_view(code_verifier), state@) is None);
            None
        },
    }
}

/// A browser sign-in that redirects to the authority's default redirect URI.
pub fn authorize_request(oauth: &MicrosoftOAuth) -> (r: Option<AuthorizeRequest>)
    ensures
        r matches Some(q) ==> {
            &&& q.redirect_uri@ == spec_default_redirect_uri(oauth.authority_value())
            &&& (q.code_verifier is Some <==> oauth.authority_value() == Authority::Entra)
            &&& (q.code_verifier matches Some(v) ==> exists|bytes: Seq<u8>| bytes.len() == 32 && v@ == base64url(bytes))
            &&& exists|bytes: Seq<u8>| bytes.len() == 16 && q.state@ == base64url(bytes)
            &&& spec_request_url(*oauth, q.redirect_uri@, opt_view(q.code_verifier), q.state@)
                == Some(q.url@)
        },
        r is None ==> exists|v: Option<Seq<char>>, st: Seq<char>| spec_request_url(
            *oauth,
            spec_default_redirect_uri(oauth.authority_value()),
            v,
            st,
        ) is None,
{
    let redirect_uri = oauth.authority().default_redirect_uri();
    authorize_request_with_redirect(oauth, redirect_uri)
}

/// What renewing an account takes: reloading the profile while the token has more than two
/// hours left, or else a new token from the refresh token.
#[derive(Debug, Clone, PartialEq, Eq)]
pub enum RefreshPlan {
    Profile,
    Token(String),
}

/// What renewing an account takes at `now_millis`; an account whose token must be renewed
/// without a (non-empty) refresh token cannot be.
pub fn refresh_plan(account: &Account, now_millis: u64) -> (r: Result<RefreshPlan, Error>)
    ensures
        (account.meta.access_token_expires_in matches Some(at) && now_millis < sat_sub(at, REFRESH_MARGIN_MILLIS))
            ==> r == Ok::<RefreshPlan, Error>(RefreshPlan::Profile),
        !(account.meta.access_token_expires_in matches Some(at) && now_millis < sat_sub(at, REFRESH_MARGIN_MILLIS))
            ==> match account.refresh_token {
            Some(t) if t@.len() > 0 => (r matches Ok(RefreshPlan::Token(u)) && u@ == t@),
            _ => r == Err::<RefreshPlan, Error>(Error::MissingRefreshToken),
        },
{
    if let Some(expires_at) = account.meta.access_token_expires_in {
        if now_millis < expires_at.saturating_sub(REFRESH_MARGIN_MILLIS) {
            return Ok(RefreshPlan::Profile);
        }
    }
    match &account.refresh_token {
        Some(t) => {
            if t.as_str().unicode_len() > 0 {
                Ok(RefreshPlan::Token(t.clone()))
            } else {
                Err(Error::MissingRefreshToken)
            }
        },
        None => Err(Error::MissingRefreshToken),
    }
}

/// The refresh token a completed Microsoft sign-in must have.
pub fn required_refresh_token(refresh_token: &Option<String>) -> (r: Result<String, Error>)
    ensures
        match refresh_token {
            Some(t) => (r matches Ok(u) && u@ == t@),
            None => r == Err::<String, Error>(Error::MissingRefreshToken),
        },
{
    match refresh_token {
        Some(t) => Ok(t.clone()),
        None => Err(Error::MissingRefreshToken),
    }
}

} // verus!
