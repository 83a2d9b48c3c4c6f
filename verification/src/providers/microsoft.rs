use vstd::prelude::*;

use crate::foundation::pkce::{PkceChallenge, CHALLENGE_METHOD};
use crate::foundation::text::str_eq;
use crate::foundation::urls::{pair_views, query_url, url_with_query};

verus! {

pub const DEFAULT_CLIENT_ID: &'static str = "00000000402b5328";
pub const DEFAULT_SCOPE: &'static str = "XboxLive.signin offline_access";
pub const LIVE_DESKTOP_REDIRECT_URI: &'static str = "https://login.live.com/oauth20_desktop.srf";
pub const NATIVE_CLIENT_REDIRECT_URI: &'static str =
    "https://login.microsoftonline.com/common/oauth2/nativeclient";
pub const LIVE_COBRAND_ID: &'static str = "8058f65d-ce06-4c30-9559-473c9275a65d";
pub const GRANT_DEVICE_CODE: &'static str = "urn:ietf:params:oauth:grant-type:device_code";

/// The Microsoft sign-in service an application uses.
#[derive(Debug, Clone, Copy, PartialEq, Eq, Structural)]
pub enum Authority {
    Live,
    Entra,
}

impl Default for Authority {
    fn default() -> (r: Self)
        ensures
            r == Authority::Live,
    {
        Authority::Live
    }
}

/// The redirect URI an authority's sign-in returns to by default.
pub open spec fn spec_default_redirect_uri(a: Authority) -> Seq<char> {
    match a {
        Authority::Live => LIVE_DESKTOP_REDIRECT_URI@,
        Authority::Entra => NATIVE_CLIENT_REDIRECT_URI@,
    }
}

pub open spec fn spec_authorize_endpoint(a: Authority) -> Seq<char> {
    match a {
        Authority::Live => "https://login.live.com/oauth20_authorize.srf"@,
        Authority::Entra => "https://login.microsoftonline.com/consumers/oauth2/v2.0/authorize"@,
    }
}

pub open spec fn spec_token_endpoint(a: Authority) -> Seq<char> {
    match a {
        Authority::Live => "https://login.live.com/oauth20_token.srf"@,
        Authority::Entra => "https://login.microsoftonline.com/consumers/oauth2/v2.0/token"@,
    }
}

pub open spec fn spec_device_code_endpoint(a: Authority) -> Seq<char> {
    match a {
        Authority::Live => "https://login.live.com/oauth20_connect.srf"@,
        Authority::Entra => "https://login.microsoftonline.com/consumers/oauth2/v2.0/devicecode"@,
    }
}

impl Authority {
    pub fn authorize_url(self) -> (r: &'static str)
        ensures
            r@ == spec_authorize_endpoint(self),
    {
        match self {
            Self::Live => "https://login.live.com/oauth20_authorize.srf",
            Self::Entra => "https://login.microsoftonline.com/consumers/oauth2/v2.0/authorize",
        }
    }

    pub fn token_url(self) -> (r: &'static str)
        ensures
            r@ == spec_token_endpoint(self),
    {
        match self {
            Self::Live => "https://login.live.com/oauth20_token.srf",
            Self::Entra => "https://login.microsoftonline.com/consumers/oauth2/v2.0/token",
        }
    }

    pub fn device_code_url(self) -> (r: &'static str)
        ensures
            r@ == spec_device_code_endpoint(self),
    {
        match self {
            Self::Live => "https://login.live.com/oauth20_connect.srf",
            Self::Entra => "https://login.microsoftonline.com/consumers/oauth2/v2.0/devicecode",
        }
    }

    pub fn default_redirect_uri(self) -> (r: &'static str)
        ensures
            r@ == spec_default_redirect_uri(self),
    {
        match self {
            Self::Live => LIVE_DESKTOP_REDIRECT_URI,
            Self::Entra => NATIVE_CLIENT_REDIRECT_URI,
        }
    }

    /// Whether the service takes PKCE challenges: only Entra does.
    pub fn supports_pkce(self) -> (r: bool)
        ensures
            r == (self == Authority::Entra),
    {
        match self {
            Self::Entra => true,
            Self::Live => false,
        }
    }
}

/// The code a user enters to sign in on another device.
#[derive(Debug, Clone)]
pub struct DeviceCode {
    pub device_code: String,
    pub user_code: String,
    pub verification_uri: String,
    pub expires_in: u64,
    pub interval: u64,
    pub message: String,
    pub verification_uri_complete: Option<String>,
}

impl DeviceCode {
    /// The page that signs the user in with the code already filled in: the one the server
    /// gave, else the verification page with `otc=<user code>`; `None` when the verification
    /// page does not parse as a URL.
    pub fn verification_uri_complete(&self) -> (r: Option<String>)
        ensures
            match self.verification_uri_complete {
                Some(uri) => r == Some(uri),
                None => match r {
                    Some(s) => url_with_query(
                        self.verification_uri@,
                        seq![("otc"@, self.user_code@)],
                    ) == Some(s@),
                    None => url_with_query(
                        self.verification_uri@,
                        seq![("otc"@, self.user_code@)],
                    ) is None,
                },
            },
    {
        match &self.verification_uri_complete {
            Some(uri) => Some(uri.clone()),
            None => {
                let mut pairs: Vec<(String, String)> = Vec::new();
                pairs.push(("otc".to_owned(), self.user_code.clone()));
                assert(pair_views(pairs@) =~= seq![("otc"@, self.user_code@)]);
                query_url(self.verification_uri.as_str(), &pairs)
            },
        }
    }
}

#[derive(Debug, Clone)]
pub struct TokenResponse {
    pub access_token: String,
    pub token_type: String,
    pub expires_in: u64,
    pub scope: Option<String>,
    pub refresh_token: Option<String>,
}

/// Where a device-code sign-in stands.
#[derive(Debug, Clone)]
pub enum DeviceCodePoll {
    Pending,
    SlowDown,
    Declined,
    Expired,
    Authorized(TokenResponse),
}

/// An OAuth error body.
#[derive(Debug, Clone)]
pub struct OAuthError {
    pub error: String,
    pub error_description: Option<String>,
    pub error_codes: Vec<i64>,
}

/// What an OAuth error code means while polling a device code, when it is one of those that
/// polling expects.
pub open spec fn spec_poll_state(error: Seq<char>) -> Option<DeviceCodePoll> {
    if error == "authorization_pending"@ {
        Some(DeviceCodePoll::Pending)
    } else if error == "slow_down"@ {
        Some(DeviceCodePoll::SlowDown)
    } else if error == "authorization_declined"@ || error == "access_denied"@ {
        Some(DeviceCodePoll::Declined)
    } else if error == "expired_token"@ {
        Some(DeviceCodePoll::Expired)
    } else {
        None
    }
}

/// The polling state an OAuth error stands for, or `None` for a real error.
pub fn poll_state(error: &str) -> (r: Option<DeviceCodePoll>)
    ensures
        r == spec_poll_state(error@),
{
    if str_eq(error, "authorization_pending") {
        Some(DeviceCodePoll::Pending)
    } else if str_eq(error, "slow_down") {
        Some(DeviceCodePoll::SlowDown)
    } else if str_eq(error, "authorization_declined") || str_eq(error, "access_denied") {
        Some(DeviceCodePoll::Declined)
    } else if str_eq(error, "expired_token") {
        Some(DeviceCodePoll::Expired)
    } else {
        None
    }
}

/// An OAuth client of Microsoft: its id, the scope it asks for and the service it uses.
#[derive(Debug, Clone)]
pub struct MicrosoftOAuth {
    client_id: String,
    scope: String,
    authority: Authority,
}

/// The query of an authorization request, in order.
pub open spec fn spec_authorize_pairs(
    client_id: Seq<char>,
    scope: Seq<char>,
    authority: Authority,
    redirect_uri: Seq<char>,
    challenge: Option<Seq<char>>,
    state: Seq<char>,
) -> Seq<(Seq<char>, Seq<char>)> {
    let common = seq![
        ("client_id"@, client_id),
        ("response_type"@, "code"@),
        ("redirect_uri"@, redirect_uri),
        ("scope"@, scope),
        ("state"@, state),
        ("prompt"@, "select_account"@),
    ];
    match authority {
        Authority::Live => common.push(("cobrandid"@, LIVE_COBRAND_ID@)),
        Authority::Entra => {
            let with_mode = common.push(("response_mode"@, "query"@));
            match challenge {
                Some(c) => with_mode.push(("code_challenge"@, c)).push(
                    ("code_challenge_method"@, CHALLENGE_METHOD@),
                ),
                None => with_mode,
            }
        },
    }
}

fn pair(a: &str, b: &str) -> (r: (String, String))
    ensures
        r.0@ == a@,
        r.1@ == b@,
{
    (a.to_owned(), b.to_owned())
}

impl MicrosoftOAuth {
    pub closed spec fn client_id_text(&self) -> Seq<char> {
        self.client_id@
    }

    pub closed spec fn scope_text(&self) -> Seq<char> {
        self.scope@
    }

    pub closed spec fn authority_value(&self) -> Authority {
        self.authority
    }

    /// A client with the default scope.
    pub fn new(client_id: &str, authority: Authority) -> (r: Self)
        ensures
            r.client_id_text() == client_id@,
            r.scope_text() == DEFAULT_SCOPE@,
            r.authority_value() == authority,
    {
        Self { client_id: client_id.to_owned(), scope: DEFAULT_SCOPE.to_owned(), authority }
    }

    /// The client the official launcher uses, on Microsoft Live.
    pub fn official() -> (r: Self)
        ensures
            r.client_id_text() == DEFAULT_CLIENT_ID@,
            r.scope_text() == DEFAULT_SCOPE@,
            r.authority_value() == Authority::Live,
    {
        Self::new(DEFAULT_CLIENT_ID, Authority::Live)
    }

    /// An Azure application's client, on Entra.
    pub fn azure(client_id: &str) -> (r: Self)
        ensures
            r.client_id_text() == client_id@,
            r.scope_text() == DEFAULT_SCOPE@,
            r.authority_value() == Authority::Entra,
    {
        Self::new(client_id, Authority::Entra)
    }

    /// The same client asking for another scope.
    pub fn with_scope(self, scope: &str) -> (r: Self)
        ensures
            r.client_id_text() == self.client_id_text(),
            r.scope_text() == scope@,
            r.authority_value() == self.authority_value(),
    {
        Self { scope: scope.to_owned(), ..self }
    }

    pub fn client_id(&self) -> (r: &str)
        ensures
            r@ == self.client_id_text(),
    {
        self.client_id.as_str()
    }

    pub fn scope(&self) -> (r: &str)
        ensures
            r@ == self.scope_text(),
    {
        self.scope.as_str()
    }

    pub fn authority(&self) -> (r: Authority)
        ensures
            r == self.authority_value(),
    {
        self.authority
    }

    /// The query of an authorization request.
    pub fn authorize_pairs(&self, redirect_uri: &str, pkce: Option<&PkceChallenge>, state: &str) -> (r: Vec<(String, String)>)
        ensures
            pair_views(r@) == spec_authorize_pairs(
                self.client_id_text(),
                self.scope_text(),
                self.authority_value(),
                redirect_uri@,
                match pkce {
                    Some(p) => Some(p.challenge_text()),
                    None => None,
                },
                state@,
            ),
    {
        let mut r: Vec<(String, String)> = Vec::new();
        r.push(pair("client_id", self.client_id.as_str()));
        r.push(pair("response_type", "code"));
        r.push(pair("redirect_uri", redirect_uri));
        r.push(pair("scope", self.scope.as_str()));
        r.push(pair("state", state));
        r.push(pair("prompt", "select_account"));
        match self.authority {
            Authority::Live => {
                r.push(pair("cobrandid", LIVE_COBRAND_ID));
            },
            Authority::Entra => {
                r.push(pair("response_mode", "query"));
                if let Some(p) = pkce {
                    r.push(pair("code_challenge", p.challenge()));
                    r.push(pair("code_challenge_method", CHALLENGE_METHOD));
                }
            },
        }
        assert(pair_views(r@) =~= spec_authorize_pairs(
            self.client_id_text(),
            self.scope_text(),
            self.authority_value(),
            redirect_uri@,
            match pkce {
                Some(p) => Some(p.challenge_text()),
                None => None,
            },
            state@,
        ));
        r
    }

    /// The page that asks the user to sign in; `None` if the endpoint did not parse.
    pub fn authorize_url(&self, redirect_uri: &str, pkce: Option<&PkceChallenge>, state: &str) -> (r: Option<String>)
        ensures
            ({
                let expected = url_with_query(
                    spec_authorize_endpoint(self.authority_value()),
                    spec_authorize_pairs(
                        self.client_id_text(),
                        self.scope_text(),
                        self.authority_value(),
                        redirect_uri@,
                        match pkce {
                            Some(p) => Some(p.challenge_text()),
                            None => None,
                        },
                        state@,
                    ),
                );
                match r {
                    Some(s) => expected == Some(s@),
                    None => expected is None,
                }
            }),
    {
        let pairs = self.authorize_pairs(redirect_uri, pkce, state);
        query_url(self.authority.authorize_url(), &pairs)
    }

    /// The form that asks for a device code.
    pub fn device_code_form(&self) -> (r: Vec<(String, String)>)
        ensures
            pair_views(r@) == (if self.authority_value() == Authority::Live {
                seq![
                    ("client_id"@, self.client_id_text()),
                    ("scope"@, self.scope_text()),
                    ("response_type"@, "device_code"@),
                ]
            } else {
                seq![("client_id"@, self.client_id_text()), ("scope"@, self.scope_text())]
            }),
    {
        let mut r: Vec<(String, String)> = Vec::new();
        r.push(pair("client_id", self.client_id.as_str()));
        r.push(pair("scope", self.scope.as_str()));
        if self.authority == Authority::Live {
            r.push(pair("response_type", "device_code"));
        }
        proof {
            if self.authority == Authority::Live {
                assert(pair_views(r@) =~= seq![
                    ("client_id"@, self.client_id_text()),
                    ("scope"@, self.scope_text()),
                    ("response_type"@, "device_code"@),
                ]);
            } else {
                assert(pair_views(r@) =~= seq![("client_id"@, self.client_id_text()), ("scope"@, self.scope_text())]);
            }
        }
        r
    }

    /// The form that polls a device code.
    pub fn poll_form(&self, device_code: &str) -> (r: Vec<(String, String)>)
        ensures
            pair_views(r@) == seq![
                ("grant_type"@, GRANT_DEVICE_CODE@),
                ("client_id"@, self.client_id_text()),
                ("device_code"@, device_code@),
            ],
    {
        let mut r: Vec<(String, String)> = Vec::new();
        r.push(pair("grant_type", GRANT_DEVICE_CODE));
        r.push(pair("client_id", self.client_id.as_str()));
        r.push(pair("device_code", device_code));
        assert(pair_views(r@) =~= seq![
            ("grant_type"@, GRANT_DEVICE_CODE@),
            ("client_id"@, self.client_id_text()),
            ("device_code"@, device_code@),
        ]);
        r
    }

    /// The form that exchanges an authorization code: the scope on Entra, and the PKCE
    /// verifier where the service takes one.
    pub fn exchange_form(&self, code: &str, redirect_uri: &str, code_verifier: Option<&str>) -> (r: Vec<(String, String)>)
        ensures
            ({
                let base = seq![
                    ("grant_type"@, "authorization_code"@),
                    ("client_id"@, self.client_id_text()),
                    ("code"@, code@),
                    ("redirect_uri"@, redirect_uri@),
                ];
                let scoped = if self.authority_value() == Authority::Entra {
                    base.push(("scope"@, self.scope_text()))
                } else {
                    base
                };
                pair_views(r@) == match code_verifier {
                    Some(v) if self.authority_value() == Authority::Entra => scoped.push(
                        ("code_verifier"@, v@),
                    ),
                    _ => scoped,
                }
            }),
    {
        let mut r: Vec<(String, String)> = Vec::new();
        r.push(pair("grant_type", "authorization_code"));
        r.push(pair("client_id", self.client_id.as_str()));
        r.push(pair("code", code));
        r.push(pair("redirect_uri", redirect_uri));
        let ghost base = pair_views(r@);
        if self.authority == Authority::Entra {
            r.push(pair("scope", self.scope.as_str()));
        }
        let ghost scoped = pair_views(r@);
        if let Some(v) = code_verifier {
            if self.authority.supports_pkce() {
                r.push(pair("code_verifier", v));
                assert(pair_views(r@) =~= scoped.push(("code_verifier"@, v@)));
            }
        }
        proof {
            assert(base =~= seq![
                ("grant_type"@, "authorization_code"@),
                ("client_id"@, self.client_id_text()),
                ("code"@, code@),
                ("redirect_uri"@, redirect_uri@),
            ]);
            if self.authority == Authority::Entra {
                assert(scoped =~= base.push(("scope"@, self.scope_text())));
            } else {
                assert(scoped =~= base);
            }
        }
        r
    }

    /// The form that refreshes a token: the scope on Entra.
    pub fn refresh_form(&self, refresh_token: &str) -> (r: Vec<(String, String)>)
        ensures
            ({
                let base = seq![
                    ("grant_type"@, "refresh_token"@),
                    ("client_id"@, self.client_id_text()),
                    ("refresh_token"@, refresh_token@),
                ];
                pair_views(r@) == if self.authority_value() == Authority::Entra {
                    base.push(("scope"@, self.scope_text()))
                } else {
                    base
                }
            }),
    {
        let mut r: Vec<(String, String)> = Vec::new();
        r.push(pair("grant_type", "refresh_token"));
        r.push(pair("client_id", self.client_id.as_str()));
        r.push(pair("refresh_token", refresh_token));
        let ghost base = pair_views(r@);
        if self.authority == Authority::Entra {
            r.push(pair("scope", self.scope.as_str()));
        }
        proof {
            assert(base =~= seq![
                ("grant_type"@, "refresh_token"@),
                ("client_id"@, self.client_id_text()),
                ("refresh_token"@, refresh_token@),
            ]);
            if self.authority == Authority::Entra {
                assert(pair_views(r@) =~= base.push(("scope"@, self.scope_text())));
            } else {
                assert(pair_views(r@) =~= base);
            }
        }
        r
    }
}

} // verus!
