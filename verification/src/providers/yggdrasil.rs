use vstd::prelude::*;

use crate::foundation::text::{
    append, chars_of, opt_view, strip_trailing, strip_trailing_exec, string_of,
};

verus! {

/// The Mojang authentication server that Yggdrasil clients talk to by default.
pub const DEFAULT_API_URL: &'static str = "https://authserver.mojang.com";

/// A Yggdrasil sign-in: the tokens and the selected profile.
#[derive(Debug, Clone, PartialEq, Eq)]
pub struct Session {
    pub access_token: String,
    pub client_token: String,
    pub uuid: String,
    pub name: String,
}

/// A refusal from a Yggdrasil server.
#[derive(Debug, Clone, PartialEq, Eq)]
pub struct ApiError {
    pub error: String,
    pub message: Option<String>,
}

impl ApiError {
    /// The refusal as text: the error, then its message or `no message`.
    pub fn describe(&self) -> (r: String)
        ensures
            r@ == self.error@ + ": "@ + (match self.message {
                Some(m) => m@,
                None => "no message"@,
            }),
    {
        let mut s = chars_of(self.error.as_str());
        append(&mut s, ": ");
        match &self.message {
            Some(m) => append(&mut s, m.as_str()),
            None => append(&mut s, "no message"),
        }
        string_of(&s)
    }
}

/// What a Yggdrasil server answered to a sign-in or a refresh, field by field.
#[derive(Debug, Clone, Default)]
pub struct AuthResponse {
    pub access_token: Option<String>,
    pub client_token: Option<String>,
    pub selected_profile: Option<(String, String)>,
    pub error: Option<String>,
    pub error_message: Option<String>,
}

/// How a Yggdrasil answer went wrong.
#[derive(Debug, Clone, PartialEq, Eq)]
pub enum SessionError {
    Api(ApiError),
    Unexpected { status: u16, body: String },
}

/// The session an answer gives (`None` when its body was not the JSON of an answer): an
/// `error` is the server's refusal; otherwise the tokens and the selected profile must all be
/// there, and anything else is unexpected.
pub fn session_from(status: u16, body: &str, parsed: Option<AuthResponse>) -> (r: Result<Session, SessionError>)
    ensures
        match parsed {
            None => (r matches Err(SessionError::Unexpected { status: s, body: b }) && s == status
                && b@ == body@),
            Some(p) => match p.error {
                Some(e) => (r matches Err(SessionError::Api(a)) && a.error@ == e@ && opt_view(
                    a.message,
                ) == opt_view(p.error_message)),
                None => match (p.access_token, p.client_token, p.selected_profile) {
                    (Some(a), Some(c), Some((id, name))) => (r matches Ok(s) && s.access_token@
                        == a@ && s.client_token@ == c@ && s.uuid@ == id@ && s.name@ == name@),
                    _ => (r matches Err(SessionError::Unexpected { status: s, body: b }) && s
                        == status && b@ == body@),
                },
            },
        },
{
    let parsed = match parsed {
        Some(p) => p,
        None => {
            return Err(SessionError::Unexpected { status, body: body.to_owned() });
        },
    };
    if let Some(error) = parsed.error {
        return Err(SessionError::Api(ApiError { error, message: parsed.error_message }));
    }
    match (parsed.access_token, parsed.client_token, parsed.selected_profile) {
        (Some(access_token), Some(client_token), Some((uuid, name))) => Ok(
            Session { access_token, client_token, uuid, name },
        ),
        _ => Err(SessionError::Unexpected { status, body: body.to_owned() }),
    }
}

/// The base URL of a Yggdrasil server, without trailing slashes.
pub fn normalize_api_url(api_url: &str) -> (r: String)
    ensures
        r@ == strip_trailing(api_url@, '/'),
{
    string_of(&strip_trailing_exec(&chars_of(api_url), '/'))
}

/// The URL of an endpoint of a Yggdrasil server.
pub fn endpoint(api_url: &str, name: &str) -> (r: String)
    ensures
        r@ == api_url@ + "/"@ + name@,
{
    let mut s = chars_of(api_url);
    append(&mut s, "/");
    append(&mut s, name);
    string_of(&s)
}

/// Whether a validation answer says the token is valid: only a `204 No Content` does.
pub fn is_valid_status(status: u16) -> (r: bool)
    ensures
        r == (status == 204),
{
    status == 204
}

} // verus!
