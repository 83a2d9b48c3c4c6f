use vstd::prelude::*;

use base64::Engine;

use crate::foundation::text::{append, chars_of, opt_view, string_of};
use crate::network::json::{as_str, member, spec_as_str, spec_member, JsonValue};

verus! {

/// The standard base64 text, with padding, that the `base64` crate's `STANDARD` engine makes
/// of bytes.
pub uninterp spec fn base64_standard(bytes: Seq<u8>) -> Seq<char>;

/// Bytes as standard base64 with padding, through `STANDARD.encode`, which panics only when
/// the encoded length does not fit in a `usize`.
#[verifier::external_body]
fn encode_base64(bytes: &[u8]) -> (r: String)
    requires
        bytes@.len() <= usize::MAX / 2,
    ensures
        r@ == base64_standard(bytes@),
{
    base64::engine::general_purpose::STANDARD.encode(bytes)
}

/// The text `url::Url` gives after parsing `base` and resolving `path` against it with
/// `Url::join`; `None` when either step fails.
pub uninterp spec fn url_joined(base: Seq<char>, path: Seq<char>) -> Option<Seq<char>>;

/// `path` resolved against `base`, through `url::Url::parse`, `Url::join` and `to_string`;
/// `None` when either fails. The resolution is the `url` crate's and is only named here.
#[verifier::external_body]
fn join_url(base: &str, path: &str) -> (r: Option<String>)
    ensures
        match r {
            Some(s) => url_joined(base@, path@) == Some(s@),
            None => url_joined(base@, path@) is None,
        },
{
    let base = url::Url::parse(base).ok()?;
    Some(base.join(path).ok()?.to_string())
}

/// The endpoints of an AZauth site: authentication and skins.
#[derive(Debug, Clone, PartialEq, Eq)]
pub struct AzAuthUrls {
    pub auth_url: String,
    pub skin_url: String,
}

/// The endpoints of the AZauth site at `base_url`: `/api/auth` and `/api/skin-api/skins`
/// resolved against it; `None` when the URL does not parse.
pub fn azauth_urls(base_url: &str) -> (r: Option<AzAuthUrls>)
    ensures
        match r {
            Some(u) => url_joined(base_url@, "/api/auth"@) == Some(u.auth_url@) && url_joined(
                base_url@,
                "/api/skin-api/skins"@,
            ) == Some(u.skin_url@),
            None => url_joined(base_url@, "/api/auth"@) is None || url_joined(
                base_url@,
                "/api/skin-api/skins"@,
            ) is None,
        },
{
    let auth_url = match join_url(base_url, "/api/auth") {
        Some(u) => u,
        None => {
            return None;
        },
    };
    let skin_url = match join_url(base_url, "/api/skin-api/skins") {
        Some(u) => u,
        None => {
            return None;
        },
    };
    Some(AzAuthUrls { auth_url, skin_url })
}

/// What an AZauth server says of a user. `id` and `role` hold JSON text and `money` the
/// decimal text of the amount, as the server sent them.
#[derive(Debug, Clone, PartialEq, Eq)]
pub struct UserData {
    pub id: Option<String>,
    pub username: String,
    pub uuid: String,
    pub access_token: String,
    pub email_verified: Option<bool>,
    pub money: Option<String>,
    pub role: Option<String>,
    pub banned: Option<bool>,
}

/// The skin of an AZauth user: where it is, and its PNG as a `data:` URI when there is one.
#[derive(Debug, Clone, PartialEq, Eq)]
pub struct SkinData {
    pub url: String,
    pub base64: Option<String>,
}

/// What an AZauth sign-in came to.
#[derive(Debug, Clone, PartialEq, Eq)]
pub enum AuthOutcome {
    TwoFactorRequired,
    User(UserData),
}

/// How an AZauth answer went wrong.
#[derive(Debug, Clone, PartialEq, Eq)]
pub enum Error {
    Rejected { reason: String, message: Option<String> },
    Unexpected { status: u16, body: String },
}

/// The `status`, `reason` and `message` texts of an AZauth answer.
#[derive(Debug, Clone, Default)]
pub struct OutcomeFields {
    pub status: Option<String>,
    pub reason: Option<String>,
    pub message: Option<String>,
}

/// The text of member `key` of an answer, when it is a string.
pub open spec fn spec_text_member(value: JsonValue, key: Seq<char>) -> Option<Seq<char>> {
    match spec_member(value, key) {
        Some(m) => spec_as_str(m),
        None => None,
    }
}

fn text_member(value: &JsonValue, key: &str) -> (r: Option<String>)
    ensures
        opt_view(r) == spec_text_member(*value, key@),
{
    match member(value, key) {
        Some(m) => match as_str(m) {
            Some(s) => Some(s.to_owned()),
            None => None,
        },
        None => None,
    }
}

/// The `status`, `reason` and `message` texts of an answer, each when it is a string.
pub fn outcome_fields(value: &JsonValue) -> (r: OutcomeFields)
    ensures
        opt_view(r.status) == spec_text_member(*value, "status"@),
        opt_view(r.reason) == spec_text_member(*value, "reason"@),
        opt_view(r.message) == spec_text_member(*value, "message"@),
{
    OutcomeFields {
        status: text_member(value, "status"),
        reason: text_member(value, "reason"),
        message: text_member(value, "message"),
    }
}

/// Whether a sign-out answer says it went through: unless it has an `error` that is neither
/// `null` nor `false`.
pub fn logout_succeeded(value: &JsonValue) -> (r: bool)
    ensures
        r == match spec_member(*value, "error"@) {
            None => true,
            Some(JsonValue::Null) => true,
            Some(JsonValue::Bool(b)) => !b,
            Some(_) => false,
        },
{
    match member(value, "error") {
        None => true,
        Some(JsonValue::Null) => true,
        Some(JsonValue::Bool(b)) => !*b,
        Some(_) => false,
    }
}

/// What an answer comes to, from its text fields (`None` when the body is not JSON) and the
/// user it describes (`None` when it describes none): `pending` for `2fa` asks for the second
/// factor; `error` is a refusal for its reason (`unknown` by default); otherwise the user, or
/// an unexpected answer.
pub fn outcome_of(status: u16, body: &str, fields: Option<OutcomeFields>, user: Option<UserData>) -> (r: Result<AuthOutcome, Error>)
    ensures
        match fields {
            None => (r matches Err(Error::Unexpected { status: s, body: b }) && s == status && b@
                == body@),
            Some(f) => if opt_view(f.status) == Some("pending"@) && opt_view(f.reason) == Some("2fa"@) {
                r == Ok::<AuthOutcome, Error>(AuthOutcome::TwoFactorRequired)
            } else if opt_view(f.status) == Some("error"@) {
                (r matches Err(Error::Rejected { reason, message }) && reason@ == (match f.reason {
                    Some(x) => x@,
                    None => "unknown"@,
                }) && opt_view(message) == opt_view(f.message))
            } else {
                match user {
                    Some(u) => r == Ok::<AuthOutcome, Error>(AuthOutcome::User(u)),
                    None => (r matches Err(Error::Unexpected { status: s, body: b }) && s == status
                        && b@ == body@),
                }
            },
        },
{
    let fields = match fields {
        Some(f) => f,
        None => {
            return Err(Error::Unexpected { status, body: body.to_owned() });
        },
    };
    let pending = match &fields.status {
        Some(s) => crate::foundation::text::str_eq(s.as_str(), "pending"),
        None => false,
    };
    let two_factor = match &fields.reason {
        Some(s) => crate::foundation::text::str_eq(s.as_str(), "2fa"),
        None => false,
    };
    if pending && two_factor {
        return Ok(AuthOutcome::TwoFactorRequired);
    }
    let error = match &fields.status {
        Some(s) => crate::foundation::text::str_eq(s.as_str(), "error"),
        None => false,
    };
    if error {
        let reason = match fields.reason {
            Some(x) => x,
            None => "unknown".to_owned(),
        };
        return Err(Error::Rejected { reason, message: fields.message });
    }
    match user {
        Some(u) => Ok(AuthOutcome::User(u)),
        None => Err(Error::Unexpected { status, body: body.to_owned() }),
    }
}

/// The skin URL of a user id.
pub fn skin_url_for(skin_url: &str, id: &str) -> (r: String)
    ensures
        r@ == skin_url@ + "/"@ + id@,
{
    let mut s = chars_of(skin_url);
    append(&mut s, "/");
    append(&mut s, id);
    string_of(&s)
}

/// The skin an answer gives: none for a `404`, else the PNG bytes as a base64 `data:` URI.
pub fn skin_data(url: String, status: u16, bytes: &[u8]) -> (r: SkinData)
    requires
        bytes@.len() <= usize::MAX / 2,
    ensures
        r.url@ == url@,
        status == 404 ==> r.base64 is None,
        status != 404 ==> (r.base64 matches Some(b) && b@ == "data:image/png;base64,"@
            + base64_standard(bytes@)),
{
    if status == 404 {
        return SkinData { url, base64: None };
    }
    let mut s = chars_of("data:image/png;base64,");
    append(&mut s, encode_base64(bytes).as_str());
    SkinData { url, base64: Some(string_of(&s)) }
}

} // verus!
