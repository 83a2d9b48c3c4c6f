use vstd::prelude::*;

use super::account::{
    spec_ownership, Account, AccountMeta, AccountProfile, AccountType, MinecraftSession, XboxAccount, ownership_from_names,
};
use super::Error;
use crate::foundation::text::{
    opt_view, string_views,
};
use crate::foundation::time::{
    expires_at_from, expires_at_millis_from, sat_add, sat_mul,
};
use crate::providers::microsoft::{DeviceCodePoll, TokenResponse};
use crate::providers::mojang::Profile;
use crate::providers::xbox::XboxToken;

verus! {

/// A Microsoft sign-in: its access token, refresh token, and when the access token expires
/// (seconds since the epoch).
#[derive(Debug, Clone, PartialEq, Eq)]
pub struct MicrosoftSession {
    pub access_token: String,
    pub refresh_token: Option<String>,
    pub expires_at: u64,
}

/// An Xbox Live sign-in: the user hash, the Xbox Live and XSTS tokens, when the XSTS token
/// expires, and who the user is.
#[derive(Debug, Clone, PartialEq, Eq)]
pub struct XboxSession {
    pub user_hash: String,
    pub xbl_token: String,
    pub xsts_token: String,
    pub not_after: String,
    pub xuid: Option<String>,
    pub gamertag: Option<String>,
    pub age_group: Option<String>,
}

/// The session a token response gives at `now` (seconds since the epoch).
pub fn session_from_token(token: TokenResponse, now: u64) -> (r: MicrosoftSession)
    ensures
        r.access_token@ == token.access_token@,
        opt_view(r.refresh_token) == opt_view(token.refresh_token),
        r.expires_at == sat_add(now, token.expires_in),
{
    let expires_at = expires_at_from(now, token.expires_in);
    MicrosoftSession { access_token: token.access_token, refresh_token: token.refresh_token, expires_at }
}

/// A refreshed token keeps the refresh token it was refreshed with when the answer names
/// none.
pub fn keep_refresh_token(token: TokenResponse, refresh_token: &str) -> (r: TokenResponse)
    ensures
        r.access_token@ == token.access_token@,
        r.expires_in == token.expires_in,
        token.refresh_token is None ==> (r.refresh_token matches Some(t) && t@ == refresh_token@),
        token.refresh_token matches Some(t) ==> (r.refresh_token matches Some(u) && u@ == t@),
{
    let mut token = token;
    if token.refresh_token.is_none() {
        token.refresh_token = Some(refresh_token.to_owned());
    }
    token
}

/// How many seconds longer to wait between polls each time the server asks to slow down.
pub const SLOW_DOWN_STEP_SECS: u64 = 5;

/// What follows one poll of a device-code sign-in.
#[derive(Debug, Clone, PartialEq, Eq)]
pub enum PollStep {
    /// Poll again after this many seconds.
    Wait(u64),
    /// The user signed in.
    Done(MicrosoftSession),
    /// The sign-in ended without a session.
    Failed(Error),
}

/// The first wait of a device-code sign-in: the interval the server asked for, and at least a
/// second.
pub fn first_wait(interval: u64) -> (r: u64)
    ensures
        r == (if interval < 1 { 1 } else { interval }),
{
    if interval < 1 {
        1
    } else {
        interval
    }
}

/// What follows a poll answered `poll` at `now` (seconds since the epoch), when the last wait
/// was `interval` seconds and the code expires at `deadline`: a sign-in ends the flow with its
/// session, a refusal or an expired code fails it, and while the user has not answered the flow
/// waits again (five seconds longer after a request to slow down) unless the deadline has come.
pub fn poll_step(interval: u64, poll: DeviceCodePoll, now: u64, deadline: u64) -> (r: PollStep)
    ensures
        match poll {
            DeviceCodePoll::Authorized(token) => (r matches PollStep::Done(s) && {
                &&& s.access_token@ == token.access_token@
                &&& opt_view(s.refresh_token) == opt_view(token.refresh_token)
                &&& s.expires_at == sat_add(now, token.expires_in)
            }),
            DeviceCodePoll::Declined => r == PollStep::Failed(Error::DeviceCodeDeclined),
            DeviceCodePoll::Expired => r == PollStep::Failed(Error::DeviceCodeExpired),
            DeviceCodePoll::Pending => r == (if now >= deadline {
                PollStep::Failed(Error::DeviceCodeExpired)
            } else {
                PollStep::Wait(interval)
            }),
            DeviceCodePoll::SlowDown => r == (if now >= deadline {
                PollStep::Failed(Error::DeviceCodeExpired)
            } else {
                PollStep::Wait(sat_add(interval, SLOW_DOWN_STEP_SECS))
            }),
        },
{
    let next = match poll {
        DeviceCodePoll::Authorized(token) => {
            return PollStep::Done(session_from_token(token, now));
        },
        DeviceCodePoll::Declined => {
            return PollStep::Failed(Error::DeviceCodeDeclined);
        },
        DeviceCodePoll::Expired => {
            return PollStep::Failed(Error::DeviceCodeExpired);
        },
        DeviceCodePoll::Pending => interval,
        DeviceCodePoll::SlowDown => interval.saturating_add(SLOW_DOWN_STEP_SECS),
    };
    if now >= deadline {
        PollStep::Failed(Error::DeviceCodeExpired)
    } else {
        PollStep::Wait(next)
    }
}

/// The first identity claim of an Xbox token, when there is one.
pub open spec fn spec_first_claim_field(token: XboxToken, field: int) -> Option<Seq<char>> {
    if token.display_claims.xui@.len() == 0 {
        None
    } else {
        let c = token.display_claims.xui@[0];
        opt_view(if field == 0 {
            c.xid
        } else if field == 1 {
            c.gtg
        } else {
            c.agg
        })
    }
}

/// The user hash of an Xbox sign-in: the XSTS token's, else the Xbox Live token's.
pub open spec fn spec_user_hash(xbl: XboxToken, xsts: XboxToken) -> Option<Seq<char>> {
    if xsts.display_claims.xui@.len() > 0 {
        Some(xsts.display_claims.xui@[0].uhs@)
    } else if xbl.display_claims.xui@.len() > 0 {
        Some(xbl.display_claims.xui@[0].uhs@)
    } else {
        None
    }
}

/// The Xbox session of the three tokens of a sign-in: the user hash as `spec_user_hash` says,
/// and the identity from the first claim of the Xbox Live account token.
pub fn xbox_session(xbl: &XboxToken, xsts: &XboxToken, account: &XboxToken) -> (r: Result<XboxSession, Error>)
    ensures
        match spec_user_hash(*xbl, *xsts) {
            None => r == Err::<XboxSession, Error>(Error::MissingUserHash),
            Some(h) => (r matches Ok(s) && s.user_hash@ == h && s.xbl_token@ == xbl.token@
                && s.xsts_token@ == xsts.token@ && s.not_after@ == xsts.not_after@
                && opt_view(s.xuid) == spec_first_claim_field(*account, 0)
                && opt_view(s.gamertag) == spec_first_claim_field(*account, 1)
                && opt_view(s.age_group) == spec_first_claim_field(*account, 2)),
        },
{
    let hash = match xsts.user_hash() {
        Some(h) => h,
        None => match xbl.user_hash() {
            Some(h) => h,
            None => {
                return Err(Error::MissingUserHash);
            },
        },
    };
    let claims = &account.display_claims.xui;
    let (xuid, gamertag, age_group) = if claims.len() > 0 {
        (claims[0].xid.clone(), claims[0].gtg.clone(), claims[0].agg.clone())
    } else {
        (None, None, None)
    };
    Ok(XboxSession {
        user_hash: hash.to_owned(),
        xbl_token: xbl.token.clone(),
        xsts_token: xsts.token.clone(),
        not_after: xsts.not_after.clone(),
        xuid,
        gamertag,
        age_group,
    })
}

/// The account a Minecraft sign-in resolves to at `now_millis`, from its entitlement names and
/// its profile; without a profile, the error says what the entitlements show.
pub fn account_from_profile(
    session: &MinecraftSession,
    xbox: &XboxSession,
    refresh_token: String,
    entitlements: Vec<String>,
    profile: Option<Profile>,
    now_millis: u64,
) -> (r: Result<Account, Error>)
    ensures
        profile is None ==> r == Err::<Account, Error>(
            Error::NoProfile { ownership: spec_ownership(entitlements@) },
        ),
        profile matches Some(p) ==> (r matches Ok(a) && {
            &&& a.access_token@ == session.access_token@
            &&& a.client_token@ == p.id@
            &&& a.uuid@ == p.id@
            &&& a.name@ == p.name@
            &&& opt_view(a.refresh_token) == Some(refresh_token@)
            &&& a.user_properties@ == "{}"@
            &&& a.meta.kind == AccountType::Xbox
            &&& a.meta.online is None
            &&& a.meta.access_token_expires_in == Some(
                sat_add(now_millis, sat_mul(session.expires_in, 1000)),
            )
            &&& !a.meta.demo
            &&& a.meta.ownership == spec_ownership(entitlements@)
            &&& string_views(a.meta.entitlements@) == string_views(entitlements@)
            &&& a.xbox_account matches Some(x) && opt_view(x.xuid) == (match xbox.xuid {
                Some(v) => Some(v@),
                None => opt_view(session.xuid),
            }) && opt_view(x.gamertag) == opt_view(xbox.gamertag) && opt_view(x.age_group)
                == opt_view(xbox.age_group)
            &&& a.profile.skins@ == p.skins@
            &&& a.profile.capes@ == p.capes@
            &&& a.client_id is None
            &&& a.user_info is None
        }),
{
    let ownership = ownership_from_names(entitlements.as_slice());
    let profile = match profile {
        Some(p) => p,
        None => {
            return Err(Error::NoProfile { ownership });
        },
    };
    let expires = expires_at_millis_from(now_millis, session.expires_in);
    let xuid = match &xbox.xuid {
        Some(x) => Some(x.clone()),
        None => session.xuid.clone(),
    };
    Ok(Account {
        access_token: session.access_token.clone(),
        client_token: profile.id.clone(),
        uuid: profile.id,
        name: profile.name,
        refresh_token: Some(refresh_token),
        user_properties: "{}".to_owned(),
        meta: AccountMeta::xbox(expires, ownership, entitlements),
        xbox_account: Some(XboxAccount {
            xuid,
            gamertag: xbox.gamertag.clone(),
            age_group: xbox.age_group.clone(),
        }),
        profile: AccountProfile { skins: profile.skins, capes: profile.capes },
        client_id: None,
        user_info: None,
    })
}

} // verus!
