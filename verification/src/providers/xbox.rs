use vstd::prelude::*;

use crate::foundation::text::{append, chars_of, string_of};

verus! {

pub const USER_AUTHENTICATE_URL: &'static str = "https://user.auth.xboxlive.com/user/authenticate";
pub const XSTS_AUTHORIZE_URL: &'static str = "https://xsts.auth.xboxlive.com/xsts/authorize";
pub const MINECRAFT_RELYING_PARTY: &'static str = "rp://api.minecraftservices.com/";
pub const XBOXLIVE_RELYING_PARTY: &'static str = "http://xboxlive.com";

/// A token of Xbox Live or XSTS.
/// The RPS ticket an Xbox Live sign-in sends for a Microsoft access token: `d=<token>`.
pub fn rps_ticket(microsoft_access_token: &str) -> (r: String)
    ensures
        r@ == "d="@ + microsoft_access_token@,
{
    let mut s = chars_of("d=");
    append(&mut s, microsoft_access_token);
    string_of(&s)
}

#[derive(Debug, Clone)]
pub struct XboxToken {
    pub issue_instant: String,
    pub not_after: String,
    pub token: String,
    pub display_claims: DisplayClaims,
}

#[derive(Debug, Clone)]
pub struct DisplayClaims {
    pub xui: Vec<XuiClaim>,
}

#[derive(Debug, Clone)]
pub struct XuiClaim {
    pub uhs: String,
    pub xid: Option<String>,
    pub gtg: Option<String>,
    pub agg: Option<String>,
}

impl XboxToken {
    /// The user hash of the first identity claim, when there is one.
    pub fn user_hash(&self) -> (r: Option<&str>)
        ensures
            self.display_claims.xui@.len() == 0 ==> r is None,
            self.display_claims.xui@.len() > 0 ==> (r matches Some(h) && h@
                == self.display_claims.xui@[0].uhs@),
    {
        if self.display_claims.xui.len() > 0 {
            Some(self.display_claims.xui[0].uhs.as_str())
        } else {
            None
        }
    }
}

/// The refusal of an XSTS authorization.
#[derive(Debug, Clone)]
pub struct XstsError {
    pub xerr: u64,
    pub message: String,
    pub redirect: Option<String>,
}

/// What an XSTS refusal means.
#[derive(Debug, Clone, Copy, PartialEq, Eq, Structural)]
pub enum XstsErrorKind {
    Banned,
    NoXboxAccount,
    RegionUnavailable,
    AdultVerificationRequired,
    ChildAccount,
    Unknown,
}

/// The meaning of an `XErr` code.
pub open spec fn spec_xsts_kind(xerr: u64) -> XstsErrorKind {
    if xerr == 2148916227 {
        XstsErrorKind::Banned
    } else if xerr == 2148916233 {
        XstsErrorKind::NoXboxAccount
    } else if xerr == 2148916235 {
        XstsErrorKind::RegionUnavailable
    } else if xerr == 2148916236 || xerr == 2148916237 {
        XstsErrorKind::AdultVerificationRequired
    } else if xerr == 2148916238 {
        XstsErrorKind::ChildAccount
    } else {
        XstsErrorKind::Unknown
    }
}

impl XstsError {
    /// What the refusal means.
    pub fn kind(&self) -> (r: XstsErrorKind)
        ensures
            r == spec_xsts_kind(self.xerr),
    {
        match self.xerr {
            2148916227 => XstsErrorKind::Banned,
            2148916233 => XstsErrorKind::NoXboxAccount,
            2148916235 => XstsErrorKind::RegionUnavailable,
            2148916236 | 2148916237 => XstsErrorKind::AdultVerificationRequired,
            2148916238 => XstsErrorKind::ChildAccount,
            _ => XstsErrorKind::Unknown,
        }
    }
}

pub open spec fn spec_describe(kind: XstsErrorKind) -> Seq<char> {
    match kind {
        XstsErrorKind::Banned => "account banned from Xbox"@,
        XstsErrorKind::NoXboxAccount => "no Xbox account, sign up on minecraft.net first"@,
        XstsErrorKind::RegionUnavailable => "Xbox Live is unavailable in this region"@,
        XstsErrorKind::AdultVerificationRequired => "adult verification required"@,
        XstsErrorKind::ChildAccount => "child account must be added to a family"@,
        XstsErrorKind::Unknown => "unknown error"@,
    }
}

impl XstsErrorKind {
    /// A sentence that says what the refusal means.
    pub fn describe(self) -> (r: &'static str)
        ensures
            r@ == spec_describe(self),
    {
        match self {
            Self::Banned => "account banned from Xbox",
            Self::NoXboxAccount => "no Xbox account, sign up on minecraft.net first",
            Self::RegionUnavailable => "Xbox Live is unavailable in this region",
            Self::AdultVerificationRequired => "adult verification required",
            Self::ChildAccount => "child account must be added to a family",
            Self::Unknown => "unknown error",
        }
    }
}

} // verus!
