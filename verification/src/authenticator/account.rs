use vstd::prelude::*;

use crate::foundation::text::str_eq;
use crate::foundation::time::{
    sat_add, unix_now_millis,
};
use crate::providers::mojang::{
    Cape, Skin, ENTITLEMENT_GAME_MINECRAFT, ENTITLEMENT_GAME_PASS_PC, ENTITLEMENT_GAME_PASS_ULTIMATE, ENTITLEMENT_PRODUCT_MINECRAFT,
};

verus! {

/// How long before its deadline an access token already counts as expired, in milliseconds.
pub const EXPIRY_MARGIN_MILLIS: u64 = 60_000;

/// A signed-in account, in the shape it is saved in.
#[derive(Debug, Clone, PartialEq)]
pub struct Account {
    pub access_token: String,
    pub client_token: String,
    pub uuid: String,
    pub name: String,
    pub refresh_token: Option<String>,
    pub user_properties: String,
    pub meta: AccountMeta,
    pub xbox_account: Option<XboxAccount>,
    pub profile: AccountProfile,
    pub client_id: Option<String>,
    pub user_info: Option<AzAuthUserInfo>,
}

#[derive(Debug, Clone, PartialEq, Eq)]
pub struct AccountMeta {
    pub kind: AccountType,
    pub online: Option<bool>,
    pub access_token_expires_in: Option<u64>,
    pub demo: bool,
    pub ownership: Ownership,
    pub entitlements: Vec<String>,
}

impl AccountMeta {
    /// The metadata of a Microsoft (Xbox) account whose token expires at
    /// `access_token_expires_in` (milliseconds since the epoch).
    pub fn xbox(access_token_expires_in: u64, ownership: Ownership, entitlements: Vec<String>) -> (r: Self)
        ensures
            r.kind == AccountType::Xbox,
            r.online is None,
            r.access_token_expires_in == Some(access_token_expires_in),
            !r.demo,
            r.ownership == ownership,
            r.entitlements == entitlements,
    {
        Self {
            kind: AccountType::Xbox,
            online: None,
            access_token_expires_in: Some(access_token_expires_in),
            demo: false,
            ownership,
            entitlements,
        }
    }

    /// The metadata of an account of a kind that does not expire.
    pub fn offline(kind: AccountType, online: bool) -> (r: Self)
        ensures
            r.kind == kind,
            r.online == Some(online),
            r.access_token_expires_in is None,
            !r.demo,
            r.ownership == Ownership::Unknown,
            r.entitlements@.len() == 0,
    {
        Self {
            kind,
            online: Some(online),
            access_token_expires_in: None,
            demo: false,
            ownership: Ownership::Unknown,
            entitlements: Vec::new(),
        }
    }
}

/// Where an account comes from.
#[derive(Debug, Clone, Copy, PartialEq, Eq, Structural)]
pub enum AccountType {
    Xbox,
    Mojang,
    AzAuth,
}

pub open spec fn spec_account_type_name(kind: AccountType) -> Seq<char> {
    match kind {
        AccountType::Xbox => "Xbox"@,
        AccountType::Mojang => "Mojang"@,
        AccountType::AzAuth => "AZauth"@,
    }
}

/// The `${user_type}` the game is told for an account kind.
pub open spec fn spec_user_type(kind: AccountType) -> Seq<char> {
    match kind {
        AccountType::Xbox => "msa"@,
        AccountType::Mojang => "Mojang"@,
        AccountType::AzAuth => "AZauth"@,
    }
}

impl AccountType {
    /// The name a saved account stores for the kind.
    pub fn name(self) -> (r: &'static str)
        ensures
            r@ == spec_account_type_name(self),
    {
        match self {
            Self::Xbox => "Xbox",
            Self::Mojang => "Mojang",
            Self::AzAuth => "AZauth",
        }
    }

    /// The user type the game is told.
    pub fn user_type(self) -> (r: &'static str)
        ensures
            r@ == spec_user_type(self),
    {
        match self {
            Self::Xbox => "msa",
            Self::Mojang => "Mojang",
            Self::AzAuth => "AZauth",
        }
    }
}

#[derive(Debug, Clone, PartialEq, Eq)]
pub struct XboxAccount {
    pub xuid: Option<String>,
    pub gamertag: Option<String>,
    pub age_group: Option<String>,
}

#[derive(Debug, Clone, PartialEq, Eq)]
pub struct AccountProfile {
    pub skins: Vec<Skin>,
    pub capes: Vec<Cape>,
}

impl Default for AccountProfile {
    fn default() -> (r: Self)
        ensures
            r.skins@.len() == 0,
            r.capes@.len() == 0,
    {
        Self { skins: Vec::new(), capes: Vec::new() }
    }
}

/// What an AZauth server says of a user. The `id` and `role` fields hold JSON text, and
/// `money` the decimal text of the amount, as the server sent them.
#[derive(Debug, Clone, PartialEq, Eq)]
pub struct AzAuthUserInfo {
    pub id: Option<String>,
    pub banned: Option<bool>,
    pub money: Option<String>,
    pub role: Option<String>,
    pub verified: Option<bool>,
}

impl Default for AzAuthUserInfo {
    fn default() -> (r: Self)
        ensures
            r.id is None,
            r.banned is None,
            r.money is None,
            r.role is None,
            r.verified is None,
    {
        Self { id: None, banned: None, money: None, role: None, verified: None }
    }
}

/// Whether an account owns Minecraft, plays through Game Pass, or neither is known.
#[derive(Debug, Clone, Copy, PartialEq, Eq, Structural)]
pub enum Ownership {
    Owned,
    GamePass,
    Unknown,
}

impl Default for Ownership {
    fn default() -> (r: Self)
        ensures
            r == Ownership::Unknown,
    {
        Ownership::Unknown
    }
}

/// Whether an account whose token expires at `expires_at` (if it does) counts as expired at
/// `now_millis`: it does when the deadline is at most a minute away.
pub open spec fn spec_expired_at(expires_at: Option<u64>, now_millis: u64) -> bool {
    match expires_at {
        Some(at) => sat_add(now_millis, EXPIRY_MARGIN_MILLIS) >= at,
        None => false,
    }
}

/// The Xbox user id of an account, when it has a non-empty one.
pub open spec fn spec_xuid(xbox: Option<XboxAccount>) -> Option<Seq<char>> {
    match xbox {
        Some(x) => match x.xuid {
            Some(id) if id@.len() > 0 => Some(id@),
            _ => None,
        },
        None => None,
    }
}

impl Account {
    pub fn kind(&self) -> (r: AccountType)
        ensures
            r == self.meta.kind,
    {
        self.meta.kind
    }

    /// Whether the access token counts as expired at `now_millis`.
    pub fn is_expired_at(&self, now_millis: u64) -> (r: bool)
        ensures
            r == spec_expired_at(self.meta.access_token_expires_in, now_millis),
    {
        match self.meta.access_token_expires_in {
            Some(expires_at) => now_millis.saturating_add(EXPIRY_MARGIN_MILLIS) >= expires_at,
            None => false,
        }
    }

    /// Whether the access token counts as expired now.
    pub fn is_expired(&self) -> (r: bool)
        ensures
            exists|now: u64| r == spec_expired_at(self.meta.access_token_expires_in, now),
            self.meta.access_token_expires_in is None ==> !r,
            (self.meta.access_token_expires_in matches Some(at) && at <= EXPIRY_MARGIN_MILLIS) ==> r,
    {
        let now = unix_now_millis();
        self.is_expired_at(now)
    }

    pub fn is_game_pass(&self) -> (r: bool)
        ensures
            r == (self.meta.ownership == Ownership::GamePass),
    {
        self.meta.ownership == Ownership::GamePass
    }

    /// The Xbox user id, when the account has a non-empty one.
    pub fn xuid(&self) -> (r: Option<&str>)
        ensures
            match r {
                Some(s) => spec_xuid(self.xbox_account) == Some(s@),
                None => spec_xuid(self.xbox_account) is None,
            },
    {
        match &self.xbox_account {
            Some(xbox) => match &xbox.xuid {
                Some(id) => {
                    if id.as_str().unicode_len() > 0 {
                        Some(id.as_str())
                    } else {
                        None
                    }
                },
                None => None,
            },
            None => None,
        }
    }
}

/// The session Minecraft services give after an Xbox sign-in.
#[derive(Debug, Clone, PartialEq, Eq)]
pub struct MinecraftSession {
    pub access_token: String,
    pub expires_in: u64,
    pub xuid: Option<String>,
}

/// Whether one of the names is `name`.
pub open spec fn spec_has_name(names: Seq<String>, name: Seq<char>) -> bool {
    exists|i: int| 0 <= i < names.len() && (#[trigger] names[i])@ == name
}

/// What entitlement names say of ownership: owning the game wins over Game Pass.
pub open spec fn spec_ownership(names: Seq<String>) -> Ownership {
    if spec_has_name(names, ENTITLEMENT_GAME_MINECRAFT@) || spec_has_name(
        names,
        ENTITLEMENT_PRODUCT_MINECRAFT@,
    ) {
        Ownership::Owned
    } else if spec_has_name(names, ENTITLEMENT_GAME_PASS_PC@) || spec_has_name(
        names,
        ENTITLEMENT_GAME_PASS_ULTIMATE@,
    ) {
        Ownership::GamePass
    } else {
        Ownership::Unknown
    }
}

fn has_name(names: &[String], name: &str) -> (r: bool)
    ensures
        r == spec_has_name(names@, name@),
{
    let mut i: usize = 0;
    while i < names.len()
        invariant
            i <= names.len(),
            forall|k: int| 0 <= k < i ==> (#[trigger] names@[k])@ != name@,
        decreases names.len() - i,
    {
        if str_eq(names[i].as_str(), name) {
            return true;
        }
        i = i + 1;
    }
    false
}

/// The ownership that entitlement names show.
pub fn ownership_from_names(entitlements: &[String]) -> (r: Ownership)
    ensures
        r == spec_ownership(entitlements@),
{
    if has_name(entitlements, ENTITLEMENT_GAME_MINECRAFT) || has_name(
        entitlements,
        ENTITLEMENT_PRODUCT_MINECRAFT,
    ) {
        Ownership::Owned
    } else if has_name(entitlements, ENTITLEMENT_GAME_PASS_PC) || has_name(
        entitlements,
        ENTITLEMENT_GAME_PASS_ULTIMATE,
    ) {
        Ownership::GamePass
    } else {
        Ownership::Unknown
    }
}

/// What an account without a profile is told, by what its entitlements show.
pub open spec fn spec_no_profile_message(ownership: Ownership) -> Seq<char> {
    match ownership {
        Ownership::GamePass => "the account has Game Pass but no Minecraft profile yet: sign in once to the official Minecraft Launcher to choose a username"@,
        Ownership::Owned => "the account owns Minecraft but has no profile yet: sign in once to the official Minecraft Launcher to choose a username"@,
        Ownership::Unknown => "no Minecraft profile found: the account does not own Minecraft, or has Game Pass and must sign in once to the official Minecraft Launcher"@,
    }
}

/// What an account without a profile is told, by what its entitlements show.
pub fn no_profile_message(ownership: Ownership) -> (r: &'static str)
    ensures
        r@ == spec_no_profile_message(ownership),
        r@ == (match ownership {
            Ownership::GamePass => "the account has Game Pass but no Minecraft profile yet: sign in once to the official Minecraft Launcher to choose a username"@,
            Ownership::Owned => "the account owns Minecraft but has no profile yet: sign in once to the official Minecraft Launcher to choose a username"@,
            Ownership::Unknown => "no Minecraft profile found: the account does not own Minecraft, or has Game Pass and must sign in once to the official Minecraft Launcher"@,
        }),
{
    match ownership {
        Ownership::GamePass => "the account has Game Pass but no Minecraft profile yet: sign in once to the official Minecraft Launcher to choose a username",
        Ownership::Owned => "the account owns Minecraft but has no profile yet: sign in once to the official Minecraft Launcher to choose a username",
        Ownership::Unknown => "no Minecraft profile found: the account does not own Minecraft, or has Game Pass and must sign in once to the official Minecraft Launcher",
    }
}

/// Expiry does not undo itself: an account that counts as expired at one instant still does at
/// every later instant, and an account without a deadline never expires.
pub proof fn law_expiry_is_monotone(expires_at: Option<u64>, earlier: u64, later: u64)
    requires
        earlier <= later,
    ensures
        spec_expired_at(expires_at, earlier) ==> spec_expired_at(expires_at, later),
        expires_at is None ==> !spec_expired_at(expires_at, later),
{
}

} // verus!
