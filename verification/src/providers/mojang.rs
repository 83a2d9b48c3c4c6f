use vstd::prelude::*;

use crate::foundation::text::{append, chars_of, opt_view, str_eq, string_of};

verus! {

pub const BASE_URL: &'static str = "https://api.minecraftservices.com";

/// Where an Xbox identity is exchanged for a Minecraft token.
pub const LOGIN_WITH_XBOX_URL: &'static str = "https://api.minecraftservices.com/authentication/login_with_xbox";
/// Where the entitlements of a Minecraft token are listed.
pub const ENTITLEMENTS_URL: &'static str = "https://api.minecraftservices.com/entitlements/mcstore";
/// Where the profile of a Minecraft token is read.
pub const PROFILE_URL: &'static str = "https://api.minecraftservices.com/minecraft/profile";

/// The identity token a Minecraft sign-in sends for an Xbox session:
/// `XBL3.0 x=<user hash>;<XSTS token>`.
pub fn identity_token(user_hash: &str, xsts_token: &str) -> (r: String)
    ensures
        r@ == "XBL3.0 x="@ + user_hash@ + ";"@ + xsts_token@,
{
    let mut s = chars_of("XBL3.0 x=");
    append(&mut s, user_hash);
    append(&mut s, ";");
    append(&mut s, xsts_token);
    string_of(&s)
}

pub const ENTITLEMENT_PRODUCT_MINECRAFT: &'static str = "product_minecraft";
pub const ENTITLEMENT_GAME_MINECRAFT: &'static str = "game_minecraft";
pub const ENTITLEMENT_GAME_PASS_PC: &'static str = "product_game_pass_pc";
pub const ENTITLEMENT_GAME_PASS_ULTIMATE: &'static str = "product_game_pass_ultimate";

/// The token Minecraft services give for an Xbox identity.
#[derive(Debug, Clone)]
pub struct MinecraftToken {
    pub username: String,
    pub access_token: String,
    pub token_type: String,
    pub expires_in: u64,
    pub roles: Vec<String>,
}

#[derive(Debug, Clone)]
pub struct Entitlements {
    pub items: Vec<Entitlement>,
    pub signature: String,
    pub key_id: String,
}

#[derive(Debug, Clone)]
pub struct Entitlement {
    pub name: String,
    pub signature: String,
}

/// Whether one of the entitlements is named `name`.
pub open spec fn spec_has_entitlement(items: Seq<Entitlement>, name: Seq<char>) -> bool {
    exists|i: int| 0 <= i < items.len() && (#[trigger] items[i]).name@ == name
}

impl Entitlements {
    /// Whether one of the entitlements is named `name`.
    pub fn contains(&self, name: &str) -> (r: bool)
        ensures
            r == spec_has_entitlement(self.items@, name@),
    {
        let mut i: usize = 0;
        while i < self.items.len()
            invariant
                i <= self.items.len(),
                forall|k: int| 0 <= k < i ==> (#[trigger] self.items@[k]).name@ != name@,
            decreases self.items.len() - i,
        {
            if str_eq(self.items[i].name.as_str(), name) {
                return true;
            }
            i = i + 1;
        }
        false
    }
}

/// A Minecraft profile: its id, its name, and its skins and capes.
#[derive(Debug, Clone, PartialEq, Eq)]
pub struct Profile {
    pub id: String,
    pub name: String,
    pub skins: Vec<Skin>,
    pub capes: Vec<Cape>,
}

#[derive(Debug, Clone, PartialEq, Eq)]
pub struct Skin {
    pub id: Option<String>,
    pub state: Option<String>,
    pub url: String,
    pub variant: Option<String>,
    pub alias: Option<String>,
    pub base64: Option<String>,
}

#[derive(Debug, Clone, PartialEq, Eq)]
pub struct Cape {
    pub id: Option<String>,
    pub state: Option<String>,
    pub url: String,
    pub alias: Option<String>,
    pub base64: Option<String>,
}

/// An error body of Minecraft services, with the HTTP status it came with.
#[derive(Debug, Clone)]
pub struct ApiError {
    pub status: u16,
    pub path: Option<String>,
    pub error: Option<String>,
    pub error_message: Option<String>,
    pub developer_message: Option<String>,
}

impl ApiError {
    /// Whether the error says that the thing asked for does not exist.
    pub fn is_not_found(&self) -> (r: bool)
        ensures
            r == (self.status == 404 || opt_view(self.error) == Some("NOT_FOUND"@)),
    {
        if self.status == 404 {
            return true;
        }
        match &self.error {
            Some(e) => str_eq(e.as_str(), "NOT_FOUND"),
            None => false,
        }
    }

    /// Whether the request was refused.
    pub fn is_forbidden(&self) -> (r: bool)
        ensures
            r == (self.status == 403),
    {
        self.status == 403
    }
}

} // verus!
