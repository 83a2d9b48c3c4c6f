use vstd::prelude::*;

use super::account::{Account, AccountMeta, AccountProfile, AccountType, Ownership};
use crate::foundation::hash::{hex, spec_hex};
use crate::foundation::pkce::random_bytes;
use crate::providers::yggdrasil::Session;

verus! {

/// Whether an account is the offline or online Mojang account of a name and an id: the id
/// serves as both tokens, ownership is unknown, there is no refresh token, no Xbox account,
/// no profile and no AZauth information.
pub open spec fn spec_mojang_account(a: Account, access: Seq<char>, client: Seq<char>, uuid: Seq<char>, name: Seq<char>, online: bool) -> bool {
    &&& a.access_token@ == access
    &&& a.client_token@ == client
    &&& a.uuid@ == uuid
    &&& a.name@ == name
    &&& a.refresh_token is None
    &&& a.user_properties@ == "{}"@
    &&& a.meta.kind == AccountType::Mojang
    &&& a.meta.online == Some(online)
    &&& a.meta.access_token_expires_in is None
    &&& !a.meta.demo
    &&& a.meta.ownership == Ownership::Unknown
    &&& a.meta.entitlements@.len() == 0
    &&& a.xbox_account is None
    &&& a.profile.skins@.len() == 0
    &&& a.profile.capes@.len() == 0
    &&& a.client_id is None
    &&& a.user_info is None
}

/// An offline account for a name: a fresh random id of 16 bytes in lower-case hexadecimal
/// serves as its uuid and both tokens.
pub fn offline(username: &str) -> (r: Account)
    ensures
        exists|bytes: Seq<u8>| bytes.len() == 16 && spec_mojang_account(
            r,
            spec_hex(bytes),
            spec_hex(bytes),
            spec_hex(bytes),
            username@,
            false,
        ),
{
    let bytes = random_bytes(16);
    let id = hex(bytes.as_slice());
    let meta = AccountMeta::offline(AccountType::Mojang, false);
    let account = Account {
        access_token: id.clone(),
        client_token: id.clone(),
        uuid: id,
        name: username.to_owned(),
        refresh_token: None,
        user_properties: "{}".to_owned(),
        meta,
        xbox_account: None,
        profile: AccountProfile::default(),
        client_id: None,
        user_info: None,
    };
    assert(spec_mojang_account(account, spec_hex(bytes@), spec_hex(bytes@), spec_hex(bytes@), username@, false));
    account
}

/// The online Mojang account of a Yggdrasil session.
pub fn account_from(session: Session) -> (r: Account)
    ensures
        spec_mojang_account(
            r,
            session.access_token@,
            session.client_token@,
            session.uuid@,
            session.name@,
            true,
        ),
{
    Account {
        access_token: session.access_token,
        client_token: session.client_token,
        uuid: session.uuid,
        name: session.name,
        refresh_token: None,
        user_properties: "{}".to_owned(),
        meta: AccountMeta::offline(AccountType::Mojang, true),
        xbox_account: None,
        profile: AccountProfile::default(),
        client_id: None,
        user_info: None,
    }
}

/// The password a Yggdrasil sign-in uses: none, or an empty one, means an offline account.
pub fn online_password(password: Option<&str>) -> (r: Option<&str>)
    ensures
        match password {
            Some(p) if p@.len() > 0 => r == Some(p),
            _ => r is None,
        },
{
    match password {
        Some(p) => {
            if p.unicode_len() > 0 {
                Some(p)
            } else {
                None
            }
        },
        None => None,
    }
}

} // verus!
