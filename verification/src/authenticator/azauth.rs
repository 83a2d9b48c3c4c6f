use vstd::prelude::*;

use super::account::{Account, AccountMeta, AccountProfile, AccountType, AzAuthUserInfo};
use crate::foundation::text::opt_view;
use crate::providers::azauth::{SkinData, UserData};
use crate::providers::mojang::Skin;

verus! {

/// The account of an AZauth user and their skin: the user's uuid serves as both the uuid and
/// the client token, the one skin is the AZauth skin, and the user's details are kept.
pub fn account_from(user: UserData, skin: SkinData) -> (r: Account)
    ensures
        r.access_token@ == user.access_token@,
        r.client_token@ == user.uuid@,
        r.uuid@ == user.uuid@,
        r.name@ == user.username@,
        r.refresh_token is None,
        r.user_properties@ == "{}"@,
        r.meta.kind == AccountType::AzAuth,
        r.meta.online == Some(false),
        r.meta.access_token_expires_in is None,
        r.xbox_account is None,
        r.profile.skins@.len() == 1,
        r.profile.skins@[0].url@ == skin.url@,
        opt_view(r.profile.skins@[0].base64) == opt_view(skin.base64),
        r.profile.skins@[0].id is None && r.profile.skins@[0].state is None
            && r.profile.skins@[0].variant is None && r.profile.skins@[0].alias is None,
        r.profile.capes@.len() == 0,
        r.client_id is None,
        r.user_info matches Some(i) && opt_view(i.id) == opt_view(user.id) && i.banned
            == user.banned && opt_view(i.money) == opt_view(user.money) && opt_view(i.role)
            == opt_view(user.role) && i.verified == user.email_verified,
{
    let uuid = user.uuid;
    let skins = vec![Skin { id: None, state: None, url: skin.url, variant: None, alias: None, base64: skin.base64 }];
    Account {
        access_token: user.access_token,
        client_token: uuid.clone(),
        uuid,
        name: user.username,
        refresh_token: None,
        user_properties: "{}".to_owned(),
        meta: AccountMeta::offline(AccountType::AzAuth, false),
        xbox_account: None,
        profile: AccountProfile { skins, capes: Vec::new() },
        client_id: None,
        user_info: Some(AzAuthUserInfo {
            id: user.id,
            banned: user.banned,
            money: user.money,
            role: user.role,
            verified: user.email_verified,
        }),
    }
}

} // verus!
