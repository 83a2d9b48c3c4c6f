use crust_core::authenticator::account::{
    ownership_from_names, Account, AccountMeta, AccountProfile, AccountType, MinecraftSession,
    Ownership,
};
use crust_core::authenticator::azauth::account_from as azauth_account_from;
use crust_core::authenticator::microsoft::{
    account_from_profile, keep_refresh_token, session_from_token, xbox_session, XboxSession,
};
use crust_core::authenticator::yggdrasil::{account_from, offline, online_password};
use crust_core::authenticator::{
    authorize_request, refresh_plan, required_refresh_token, AuthorizeRequest, Error,
    RefreshPlan,
};
use crust_core::providers::azauth::{SkinData, UserData};
use crust_core::providers::microsoft::{MicrosoftOAuth, TokenResponse};
use crust_core::providers::mojang::Profile;
use crust_core::providers::xbox::{DisplayClaims, XboxToken, XuiClaim};
use crust_core::providers::yggdrasil::Session;

fn names(list: &[&str]) -> Vec<String> {
    list.iter().map(|s| s.to_string()).collect()
}

fn mojang_account(meta: AccountMeta) -> Account {
    Account {
        access_token: "a".into(),
        client_token: "c".into(),
        uuid: "u".into(),
        name: "n".into(),
        refresh_token: None,
        user_properties: "{}".into(),
        meta,
        xbox_account: None,
        profile: AccountProfile::default(),
        client_id: None,
        user_info: None,
    }
}

#[test]
fn account_types_map_to_node_user_types() {
    assert_eq!(AccountType::Xbox.user_type(), "msa");
    assert_eq!(AccountType::Mojang.user_type(), "Mojang");
    assert_eq!(AccountType::AzAuth.user_type(), "AZauth");
    assert_eq!(AccountType::AzAuth.name(), "AZauth");
    assert_eq!(AccountType::Xbox.name(), "Xbox");
}

#[test]
fn expiry_only_applies_to_accounts_with_a_deadline() {
    let mut meta = AccountMeta::offline(AccountType::Mojang, false);
    let account = mojang_account(meta.clone());
    assert!(!account.is_expired());
    assert_eq!(account.xuid(), None);
    meta.access_token_expires_in = Some(1);
    let expired = Account { meta, ..account };
    assert!(expired.is_expired());
}

#[test]
fn expiry_counts_the_last_minute_as_expired() {
    let mut meta = AccountMeta::offline(AccountType::Mojang, false);
    meta.access_token_expires_in = Some(1_000_000);
    let account = mojang_account(meta);
    assert!(!account.is_expired_at(1_000_000 - 60_001));
    assert!(account.is_expired_at(1_000_000 - 60_000));
}

#[test]
fn owned_takes_precedence_over_game_pass() {
    let list = names(&["product_minecraft", "game_minecraft", "product_game_pass_pc"]);
    assert_eq!(ownership_from_names(&list), Ownership::Owned);
}

#[test]
fn game_pass_only() {
    assert_eq!(ownership_from_names(&names(&["product_game_pass_ultimate"])), Ownership::GamePass);
}

#[test]
fn empty_is_unknown() {
    let none: Vec<String> = Vec::new();
    assert_eq!(ownership_from_names(&none), Ownership::Unknown);
}

#[test]
fn offline_account_matches_node_shape() {
    let account = offline("Steve");
    assert_eq!(account.name, "Steve");
    assert_eq!(account.uuid.len(), 32);
    assert!(account.uuid.chars().all(|c| c.is_ascii_hexdigit()));
    assert_eq!(account.access_token, account.uuid);
    assert_eq!(account.client_token, account.uuid);
    assert_eq!(account.meta.kind, AccountType::Mojang);
    assert_eq!(account.meta.online, Some(false));
    assert!(!account.is_expired());
    assert!(account.refresh_token.is_none());
    assert!(account.xbox_account.is_none());
    assert_eq!(account.user_properties, "{}");
    assert_ne!(offline("Steve").uuid, account.uuid);
}

#[test]
fn online_session_maps_to_account() {
    let account = account_from(Session {
        access_token: "a".into(),
        client_token: "c".into(),
        uuid: "id".into(),
        name: "Alex".into(),
    });
    assert_eq!(account.meta.online, Some(true));
    assert_eq!(account.meta.kind, AccountType::Mojang);
    assert_eq!(account.uuid, "id");
}

#[test]
fn empty_password_means_offline() {
    assert_eq!(online_password(None), None);
    assert_eq!(online_password(Some("")), None);
    assert_eq!(online_password(Some("pw")), Some("pw"));
}

#[test]
fn maps_user_data_to_account_like_node() {
    let user = UserData {
        id: Some("12".into()),
        username: "Luuxis".into(),
        uuid: "9a2f".into(),
        access_token: "tok".into(),
        email_verified: Some(true),
        money: Some("42.5".into()),
        role: Some(r#"{"name":"Admin"}"#.into()),
        banned: Some(false),
    };
    let skin = SkinData {
        url: "https://example.com/api/skin-api/skins/12".into(),
        base64: Some("data:image/png;base64,AAAA".into()),
    };
    let account = azauth_account_from(user, skin);
    assert_eq!(account.client_token, "9a2f");
    assert_eq!(account.uuid, "9a2f");
    assert_eq!(account.meta.kind, AccountType::AzAuth);
    assert_eq!(account.meta.online, Some(false));
    let info = account.user_info.clone().unwrap();
    assert_eq!(info.verified, Some(true));
    assert_eq!(info.money.as_deref(), Some("42.5"));
    assert_eq!(info.banned, Some(false));
    assert_eq!(account.profile.skins[0].base64.as_deref(), Some("data:image/png;base64,AAAA"));
    assert!(account.profile.skins[0].id.is_none());
    assert!(account.refresh_token.is_none());
}

fn request(state: &str) -> AuthorizeRequest {
    AuthorizeRequest {
        url: String::new(),
        state: state.to_owned(),
        redirect_uri: "https://login.live.com/oauth20_desktop.srf".to_owned(),
        code_verifier: None,
    }
}

#[test]
fn extracts_code_when_state_matches() {
    let code = request("abc")
        .extract_code("https://login.live.com/oauth20_desktop.srf?code=M.C1_BAY&state=abc&lc=1036")
        .unwrap();
    assert_eq!(code, "M.C1_BAY");
}

#[test]
fn rejects_state_mismatch() {
    let result = request("abc").extract_code("https://x/?code=1&state=other");
    assert!(matches!(result, Err(Error::StateMismatch)));
}

#[test]
fn surfaces_denied_authorization() {
    let result = request("abc")
        .extract_code("https://x/?error=access_denied&error_description=cancelled&state=abc");
    match result {
        Err(Error::AuthorizationDenied { error, description }) => {
            assert_eq!(error, "access_denied");
            assert_eq!(description.as_deref(), Some("cancelled"));
        }
        other => panic!("unexpected result: {other:?}"),
    }
}

#[test]
fn rejects_garbage() {
    assert!(matches!(request("abc").extract_code("not a url"), Err(Error::InvalidRedirectUrl)));
}

#[test]
fn redirect_without_code_is_invalid_and_is_trimmed() {
    assert!(matches!(request("abc").extract_code("https://x/?state=abc"), Err(Error::InvalidRedirectUrl)));
    assert_eq!(request("abc").extract_code("  https://x/?state=abc&code=z  \n").unwrap(), "z");
    assert_eq!(request("abc").extract_code("https://x/?code=a%20b&state=abc").unwrap(), "a b");
}

#[test]
fn error_messages_match_their_variants() {
    assert_eq!(
        Error::AuthorizationDenied { error: "e".into(), description: None }.message(),
        "authorization denied: e (no description)"
    );
    assert_eq!(
        Error::AuthorizationDenied { error: "e".into(), description: Some("d".into()) }.message(),
        "authorization denied: e (d)"
    );
    assert_eq!(Error::StateMismatch.message(), "the `state` of the redirect does not match the authorization request");
    assert!(Error::NoProfile { ownership: Ownership::GamePass }.message().starts_with("the account has Game Pass"));
}

#[test]
fn authorize_requests_carry_pkce_only_for_entra() {
    let live = authorize_request(&MicrosoftOAuth::official()).unwrap();
    assert!(live.code_verifier.is_none());
    assert_eq!(live.redirect_uri, "https://login.live.com/oauth20_desktop.srf");
    assert!(live.url.starts_with("https://login.live.com/oauth20_authorize.srf?"));
    assert!(live.url.contains(&format!("state={}", live.state)));
    let entra = authorize_request(&MicrosoftOAuth::azure("client")).unwrap();
    assert!(entra.code_verifier.is_some());
    assert!(entra.url.contains("code_challenge_method=S256"));
    assert_ne!(entra.state, live.state);
}

#[test]
fn refresh_reloads_profile_while_token_is_fresh() {
    let mut meta = AccountMeta::offline(AccountType::Xbox, true);
    meta.access_token_expires_in = Some(10_000_000);
    let mut account = mojang_account(meta);
    assert_eq!(refresh_plan(&account, 0), Ok(RefreshPlan::Profile));
    assert_eq!(refresh_plan(&account, 2_800_000), Err(Error::MissingRefreshToken));
    account.refresh_token = Some(String::new());
    assert_eq!(refresh_plan(&account, 2_800_000), Err(Error::MissingRefreshToken));
    account.refresh_token = Some("rt".into());
    assert_eq!(refresh_plan(&account, 2_800_000), Ok(RefreshPlan::Token("rt".into())));
    assert_eq!(required_refresh_token(&None), Err(Error::MissingRefreshToken));
    assert_eq!(required_refresh_token(&Some("x".into())), Ok("x".to_owned()));
}

fn token(uhs: Option<&str>, claim: Option<XuiClaim>) -> XboxToken {
    let mut xui = Vec::new();
    if let Some(h) = uhs {
        xui.push(XuiClaim { uhs: h.into(), xid: None, gtg: None, agg: None });
    }
    if let Some(c) = claim {
        xui = vec![c];
    }
    XboxToken {
        issue_instant: "i".into(),
        not_after: "n".into(),
        token: "t".into(),
        display_claims: DisplayClaims { xui },
    }
}

#[test]
fn xbox_session_prefers_the_xsts_user_hash() {
    let claim = XuiClaim { uhs: "u".into(), xid: Some("x".into()), gtg: Some("g".into()), agg: Some("Adult".into()) };
    let s = xbox_session(&token(Some("xbl"), None), &token(Some("xsts"), None), &token(None, Some(claim))).unwrap();
    assert_eq!(s.user_hash, "xsts");
    assert_eq!(s.xuid.as_deref(), Some("x"));
    assert_eq!(s.gamertag.as_deref(), Some("g"));
    let s = xbox_session(&token(Some("xbl"), None), &token(None, None), &token(None, None)).unwrap();
    assert_eq!(s.user_hash, "xbl");
    assert!(s.xuid.is_none());
    assert_eq!(
        xbox_session(&token(None, None), &token(None, None), &token(None, None)),
        Err(Error::MissingUserHash)
    );
}

#[test]
fn tokens_become_sessions() {
    let t = TokenResponse {
        access_token: "at".into(),
        token_type: "bearer".into(),
        expires_in: 3600,
        scope: None,
        refresh_token: None,
    };
    let kept = keep_refresh_token(t.clone(), "old");
    assert_eq!(kept.refresh_token.as_deref(), Some("old"));
    let session = session_from_token(kept, 100);
    assert_eq!(session.expires_at, 3700);
    assert_eq!(session.access_token, "at");
}

#[test]
fn resolved_account_needs_a_profile() {
    let session = MinecraftSession { access_token: "mc".into(), expires_in: 10, xuid: Some("jwt-xuid".into()) };
    let xbox = XboxSession {
        user_hash: "h".into(),
        xbl_token: "b".into(),
        xsts_token: "s".into(),
        not_after: "n".into(),
        xuid: None,
        gamertag: Some("g".into()),
        age_group: None,
    };
    let none = account_from_profile(&session, &xbox, "rt".into(), names(&["product_game_pass_pc"]), None, 0);
    assert_eq!(none, Err(Error::NoProfile { ownership: Ownership::GamePass }));
    let profile = Profile { id: "id".into(), name: "Luuxis".into(), skins: Vec::new(), capes: Vec::new() };
    let account = account_from_profile(&session, &xbox, "rt".into(), names(&["game_minecraft"]), Some(profile), 5_000).unwrap();
    assert_eq!(account.uuid, "id");
    assert_eq!(account.client_token, "id");
    assert_eq!(account.meta.kind, AccountType::Xbox);
    assert_eq!(account.meta.ownership, Ownership::Owned);
    assert_eq!(account.meta.access_token_expires_in, Some(15_000));
    assert_eq!(account.xbox_account.unwrap().xuid.as_deref(), Some("jwt-xuid"));
    assert_eq!(account.refresh_token.as_deref(), Some("rt"));
}

#[test]
fn offline_accounts_have_unknown_ownership() {
    let account = offline("Steve");
    assert_eq!(account.meta.ownership, Ownership::Unknown);
    assert_eq!(account.meta, AccountMeta::offline(AccountType::Mojang, false));
}
