use crust_core::foundation::options::LoaderKind;
use crust_core::foundation::os::{Arch, Platform};
use crust_core::foundation::pkce::PkceChallenge;
use crust_core::providers::azauth::{
    azauth_urls, outcome_of, skin_data, skin_url_for, AuthOutcome, Error as AzError,
    OutcomeFields, UserData,
};
use crust_core::providers::azul::{arch_name, platform_name, PackageQuery};
use crust_core::providers::fabric::Endpoints;
use crust_core::providers::forge::installer_url;
use crust_core::providers::launchermeta::{
    AssetObject, LatestVersions, VersionEntry, VersionManifest,
};
use crust_core::providers::microsoft::{
    poll_state, DeviceCode, DeviceCodePoll, MicrosoftOAuth, DEFAULT_CLIENT_ID, DEFAULT_SCOPE,
    LIVE_COBRAND_ID, LIVE_DESKTOP_REDIRECT_URI,
};
use crust_core::providers::mojang::ApiError;
use crust_core::providers::neoforge::minecraft_version_of;
use crust_core::providers::xbox::{XstsError, XstsErrorKind};
use crust_core::providers::yggdrasil::{
    endpoint, normalize_api_url, session_from, ApiError as YggError, AuthResponse, SessionError,
};

const LIVE_BASE: &str = "https://login.live.com";
const ENTRA_BASE: &str = "https://login.microsoftonline.com/consumers/oauth2/v2.0";

fn query(url: &str) -> Vec<(String, String)> {
    url::Url::parse(url)
        .unwrap()
        .query_pairs()
        .map(|(k, v)| (k.into_owned(), v.into_owned()))
        .collect()
}

fn get<'a>(pairs: &'a [(String, String)], key: &str) -> Option<&'a str> {
    pairs.iter().find(|(k, _)| k == key).map(|(_, v)| v.as_str())
}

#[test]
fn entra_authorize_url_contains_pkce() {
    let oauth = MicrosoftOAuth::azure("client-123");
    let pkce = PkceChallenge::from_verifier("dBjftJeZ4CVP-mB92K27uhbUJU1p1r_wW1gFWFOEjXk".to_owned());
    let url = oauth.authorize_url("http://localhost:1234", Some(&pkce), "abc").unwrap();
    let pairs = query(&url);
    assert!(url.starts_with(&format!("{ENTRA_BASE}/authorize?")));
    assert_eq!(get(&pairs, "client_id"), Some("client-123"));
    assert_eq!(get(&pairs, "response_type"), Some("code"));
    assert_eq!(get(&pairs, "redirect_uri"), Some("http://localhost:1234"));
    assert_eq!(get(&pairs, "scope"), Some(DEFAULT_SCOPE));
    assert_eq!(get(&pairs, "state"), Some("abc"));
    assert_eq!(get(&pairs, "code_challenge"), Some(pkce.challenge()));
    assert_eq!(get(&pairs, "code_challenge_method"), Some("S256"));
    assert_eq!(get(&pairs, "cobrandid"), None);
}

#[test]
fn live_authorize_url_matches_official_launcher() {
    let oauth = MicrosoftOAuth::official();
    let pkce = PkceChallenge::generate();
    let url = oauth.authorize_url(LIVE_DESKTOP_REDIRECT_URI, Some(&pkce), "abc").unwrap();
    let pairs = query(&url);
    assert!(url.starts_with(&format!("{LIVE_BASE}/oauth20_authorize.srf?")));
    assert_eq!(get(&pairs, "client_id"), Some(DEFAULT_CLIENT_ID));
    assert_eq!(get(&pairs, "redirect_uri"), Some(LIVE_DESKTOP_REDIRECT_URI));
    assert_eq!(get(&pairs, "scope"), Some(DEFAULT_SCOPE));
    assert_eq!(get(&pairs, "cobrandid"), Some(LIVE_COBRAND_ID));
    assert_eq!(get(&pairs, "prompt"), Some("select_account"));
    assert_eq!(get(&pairs, "code_challenge"), None);
    assert_eq!(get(&pairs, "response_mode"), None);
}

fn device_code(complete: Option<&str>) -> DeviceCode {
    DeviceCode {
        device_code: String::new(),
        user_code: "ABC".into(),
        verification_uri: "https://microsoft.com/devicelogin".into(),
        expires_in: 900,
        interval: 5,
        message: String::new(),
        verification_uri_complete: complete.map(str::to_owned),
    }
}

#[test]
fn prefers_server_provided_complete_uri() {
    let code = device_code(Some("https://example.com/x?otc=ABC"));
    assert_eq!(code.verification_uri_complete().as_deref(), Some("https://example.com/x?otc=ABC"));
}

#[test]
fn builds_complete_uri_from_the_user_code() {
    let mut code = device_code(None);
    code.user_code = "PR486LHB".into();
    code.verification_uri = "https://www.microsoft.com/link".into();
    assert_eq!(
        code.verification_uri_complete().as_deref(),
        Some("https://www.microsoft.com/link?otc=PR486LHB")
    );
}

#[test]
fn poll_errors_map_to_states() {
    assert!(matches!(poll_state("authorization_pending"), Some(DeviceCodePoll::Pending)));
    assert!(matches!(poll_state("slow_down"), Some(DeviceCodePoll::SlowDown)));
    assert!(matches!(poll_state("authorization_declined"), Some(DeviceCodePoll::Declined)));
    assert!(matches!(poll_state("expired_token"), Some(DeviceCodePoll::Expired)));
    assert!(poll_state("nope").is_none());
}

#[test]
fn maps_known_xerr_codes() {
    let kind = |xerr| XstsError { xerr, message: String::new(), redirect: None }.kind();
    assert_eq!(kind(2148916227), XstsErrorKind::Banned);
    assert_eq!(kind(2148916233), XstsErrorKind::NoXboxAccount);
    assert_eq!(kind(2148916235), XstsErrorKind::RegionUnavailable);
    assert_eq!(kind(2148916236), XstsErrorKind::AdultVerificationRequired);
    assert_eq!(kind(2148916237), XstsErrorKind::AdultVerificationRequired);
    assert_eq!(kind(2148916238), XstsErrorKind::ChildAccount);
    assert_eq!(kind(1), XstsErrorKind::Unknown);
    assert_eq!(XstsErrorKind::ChildAccount.describe(), "child account must be added to a family");
}

#[test]
fn not_found_api_errors() {
    let error = |status, e: Option<&str>| ApiError {
        status,
        path: None,
        error: e.map(str::to_owned),
        error_message: None,
        developer_message: None,
    };
    assert!(error(404, None).is_not_found());
    assert!(error(500, Some("NOT_FOUND")).is_not_found());
    assert!(!error(500, Some("OTHER")).is_not_found());
    assert!(error(403, None).is_forbidden());
}

#[test]
fn maps_neoforge_versions_to_minecraft() {
    assert_eq!(minecraft_version_of("0.25w14craftmine.3-beta").as_deref(), Some("25w14craftmine"));
    assert_eq!(minecraft_version_of("26.1.0.0-alpha.1+snapshot-1").as_deref(), Some("26.1-snapshot-1"));
    assert_eq!(minecraft_version_of("26.1.0.0-alpha.15+pre-3").as_deref(), Some("26.1-pre-3"));
    assert_eq!(minecraft_version_of("26.1.0.1-beta").as_deref(), Some("26.1"));
    assert_eq!(minecraft_version_of("26.1.1.0-beta").as_deref(), Some("26.1.1"));
    assert_eq!(minecraft_version_of("21.4.121").as_deref(), Some("1.21.4"));
    assert_eq!(minecraft_version_of("21.0.143").as_deref(), Some("1.21"));
    assert_eq!(minecraft_version_of("21.1.72").as_deref(), Some("1.21.1"));
    assert_eq!(minecraft_version_of("nope"), None);
}

#[test]
fn resolves_manifest_aliases() {
    let manifest = VersionManifest {
        latest: LatestVersions { release: "1.21.1".into(), snapshot: "24w33a".into() },
        versions: vec![],
    };
    assert_eq!(manifest.resolve_id("latest_release"), "1.21.1");
    assert_eq!(manifest.resolve_id("latest_snapshot"), "24w33a");
    assert_eq!(manifest.resolve_id("1.20.1"), "1.20.1");
}

#[test]
fn finds_the_first_entry_with_an_id() {
    let entry = |id: &str, url: &str| VersionEntry { id: id.into(), kind: "release".into(), url: url.into(), sha1: None };
    let manifest = VersionManifest {
        latest: LatestVersions { release: "a".into(), snapshot: "b".into() },
        versions: vec![entry("a", "1"), entry("b", "2"), entry("a", "3")],
    };
    assert_eq!(manifest.find("a").map(|e| e.url.as_str()), Some("1"));
    assert_eq!(manifest.find("b").map(|e| e.url.as_str()), Some("2"));
    assert!(manifest.find("c").is_none());
    assert_eq!(manifest.resolve_id("release"), "a");
    assert_eq!(manifest.resolve_id("snapshot"), "b");
}

#[test]
fn asset_object_paths() {
    let object = AssetObject { hash: "abcdef0123".into(), size: 1 };
    assert_eq!(object.relative_path(), "ab/abcdef0123");
    assert_eq!(object.url(), "https://resources.download.minecraft.net/ab/abcdef0123");
}

#[test]
fn builds_query_url_like_node() {
    let query = PackageQuery {
        java_version: "17".into(),
        os: "macos".into(),
        arch: "aarch64".into(),
        archive_type: "zip".into(),
        java_package_type: "jre".into(),
    };
    assert_eq!(
        query.url().unwrap(),
        "https://api.azul.com/metadata/v1/zulu/packages/?java_version=17&os=macos&arch=aarch64&archive_type=zip&java_package_type=jre"
    );
}

#[test]
fn maps_platform_and_arch_names() {
    assert_eq!(platform_name(Platform::Windows), "windows");
    assert_eq!(platform_name(Platform::MacOs), "macos");
    assert_eq!(arch_name(Arch::X64), "x64");
    assert_eq!(arch_name(Arch::X86), "x32");
    assert_eq!(arch_name(Arch::Arm64), "aarch64");
    assert_eq!(arch_name(Arch::Arm), "arm");
}

#[test]
fn builds_profile_url() {
    let fabric = Endpoints::for_kind(LoaderKind::Fabric).unwrap();
    assert_eq!(
        fabric.profile_url("1.20.1", "0.16.9"),
        "https://meta.fabricmc.net/v2/versions/loader/1.20.1/0.16.9/profile/json"
    );
    let quilt = Endpoints::for_kind(LoaderKind::Quilt).unwrap();
    assert_eq!(
        quilt.profile_url("1.20.1", "0.26.0"),
        "https://meta.quiltmc.org/v3/versions/loader/1.20.1/0.26.0/profile/json"
    );
    assert!(Endpoints::for_kind(LoaderKind::Forge).is_none());
}

#[test]
fn builds_urls() {
    assert_eq!(
        installer_url("1.20.1-47.2.0"),
        "https://maven.minecraftforge.net/net/minecraftforge/forge/1.20.1-47.2.0/forge-1.20.1-47.2.0-installer"
    );
}

#[test]
fn builds_urls_from_the_site_root() {
    let urls = azauth_urls("https://example.com/site/").unwrap();
    assert_eq!(urls.auth_url, "https://example.com/api/auth");
    assert_eq!(urls.skin_url, "https://example.com/api/skin-api/skins");
    assert!(azauth_urls("not a url").is_none());
}

fn fields(status: &str, reason: Option<&str>, message: Option<&str>) -> Option<OutcomeFields> {
    Some(OutcomeFields {
        status: Some(status.into()),
        reason: reason.map(str::to_owned),
        message: message.map(str::to_owned),
    })
}

#[test]
fn classifies_two_factor_and_refusals() {
    assert_eq!(outcome_of(200, "{}", fields("pending", Some("2fa"), None), None), Ok(AuthOutcome::TwoFactorRequired));
    assert_eq!(
        outcome_of(422, "{}", fields("error", Some("invalid_credentials"), Some("Bad password")), None),
        Err(AzError::Rejected { reason: "invalid_credentials".into(), message: Some("Bad password".into()) })
    );
    assert_eq!(
        outcome_of(422, "{}", fields("error", None, None), None),
        Err(AzError::Rejected { reason: "unknown".into(), message: None })
    );
    assert_eq!(
        outcome_of(500, "oops", None, None),
        Err(AzError::Unexpected { status: 500, body: "oops".into() })
    );
    let user = UserData {
        id: Some("12".into()),
        username: "Luuxis".into(),
        uuid: "9a2f".into(),
        access_token: "tok".into(),
        email_verified: None,
        money: None,
        role: None,
        banned: None,
    };
    assert_eq!(outcome_of(200, "{}", fields("ok", None, None), Some(user.clone())), Ok(AuthOutcome::User(user)));
    assert_eq!(
        outcome_of(200, "{}", fields("ok", None, None), None),
        Err(AzError::Unexpected { status: 200, body: "{}".into() })
    );
}

#[test]
fn skins_become_data_uris() {
    assert_eq!(skin_url_for("https://e/api/skin-api/skins", "12"), "https://e/api/skin-api/skins/12");
    let missing = skin_data("u".into(), 404, b"ignored");
    assert_eq!(missing.base64, None);
    let found = skin_data("u".into(), 200, b"hi");
    assert_eq!(found.base64.as_deref(), Some("data:image/png;base64,aGk="));
    assert_eq!(found.url, "u");
}

#[test]
fn custom_api_url_is_normalised() {
    assert_eq!(normalize_api_url("https://auth.example.com/"), "https://auth.example.com");
    assert_eq!(normalize_api_url("https://auth.example.com//"), "https://auth.example.com");
    assert_eq!(endpoint("https://auth.example.com", "refresh"), "https://auth.example.com/refresh");
}

#[test]
fn yggdrasil_answers_become_sessions_or_errors() {
    let ok = AuthResponse {
        access_token: Some("a".into()),
        client_token: Some("c".into()),
        selected_profile: Some(("id".into(), "Steve".into())),
        error: None,
        error_message: None,
    };
    let session = session_from(200, "{}", Some(ok.clone())).unwrap();
    assert_eq!(session.access_token, "a");
    assert_eq!(session.uuid, "id");
    assert_eq!(session.name, "Steve");
    let refused = AuthResponse {
        error: Some("ForbiddenOperationException".into()),
        error_message: Some("Invalid credentials. Invalid username or password.".into()),
        ..AuthResponse::default()
    };
    match session_from(403, "{}", Some(refused)) {
        Err(SessionError::Api(error)) => {
            assert_eq!(error.error, "ForbiddenOperationException");
            assert!(error.message.clone().unwrap().contains("Invalid credentials"));
            assert_eq!(
                error.describe(),
                "ForbiddenOperationException: Invalid credentials. Invalid username or password."
            );
        }
        other => panic!("unexpected: {other:?}"),
    }
    let partial = AuthResponse { selected_profile: None, ..ok };
    assert_eq!(
        session_from(200, "b", Some(partial)),
        Err(SessionError::Unexpected { status: 200, body: "b".into() })
    );
    assert_eq!(
        session_from(502, "<html>", None),
        Err(SessionError::Unexpected { status: 502, body: "<html>".into() })
    );
    assert_eq!(YggError { error: "E".into(), message: None }.describe(), "E: no message");
}
