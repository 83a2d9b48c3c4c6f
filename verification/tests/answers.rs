use crust_core::foundation::os::Platform;
use crust_core::network::json::JsonValue;
use crust_core::providers::azauth::{outcome_fields, outcome_of, AuthOutcome, Error as AzAuthError};
use crust_core::providers::launchermeta::{Artifact, Library, LibraryDownloads};
use crust_core::providers::mojang::{
    ApiError, Entitlement, Entitlements, ENTITLEMENT_GAME_MINECRAFT, ENTITLEMENT_GAME_PASS_PC,
    ENTITLEMENT_GAME_PASS_ULTIMATE,
};
use crust_core::providers::xbox::{XstsError, XstsErrorKind};
use crust_core::providers::yggdrasil::{session_from, AuthResponse, SessionError};
use crust_core::resolver::patches::apply;

fn to_json(value: &serde_json::Value) -> JsonValue {
    match value {
        serde_json::Value::Null => JsonValue::Null,
        serde_json::Value::Bool(b) => JsonValue::Bool(*b),
        serde_json::Value::Number(n) => JsonValue::Number(n.as_u64(), n.as_i64()),
        serde_json::Value::String(s) => JsonValue::String(s.clone()),
        serde_json::Value::Array(items) => JsonValue::Array(items.iter().map(to_json).collect()),
        serde_json::Value::Object(map) => {
            JsonValue::Object(map.iter().map(|(k, v)| (k.clone(), to_json(v))).collect())
        }
    }
}

fn text(value: &serde_json::Value, key: &str) -> Option<String> {
    value.get(key).and_then(|v| v.as_str()).map(str::to_owned)
}

/// An AZauth answer read as the launcher reads it; none of these bodies describes a user.
fn azauth_outcome(status: u16, body: &str) -> Result<AuthOutcome, AzAuthError> {
    let value = serde_json::from_str::<serde_json::Value>(body).ok();
    let fields = value.as_ref().map(|v| outcome_fields(&to_json(v)));
    outcome_of(status, body, fields, None)
}

/// A Yggdrasil answer read field by field.
fn yggdrasil_answer(body: &str) -> Option<AuthResponse> {
    let value = serde_json::from_str::<serde_json::Value>(body).ok()?;
    let profile = value.get("selectedProfile").and_then(|p| Some((text(p, "id")?, text(p, "name")?)));
    Some(AuthResponse {
        access_token: text(&value, "accessToken"),
        client_token: text(&value, "clientToken"),
        selected_profile: profile,
        error: text(&value, "error"),
        error_message: text(&value, "errorMessage"),
    })
}

#[test]
fn detects_two_factor_and_errors() {
    assert_eq!(
        azauth_outcome(200, r#"{"status":"pending","reason":"2fa"}"#).unwrap(),
        AuthOutcome::TwoFactorRequired
    );
    match azauth_outcome(422, r#"{"status":"error","reason":"invalid_credentials","message":"Bad password"}"#) {
        Err(AzAuthError::Rejected { reason, message }) => {
            assert_eq!(reason, "invalid_credentials");
            assert_eq!(message.as_deref(), Some("Bad password"));
        }
        other => panic!("unexpected: {other:?}"),
    }
}

#[test]
fn parses_successful_session() {
    let body = r#"{"accessToken":"a","clientToken":"c","selectedProfile":{"id":"id","name":"Steve"},"user":{"id":"x"}}"#;
    let session = session_from(200, body, yggdrasil_answer(body)).unwrap();
    assert_eq!(session.access_token, "a");
    assert_eq!(session.uuid, "id");
    assert_eq!(session.name, "Steve");
}

#[test]
fn parses_api_error() {
    let body = r#"{"error":"ForbiddenOperationException","errorMessage":"Invalid credentials. Invalid username or password."}"#;
    match session_from(403, body, yggdrasil_answer(body)) {
        Err(SessionError::Api(error)) => {
            assert_eq!(error.error, "ForbiddenOperationException");
            assert!(error.message.unwrap().contains("Invalid credentials"));
        }
        other => panic!("unexpected: {other:?}"),
    }
}

#[test]
fn parses_entitlements() {
    let body: serde_json::Value = serde_json::from_str(
        r#"{
            "items": [
                {"name": "product_minecraft", "signature": "jwt"},
                {"name": "game_minecraft", "signature": "jwt"},
                {"name": "product_game_pass_pc", "signature": "jwt"}
            ],
            "signature": "jwt",
            "keyId": "1"
        }"#,
    )
    .unwrap();
    let entitlements = Entitlements {
        items: body["items"]
            .as_array()
            .unwrap()
            .iter()
            .map(|item| Entitlement { name: text(item, "name").unwrap(), signature: text(item, "signature").unwrap() })
            .collect(),
        signature: text(&body, "signature").unwrap(),
        key_id: text(&body, "keyId").unwrap(),
    };
    assert_eq!(entitlements.items.len(), 3);
    assert!(entitlements.contains(ENTITLEMENT_GAME_MINECRAFT));
    assert!(entitlements.contains(ENTITLEMENT_GAME_PASS_PC));
    assert!(!entitlements.contains(ENTITLEMENT_GAME_PASS_ULTIMATE));
    assert_eq!(entitlements.key_id, "1");
}

#[test]
fn parses_not_found_error() {
    let body: serde_json::Value = serde_json::from_str(
        r#"{"path":"/minecraft/profile","error":"NOT_FOUND","errorMessage":"The server has not found anything matching the request URI"}"#,
    )
    .unwrap();
    let error = ApiError {
        status: 404,
        path: text(&body, "path"),
        error: text(&body, "error"),
        error_message: text(&body, "errorMessage"),
        developer_message: text(&body, "developerMessage"),
    };
    assert!(error.is_not_found());
    assert_eq!(error.status, 404);
}

#[test]
fn parses_xsts_error() {
    let body: serde_json::Value = serde_json::from_str(
        r#"{"Identity":"0","XErr":2148916238,"Message":"","Redirect":"https://start.ui.xboxlive.com/AddChildToFamily"}"#,
    )
    .unwrap();
    let error = XstsError {
        xerr: body["XErr"].as_u64().unwrap(),
        message: text(&body, "Message").unwrap_or_default(),
        redirect: text(&body, "Redirect"),
    };
    assert_eq!(error.kind(), XstsErrorKind::ChildAccount);
    assert!(error.redirect.is_some());
}

fn jna(name: &str, path: &str, sha1: &str) -> Library {
    Library {
        name: name.to_owned(),
        downloads: Some(LibraryDownloads {
            artifact: Some(Artifact {
                path: Some(path.to_owned()),
                sha1: sha1.to_owned(),
                size: 1,
                url: format!("https://maven.minecraftforge.net/{path}"),
            }),
            classifiers: None,
        }),
        natives: None,
        rules: None,
        extract: None,
        url: None,
    }
}

#[test]
fn loader_jna_is_upgraded_on_macos() {
    let libraries = vec![
        jna("net.java.dev.jna:jna:5.12.1", "net/java/dev/jna/jna/5.12.1/jna-5.12.1.jar", "a"),
        jna(
            "net.java.dev.jna:jna-platform:5.12.1",
            "net/java/dev/jna/jna-platform/5.12.1/jna-platform-5.12.1.jar",
            "b",
        ),
        Library {
            name: "ca.weblite:java-objc-bridge:1.0.0".to_owned(),
            downloads: None,
            natives: None,
            rules: None,
            extract: None,
            url: None,
        },
    ];
    let patched = apply(&libraries, Platform::MacOs);
    let names: Vec<&str> = patched.iter().map(|l| l.name.as_str()).collect();
    assert_eq!(
        names,
        vec!["net.java.dev.jna:jna:5.13.0", "net.java.dev.jna:jna-platform:5.13.0", "ca.weblite:java-objc-bridge:1.0.0"]
    );
    let windows = apply(&libraries, Platform::Windows);
    assert_eq!(windows[0].name, "net.java.dev.jna:jna:5.12.1");
}
