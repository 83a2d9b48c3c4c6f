use crust_core::authenticator::microsoft::{first_wait, poll_step, PollStep, SLOW_DOWN_STEP_SECS};
use crust_core::authenticator::Error;
use crust_core::checker::{ignored_path, removals, CheckOptions, IgnoredEntry};
use crust_core::launcher::dock_icon_hash;
use crust_core::network::json::JsonValue;
use crust_core::foundation::options::LaunchOptions;
use crust_core::providers::azauth::{logout_succeeded, outcome_fields, skin_data, skin_url_for};
use crust_core::network::{download_workers, retry_delay_millis, RETRY_ATTEMPTS};
use crust_core::network::status::{
    legacy_16_probe, legacy_probe, packet_length, read_string, read_varint, status_request, status_text, write_string,
    write_varint, AnswerError, Probe, Status, MAX_PACKET_LENGTH,
};
use crust_core::providers::microsoft::{DeviceCodePoll, TokenResponse};
use crust_core::providers::mojang::identity_token;
use crust_core::providers::xbox::rps_ticket;

fn token(refresh: Option<&str>) -> TokenResponse {
    TokenResponse {
        access_token: "access".to_owned(),
        token_type: "bearer".to_owned(),
        expires_in: 3600,
        scope: None,
        refresh_token: refresh.map(str::to_owned),
    }
}

#[test]
fn first_wait_is_at_least_a_second() {
    assert_eq!(first_wait(0), 1);
    assert_eq!(first_wait(1), 1);
    assert_eq!(first_wait(5), 5);
}

#[test]
fn polling_waits_while_the_user_has_not_answered() {
    assert_eq!(poll_step(5, DeviceCodePoll::Pending, 100, 200), PollStep::Wait(5));
    assert_eq!(poll_step(5, DeviceCodePoll::SlowDown, 100, 200), PollStep::Wait(5 + SLOW_DOWN_STEP_SECS));
    assert_eq!(poll_step(u64::MAX, DeviceCodePoll::SlowDown, 100, 200), PollStep::Wait(u64::MAX));
}

#[test]
fn polling_stops_at_the_deadline() {
    assert_eq!(poll_step(5, DeviceCodePoll::Pending, 200, 200), PollStep::Failed(Error::DeviceCodeExpired));
    assert_eq!(poll_step(5, DeviceCodePoll::SlowDown, 300, 200), PollStep::Failed(Error::DeviceCodeExpired));
}

#[test]
fn polling_ends_on_an_answer() {
    assert_eq!(poll_step(5, DeviceCodePoll::Declined, 100, 200), PollStep::Failed(Error::DeviceCodeDeclined));
    assert_eq!(poll_step(5, DeviceCodePoll::Expired, 100, 200), PollStep::Failed(Error::DeviceCodeExpired));
    match poll_step(5, DeviceCodePoll::Authorized(token(Some("refresh"))), 1_000, 200) {
        PollStep::Done(session) => {
            assert_eq!(session.access_token, "access");
            assert_eq!(session.refresh_token.as_deref(), Some("refresh"));
            assert_eq!(session.expires_at, 4_600);
        }
        other => panic!("unexpected step: {other:?}"),
    }
}

#[test]
fn sign_in_tokens_are_formatted() {
    assert_eq!(rps_ticket("EwA"), "d=EwA");
    assert_eq!(identity_token("uhs123", "xsts.token"), "XBL3.0 x=uhs123;xsts.token");
}

#[test]
fn status_request_is_a_framed_handshake_and_request() {
    let bytes = status_request("mc.example.net", 25565);
    let mut handshake = Vec::new();
    write_varint(&mut handshake, 0);
    write_varint(&mut handshake, -1);
    write_string(&mut handshake, "mc.example.net");
    handshake.extend_from_slice(&25565u16.to_be_bytes());
    write_varint(&mut handshake, 1);
    let mut expected = Vec::new();
    write_varint(&mut expected, handshake.len() as i32);
    expected.extend_from_slice(&handshake);
    expected.extend_from_slice(&[1, 0]);
    assert_eq!(bytes, expected);
    assert_eq!(bytes[0] as usize, bytes.len() - 3);
    assert_eq!(&bytes[1..7], &[0x00, 0xFF, 0xFF, 0xFF, 0xFF, 0x0F]);
}

#[test]
fn status_text_reads_the_answer_packet() {
    let mut packet = Vec::new();
    write_varint(&mut packet, 0);
    write_string(&mut packet, "{\"version\":{}}");
    assert_eq!(status_text(&packet).unwrap(), "{\"version\":{}}");

    let mut cursor = 0;
    assert_eq!(read_varint(&packet, &mut cursor), Some(0));
    assert_eq!(read_string(&packet, &mut cursor).as_deref(), Some("{\"version\":{}}"));

    assert_eq!(status_text(&[]), Err(AnswerError::TruncatedPacket));
    assert_eq!(status_text(&[0x80]), Err(AnswerError::TruncatedPacket));
    assert_eq!(status_text(&[0x01, 0x00]), Err(AnswerError::UnexpectedId(1)));
    assert_eq!(status_text(&[0x00, 0x05, b'a']), Err(AnswerError::TruncatedJson));
}

#[test]
fn legacy_probes_are_newest_first() {
    assert_eq!(legacy_probe(Probe::V16, "localhost", 25565), legacy_16_probe("localhost", 25565));
    assert_eq!(legacy_probe(Probe::V14, "localhost", 25565), vec![0xFE, 0x01]);
    assert_eq!(legacy_probe(Probe::Beta, "localhost", 25565), vec![0xFE]);
}

#[test]
fn packet_lengths_are_bounded() {
    assert_eq!(packet_length(&[0x05]), Some(5));
    assert_eq!(packet_length(&[0xAC, 0x02]), Some(300));
    assert_eq!(packet_length(&[0x00]), None);
    assert_eq!(packet_length(&[]), None);
    assert_eq!(packet_length(&[0x80, 0x80, 0x80, 0x02]), Some(MAX_PACKET_LENGTH));
    assert_eq!(packet_length(&[0x81, 0x80, 0x80, 0x02]), None);
    assert_eq!(packet_length(&[0x80, 0x80, 0x80, 0x80, 0x01]), None);
    assert_eq!(packet_length(&[0x81, 0x80, 0x80, 0x80, 0x80]), Some(1));
}

#[test]
fn ignored_entries_lie_under_the_base() {
    assert_eq!(ignored_path("/games/mc", "\\config\\options.txt"), "/games/mc/config/options.txt");
    assert_eq!(ignored_path("/games/mc", "saves"), "/games/mc/saves");
}

#[test]
fn clean_up_removes_what_is_not_kept() {
    let files = vec![
        "/r/mods/a.jar".to_owned(),
        "/r/options.txt".to_owned(),
        "/r/libraries/x.jar".to_owned(),
    ];
    let kept = vec!["\\r\\libraries\\x.jar".to_owned(), "/r/options.txt".to_owned()];
    assert_eq!(removals(&files, &kept), vec!["/r/mods/a.jar".to_owned()]);
    assert_eq!(removals(&files, &Vec::new()), files);
    assert!(removals(&Vec::new(), &kept).is_empty());
}

#[test]
fn downloads_run_between_one_and_sixty_four_at_once() {
    assert_eq!(download_workers(0), 1);
    assert_eq!(download_workers(1), 1);
    assert_eq!(download_workers(10), 10);
    assert_eq!(download_workers(64), 64);
    assert_eq!(download_workers(1000), 64);
}

#[test]
fn failed_downloads_wait_longer_each_time() {
    assert_eq!(retry_delay_millis(1), Some(500));
    assert_eq!(retry_delay_millis(2), Some(1000));
    assert_eq!(retry_delay_millis(RETRY_ATTEMPTS), None);
}

fn object(fields: Vec<(&str, JsonValue)>) -> JsonValue {
    JsonValue::Object(fields.into_iter().map(|(k, v)| (k.to_owned(), v)).collect())
}

fn text(s: &str) -> JsonValue {
    JsonValue::String(s.to_owned())
}

#[test]
fn azauth_answer_fields_are_read_when_they_are_text() {
    let answer = object(vec![("status", text("pending")), ("reason", text("2fa")), ("message", JsonValue::Number(Some(1), Some(1)))]);
    let fields = outcome_fields(&answer);
    assert_eq!(fields.status.as_deref(), Some("pending"));
    assert_eq!(fields.reason.as_deref(), Some("2fa"));
    assert_eq!(fields.message, None);
    let none = outcome_fields(&JsonValue::Array(Vec::new()));
    assert!(none.status.is_none() && none.reason.is_none() && none.message.is_none());
}

#[test]
fn azauth_logout_fails_only_on_a_real_error() {
    assert!(logout_succeeded(&object(vec![])));
    assert!(logout_succeeded(&object(vec![("error", JsonValue::Null)])));
    assert!(logout_succeeded(&object(vec![("error", JsonValue::Bool(false))])));
    assert!(!logout_succeeded(&object(vec![("error", JsonValue::Bool(true))])));
    assert!(!logout_succeeded(&object(vec![("error", text("invalid_token"))])));
    assert!(logout_succeeded(&JsonValue::Null));
}

#[test]
fn dock_icon_comes_from_the_asset_index() {
    let index = object(vec![(
        "objects",
        object(vec![("icons/minecraft.icns", object(vec![("hash", text("991b421dfd401f115241601b2b373140a8d78572")), ("size", JsonValue::Number(Some(1), Some(1)))]))]),
    )]);
    assert_eq!(dock_icon_hash(&index).as_deref(), Some("991b421dfd401f115241601b2b373140a8d78572"));
    assert_eq!(dock_icon_hash(&object(vec![("objects", object(vec![]))])), None);
    assert_eq!(dock_icon_hash(&JsonValue::Null), None);
}

#[test]
fn status_pings_allow_three_seconds_by_default() {
    let status = Status::new("mc.example.net", 25565);
    assert_eq!(status.timeout(), std::time::Duration::from_millis(3000));
    assert_eq!(status.address(), "mc.example.net:25565");
    let quick = status.with_timeout(std::time::Duration::from_millis(500));
    assert_eq!(quick.timeout(), std::time::Duration::from_millis(500));
    assert_eq!(quick.host(), "mc.example.net");
    assert_eq!(quick.port(), 25565);
}

#[test]
fn launches_allow_ten_seconds_by_default() {
    let options = LaunchOptions::new("/games/mc", "1.20.1");
    assert_eq!(options.timeout, std::time::Duration::from_secs(10));
}

#[test]
fn azauth_skins_are_embedded_as_base64() {
    let skin = skin_data("https://site/api/skin-api/skins/7".to_owned(), 200, &[0x89, b'P', b'N', b'G']);
    assert_eq!(skin.url, "https://site/api/skin-api/skins/7");
    assert_eq!(skin.base64.as_deref(), Some("data:image/png;base64,iVBORw=="));
    let missing = skin_data("https://site/api/skin-api/skins/8".to_owned(), 404, &[]);
    assert_eq!(missing.base64, None);
    assert_eq!(skin_url_for("https://site/api/skin-api/skins", "7"), "https://site/api/skin-api/skins/7");
}

#[test]
fn clean_up_keeps_loaders_runtimes_ignored_entries_and_needed_files() {
    let options = CheckOptions {
        root: "/r".to_owned(),
        instance: Some("survival".to_owned()),
        ignored: vec!["saves".to_owned(), "\\options.txt".to_owned(), "servers.dat".to_owned()],
    };
    let found = vec![
        IgnoredEntry::Folder(vec!["/r/instances/survival/saves/world/level.dat".to_owned()]),
        IgnoredEntry::File,
        IgnoredEntry::Missing,
    ];
    let loader = vec!["/r/loader/libraries/forge.jar".to_owned()];
    let runtime = vec!["/r/runtime/java/bin/java".to_owned()];
    let keep = vec!["/r/instances/survival/mods/needed.jar".to_owned()];
    assert_eq!(
        options.kept_paths(&loader, &runtime, &found, &keep),
        vec![
            "/r/loader/libraries/forge.jar".to_owned(),
            "/r/runtime/java/bin/java".to_owned(),
            "/r/instances/survival/saves/world/level.dat".to_owned(),
            "/r/instances/survival/options.txt".to_owned(),
            "/r/instances/survival/mods/needed.jar".to_owned(),
        ]
    );
    let listing = vec![
        "/r/instances/survival/saves/world/level.dat".to_owned(),
        "/r/instances/survival/options.txt".to_owned(),
        "/r/instances/survival/mods/needed.jar".to_owned(),
        "/r/instances/survival/mods/stray.jar".to_owned(),
        "/r/instances/survival/servers.dat".to_owned(),
    ];
    assert_eq!(
        options.cleanup(&listing, &loader, &runtime, &found, &keep),
        vec!["/r/instances/survival/mods/stray.jar".to_owned(), "/r/instances/survival/servers.dat".to_owned()]
    );
}
