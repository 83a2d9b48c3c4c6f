use crust_core::foundation::maven::MavenCoordinate;
use crust_core::foundation::os::{Arch, Platform};
use crust_core::network::json::{text_of, JsonValue};
use crust_core::network::status::parse_modern;
use crust_core::providers::launchermeta::Library;
use crust_core::resolver::lwjgl::process;
use crust_core::resolver::patches::apply;

fn to_json(value: &serde_json::Value) -> JsonValue {
    match value {
        serde_json::Value::Null => JsonValue::Null,
        serde_json::Value::Bool(b) => JsonValue::Bool(*b),
        serde_json::Value::Number(n) => JsonValue::Number(n.as_u64(), n.as_i64()),
        serde_json::Value::String(s) => JsonValue::String(s.clone()),
        serde_json::Value::Array(items) => JsonValue::Array(items.iter().map(to_json).collect()),
        serde_json::Value::Object(map) => {
            JsonValue::Object(map.iter().map(|(k, v)| (k.clone(), to_json(v))).collect())
        }
    }
}

fn parse(json: &str) -> JsonValue {
    to_json(&serde_json::from_str(json).unwrap())
}

#[test]
fn parses_modern_json_with_text_components() {
    let json = r#"{"version":{"name":"1.21.1","protocol":767},"players":{"max":100,"online":2,"sample":[{"name":"Luuxis","id":"f07f"}]},"description":{"text":"Hello ","extra":[{"text":"world","color":"red"}]},"favicon":"data:image/png;base64,AAAA","enforcesSecureChat":true}"#;
    let status = parse_modern(&parse(json), 12);
    assert_eq!(status.version, "1.21.1");
    assert_eq!(status.protocol, Some(767));
    assert_eq!(status.players_connect, 2);
    assert_eq!(status.players_max, 100);
    assert_eq!(status.description.as_deref(), Some("Hello world"));
    assert_eq!(status.players[0].name, "Luuxis");
    assert!(!status.legacy);
    assert!(!status.error);
    let plain = parse_modern(
        &parse(r#"{"version":{"name":"1.8.9","protocol":47},"players":{"max":20,"online":0},"description":"A Minecraft Server"}"#),
        1,
    );
    assert_eq!(plain.description.as_deref(), Some("A Minecraft Server"));
    assert_eq!(plain.players_max, 20);
    assert_eq!(plain.players_connect, 0);
}

#[test]
fn text_components_flatten_in_order() {
    assert_eq!(text_of(&parse(r#"[{"translate":"a"},"b",{"text":"c","extra":["d",{"text":"e"}]},7]"#)), "abcde");
    assert_eq!(text_of(&parse(r#"{"text":5,"translate":"x"}"#)), "");
    let status = parse_modern(&parse(r#"{"players":{"sample":[{"name":"a"},{"id":"x"}]}}"#), 0);
    assert!(status.players.is_empty());
    assert_eq!(status.version, "");
    let status = parse_modern(&parse(r#"{"players":{"sample":[{"name":"a"},["b","c"]]}}"#), 0);
    assert_eq!(status.players.len(), 2);
    assert_eq!(status.players[0].id, "");
    assert_eq!(status.players[1].id, "c");
}

fn bare(name: &str) -> Library {
    Library { name: name.into(), downloads: None, natives: None, rules: None, extract: None, url: None }
}

fn names(libraries: &[Library]) -> Vec<&str> {
    libraries.iter().map(|l| l.name.as_str()).collect()
}

#[test]
fn leaves_other_architectures_untouched() {
    let libraries = vec![bare("org.lwjgl:lwjgl:3.3.1")];
    assert!(process(&libraries, Arch::X64, &Vec::new(), &Vec::new()).is_none());
}

#[test]
fn swaps_lwjgl_and_drops_jinput_on_arm() {
    let libraries = vec![
        bare("org.lwjgl.lwjgl:lwjgl:2.9.4-nightly-20150209"),
        bare("org.lwjgl.lwjgl:lwjgl-platform:2.9.4-nightly-20150209"),
        bare("net.java.jinput:jinput:2.0.5"),
        bare("com.mojang:patchy:1.1"),
    ];
    let table = vec![("2.9.4".to_owned(), vec![bare("org.lwjgl.lwjgl:lwjgl:2.9.4-arm")])];
    let patched = process(&libraries, Arch::Arm64, &table, &Vec::new()).unwrap();
    assert_eq!(names(&patched), vec!["com.mojang:patchy:1.1", "org.lwjgl.lwjgl:lwjgl:2.9.4-arm"]);
    let only_jinput = process(&libraries, Arch::Arm, &table, &Vec::new()).unwrap();
    assert_eq!(
        names(&only_jinput),
        vec!["org.lwjgl.lwjgl:lwjgl:2.9.4-nightly-20150209", "org.lwjgl.lwjgl:lwjgl-platform:2.9.4-nightly-20150209", "com.mojang:patchy:1.1"]
    );
    assert!(process(&vec![bare("com.mojang:patchy:1.1")], Arch::Arm64, &table, &table).is_none());
}

#[test]
fn coordinates_print_back_to_their_text() {
    for text in ["com.mojang:brigadier:1.0.18", "net.minecraftforge:forge:1.20.1-47.2.0:universal@zip", "a:b:c:d"] {
        let c: MavenCoordinate = text.parse().unwrap();
        assert_eq!(c.to_string(), text);
        let again: MavenCoordinate = c.to_string().parse().unwrap();
        assert_eq!(again, c);
    }
}

#[test]
fn patching_twice_changes_nothing_more() {
    let libraries = vec![bare("net.java.dev.jna:jna:5.8.0"), bare("net.java.dev.jna:jna-platform:4.0.0"), bare("x:y:1")];
    let once = apply(&libraries, Platform::MacOs);
    let twice = apply(&once, Platform::MacOs);
    assert_eq!(names(&once), names(&twice));
    assert_eq!(names(&once), vec!["net.java.dev.jna:jna:5.13.0", "net.java.dev.jna:jna-platform:5.13.0", "x:y:1"]);
    let linux = apply(&libraries, Platform::Linux);
    assert_eq!(names(&linux), names(&libraries));
}
