use std::time::Duration;

use crust_core::foundation::options::LoaderKind;
use crust_core::foundation::os::Platform;
use crust_core::loader::fabric::{library_fetch, select_loader};
use crust_core::loader::forgelike::{
    check_installer_hash, check_profile, choose_forge_build, client_data_target, forge_builds,
    forge_installer, library_source, library_step, maven_entry_target, merge_libraries,
    missing_library, neoforge_installer, universal_prefix, universal_source, version_json_name,
    wanted_build, Flavor, LibraryStep, UniversalSource,
};
use crust_core::loader::patcher::Patcher;
use crust_core::loader::{DataEntry, InstallConfig, InstallSection, LoaderError, Processor};
use crust_core::network::status::{
    decode_utf16be, encode_utf16be, frame, legacy_16_probe, parse_legacy, read_string,
    read_varint, write_string, write_varint, LEGACY_PROTOCOL_VERSION,
};
use crust_core::providers::fabric::{GameVersion, LoaderVersion, VersionsMeta};
use crust_core::providers::forge::{BuildMeta, Promotions};
use crust_core::providers::launchermeta::{Artifact, Library, LibraryDownloads};

#[test]
fn varint_roundtrip() {
    for value in [0, 1, 127, 128, 255, 300, 2_147_483_647, -1, -2_147_483_648] {
        let mut buffer = Vec::new();
        write_varint(&mut buffer, value);
        let mut cursor = 0;
        assert_eq!(read_varint(&buffer, &mut cursor), Some(value));
        assert_eq!(cursor, buffer.len());
    }
    let mut negative = Vec::new();
    write_varint(&mut negative, -1);
    assert_eq!(negative, vec![0xFF, 0xFF, 0xFF, 0xFF, 0x0F]);
}

#[test]
fn truncated_varints_and_strings_are_refused() {
    let mut cursor = 0;
    assert_eq!(read_varint(&[0x80], &mut cursor), None);
    let mut buffer = Vec::new();
    write_string(&mut buffer, "héllo");
    let mut cursor = 0;
    assert_eq!(read_string(&buffer, &mut cursor).as_deref(), Some("héllo"));
    assert_eq!(cursor, buffer.len());
    let mut cursor = 0;
    assert_eq!(read_string(&buffer[..3], &mut cursor), None);
    let mut framed = Vec::new();
    frame(&mut framed, &[1, 2, 3]);
    assert_eq!(framed, vec![3, 1, 2, 3]);
}

#[test]
fn parses_legacy_responses() {
    let status = parse_legacy("§1\u{0}78\u{0}1.6.4\u{0}A Minecraft Server\u{0}3\u{0}20", 5).unwrap();
    assert_eq!(status.protocol, Some(78));
    assert_eq!(status.version, "1.6.4");
    assert_eq!(status.description.as_deref(), Some("A Minecraft Server"));
    assert_eq!(status.players_connect, 3);
    assert_eq!(status.players_max, 20);
    assert!(status.legacy);

    let beta = parse_legacy("A Beta Server§3§20", 5).unwrap();
    assert_eq!(beta.version, "");
    assert_eq!(beta.description.as_deref(), Some("A Beta Server"));
    assert_eq!(beta.players_connect, 3);
    assert_eq!(beta.players_max, 20);
    assert!(parse_legacy("garbage", 1).is_none());
}

#[test]
fn builds_legacy_16_probe() {
    let probe = legacy_16_probe("mc", 25565);
    assert_eq!(&probe[..3], &[0xFE, 0x01, 0xFA]);
    assert_eq!(&probe[3..5], &[0x00, 0x0B]);
    assert_eq!(&probe[5..27], &encode_utf16be("MC|PingHost")[..]);
    assert_eq!(&probe[27..29], &(7u16 + 4).to_be_bytes());
    assert_eq!(probe[29], LEGACY_PROTOCOL_VERSION);
    assert_eq!(&probe[30..32], &[0x00, 0x02]);
    assert_eq!(&probe[32..36], &encode_utf16be("mc")[..]);
    assert_eq!(&probe[36..40], &25565i32.to_be_bytes());
}

#[test]
fn utf16_text_roundtrips() {
    assert_eq!(encode_utf16be("A"), vec![0x00, 0x41]);
    assert_eq!(decode_utf16be(&encode_utf16be("§1 héllo 😀")), "§1 héllo 😀");
}

fn config() -> InstallConfig {
    InstallConfig {
        kind: LoaderKind::Forge,
        minecraft_version: "1.20.1".into(),
        build: "latest".into(),
        loader_dir: "/root/loader".into(),
        java_path: "/java".into(),
        minecraft_jar: "/root/versions/1.20.1/1.20.1.jar".into(),
        minecraft_json: "/root/versions/1.20.1/1.20.1.json".into(),
        concurrency: 5,
        timeout: Duration::from_secs(10),
    }
}

fn bare_library(name: &str) -> Library {
    Library { name: name.into(), downloads: None, natives: None, rules: None, extract: None, url: None }
}

fn profile() -> InstallSection {
    let data = vec![
        (
            "MAPPINGS".to_owned(),
            DataEntry {
                client: "[de.oceanlabs.mcp:mcp_config:1.20.1-20230612.114412:mappings@txt]".into(),
                server: String::new(),
            },
        ),
        ("BINPATCH".to_owned(), DataEntry { client: "/data/client.lzma".into(), server: String::new() }),
        (
            "MC_SLIM_SHA".to_owned(),
            DataEntry { client: "'045d6edac8fe1b004e159c49704b5b729f551079'".into(), server: String::new() },
        ),
    ];
    InstallSection {
        libraries: vec![bare_library("net.minecraftforge:forge:1.20.1-47.2.0:universal")],
        processors: vec![Processor {
            jar: "net.minecraftforge:binarypatcher:1.1.1".into(),
            args: vec!["--clean".into(), "{MC_SRG}".into(), "--apply".into(), "{BINPATCH}".into()],
            classpath: vec![],
            sides: None,
        }],
        data,
        path: None,
        file_path: None,
        json: Some("/version.json".into()),
    }
}

#[test]
fn resolves_arguments_like_node() {
    let config = config();
    let patcher = Patcher::new(&config, "net.minecraftforge:forge");
    let profile = profile();
    let mapping = patcher.compute_path(&patcher.set_argument("{MAPPINGS}", &profile));
    assert_eq!(
        mapping,
        "/root/loader/libraries/de/oceanlabs/mcp/mcp_config/1.20.1-20230612.114412/mcp_config-1.20.1-20230612.114412-mappings.txt"
    );
    let binpatch = patcher.set_argument("{BINPATCH}", &profile);
    assert_eq!(
        binpatch,
        "/root/loader/libraries/net/minecraftforge/forge/1.20.1-47.2.0/forge-1.20.1-47.2.0-universal-clientdata.lzma"
    );
    assert_eq!(patcher.set_argument("{MC_SLIM_SHA}", &profile), "045d6edac8fe1b004e159c49704b5b729f551079");
    assert_eq!(patcher.set_argument("{MINECRAFT_JAR}", &profile), "/root/versions/1.20.1/1.20.1.jar");
    assert_eq!(patcher.set_argument("{SIDE}", &profile), "client");
    assert_eq!(patcher.set_argument("{ROOT}/run.sh", &profile), "/root/loader/run.sh");
    assert_eq!(patcher.set_argument("--task", &profile), "--task");
}

#[test]
fn check_reports_missing_outputs() {
    let config = config();
    let patcher = Patcher::new(&config, "net.minecraftforge:forge");
    let mut profile = profile();
    profile.processors[0].args = vec!["--output".into(), "{MAPPINGS}".into(), "--apply".into(), "{BINPATCH}".into()];
    assert!(!patcher.check(&profile, &Vec::new()));
    let outputs = patcher.outputs(&profile);
    assert!(patcher.check(&profile, &outputs));
    profile.processors[0].sides = Some(vec!["server".into()]);
    assert!(patcher.check(&profile, &Vec::new()));
}

fn versions(games: &[&str], loaders: &[&str]) -> VersionsMeta {
    VersionsMeta {
        game: games.iter().map(|v| GameVersion { version: v.to_string(), stable: true }).collect(),
        loader: loaders.iter().map(|v| LoaderVersion { version: v.to_string(), stable: true }).collect(),
    }
}

#[test]
fn fabric_loader_selection() {
    let meta = versions(&["1.20.1"], &["0.17.0-beta.1", "0.16.9", "0.16.8"]);
    assert_eq!(select_loader(LoaderKind::Fabric, "1.20.1", "latest", &meta), Ok("0.17.0-beta.1".to_owned()));
    assert_eq!(select_loader(LoaderKind::Fabric, "1.20.1", "recommended", &meta), Ok("0.17.0-beta.1".to_owned()));
    assert_eq!(select_loader(LoaderKind::Quilt, "1.20.1", "recommended", &meta), Ok("0.16.9".to_owned()));
    assert_eq!(select_loader(LoaderKind::Fabric, "1.20.1", "0.16.8", &meta), Ok("0.16.8".to_owned()));
    assert_eq!(
        select_loader(LoaderKind::Fabric, "1.20.1", "0.1", &meta),
        Err(LoaderError::Unsupported("Fabric Loader 0.1 not found, Available builds: 0.17.0-beta.1, 0.16.9, 0.16.8".into()))
    );
    assert_eq!(
        select_loader(LoaderKind::Quilt, "1.8", "latest", &meta),
        Err(LoaderError::Unsupported("QuiltMC doesn't support Minecraft 1.8".into()))
    );
}

#[test]
fn fabric_libraries_come_from_their_repository() {
    let mut lib = bare_library("org.ow2.asm:asm:9.7.1");
    lib.url = Some("https://maven.fabricmc.net/".into());
    let (target, url) = library_fetch(&lib, "/root/loader").unwrap();
    assert_eq!(target, "/root/loader/libraries/org/ow2/asm/asm/9.7.1/asm-9.7.1.jar");
    assert_eq!(url, "https://maven.fabricmc.net/org/ow2/asm/asm/9.7.1/asm-9.7.1.jar");
    lib.rules = Some(Vec::new());
    assert!(library_fetch(&lib, "/root/loader").is_none());
}

fn strings(list: &[&str]) -> Vec<String> {
    list.iter().map(|s| s.to_string()).collect()
}

#[test]
fn forge_build_selection() {
    let metadata = vec![("1.20.1".to_owned(), strings(&["1.20.1-47.2.0", "1.20.1-47.1.0"]))];
    let builds = forge_builds(&metadata, "1.20.1").unwrap();
    assert_eq!(forge_builds(&metadata, "1.8"), Err(LoaderError::Unsupported("Forge 1.8 not supported".into())));
    let promotions = Promotions { promos: vec![("1.20.1-latest".into(), "47.2.0".into()), ("1.20.1-recommended".into(), "47.1.0".into())] };
    assert_eq!(wanted_build("latest", "1.20.1", &promotions, &builds).as_deref(), Some("1.20.1-47.2.0"));
    assert_eq!(wanted_build("recommended", "1.20.1", &promotions, &builds).as_deref(), Some("1.20.1-47.1.0"));
    let only_latest = Promotions { promos: vec![("1.20.1-latest".into(), "47.2.0".into())] };
    assert_eq!(wanted_build("recommended", "1.20.1", &only_latest, &builds).as_deref(), Some("1.20.1-47.2.0"));
    assert_eq!(wanted_build("1.20.1-47.1.0", "1.20.1", &Promotions { promos: vec![] }, &builds).as_deref(), Some("1.20.1-47.1.0"));
    assert_eq!(choose_forge_build(&builds, Some("1.20.1-47.1.0".into())), Ok("1.20.1-47.1.0".to_owned()));
    assert_eq!(
        choose_forge_build(&builds, None),
        Err(LoaderError::Unsupported("Build undefined not found, Available builds: 1.20.1-47.2.0, 1.20.1-47.1.0".into()))
    );
}

#[test]
fn forge_installer_prefers_the_installer_file() {
    let meta = BuildMeta {
        classifiers: vec![
            ("universal".into(), vec![("zip".into(), "u-md5".into())]),
            ("installer".into(), vec![("jar".into(), "i-md5".into())]),
        ],
    };
    let file = forge_installer(&meta, "1.20.1-47.2.0", "/root/loader").unwrap();
    assert_eq!(file.url, "https://maven.minecraftforge.net/net/minecraftforge/forge/1.20.1-47.2.0/forge-1.20.1-47.2.0-installer.jar");
    assert_eq!(file.file_name, "forge-1.20.1-47.2.0-installer.jar");
    assert_eq!(file.path, "/root/loader/libraries/net/minecraftforge/installer/forge-1.20.1-47.2.0-installer.jar");
    assert_eq!(file.md5.as_deref(), Some("i-md5"));
    let empty = BuildMeta { classifiers: vec![("installer".into(), vec![])] };
    assert_eq!(forge_installer(&empty, "b", "/r").unwrap_err(), LoaderError::Invalid("Invalid forge installer".into()));
    assert!(check_installer_hash("ABCDEF", "abcdef").is_ok());
    assert_eq!(check_installer_hash("abc", "abd"), Err(LoaderError::Invalid("Invalid hash".into())));
}

#[test]
fn neoforge_installer_selection() {
    let legacy = strings(&["1.20.1-47.1.3", "1.20.1-47.1.5", "1.19.2-1"]);
    let modern = strings(&["21.1.72", "21.1.80", "21.4.1"]);
    let old = neoforge_installer("1.20.1", "latest", &legacy, &modern, "/root/loader").unwrap();
    assert!(old.old_api);
    assert_eq!(old.url, "https://maven.neoforged.net/releases/net/neoforged/forge/1.20.1-47.1.5/forge-1.20.1-47.1.5-installer.jar");
    assert_eq!(old.file_name, "neoForge-1.20.1-47.1.5-installer.jar");
    assert_eq!(old.path, "/root/loader/libraries/net/neoforged/installer/neoForge-1.20.1-47.1.5-installer.jar");
    let new = neoforge_installer("1.21.1", "21.1.72", &legacy, &modern, "/root/loader").unwrap();
    assert!(!new.old_api);
    assert_eq!(new.url, "https://maven.neoforged.net/releases/net/neoforged/neoforge/21.1.72/neoforge-21.1.72-installer.jar");
    assert_eq!(
        neoforge_installer("1.21.1", "9", &legacy, &modern, "/r").unwrap_err(),
        LoaderError::Unsupported("NeoForge Loader 9 not found, Available builds: 21.1.72, 21.1.80".into())
    );
    assert_eq!(
        neoforge_installer("1.7.10", "latest", &legacy, &modern, "/r").unwrap_err(),
        LoaderError::Unsupported("NeoForge doesn't support Minecraft 1.7.10".into())
    );
}

#[test]
fn install_profiles_name_their_universal_jar() {
    assert_eq!(universal_prefix(Flavor::NeoForge, true), "net.neoforged:forge");
    assert_eq!(universal_prefix(Flavor::NeoForge, false), "net.neoforged:neoforge");
    let mut profile = profile();
    assert_eq!(version_json_name(&profile), "version.json");
    profile.json = None;
    assert_eq!(version_json_name(&profile), "version.json");
    assert!(matches!(universal_source(&profile, "/root/loader"), UniversalSource::Nothing));
    profile.path = Some("net.minecraftforge:forge:1.20.1-47.2.0".into());
    match universal_source(&profile, "/root/loader") {
        UniversalSource::Maven { filter, dir } => {
            assert_eq!(filter, "maven/net/minecraftforge/forge/1.20.1-47.2.0");
            assert_eq!(dir, "/root/loader/libraries/net/minecraftforge/forge/1.20.1-47.2.0");
        }
        other => panic!("unexpected: {other:?}"),
    }
    let (target, name) = maven_entry_target("/root/d", &"maven/a/b/file.jar".to_owned());
    assert_eq!((target.as_str(), name.as_str()), ("/root/d/file.jar", "file.jar"));
    let (target, name) = client_data_target(&profile, "net.minecraftforge:forge", "/root/loader").unwrap();
    assert_eq!(name, "forge-1.20.1-47.2.0-clientdata.lzma");
    assert_eq!(target, "/root/loader/libraries/net/minecraftforge/forge/1.20.1-47.2.0/forge-1.20.1-47.2.0-clientdata.lzma");
    profile.path = None;
    let (_, name) = client_data_target(&profile, "net.minecraftforge:forge", "/root/loader").unwrap();
    assert_eq!(name, "forge-1.20.1-47.2.0-universal-clientdata.lzma");
    profile.processors.clear();
    assert!(client_data_target(&profile, "net.minecraftforge:forge", "/root/loader").is_none());
}

#[test]
fn empty_neoforge_profiles_are_refused() {
    let empty = InstallSection { libraries: vec![], processors: vec![], data: vec![], path: None, file_path: None, json: None };
    assert_eq!(check_profile(Flavor::NeoForge, &empty), Err(LoaderError::Invalid("Invalid neoForge profile".into())));
    assert_eq!(check_profile(Flavor::Forge, &empty), Ok(()));
    assert_eq!(check_profile(Flavor::NeoForge, &profile()), Ok(()));
}

#[test]
fn installer_libraries_are_merged_once_and_stepped() {
    let merged = merge_libraries(
        &vec![bare_library("a:a:1"), bare_library("b:b:1")],
        &vec![bare_library("b:b:1"), bare_library("c:c:1"), bare_library("a:a:1")],
    );
    let names: Vec<&str> = merged.iter().map(|l| l.name.as_str()).collect();
    assert_eq!(names, vec!["a:a:1", "b:b:1", "c:c:1"]);

    let universal = bare_library("net.minecraftforge:forge:1.20.1-47.2.0:universal");
    assert!(matches!(library_step(&universal, Flavor::Forge, true, Platform::Linux, "/l"), LibraryStep::Skip));
    match library_step(&universal, Flavor::Forge, false, Platform::Linux, "/l") {
        LibraryStep::Fetch { file_path, base, name } => {
            assert_eq!(name, "forge-1.20.1-47.2.0-universal.jar");
            assert_eq!(file_path, "/l/libraries/net/minecraftforge/forge/1.20.1-47.2.0/forge-1.20.1-47.2.0-universal.jar");
            assert_eq!(base, "net/minecraftforge/forge/1.20.1-47.2.0/forge-1.20.1-47.2.0-universal.jar");
        }
        LibraryStep::Skip => panic!("should fetch"),
    }
    let mut native = bare_library("org.lwjgl.lwjgl:lwjgl-platform:2.9.4");
    native.natives = Some(vec![("linux".into(), "natives-linux".into())]);
    match library_step(&native, Flavor::Forge, true, Platform::Linux, "/l") {
        LibraryStep::Fetch { base, name, .. } => {
            assert_eq!(name, "lwjgl-platform-2.9.4-natives-linux.jar");
            assert_eq!(base, "org/lwjgl/lwjgl/lwjgl-platform/2.9.4/");
        }
        LibraryStep::Skip => panic!("should fetch"),
    }
    let mut ruled = bare_library("x:y:1");
    ruled.rules = Some(Vec::new());
    assert!(matches!(library_step(&ruled, Flavor::NeoForge, false, Platform::Linux, "/l"), LibraryStep::Skip));

    let mut with_artifact = bare_library("x:y:1");
    with_artifact.downloads = Some(LibraryDownloads {
        artifact: Some(Artifact { path: None, sha1: "s".into(), size: 9, url: "https://a".into() }),
        classifiers: None,
    });
    assert_eq!(library_source(None, &with_artifact), Some(("https://a".to_owned(), 9)));
    assert_eq!(library_source(Some(("https://m".into(), 3)), &with_artifact), Some(("https://m".to_owned(), 3)));
    assert_eq!(library_source(None, &bare_library("x:y:1")), None);
    assert_eq!(missing_library(Flavor::Forge, "f.jar"), Ok("Library f.jar not found".to_owned()));
    assert_eq!(missing_library(Flavor::NeoForge, "f.jar"), Err(LoaderError::Invalid("Impossible to download f.jar".into())));
}
