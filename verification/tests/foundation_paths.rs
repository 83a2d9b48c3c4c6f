use crust_core::foundation::maven::{library_path, MavenCoordinate};
use crust_core::foundation::options::{join_normalized, LaunchOptions, LoaderKind};
use crust_core::foundation::os::{
    effective_arch, java_runtime_platform, native_classifier, Arch, Platform,
};

#[test]
fn library_path_matches_node_get_path_libraries() {
    let forge = library_path("net.minecraftforge:forge:1.19-41.0.63", None, None);
    assert_eq!(forge.path, "net/minecraftforge/forge/1.19-41.0.63");
    assert_eq!(forge.name, "forge-1.19-41.0.63.jar");
    assert_eq!(forge.version, "1.19-41.0.63");

    let mapping = library_path(
        "de.oceanlabs.mcp:mcp_config:1.20.1-20230612.114412:mappings@txt",
        None,
        None,
    );
    assert_eq!(mapping.path, "de/oceanlabs/mcp/mcp_config/1.20.1-20230612.114412");
    assert_eq!(mapping.name, "mcp_config-1.20.1-20230612.114412-mappings.txt");

    let zip = library_path("de.oceanlabs.mcp:mcp_config:1.12.2-20200226.224830@zip", None, None);
    assert_eq!(zip.path, "de/oceanlabs/mcp/mcp_config/1.12.2-20200226.224830");
    assert_eq!(zip.name, "mcp_config-1.12.2-20200226.224830.zip");
    assert_eq!(zip.version, "1.12.2-20200226.224830@zip");

    let at_jar = library_path("org.ow2.asm:asm-analysis:9.7@jar", None, None);
    assert_eq!(at_jar.name, "asm-analysis-9.7.jar");
    assert_eq!(at_jar.path, "org/ow2/asm/asm-analysis/9.7");

    let native = library_path(
        "org.lwjgl.lwjgl:lwjgl-platform:2.9.4-nightly-20150209",
        Some("-natives-osx"),
        None,
    );
    assert_eq!(native.name, "lwjgl-platform-2.9.4-nightly-20150209-natives-osx.jar");

    let client_data = library_path(
        "net.minecraftforge:forge:1.20.1-47.2.0:universal",
        Some("-clientdata"),
        Some(".lzma"),
    );
    assert_eq!(client_data.name, "forge-1.20.1-47.2.0-universal-clientdata.lzma");
    assert_eq!(
        client_data.full(),
        "net/minecraftforge/forge/1.20.1-47.2.0/forge-1.20.1-47.2.0-universal-clientdata.lzma"
    );
}

#[test]
fn parses_simple_coordinate() {
    let c: MavenCoordinate = "com.mojang:brigadier:1.0.18".parse().unwrap();
    assert_eq!(c.path(), "com/mojang/brigadier/1.0.18/brigadier-1.0.18.jar");
    assert_eq!(c.key(), "com.mojang:brigadier");
}

#[test]
fn parses_classifier_and_extension() {
    let c: MavenCoordinate = "org.lwjgl:lwjgl:3.3.1:natives-macos-arm64".parse().unwrap();
    assert_eq!(c.path(), "org/lwjgl/lwjgl/3.3.1/lwjgl-3.3.1-natives-macos-arm64.jar");
    let c: MavenCoordinate = "net.minecraftforge:forge:1.20.1-47.2.0:universal@zip".parse().unwrap();
    assert_eq!(c.file_name(), "forge-1.20.1-47.2.0-universal.zip");
    assert_eq!(c.to_string(), "net.minecraftforge:forge:1.20.1-47.2.0:universal@zip");
}

#[test]
fn rejects_invalid() {
    assert!("only:two".parse::<MavenCoordinate>().is_err());
    assert!("a:b:c:d:e".parse::<MavenCoordinate>().is_err());
}

#[test]
fn parses_loader_kinds() {
    assert_eq!(LoaderKind::parse("Forge"), Some(LoaderKind::Forge));
    assert_eq!(LoaderKind::parse("legacyfabric"), Some(LoaderKind::LegacyFabric));
    assert_eq!(LoaderKind::parse("nope"), None);
}

#[test]
fn joins_like_node_path_join() {
    let base = "/root";
    assert_eq!(join_normalized(base, "./loader"), "/root/loader");
    assert_eq!(join_normalized(base, "./"), "/root");
    assert_eq!(join_normalized(base, "loader/forge"), "/root/loader/forge");
    assert_eq!(join_normalized(base, "/abs"), "/root/abs");
}

#[test]
fn directories_follow_instance_and_loader_options() {
    let mut options = LaunchOptions::new("/root", "1.20.1");
    assert_eq!(options.game_dir(), "/root");
    assert_eq!(options.loader_dir(), "/root/loader");
    options.instance = Some("hypixel".into());
    options.loader.path = "./".into();
    options.mcp = Some("mcp.jar".into());
    assert_eq!(options.game_dir(), "/root/instances/hypixel");
    assert_eq!(options.loader_dir(), "/root");
    assert_eq!(options.mcp_path(), Some("/root/instances/hypixel/mcp.jar".to_owned()));
    assert_eq!(options.concurrency(), 5);
}

#[test]
fn maps_java_runtime_platforms() {
    assert_eq!(java_runtime_platform(Platform::MacOs, Arch::Arm64), Some("mac-os-arm64"));
    assert_eq!(java_runtime_platform(Platform::Windows, Arch::X64), Some("windows-x64"));
    assert_eq!(java_runtime_platform(Platform::Linux, Arch::Arm64), None);
}

#[test]
fn intel_mode_only_affects_apple_silicon() {
    assert_eq!(effective_arch(Platform::MacOs, Arch::Arm64, true), Arch::X64);
    assert_eq!(effective_arch(Platform::MacOs, Arch::Arm64, false), Arch::Arm64);
    assert_eq!(effective_arch(Platform::Linux, Arch::Arm64, true), Arch::Arm64);
    assert_eq!(effective_arch(Platform::MacOs, Arch::X64, true), Arch::X64);
}

#[test]
fn native_classifier_falls_back_to_node_platform_names() {
    let natives = vec![
        ("darwin".to_owned(), "natives-macos".to_owned()),
        ("windows".to_owned(), String::new()),
        ("win32".to_owned(), "natives-windows".to_owned()),
    ];
    assert_eq!(native_classifier(&natives, Platform::MacOs).as_deref(), Some("natives-macos"));
    assert_eq!(native_classifier(&natives, Platform::Windows).as_deref(), Some("natives-windows"));
    assert_eq!(native_classifier(&natives, Platform::Linux), None);
}

#[test]
fn platform_names_cover_every_platform() {
    for platform in [Platform::Windows, Platform::MacOs, Platform::Linux] {
        assert!(!platform.mojang_name().is_empty());
        assert!(!platform.node_name().is_empty());
    }
    for arch in [Arch::X64, Arch::X86, Arch::Arm64, Arch::Arm] {
        assert!(!arch.bits().is_empty());
    }
    assert_eq!(Platform::Windows.classpath_separator(), ';');
    assert_eq!(Platform::Linux.classpath_separator(), ':');
    assert_eq!(Platform::Windows.java_executable(), "bin/javaw.exe");
    assert_eq!(Platform::MacOs.java_executable(), "bin/java");
}

#[test]
fn loader_build_is_lower_case_and_mcp_needs_a_path() {
    let mut options = LaunchOptions::new("/root", "1.20.1");
    assert_eq!(options.mcp_path(), None);
    options.loader.build = "Recommended".into();
    assert_eq!(options.loader_build(), "recommended");
    options.download_concurrency = 0;
    assert_eq!(options.concurrency(), 1);
    options.download_concurrency = 100;
    assert_eq!(options.concurrency(), 30);
    assert_eq!(join_normalized("/root/a", "../b"), "/root/b");
}

#[test]
fn parsed_coordinate_reads_back_from_its_text() {
    for text in [
        "com.mojang:brigadier:1.0.18",
        "org.lwjgl:lwjgl:3.3.1:natives-macos-arm64@jar",
        "a:b:c:@zip",
        "net.minecraftforge:forge:1.20.1-47.2.0:universal@zip",
    ] {
        let c: MavenCoordinate = text.parse().unwrap();
        let again: MavenCoordinate = c.to_string().parse().unwrap();
        assert_eq!(again, c);
    }
    let c: MavenCoordinate = "a:b:c:@zip".parse().unwrap();
    assert_eq!(c.to_string(), "a:b:c@zip");
}
