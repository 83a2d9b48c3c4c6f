use crust_core::foundation::os::{Arch, Platform};
use crust_core::foundation::rules::{Action, OsRule, Rule};
use crust_core::providers::launchermeta::{Artifact, Library, LibraryDownloads, VersionJson};
use crust_core::resolver::patches::{
    apply, patch_argument, version_below, JNA_MIN_VERSION, JNA_SHA1,
};
use crust_core::resolver::{is_old, GameFiles, Resolver, LABEL_NATIVE};

fn artifact(path: &str, sha1: &str, url: &str) -> Artifact {
    Artifact { path: Some(path.into()), sha1: sha1.into(), size: 1, url: url.into() }
}

fn library(name: &str) -> Library {
    Library {
        name: name.to_owned(),
        downloads: Some(LibraryDownloads {
            artifact: Some(artifact("old", "old", "old")),
            classifiers: None,
        }),
        natives: None,
        rules: None,
        extract: None,
        url: None,
    }
}

fn os_rule(action: Action, name: Option<&str>) -> Rule {
    Rule {
        action,
        os: name.map(|n| OsRule { name: Some(n.into()), ..OsRule::default() }),
        features: None,
    }
}

fn version(id: &str, assets: Option<&str>, libraries: Vec<Library>) -> VersionJson {
    VersionJson {
        id: id.into(),
        kind: "release".into(),
        main_class: "m".into(),
        inherits_from: None,
        arguments: None,
        minecraft_arguments: None,
        asset_index: None,
        assets: assets.map(str::to_owned),
        downloads: vec![("client".into(), artifact("c", "c", "cu"))],
        libraries,
        java_version: None,
        logging: None,
    }
}

#[test]
fn upgrades_old_jna_on_macos() {
    let patched = apply(
        &[
            library("net.java.dev.jna:jna:5.8.0"),
            library("net.java.dev.jna:jna-platform:5.12.1"),
            library("com.mojang:text2speech:1.11.3"),
        ],
        Platform::MacOs,
    );
    assert_eq!(patched[0].name, "net.java.dev.jna:jna:5.13.0");
    assert_eq!(patched[1].name, "net.java.dev.jna:jna-platform:5.13.0");
    assert_eq!(patched[2].name, "com.mojang:text2speech:1.11.3");
    let artifact = patched[0].downloads.as_ref().unwrap().artifact.as_ref().unwrap();
    assert_eq!(artifact.sha1, JNA_SHA1);
}

#[test]
fn keeps_recent_jna_and_other_platforms() {
    let recent = apply(&[library("net.java.dev.jna:jna:5.13.0")], Platform::MacOs);
    assert_eq!(recent[0].name, "net.java.dev.jna:jna:5.13.0");
    assert_eq!(recent[0].downloads.as_ref().unwrap().artifact.as_ref().unwrap().sha1, "old");
    let newer = apply(&[library("net.java.dev.jna:jna:5.17.0")], Platform::MacOs);
    assert_eq!(newer[0].name, "net.java.dev.jna:jna:5.17.0");
    let windows = apply(&[library("net.java.dev.jna:jna:5.8.0")], Platform::Windows);
    assert_eq!(windows[0].name, "net.java.dev.jna:jna:5.8.0");
}

#[test]
fn rewrites_merge_modules_jar_names_on_macos() {
    let arg = "-DmergeModules=jna-5.10.0.jar,jna-platform-5.10.0.jar";
    assert_eq!(patch_argument(arg, Platform::MacOs), "-DmergeModules=jna-5.13.0.jar,jna-platform-5.13.0.jar");
    assert_eq!(patch_argument(arg, Platform::Windows), arg);
    let recent = "-DmergeModules=jna-5.14.0.jar,jna-platform-5.14.0.jar";
    assert_eq!(patch_argument(recent, Platform::MacOs), recent);
    let ignore = "-DignoreList=bootstraplauncher,securejarhandler,1.20.1.jar";
    assert_eq!(patch_argument(ignore, Platform::MacOs), ignore);
}

#[test]
fn compares_versions() {
    assert!(version_below("5.8.0", JNA_MIN_VERSION));
    assert!(version_below("5.12.1", JNA_MIN_VERSION));
    assert!(!version_below("5.13.0", JNA_MIN_VERSION));
    assert!(!version_below("5.17.0", JNA_MIN_VERSION));
    assert!(version_below("4.4.0", JNA_MIN_VERSION));
}

fn file_name(path: &str) -> String {
    path.rsplit('/').next().unwrap().to_owned()
}

#[test]
fn filters_libraries_like_node() {
    let lib = |name: &str, path: &str, rules: Option<Vec<Rule>>| Library {
        name: name.into(),
        downloads: Some(LibraryDownloads { artifact: Some(artifact(path, "s", "u")), classifiers: None }),
        natives: None,
        rules,
        extract: None,
        url: None,
    };
    let json = version(
        "1.21.1",
        None,
        vec![
            lib("org.lwjgl:lwjgl:3.3.3", "org/lwjgl/lwjgl/3.3.3/lwjgl-3.3.3.jar", None),
            lib(
                "org.lwjgl:lwjgl:3.3.3:natives-macos-arm64",
                "org/lwjgl/lwjgl/3.3.3/lwjgl-3.3.3-natives-macos-arm64.jar",
                Some(vec![os_rule(Action::Allow, Some("osx"))]),
            ),
            lib(
                "org.lwjgl:lwjgl:3.3.3:natives-windows",
                "org/lwjgl/lwjgl/3.3.3/lwjgl-3.3.3-natives-windows.jar",
                Some(vec![os_rule(Action::Allow, Some("windows"))]),
            ),
            lib(
                "com.mojang:x:1",
                "com/mojang/x/1/x-1.jar",
                Some(vec![os_rule(Action::Allow, None), os_rule(Action::Disallow, Some("osx"))]),
            ),
        ],
    );
    let mut files = GameFiles::default();
    Resolver::new(Platform::MacOs, Arch::Arm64).resolve_libraries(&json, "/root", &mut files);
    let names: Vec<String> = files.downloads.iter().map(|d| file_name(&d.path)).collect();
    assert_eq!(names, vec!["lwjgl-3.3.3.jar", "lwjgl-3.3.3-natives-macos-arm64.jar", "x-1.jar"]);
    assert!(files.natives.is_empty());
}

#[test]
fn resolves_legacy_natives_classifiers() {
    let lib = Library {
        name: "org.lwjgl.lwjgl:lwjgl-platform:2.9.4".into(),
        downloads: Some(LibraryDownloads {
            artifact: None,
            classifiers: Some(vec![
                (
                    "natives-osx".into(),
                    artifact("org/lwjgl/lwjgl/lwjgl-platform/2.9.4/lwjgl-platform-2.9.4-natives-osx.jar", "s", "u"),
                ),
                (
                    "natives-windows-64".into(),
                    artifact("org/lwjgl/lwjgl/lwjgl-platform/2.9.4/lwjgl-platform-2.9.4-natives-windows-64.jar", "s", "u"),
                ),
            ]),
        }),
        natives: Some(vec![
            ("linux".into(), "natives-linux".into()),
            ("windows".into(), "natives-windows-${arch}".into()),
            ("osx".into(), "natives-osx".into()),
        ]),
        rules: None,
        extract: None,
        url: None,
    };
    let json = version("1.12.2", None, vec![lib]);
    let mut mac = GameFiles::default();
    Resolver::new(Platform::MacOs, Arch::X64).resolve_libraries(&json, "/root", &mut mac);
    assert_eq!(mac.natives.len(), 1);
    assert!(mac.natives[0].ends_with("lwjgl-platform-2.9.4-natives-osx.jar"));
    assert_eq!(mac.downloads[0].label, LABEL_NATIVE);

    let mut win = GameFiles::default();
    Resolver::new(Platform::Windows, Arch::X64).resolve_libraries(&json, "/root", &mut win);
    assert!(win.natives[0].ends_with("lwjgl-platform-2.9.4-natives-windows-64.jar"));
    let mut linux = GameFiles::default();
    Resolver::new(Platform::Linux, Arch::X64).resolve_libraries(&json, "/root", &mut linux);
    assert!(linux.natives.is_empty());
}

#[test]
fn detects_old_versions() {
    assert!(is_old(&version("1.5.2", Some("legacy"), vec![])));
    assert!(is_old(&version("1.2.5", Some("pre-1.6"), vec![])));
    assert!(!is_old(&version("1.21", Some("17"), vec![])));
}

#[test]
fn intel_mode_switches_the_resolver_architecture() {
    let r = Resolver::new(Platform::MacOs, Arch::Arm64).with_intel_mac(true);
    assert_eq!(r.arch(), Arch::X64);
    let r = Resolver::new(Platform::Linux, Arch::Arm64).with_intel_mac(true);
    assert_eq!(r.arch(), Arch::Arm64);
    assert_eq!(r.with_target(Platform::Windows, Arch::X86).platform(), Platform::Windows);
}
