use crust_core::authenticator::account::{
    Account, AccountMeta, AccountProfile, AccountType, Ownership, XboxAccount,
};
use crust_core::foundation::options::{LaunchOptions, LoaderKind};
use crust_core::foundation::os::Platform;
use crust_core::foundation::rules::{Action, OsRule, Rule};
use crust_core::launcher::arguments::{
    arg_key, build, classpath, game_arguments, jvm_arguments, loader_arguments, ArgumentsInput,
};
use crust_core::launcher::java::{azul_next, first_archive_type, package_directory, AzulNext};
use crust_core::loader::LoaderJson;
use crust_core::providers::launchermeta::{
    Argument, ArgumentValue, Arguments, Artifact, AssetIndexRef, DefaultUserJvm, Library,
    LibraryDownloads, Logging, LoggingClient, LoggingFile, VersionJson,
};

fn account() -> Account {
    Account {
        access_token: "token".into(),
        client_token: "client".into(),
        uuid: "uuid".into(),
        name: "Player".into(),
        refresh_token: Some("refresh".into()),
        user_properties: "{}".into(),
        meta: AccountMeta::xbox(0, Ownership::Owned, vec![]),
        xbox_account: Some(XboxAccount { xuid: Some("xuid".into()), gamertag: None, age_group: None }),
        profile: AccountProfile::default(),
        client_id: None,
        user_info: None,
    }
}

fn offline_account() -> Account {
    let mut account = crust_core::authenticator::yggdrasil::offline("Steve");
    account.access_token = "offline-token".into();
    account.client_token = "offline-client".into();
    account
}

fn plain(list: &[&str]) -> Vec<Argument> {
    list.iter().map(|s| Argument::Plain(s.to_string())).collect()
}

fn strings(list: &[&str]) -> Vec<String> {
    list.iter().map(|s| s.to_string()).collect()
}

fn os_rule(name: &str) -> Rule {
    Rule { action: Action::Allow, os: Some(OsRule { name: Some(name.into()), ..OsRule::default() }), features: None }
}

fn artifact() -> Artifact {
    Artifact { path: Some("p".into()), sha1: "s".into(), size: 1, url: "u".into() }
}

fn library(name: &str, rules: Option<Vec<Rule>>) -> Library {
    Library {
        name: name.into(),
        downloads: Some(LibraryDownloads { artifact: Some(artifact()), classifiers: None }),
        natives: None,
        rules,
        extract: None,
        url: None,
    }
}

fn bare_library(name: &str) -> Library {
    Library { name: name.into(), downloads: None, natives: None, rules: None, extract: None, url: None }
}

fn version(id: &str) -> VersionJson {
    VersionJson {
        id: id.into(),
        kind: "release".into(),
        main_class: "m".into(),
        inherits_from: None,
        arguments: None,
        minecraft_arguments: None,
        asset_index: None,
        assets: None,
        downloads: Vec::new(),
        libraries: Vec::new(),
        java_version: None,
        logging: None,
    }
}

fn modern_version() -> VersionJson {
    let mut game = plain(&["--username", "${auth_player_name}", "--version", "${version_name}", "--uuid", "${auth_uuid}"]);
    let mut demo_features = Vec::new();
    demo_features.push(("is_demo_user".to_owned(), true));
    game.push(Argument::Conditional {
        rules: vec![Rule { action: Action::Allow, os: None, features: Some(demo_features) }],
        value: ArgumentValue::One("--demo".into()),
    });
    game.extend(plain(&["--accessToken", "${auth_access_token}", "--clientId", "${clientid}", "--xuid", "${auth_xuid}", "--userType", "${user_type}"]));
    VersionJson {
        id: "1.20.1".into(),
        kind: "release".into(),
        main_class: "net.minecraft.client.main.Main".into(),
        inherits_from: None,
        arguments: Some(Arguments {
            game,
            jvm: plain(&["-Djava.library.path=${natives_directory}", "-cp", "${classpath}"]),
            default_user_jvm: vec![
                DefaultUserJvm { rules: None, value: Some(ArgumentValue::Many(strings(&["-Xms2G", "-XX:+UseStringDeduplication"]))) },
                DefaultUserJvm {
                    rules: Some(vec![os_rule("osx"), os_rule("linux")]),
                    value: Some(ArgumentValue::Many(strings(&["-XX:+UseZGC"]))),
                },
            ],
        }),
        minecraft_arguments: None,
        asset_index: Some(AssetIndexRef { id: "5".into(), sha1: "a".into(), size: 1, url: "u".into(), total_size: None }),
        assets: Some("5".into()),
        downloads: vec![("client".into(), Artifact { path: None, sha1: "c".into(), size: 1, url: "cu".into() })],
        libraries: vec![
            library("org.lwjgl:lwjgl:3.3.1", None),
            library("org.lwjgl:lwjgl:3.3.1:natives-windows", Some(vec![os_rule("windows")])),
            library("com.mojang:logging:1.1.1", None),
        ],
        java_version: None,
        logging: Some(Logging {
            client: Some(LoggingClient {
                argument: "-Dlog4j.configurationFile=${path}".into(),
                file: LoggingFile { id: "client-1.12.xml".into(), sha1: "x".into(), size: 1, url: "u".into() },
                kind: "log4j2-xml".into(),
            }),
        }),
    }
}

fn forge_loader() -> LoaderJson {
    LoaderJson {
        raw: "{}".into(),
        id: Some("1.20.1-forge-47.2.0".into()),
        main_class: Some("cpw.mods.bootstraplauncher.BootstrapLauncher".into()),
        inherits_from: None,
        minecraft_arguments: None,
        game_arguments: strings(&["--launchTarget", "forgeclient", "--fml.forgeVersion", "47.2.0"]),
        jvm_arguments: strings(&[
            "-DignoreList=bootstraplauncher,${version_name}.jar",
            "-DlibraryDirectory=${library_directory}",
            "-p",
            "${library_directory}/a.jar${classpath_separator}${library_directory}/b.jar",
        ]),
        libraries: vec![
            bare_library("cpw.mods:securejarhandler:2.1.10"),
            bare_library("org.ow2.asm:asm:9.5"),
            bare_library("org.apache.logging.log4j:log4j-slf4j2-impl:2.19.0"),
            bare_library("com.mojang:logging:1.1.1"),
        ],
        loader_dir: "/root/loader".into(),
    }
}

fn options() -> LaunchOptions {
    LaunchOptions::new("/root", "1.20.1")
}

fn input<'a>(version: &'a VersionJson, loader: Option<&'a LoaderJson>, account: &'a Account, options: &'a LaunchOptions, natives_list: bool) -> ArgumentsInput<'a> {
    ArgumentsInput { version, loader, account, options, natives_list, platform: Platform::Linux, dock_icon: None }
}

#[test]
fn game_arguments_drop_objects_and_replace_exact_placeholders() {
    let version = modern_version();
    let account = account();
    let options = options();
    let game = game_arguments(&input(&version, None, &account, &options, false));
    assert_eq!(
        game,
        vec!["--username", "Player", "--version", "1.20.1", "--uuid", "uuid", "--accessToken", "token", "--clientId", "client", "--xuid", "xuid", "--userType", "msa"]
    );
}

#[test]
fn game_arguments_merge_and_dedupe_legacy_loader_arguments() {
    let mut version = version("1.12.2");
    version.minecraft_arguments = Some("--username ${auth_player_name} --version ${version_name} --userType ${user_type} --versionType ${version_type}".into());
    version.assets = Some("1.12".into());
    let loader = LoaderJson {
        raw: "{}".into(),
        id: Some("1.12.2-forge-14.23.5.2860".into()),
        main_class: Some("net.minecraft.launchwrapper.Launch".into()),
        inherits_from: None,
        minecraft_arguments: Some("--username ${auth_player_name} --version ${version_name} --userType ${user_type} --tweakClass net.minecraftforge.fml.common.launcher.FMLTweaker --versionType Forge".into()),
        game_arguments: Vec::new(),
        jvm_arguments: Vec::new(),
        libraries: Vec::new(),
        loader_dir: "/root/loader".into(),
    };
    let account = account();
    let options = LaunchOptions::new("/root", "1.12.2");
    let game = game_arguments(&input(&version, Some(&loader), &account, &options, true));
    assert_eq!(
        game,
        vec!["--username", "Player", "--version", "1.12.2-forge-14.23.5.2860", "--userType", "msa", "--versionType", "release", "--tweakClass", "net.minecraftforge.fml.common.launcher.FMLTweaker", "Forge"]
    );
}

#[test]
fn user_type_is_xbox_for_1_16() {
    let mut version = version("1.16.5");
    version.arguments = Some(Arguments { game: plain(&["${user_type}"]), jvm: Vec::new(), default_user_jvm: Vec::new() });
    let account = account();
    let options = LaunchOptions::new("/root", "1.16.5");
    assert_eq!(game_arguments(&input(&version, None, &account, &options, false)), vec!["Xbox"]);
}

#[test]
fn jvm_arguments_follow_node_order() {
    let version = modern_version();
    let account = account();
    let mut options = options();
    options.jvm_args = vec!["-Dcustom=1".into()];
    let jvm = jvm_arguments(&input(&version, None, &account, &options, false));
    assert_eq!(jvm[0], "-Xms1G");
    assert_eq!(jvm[1], "-Xmx2G");
    assert_eq!(jvm[2], "-XX:+UnlockExperimentalVMOptions");
    assert!(!jvm.contains(&"-XX:+UseG1GC".to_owned()));
    assert!(jvm.contains(&"-Djna.tmpdir=/root/versions/1.20.1/natives".to_owned()));
    assert!(!jvm.iter().any(|a| a.starts_with("-Djava.library.path=")));
    assert!(jvm.contains(&"-Dlog4j.configurationFile=/root/assets/log_configs/client-1.12.xml".to_owned()));
    assert!(jvm.contains(&"-XX:+UseStringDeduplication".to_owned()));
    assert!(!jvm.contains(&"-Xms2G".to_owned()));
    assert!(!jvm.contains(&"-XX:+UseZGC".to_owned()));
    assert_eq!(jvm.last().unwrap(), "-Dcustom=1");
    assert_eq!(jvm[11], "-Xss1M");
}

#[test]
fn arg_keys_match_node() {
    assert_eq!(arg_key("-Xmx2G"), "-Xmx");
    assert_eq!(arg_key("-Xss1M"), "-Xss");
    assert_eq!(arg_key("-XX:+UseZGC"), "-XX:+UseZGC");
    assert_eq!(arg_key("-Dfoo=bar"), "-Dfoo");
    assert_eq!(arg_key("-XX:G1HeapRegionSize=32M"), "-XX:G1HeapRegionSize");
    assert_eq!(arg_key("-XstartOnFirstThread"), "-XstartOnFirstThread");
    assert_eq!(arg_key("2G"), "2G");
}

#[test]
fn classpath_puts_loader_first_and_skips_slf4j2_impl() {
    let version = modern_version();
    let loader = forge_loader();
    let account = account();
    let options = options();
    let (cp, main_class) = classpath(&input(&version, Some(&loader), &account, &options, false));
    assert_eq!(main_class.as_deref(), Some("cpw.mods.bootstraplauncher.BootstrapLauncher"));
    let entries: Vec<&str> = cp[1].split(':').collect();
    assert_eq!(entries[0], "/root/loader/libraries/cpw/mods/securejarhandler/2.1.10/securejarhandler-2.1.10.jar");
    assert_eq!(entries[1], "/root/loader/libraries/org/ow2/asm/asm/9.5/asm-9.5.jar");
    assert!(!entries.iter().any(|e| e.contains("slf4j2-impl")));
    assert_eq!(entries[2], "/root/loader/libraries/com/mojang/logging/1.1.1/logging-1.1.1.jar");
    assert_eq!(entries[3], "/root/libraries/org/lwjgl/lwjgl/3.3.1/lwjgl-3.3.1.jar");
    assert!(!entries.iter().any(|e| e.contains("natives-windows")));
    assert_eq!(*entries.last().unwrap(), "/root/versions/1.20.1/1.20.1.jar");
}

#[test]
fn loader_arguments_substitute_placeholders() {
    let version = modern_version();
    let loader = forge_loader();
    let account = account();
    let options = options();
    let (jvm, game) = loader_arguments(&input(&version, Some(&loader), &account, &options, false));
    assert_eq!(jvm[0], "-DignoreList=bootstraplauncher,1.20.1.jar");
    assert_eq!(jvm[1], "-DlibraryDirectory=/root/loader/libraries");
    assert_eq!(jvm[3], "/root/loader/libraries/a.jar:/root/loader/libraries/b.jar");
    assert_eq!(game, vec!["--launchTarget", "forgeclient", "--fml.forgeVersion", "47.2.0"]);
}

#[test]
fn full_plan_follows_node_assembly_order() {
    let version = modern_version();
    let loader = forge_loader();
    let account = account();
    let options = options();
    let plan = build(&input(&version, Some(&loader), &account, &options, false), "/java".into()).unwrap();
    let cp = plan.args.iter().position(|a| a == "-cp").unwrap();
    let ignore = plan.args.iter().position(|a| a.starts_with("-DignoreList=")).unwrap();
    let main = plan.args.iter().position(|a| a == "cpw.mods.bootstraplauncher.BootstrapLauncher").unwrap();
    let username = plan.args.iter().position(|a| a == "--username").unwrap();
    let target = plan.args.iter().position(|a| a == "--launchTarget").unwrap();
    assert!(cp < ignore && ignore < main && main < username && username < target);
    assert_eq!(plan.args[0], "-Xms1G");
    assert!(plan.redacted_command(&["token"]).contains("????????"));
    assert!(!plan.redacted_command(&["token"]).contains(" token"));
    assert_eq!(plan.java, "/java");
}

#[test]
fn mcp_replaces_the_client_jar() {
    let version = modern_version();
    let account = account();
    let mut options = options();
    options.mcp = Some("mcp/client.jar".into());
    let (cp, _) = classpath(&input(&version, None, &account, &options, false));
    assert!(cp[1].ends_with("/root/mcp/client.jar"));
}

#[test]
fn user_type_and_placeholders_follow_the_account_kind() {
    let mut version = version("1.20.1");
    version.arguments = Some(Arguments { game: plain(&["${user_type}", "${auth_xuid}", "${clientid}"]), jvm: Vec::new(), default_user_jvm: Vec::new() });
    let options = LaunchOptions::new("/root", "1.20.1");

    let offline = offline_account();
    assert_eq!(game_arguments(&input(&version, None, &offline, &options, false)), vec!["Mojang", "offline-token", "offline-client"]);

    let mut azauth = offline_account();
    azauth.meta.kind = AccountType::AzAuth;
    azauth.client_id = Some("azuriom-client".into());
    assert_eq!(game_arguments(&input(&version, None, &azauth, &options, false)), vec!["AZauth", "offline-token", "azuriom-client"]);

    let xbox = account();
    assert_eq!(game_arguments(&input(&version, None, &xbox, &options, false)), vec!["msa", "xuid", "client"]);
}

#[test]
fn a_plan_needs_a_main_class() {
    let mut version = version("1.20.1");
    version.main_class = String::new();
    let account = account();
    let options = options();
    assert!(build(&input(&version, None, &account, &options, false), "/java".into()).is_err());
}

#[test]
fn strips_archive_extensions() {
    assert_eq!(
        package_directory("zulu17.68.203-ca-jre17.0.20.1-macosx_aarch64.zip"),
        "zulu17.68.203-ca-jre17.0.20.1-macosx_aarch64"
    );
    assert_eq!(
        package_directory("zulu21.52.203-ca-jre21.0.12.1-linux_aarch64.tar.gz"),
        "zulu21.52.203-ca-jre21.0.12.1-linux_aarch64"
    );
}

#[test]
fn forge_on_macos_keeps_the_early_window_off() {
    let version = modern_version();
    let loader = forge_loader();
    let account = account();
    let mut forge = options();
    forge.loader.kind = Some(LoaderKind::Forge);
    forge.loader.enable = true;
    let mut mac = input(&version, Some(&loader), &account, &forge, false);
    mac.platform = Platform::MacOs;
    let plan = build(&mac, "/java".into()).unwrap();
    let flag = plan.args.iter().position(|a| a == "-Dfml.earlyprogresswindow=false").unwrap();
    let main = plan.args.iter().position(|a| a == &plan.main_class).unwrap();
    assert_eq!(flag + 1, main);

    let linux = build(&input(&version, Some(&loader), &account, &forge, false), "/java".into()).unwrap();
    assert!(!linux.args.iter().any(|a| a == "-Dfml.earlyprogresswindow=false"));

    let mut fabric = options();
    fabric.loader.kind = Some(LoaderKind::Fabric);
    let mut mac_fabric = input(&version, Some(&loader), &account, &fabric, false);
    mac_fabric.platform = Platform::MacOs;
    let plan = build(&mac_fabric, "/java".into()).unwrap();
    assert!(!plan.args.iter().any(|a| a == "-Dfml.earlyprogresswindow=false"));
}

#[test]
fn azul_asks_zip_then_tar_gz_and_takes_the_first_package() {
    assert_eq!(first_archive_type(), "zip");
    assert_eq!(azul_next(0, 2), AzulNext::UseFirst);
    assert_eq!(azul_next(0, 0), AzulNext::Ask("tar.gz"));
    assert_eq!(azul_next(1, 1), AzulNext::UseFirst);
    assert_eq!(azul_next(1, 0), AzulNext::NotFound);
}
