use crust_core::foundation::os::{Arch, Platform};
use crust_core::foundation::rules::{
    allowed, evaluate_node, skip_library_node, version_matches, Action, OsRule, Rule,
    RuleContext, VersionRange,
};
use crust_core::foundation::semver::{coerce, Version};
use crust_core::foundation::time::{
    expires_at, expires_at_from, expires_at_millis, expires_at_millis_from, is_expired,
    is_expired_at, unix_now, unix_now_millis,
};

fn ctx(platform: Platform, arch: Arch) -> RuleContext {
    RuleContext::new(platform, arch)
}

fn os(name: &str) -> Option<OsRule> {
    Some(OsRule { name: Some(name.into()), ..OsRule::default() })
}

#[test]
fn windows_version_rule_matches_windows_10_only() {
    let rules = vec![Rule {
        action: Action::Allow,
        os: Some(OsRule {
            name: Some("windows".into()),
            version: Some("^10\\.".into()),
            ..OsRule::default()
        }),
        features: None,
    }];
    assert!(allowed(&rules, &ctx(Platform::Windows, Arch::X64)));
    assert!(!allowed(&rules, &ctx(Platform::Linux, Arch::X64)));
    assert!(!allowed(&rules, &ctx(Platform::MacOs, Arch::Arm64)));
    assert!(version_matches("^10\\.", Some("10.0")));
    assert!(!version_matches("^10\\.", Some("6.1")));
    assert!(!version_matches("^10\\.", None));
}

#[test]
fn no_rules_allows() {
    assert!(allowed(&[], &ctx(Platform::Linux, Arch::X64)));
}

#[test]
fn allow_then_disallow_for_os() {
    let rules = vec![
        Rule { action: Action::Allow, os: None, features: None },
        Rule { action: Action::Disallow, os: os("osx"), features: None },
    ];
    assert!(allowed(&rules, &ctx(Platform::Linux, Arch::X64)));
    assert!(!allowed(&rules, &ctx(Platform::MacOs, Arch::Arm64)));
}

#[test]
fn allow_only_for_os() {
    let rules = vec![Rule { action: Action::Allow, os: os("windows"), features: None }];
    assert!(allowed(&rules, &ctx(Platform::Windows, Arch::X64)));
    assert!(!allowed(&rules, &ctx(Platform::Linux, Arch::X64)));
}

#[test]
fn features_must_match() {
    let features = vec![("has_custom_resolution".to_owned(), true)];
    let rules = vec![Rule { action: Action::Allow, os: None, features: Some(features) }];
    assert!(!allowed(&rules, &ctx(Platform::Linux, Arch::X64)));
    let enabled = ctx(Platform::Linux, Arch::X64).with_feature("has_custom_resolution", true);
    assert!(allowed(&rules, &enabled));
}

#[test]
fn arch_rule() {
    let rules = vec![Rule {
        action: Action::Allow,
        os: Some(OsRule { arch: Some("x86".into()), ..OsRule::default() }),
        features: None,
    }];
    assert!(allowed(&rules, &ctx(Platform::Windows, Arch::X86)));
    assert!(!allowed(&rules, &ctx(Platform::Windows, Arch::X64)));
}

#[test]
fn node_evaluate_requires_every_rule_to_match() {
    let rules = vec![
        Rule { action: Action::Allow, os: os("osx"), features: None },
        Rule { action: Action::Allow, os: os("linux"), features: None },
    ];
    assert!(!evaluate_node(&rules, Platform::MacOs));
    assert!(evaluate_node(&rules[..1], Platform::MacOs));
    assert!(evaluate_node(&[], Platform::Windows));
    let windows_range = vec![Rule {
        action: Action::Allow,
        os: Some(OsRule {
            name: Some("windows".into()),
            version_range: Some(VersionRange { min: Some("10.0".into()), max: None }),
            ..OsRule::default()
        }),
        features: None,
    }];
    assert!(evaluate_node(&windows_range, Platform::Windows));
    assert!(!evaluate_node(&windows_range, Platform::Linux));
}

#[test]
fn node_skip_library_semantics() {
    assert!(!skip_library_node(None, Platform::MacOs));
    let allow_all_disallow_osx = vec![
        Rule { action: Action::Allow, os: None, features: None },
        Rule { action: Action::Disallow, os: os("osx"), features: None },
    ];
    assert!(skip_library_node(Some(&allow_all_disallow_osx), Platform::MacOs));
    assert!(!skip_library_node(Some(&allow_all_disallow_osx), Platform::Linux));
    let allow_windows = vec![Rule { action: Action::Allow, os: os("windows"), features: None }];
    assert!(skip_library_node(Some(&allow_windows), Platform::MacOs));
    assert!(!skip_library_node(Some(&allow_windows), Platform::Windows));
    let features = vec![("x".to_owned(), true)];
    let only_features = vec![Rule { action: Action::Allow, os: None, features: Some(features) }];
    assert!(skip_library_node(Some(&only_features), Platform::Linux));
}

#[test]
fn context_features_are_read_back() {
    let c = ctx(Platform::Linux, Arch::X64);
    assert!(!c.feature("is_demo_user"));
    let c = c.with_feature("is_demo_user", true).with_feature("other", false);
    assert!(c.feature("is_demo_user"));
    assert!(!c.feature("other"));
    let c = c.with_feature("is_demo_user", false);
    assert!(!c.feature("is_demo_user"));
}

#[test]
fn coerces_like_node_semver() {
    assert_eq!(coerce("1.20.1"), Some(Version::new(1, 20, 1)));
    assert_eq!(coerce("1.12"), Some(Version::new(1, 12, 0)));
    assert_eq!(coerce("2.9.4-nightly-20150209"), Some(Version::new(2, 9, 4)));
    assert_eq!(coerce("1.20.1-20230612.114412"), Some(Version::new(1, 20, 1)));
    assert_eq!(coerce("20150209"), Some(Version::new(20150209, 0, 0)));
    assert_eq!(coerce("v3.3.1"), Some(Version::new(3, 3, 1)));
    assert_eq!(coerce("1.2.3.4"), Some(Version::new(1, 2, 3)));
    assert_eq!(coerce("latest_release"), None);
    assert_eq!(coerce("nightly"), None);
}

#[test]
fn compares_and_ranges() {
    let low = Version::new(1, 14, 4);
    let high = Version::new(1, 18, 2);
    assert!(Version::new(1, 16, 5).within(low, high));
    assert!(Version::new(1, 14, 4).within(low, high));
    assert!(!Version::new(1, 19, 0).within(low, high));
    assert!(Version::new(9, 5, 0) > Version::new(9, 1, 0));
}

#[test]
fn coerce_skips_overlong_digit_runs() {
    assert_eq!(coerce("12345678901234567-2.1"), Some(Version::new(2, 1, 0)));
    assert_eq!(coerce("1.12345678901234567"), Some(Version::new(1, 0, 0)));
}

#[test]
fn expiry_is_in_the_future() {
    let at = expires_at(3600);
    assert!(at > unix_now());
    assert!(!is_expired(at, 60));
    assert!(is_expired(at, 3600));
}

#[test]
fn millis_expiry_is_in_the_future() {
    let at = expires_at_millis(60);
    assert!(at > unix_now_millis());
    assert!(at - unix_now_millis() <= 60_000);
}

#[test]
fn past_timestamp_is_expired() {
    assert!(is_expired(0, 0));
}

#[test]
fn expiry_arithmetic_saturates() {
    assert_eq!(expires_at_from(100, 20), 120);
    assert_eq!(expires_at_from(u64::MAX - 1, 5), u64::MAX);
    assert_eq!(expires_at_millis_from(1_000, 2), 3_000);
    assert_eq!(expires_at_millis_from(0, u64::MAX), u64::MAX);
    assert!(is_expired_at(100, 150, 50));
    assert!(!is_expired_at(100, 151, 50));
}

#[test]
fn osx_rule_pairs_pick_exactly_one_lwjgl_build() {
    let general = vec![
        Rule { action: Action::Allow, os: None, features: None },
        Rule { action: Action::Disallow, os: os("osx"), features: None },
    ];
    let mac = vec![Rule { action: Action::Allow, os: os("osx"), features: None }];
    for platform in [Platform::Windows, Platform::MacOs, Platform::Linux] {
        for arch in [Arch::X64, Arch::X86, Arch::Arm64, Arch::Arm] {
            let c = ctx(platform, arch);
            assert_ne!(allowed(&general, &c), allowed(&mac, &c));
            assert_eq!(allowed(&mac, &c), platform == Platform::MacOs);
        }
    }
}

#[test]
fn setting_a_flag_twice_keeps_one_entry() {
    let c = ctx(Platform::Linux, Arch::X64)
        .with_feature("is_demo_user", true)
        .with_feature("other", true)
        .with_feature("is_demo_user", false);
    assert_eq!(c.features.len(), 2);
    assert_eq!(c.features[0], ("is_demo_user".to_owned(), false));
    assert_eq!(c.features[1], ("other".to_owned(), true));
}
