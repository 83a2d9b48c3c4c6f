use vstd::prelude::*;

use super::os::{spec_mojang_name, Arch, Platform};
use super::text::{
    chars_of, contains, contains_exec, key_index, key_index_from, lemma_key_index_from, lookup,
    opt_view, replace_all, replace_all_exec, starts_with, starts_with_exec, str_eq, strip_leading,
    strip_leading_exec, strip_trailing, strip_trailing_exec,
};

verus! {

/// What a rule does when it matches.
#[derive(Debug, Clone, Copy, PartialEq, Eq, Structural)]
pub enum Action {
    Allow,
    Disallow,
}

impl Default for Action {
    fn default() -> (r: Self)
        ensures
            r == Action::Allow,
    {
        Action::Allow
    }
}

/// The Windows version range of a rule (`versionRange`).
#[derive(Debug, Clone)]
pub struct VersionRange {
    pub min: Option<String>,
    pub max: Option<String>,
}

impl Default for VersionRange {
    fn default() -> (r: Self)
        ensures
            r.min is None,
            r.max is None,
    {
        Self { min: None, max: None }
    }
}

/// The operating-system condition of a rule.
#[derive(Debug, Clone)]
pub struct OsRule {
    pub name: Option<String>,
    pub version: Option<String>,
    pub arch: Option<String>,
    pub version_range: Option<VersionRange>,
}

impl Default for OsRule {
    fn default() -> (r: Self)
        ensures
            r.name is None,
            r.version is None,
            r.arch is None,
            r.version_range is None,
    {
        Self { name: None, version: None, arch: None, version_range: None }
    }
}

/// One rule of a version manifest. `features` holds the feature flags the rule asks for, as
/// name/value pairs.
#[derive(Debug, Clone)]
pub struct Rule {
    pub action: Action,
    pub os: Option<OsRule>,
    pub features: Option<Vec<(String, bool)>>,
}

/// What a platform, architecture, Windows version and set of enabled features make of rules.
/// Each flag name occurs once in `features` (`spec_unique_keys`): `new` starts with none, and
/// `with_feature` overwrites a flag that is already set.
#[derive(Debug, Clone)]
pub struct RuleContext {
    pub platform: Platform,
    pub arch: Arch,
    pub os_version: Option<String>,
    pub features: Vec<(String, bool)>,
}

// ---------------------------------------------------------------------------------------------
// The lenient reading of rules used for loader libraries and arguments.

/// Whether a rule's OS condition holds for a platform in the lenient reading: the
/// name must be the platform's, and a version range only ever holds on Windows.
pub open spec fn spec_node_matches(rule: Rule, platform: Platform) -> bool {
    match rule.os {
        None => true,
        Some(os) => {
            let name_ok = match os.name {
                Some(n) => n@ == spec_mojang_name(platform),
                None => true,
            };
            name_ok && match os.version_range {
                Some(range) => (range.min is Some || range.max is Some) ==> platform
                    == Platform::Windows,
                None => true,
            }
        },
    }
}

/// `evaluate_node`: every rule must agree, an allowing rule by matching and a disallowing rule
/// by not matching.
pub open spec fn spec_evaluate_node(rules: Seq<Rule>, platform: Platform) -> bool {
    forall|i: int|
        0 <= i < rules.len() ==> (spec_node_matches(#[trigger] rules[i], platform) == (rules[i].action
            == Action::Allow))
}

fn node_matches(rule: &Rule, platform: Platform) -> (r: bool)
    ensures
        r == spec_node_matches(*rule, platform),
{
    let mut matches = true;
    if let Some(os) = &rule.os {
        if let Some(name) = &os.name {
            if !str_eq(name.as_str(), platform.mojang_name()) {
                matches = false;
            }
        }
        if matches {
            if let Some(range) = &os.version_range {
                if range.min.is_some() {
                    matches = platform == Platform::Windows;
                }
                if range.max.is_some() {
                    matches = platform == Platform::Windows;
                }
            }
        }
    }
    matches
}

/// Whether a library or argument whose rules are `rules` applies in the lenient reading.
pub fn evaluate_node(rules: &[Rule], platform: Platform) -> (r: bool)
    ensures
        r == spec_evaluate_node(rules@, platform),
{
    let mut i: usize = 0;
    while i < rules.len()
        invariant
            i <= rules.len(),
            forall|k: int|
                0 <= k < i ==> (spec_node_matches(#[trigger] rules@[k], platform) == (rules@[k].action
                    == Action::Allow)),
        decreases rules.len() - i,
    {
        let matches = node_matches(&rules[i], platform);
        let allow = rules[i].action == Action::Allow;
        if (allow && !matches) || (!allow && matches) {
            assert(spec_node_matches(rules@[i as int], platform) != (rules@[i as int].action
                == Action::Allow));
            return false;
        }
        i = i + 1;
    }
    true
}

/// Whether a rule takes part in the skipping decision, and for which platform: rules with
/// features are passed over, and a rule with an OS condition holds only for the platform it
/// names.
pub open spec fn spec_skip_rule_applies(rule: Rule, platform: Platform) -> bool {
    match rule.os {
        Some(os) => opt_view(os.name) == Some(spec_mojang_name(platform)),
        None => true,
    }
}

/// Whether a library is skipped after the first `n` rules: the last applicable rule decides,
/// and with none the library is skipped.
pub open spec fn spec_skip_after(rules: Seq<Rule>, platform: Platform, n: int) -> bool
    decreases n,
{
    if n <= 0 {
        true
    } else {
        let rule = rules[n - 1];
        if rule.features is None && spec_skip_rule_applies(rule, platform) {
            rule.action == Action::Disallow
        } else {
            spec_skip_after(rules, platform, n - 1)
        }
    }
}

/// `skip_library_node`: a library without rules is kept.
pub open spec fn spec_skip_library_node(rules: Option<Seq<Rule>>, platform: Platform) -> bool {
    match rules {
        None => false,
        Some(r) => spec_skip_after(r, platform, r.len() as int),
    }
}

/// Whether the lenient reading leaves a library out for a platform.
pub fn skip_library_node(rules: Option<&[Rule]>, platform: Platform) -> (r: bool)
    ensures
        r == spec_skip_library_node(
            match rules {
                Some(r) => Some(r@),
                None => None,
            },
            platform,
        ),
{
    let rules = match rules {
        None => {
            return false;
        },
        Some(rules) => rules,
    };
    let mut should_skip = true;
    let mut i: usize = 0;
    while i < rules.len()
        invariant
            i <= rules.len(),
            should_skip == spec_skip_after(rules@, platform, i as int),
        decreases rules.len() - i,
    {
        let rule = &rules[i];
        if rule.features.is_none() {
            let os_matches = match &rule.os {
                Some(os) => match &os.name {
                    Some(name) => str_eq(name.as_str(), platform.mojang_name()),
                    None => false,
                },
                None => true,
            };
            if rule.action == Action::Allow && os_matches {
                should_skip = false;
            } else if rule.action == Action::Disallow && os_matches {
                should_skip = true;
            }
        }
        i = i + 1;
    }
    should_skip
}

// ---------------------------------------------------------------------------------------------
// Mojang's reading of rules.

/// The value of a feature flag in a context; flags that were never set are off.
pub open spec fn spec_feature(ctx: RuleContext, name: Seq<char>) -> bool {
    match lookup(ctx.features@, name) {
        Some(v) => v,
        None => false,
    }
}

/// The literal text an OS version pattern stands for: its anchors taken off and `\.` read as
/// `.`.
pub open spec fn spec_pattern_literal(pattern: Seq<char>) -> Seq<char> {
    replace_all(strip_trailing(strip_leading(pattern, '^'), '$'), seq!['\\', '.'], seq!['.'])
}

/// Whether an OS version matches a rule's version pattern: a pattern anchored with `^` must
/// begin the version, any other must occur in it. An unknown version matches nothing.
pub open spec fn spec_version_matches(pattern: Seq<char>, os_version: Option<Seq<char>>) -> bool {
    match os_version {
        None => false,
        Some(v) => if pattern.len() > 0 && pattern[0] == '^' {
            starts_with(v, spec_pattern_literal(pattern))
        } else {
            contains(v, spec_pattern_literal(pattern))
        },
    }
}

/// Whether a rule's architecture name designates an architecture.
pub open spec fn spec_arch_matches(rule_arch: Seq<char>, arch: Arch) -> bool {
    if rule_arch == "x86"@ {
        arch == Arch::X86
    } else if rule_arch == "x64"@ || rule_arch == "x86_64"@ {
        arch == Arch::X64
    } else if rule_arch == "arm64"@ || rule_arch == "aarch64"@ {
        arch == Arch::Arm64
    } else if rule_arch == "arm32"@ || rule_arch == "arm"@ {
        arch == Arch::Arm
    } else {
        false
    }
}

/// Whether every feature a rule asks for has the asked value in the context.
pub open spec fn spec_features_match(features: Seq<(String, bool)>, ctx: RuleContext) -> bool {
    forall|i: int|
        0 <= i < features.len() ==> spec_feature(ctx, (#[trigger] features[i]).0@) == features[i].1
}

/// Whether a rule's OS condition holds in a context.
pub open spec fn spec_os_matches(os: Option<OsRule>, ctx: RuleContext) -> bool {
    match os {
        None => true,
        Some(os) => {
            &&& (os.name matches Some(n) ==> n@ == spec_mojang_name(ctx.platform))
            &&& (os.arch matches Some(a) ==> spec_arch_matches(a@, ctx.arch))
            &&& (os.version matches Some(p) ==> spec_version_matches(
                p@,
                opt_view(ctx.os_version),
            ))
        },
    }
}

/// Whether a rule's conditions hold in a context.
pub open spec fn spec_rule_matches(rule: Rule, ctx: RuleContext) -> bool {
    &&& spec_os_matches(rule.os, ctx)
    &&& match rule.features {
        None => true,
        Some(f) => spec_features_match(f@, ctx),
    }
}

/// The verdict after the first `n` rules: the last matching rule decides, and with none the
/// answer is no.
pub open spec fn spec_allowed_after(rules: Seq<Rule>, ctx: RuleContext, n: int) -> bool
    decreases n,
{
    if n <= 0 {
        false
    } else if spec_rule_matches(rules[n - 1], ctx) {
        rules[n - 1].action == Action::Allow
    } else {
        spec_allowed_after(rules, ctx, n - 1)
    }
}

/// `allowed`: no rules allow; otherwise the last matching rule decides.
pub open spec fn spec_allowed(rules: Seq<Rule>, ctx: RuleContext) -> bool {
    rules.len() == 0 || spec_allowed_after(rules, ctx, rules.len() as int)
}

/// Whether no flag name occurs twice in a list of feature flags.
pub open spec fn spec_unique_keys(features: Seq<(String, bool)>) -> bool {
    forall|a: int, b: int|
        0 <= a < b < features.len() ==> (#[trigger] features[a]).0@ != (#[trigger] features[b]).0@
}

proof fn lemma_key_index_none(entries: Seq<(String, bool)>, key: Seq<char>, i: int)
    requires
        0 <= i,
        key_index_from(entries, key, i) is None,
    ensures
        forall|k: int| i <= k < entries.len() ==> (#[trigger] entries[k]).0@ != key,
    decreases entries.len() - i,
{
    if i < entries.len() {
        lemma_key_index_none(entries, key, i + 1);
    }
}

impl RuleContext {
    /// A context for a platform and architecture, with no features; on Windows the OS version
    /// is taken to be `10.0`.
    pub fn new(platform: Platform, arch: Arch) -> (r: Self)
        ensures
            r.platform == platform,
            r.arch == arch,
            platform == Platform::Windows ==> (r.os_version matches Some(v) && v@ == "10.0"@),
            platform != Platform::Windows ==> r.os_version is None,
            r.features@.len() == 0,
            spec_unique_keys(r.features@),
    {
        Self {
            platform,
            arch,
            os_version: if platform == Platform::Windows {
                Some("10.0".to_owned())
            } else {
                None
            },
            features: Vec::new(),
        }
    }

    /// The context with a feature flag set.
    pub fn with_feature(self, name: &str, enabled: bool) -> (r: Self)
        ensures
            r.platform == self.platform,
            r.arch == self.arch,
            r.os_version == self.os_version,
            spec_feature(r, name@) == enabled,
            forall|other: Seq<char>|
                other != name@ ==> spec_feature(r, other) == spec_feature(self, other),
            spec_unique_keys(self.features@) ==> spec_unique_keys(r.features@),
    {
        let mut s = self;
        let ghost before = s.features@;
        match key_index(&s.features, name) {
            Some(i) => {
                proof {
                    lemma_key_index_from(before, name@, 0);
                }
                s.features.set(i, (name.to_owned(), enabled));
                proof {
                    assert forall|other: Seq<char>|
                        #[trigger] lookup(s.features@, other) == (if other == name@ {
                            Some(enabled)
                        } else {
                            lookup(before, other)
                        }) by {
                        lemma_set_lookup(before, s.features@, other, 0, i as int, name@);
                        lemma_key_index_from(s.features@, other, 0);
                    }
                    let after = s.features@;
                    assert forall|k: int| 0 <= k < after.len() implies (#[trigger] after[k]).0@
                        == before[k].0@ by {
                        if k == i as int {
                            assert(before[k].0@ == name@);
                        }
                    }
                    if spec_unique_keys(before) {
                        assert forall|a: int, b: int| 0 <= a < b < after.len() implies (
                        #[trigger] after[a]).0@ != (#[trigger] after[b]).0@ by {
                            assert(after[a].0@ == before[a].0@);
                            assert(after[b].0@ == before[b].0@);
                            assert(before[a].0@ != before[b].0@);
                        }
                    }
                }
            },
            None => {
                s.features.push((name.to_owned(), enabled));
                proof {
                    assert forall|other: Seq<char>|
                        #[trigger] lookup(s.features@, other) == (if other == name@ {
                            Some(enabled)
                        } else {
                            lookup(before, other)
                        }) by {
                        lemma_push_lookup(before, s.features@, other, 0, name@);
                        lemma_key_index_from(before, other, 0);
                    }
                    let after = s.features@;
                    lemma_key_index_none(before, name@, 0);
                    if spec_unique_keys(before) {
                        assert forall|a: int, b: int| 0 <= a < b < after.len() implies (
                        #[trigger] after[a]).0@ != (#[trigger] after[b]).0@ by {
                            assert(after[a] == before[a]);
                            if b < before.len() {
                                assert(after[b] == before[b]);
                                assert(before[a].0@ != before[b].0@);
                            } else {
                                assert(after[b].0@ == name@);
                                assert(before[a].0@ != name@);
                            }
                        }
                    }
                }
            },
        }
        s
    }

    /// The value of a feature flag; flags that were never set are off.
    pub fn feature(&self, name: &str) -> (r: bool)
        ensures
            r == spec_feature(*self, name@),
    {
        match key_index(&self.features, name) {
            Some(i) => {
                proof {
                    lemma_key_index_from(self.features@, name@, 0);
                }
                self.features[i].1
            },
            None => false,
        }
    }
}

proof fn lemma_set_lookup(
    before: Seq<(String, bool)>,
    after: Seq<(String, bool)>,
    other: Seq<char>,
    i: int,
    at: int,
    name: Seq<char>,
)
    requires
        0 <= i <= at < before.len(),
        before.len() == after.len(),
        forall|k: int| 0 <= k < before.len() && k != at ==> after[k] == before[k],
        after[at].0@ == name,
        key_index_from(before, name, i) == Some(at),
    ensures
        other == name ==> key_index_from(after, other, i) == Some(at),
        other != name ==> key_index_from(after, other, i) == key_index_from(before, other, i),
    decreases at - i,
{
    assert(after[i] == before[i] || i == at);
    if i < at {
        lemma_set_lookup(before, after, other, i + 1, at, name);
        assert(after[i] == before[i]);
    } else if other != name {
        lemma_key_index_same_from(before, after, other, at + 1);
        if before[at].0@ != name {
            lemma_key_index_from(before, name, at + 1);
        }
    }
}

proof fn lemma_key_index_same_from(
    before: Seq<(String, bool)>,
    after: Seq<(String, bool)>,
    other: Seq<char>,
    i: int,
)
    requires
        0 <= i,
        before.len() == after.len(),
        forall|k: int| i <= k < before.len() ==> after[k] == before[k],
    ensures
        key_index_from(after, other, i) == key_index_from(before, other, i),
    decreases before.len() - i,
{
    if i < before.len() {
        lemma_key_index_same_from(before, after, other, i + 1);
    }
}

proof fn lemma_push_lookup(
    before: Seq<(String, bool)>,
    after: Seq<(String, bool)>,
    other: Seq<char>,
    i: int,
    name: Seq<char>,
)
    requires
        0 <= i <= before.len(),
        key_index_from(before, name, i) is None,
        after.len() == before.len() + 1,
        forall|k: int| 0 <= k < before.len() ==> after[k] == before[k],
        after[before.len() as int].0@ == name,
    ensures
        other == name ==> key_index_from(after, other, i) == Some(before.len() as int),
        other != name ==> key_index_from(after, other, i) == key_index_from(before, other, i),
    decreases before.len() - i,
{
    if i < before.len() {
        lemma_push_lookup(before, after, other, i + 1, name);
        assert(after[i] == before[i]);
    } else {
        assert(key_index_from(after, other, i + 1) is None);
        assert(key_index_from(before, other, i) is None);
    }
}

/// Whether an OS version matches a rule's version pattern (`^10\.` and the like).
pub fn version_matches(pattern: &str, os_version: Option<&str>) -> (r: bool)
    ensures
        r == spec_version_matches(
            pattern@,
            match os_version {
                Some(v) => Some(v@),
                None => None,
            },
        ),
{
    let os_version = match os_version {
        None => {
            return false;
        },
        Some(v) => v,
    };
    let p = chars_of(pattern);
    let anchored = p.len() > 0 && p[0] == '^';
    let stripped = strip_trailing_exec(&strip_leading_exec(&p, '^'), '$');
    let escaped: Vec<char> = vec!['\\', '.'];
    let dot: Vec<char> = vec!['.'];
    let literal = replace_all_exec(&stripped, &escaped, &dot);
    let v = chars_of(os_version);
    assert(escaped@ == seq!['\\', '.']);
    assert(dot@ == seq!['.']);
    if anchored {
        starts_with_exec(&v, &literal)
    } else {
        contains_exec(&v, &literal)
    }
}

fn arch_matches(rule_arch: &str, arch: Arch) -> (r: bool)
    ensures
        r == spec_arch_matches(rule_arch@, arch),
{
    if str_eq(rule_arch, "x86") {
        arch == Arch::X86
    } else if str_eq(rule_arch, "x64") || str_eq(rule_arch, "x86_64") {
        arch == Arch::X64
    } else if str_eq(rule_arch, "arm64") || str_eq(rule_arch, "aarch64") {
        arch == Arch::Arm64
    } else if str_eq(rule_arch, "arm32") || str_eq(rule_arch, "arm") {
        arch == Arch::Arm
    } else {
        false
    }
}

impl Rule {
    /// Whether the rule's conditions hold in a context.
    pub fn matches(&self, ctx: &RuleContext) -> (r: bool)
        ensures
            r == spec_rule_matches(*self, *ctx),
    {
        if let Some(os) = &self.os {
            if let Some(name) = &os.name {
                if !str_eq(name.as_str(), ctx.platform.mojang_name()) {
                    return false;
                }
            }
            if let Some(arch) = &os.arch {
                if !arch_matches(arch.as_str(), ctx.arch) {
                    return false;
                }
            }
            if let Some(pattern) = &os.version {
                let version = match &ctx.os_version {
                    Some(v) => Some(v.as_str()),
                    None => None,
                };
                if !version_matches(pattern.as_str(), version) {
                    return false;
                }
            }
        }
        if let Some(features) = &self.features {
            let mut i: usize = 0;
            while i < features.len()
                invariant
                    i <= features.len(),
                    spec_os_matches(self.os, *ctx),
                    self.features matches Some(f) && f@ == features@,
                    forall|k: int|
                        0 <= k < i ==> spec_feature(*ctx, (#[trigger] features@[k]).0@)
                            == features@[k].1,
                decreases features.len() - i,
            {
                if ctx.feature(features[i].0.as_str()) != features[i].1 {
                    return false;
                }
                i = i + 1;
            }
        }
        true
    }
}

/// Whether something whose rules are `rules` applies in a context.
pub fn allowed(rules: &[Rule], ctx: &RuleContext) -> (r: bool)
    ensures
        r == spec_allowed(rules@, *ctx),
{
    if rules.len() == 0 {
        return true;
    }
    let mut result = false;
    let mut i: usize = 0;
    while i < rules.len()
        invariant
            i <= rules.len(),
            result == spec_allowed_after(rules@, *ctx, i as int),
        decreases rules.len() - i,
    {
        if rules[i].matches(ctx) {
            result = rules[i].action == Action::Allow;
        }
        i = i + 1;
    }
    result
}


/// A rule that names only the operating system `osx`.
pub open spec fn is_osx_only(os: OsRule) -> bool {
    &&& os.name matches Some(n) && n@ == "osx"@
    &&& os.arch is None
    &&& os.version is None
}

/// The `allow` then `disallow osx` rules of one library and the `allow osx` rule of the other,
/// as the 1.14 to 1.18 manifests pair their LWJGL builds, pick exactly one of the two in every
/// context: the macOS build on macOS, the other build everywhere else.
pub proof fn law_osx_pair_picks_one(os: OsRule, ctx: RuleContext)
    requires
        is_osx_only(os),
    ensures
        ({
            let general = seq![
                Rule { action: Action::Allow, os: None, features: None },
                Rule { action: Action::Disallow, os: Some(os), features: None },
            ];
            let mac = seq![Rule { action: Action::Allow, os: Some(os), features: None }];
            &&& spec_allowed(mac, ctx) == (ctx.platform == Platform::MacOs)
            &&& spec_allowed(general, ctx) != spec_allowed(mac, ctx)
        }),
{
    let general = seq![
        Rule { action: Action::Allow, os: None, features: None },
        Rule { action: Action::Disallow, os: Some(os), features: None },
    ];
    let mac = seq![Rule { action: Action::Allow, os: Some(os), features: None }];
    reveal_strlit("osx");
    reveal_strlit("windows");
    reveal_strlit("linux");
    assert(spec_mojang_name(Platform::MacOs) == "osx"@);
    assert(spec_mojang_name(Platform::Windows) != "osx"@);
    assert(spec_mojang_name(Platform::Linux) != "osx"@);
    let on_mac = spec_os_matches(Some(os), ctx);
    assert(on_mac == (ctx.platform == Platform::MacOs));
    assert(spec_rule_matches(general[1], ctx) == on_mac);
    assert(spec_rule_matches(general[0], ctx));
    assert(spec_rule_matches(mac[0], ctx) == on_mac);
    assert(spec_allowed_after(general, ctx, 1));
    assert(spec_allowed_after(general, ctx, 2) == !on_mac);
    assert(spec_allowed_after(mac, ctx, 0) == false);
    assert(spec_allowed_after(mac, ctx, 1) == on_mac);
}

// ---------------------------------------------------------------------------------------------
// Rules as values.

/// A rule's content, with its texts as character sequences.
pub struct RuleModel {
    pub action: Action,
    pub os: Option<OsRuleModel>,
    pub features: Option<Seq<(Seq<char>, bool)>>,
}

pub struct OsRuleModel {
    pub name: Option<Seq<char>>,
    pub version: Option<Seq<char>>,
    pub arch: Option<Seq<char>>,
    pub version_range: Option<(Option<Seq<char>>, Option<Seq<char>>)>,
}

pub open spec fn feature_models(f: Seq<(String, bool)>) -> Seq<(Seq<char>, bool)> {
    f.map_values(|e: (String, bool)| (e.0@, e.1))
}

impl View for OsRule {
    type V = OsRuleModel;

    open spec fn view(&self) -> OsRuleModel {
        OsRuleModel {
            name: opt_view(self.name),
            version: opt_view(self.version),
            arch: opt_view(self.arch),
            version_range: match self.version_range {
                Some(r) => Some((opt_view(r.min), opt_view(r.max))),
                None => None,
            },
        }
    }
}

impl View for Rule {
    type V = RuleModel;

    open spec fn view(&self) -> RuleModel {
        RuleModel {
            action: self.action,
            os: match self.os {
                Some(os) => Some(os@),
                None => None,
            },
            features: match self.features {
                Some(f) => Some(feature_models(f@)),
                None => None,
            },
        }
    }
}

/// The contents of a list of rules.
pub open spec fn spec_rule_models(rules: Seq<Rule>) -> Seq<RuleModel> {
    rules.map_values(|r: Rule| r@)
}

fn duplicate_opt_string(s: &Option<String>) -> (r: Option<String>)
    ensures
        opt_view(r) == opt_view(*s),
{
    match s {
        Some(v) => Some(v.clone()),
        None => None,
    }
}

impl OsRule {
    /// A copy of the condition.
    pub fn duplicate(&self) -> (r: Self)
        ensures
            r@ == self@,
    {
        OsRule {
            name: duplicate_opt_string(&self.name),
            version: duplicate_opt_string(&self.version),
            arch: duplicate_opt_string(&self.arch),
            version_range: match &self.version_range {
                Some(range) => Some(
                    VersionRange {
                        min: duplicate_opt_string(&range.min),
                        max: duplicate_opt_string(&range.max),
                    },
                ),
                None => None,
            },
        }
    }
}

fn duplicate_features(f: &Vec<(String, bool)>) -> (r: Vec<(String, bool)>)
    ensures
        feature_models(r@) == feature_models(f@),
{
    let mut r: Vec<(String, bool)> = Vec::new();
    let mut i: usize = 0;
    while i < f.len()
        invariant
            i <= f.len(),
            feature_models(r@) == feature_models(f@.subrange(0, i as int)),
        decreases f.len() - i,
    {
        r.push((f[i].0.clone(), f[i].1));
        proof {
            assert(feature_models(f@.subrange(0, i + 1)) =~= feature_models(f@.subrange(0, i as int)).push((f@[i as int].0@, f@[i as int].1)));
        }
        i = i + 1;
    }
    assert(f@.subrange(0, f.len() as int) =~= f@);
    r
}

impl Rule {
    /// A copy of the rule.
    pub fn duplicate(&self) -> (r: Self)
        ensures
            r@ == self@,
    {
        Rule {
            action: self.action,
            os: match &self.os {
                Some(os) => Some(os.duplicate()),
                None => None,
            },
            features: match &self.features {
                Some(f) => Some(duplicate_features(f)),
                None => None,
            },
        }
    }
}

/// A copy of a list of rules.
pub fn duplicate_rules(rules: &Vec<Rule>) -> (r: Vec<Rule>)
    ensures
        spec_rule_models(r@) == spec_rule_models(rules@),
{
    let mut r: Vec<Rule> = Vec::new();
    let mut i: usize = 0;
    while i < rules.len()
        invariant
            i <= rules.len(),
            spec_rule_models(r@) == spec_rule_models(rules@.subrange(0, i as int)),
        decreases rules.len() - i,
    {
        r.push(rules[i].duplicate());
        proof {
            assert(spec_rule_models(rules@.subrange(0, i + 1)) =~= spec_rule_models(rules@.subrange(0, i as int)).push(rules@[i as int]@));
        }
        i = i + 1;
    }
    assert(rules@.subrange(0, rules.len() as int) =~= rules@);
    r
}

} // verus!
