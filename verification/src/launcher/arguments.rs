use vstd::prelude::*;

use crate::authenticator::account::{
    spec_user_type, spec_xuid, Account,
};
use crate::foundation::maven::{
    library_path, spec_library_path,
};
use crate::foundation::options::{
    spec_game_dir, LaunchOptions, LoaderKind,
};
use crate::foundation::paths::spec_join_normalized;
use crate::foundation::os::{
    spec_mojang_name, Platform,
};
use crate::foundation::paths::join;
use crate::foundation::rules::{
    evaluate_node, spec_evaluate_node,
};
use crate::foundation::semver::{
    coerce, lt, spec_coerce, version_lt, Version,
};
use crate::foundation::text::{
    append, chars_of, contains_string, decimal, decimal_exec, has_char, lemma_split_nonempty, lookup, opt_view, push_all, replace_all, replace_all_exec, replace_first, replace_first_exec, rfind_char, rfind_char_exec, slice, split, split_chars, starts_with, starts_with_exec, str_eq, string_of, string_views, views, is_digit, key_index, lemma_rfind_char,
};
use crate::loader::LoaderJson;
use super::LaunchError;
use crate::providers::launchermeta::{
    spec_two_byte_prefix, spec_two_byte_prefix_ok, spec_values, Argument, DefaultUserJvm, Library, VersionJson,
};
use crate::resolver::patches::{
    patch_argument, spec_patch_argument,
};
use crate::resolver::{
    is_old, spec_is_old,
};

verus! {

/// Everything the command line is built from. `platform` is the system the game runs on, and
/// `dock_icon` the hash of the macOS dock icon in the asset index, when it was found.
#[derive(Debug, Clone)]
pub struct ArgumentsInput<'a> {
    pub version: &'a VersionJson,
    pub loader: Option<&'a LoaderJson>,
    pub account: &'a Account,
    pub options: &'a LaunchOptions,
    pub natives_list: bool,
    pub platform: Platform,
    pub dock_icon: Option<String>,
}

/// The Java executable, its arguments, the directory it runs in, and its main class.
#[derive(Debug, Clone)]
pub struct LaunchPlan {
    pub java: String,
    pub args: Vec<String>,
    pub working_dir: String,
    pub main_class: String,
}

// ---------------------------------------------------------------------------------------------
// The command line, shown without secrets.

/// The command with every non-empty secret among the first `n` replaced by `????????`, one
/// after the other.
pub open spec fn spec_redact(command: Seq<char>, secrets: Seq<&str>, n: int) -> Seq<char>
    decreases n,
{
    if n <= 0 {
        command
    } else {
        let before = spec_redact(command, secrets, n - 1);
        if secrets[n - 1]@.len() == 0 {
            before
        } else {
            replace_all(before, secrets[n - 1]@, "????????"@)
        }
    }
}

/// Joins strings with a separator between them.
pub fn join_strings(parts: &Vec<String>, sep: &str) -> (r: Vec<char>)
    ensures
        r@ == join(string_views(parts@), sep@),
{
    let mut r: Vec<char> = Vec::new();
    let mut i: usize = 0;
    while i < parts.len()
        invariant
            i <= parts.len(),
            r@ == join(string_views(parts@).subrange(0, i as int), sep@),
        decreases parts.len() - i,
    {
        let ghost pre = string_views(parts@).subrange(0, i + 1);
        assert(pre.drop_last() =~= string_views(parts@).subrange(0, i as int));
        if i > 0 {
            append(&mut r, sep);
        } else {
            assert(string_views(parts@).subrange(0, 0) =~= Seq::<Seq<char>>::empty());
        }
        append(&mut r, parts[i].as_str());
        i = i + 1;
    }
    assert(string_views(parts@).subrange(0, parts.len() as int) =~= string_views(parts@));
    r
}

impl LaunchPlan {
    /// The command line, `java` then the arguments, with every non-empty secret masked.
    pub fn redacted_command(&self, secrets: &[&str]) -> (r: String)
        ensures
            r@ == spec_redact(
                self.java@ + " "@ + join(string_views(self.args@), " "@),
                secrets@,
                secrets@.len() as int,
            ),
    {
        let mut command = chars_of(self.java.as_str());
        append(&mut command, " ");
        let args = join_strings(&self.args, " ");
        push_all(&mut command, &args);
        let ghost start = command@;
        let mask = chars_of("????????");
        let mut i: usize = 0;
        while i < secrets.len()
            invariant
                i <= secrets.len(),
                mask@ == "????????"@,
                command@ == spec_redact(start, secrets@, i as int),
            decreases secrets.len() - i,
        {
            let secret = chars_of(secrets[i]);
            if secret.len() > 0 {
                command = replace_all_exec(&command, &secret, &mask);
            }
            i = i + 1;
        }
        string_of(&command)
    }
}

// ---------------------------------------------------------------------------------------------
// Keys of JVM arguments.

/// A memory unit that may end a JVM size argument.
pub open spec fn is_unit(c: char) -> bool {
    c == 'G' || c == 'M' || c == 'K' || c == 'g' || c == 'm' || c == 'k' || c == 'B' || c == 'b'
}

/// The number of digits that end `s`.
pub open spec fn trailing_digit_count(s: Seq<char>) -> nat
    decreases s.len(),
{
    if s.len() > 0 && is_digit(s.last()) {
        1 + trailing_digit_count(s.drop_last())
    } else {
        0
    }
}

/// The key of a JVM argument, which decides whether a default is already set: the part before
/// `=`; a whole `-XX:+`/`-XX:-` flag; a size option without its number and unit (`-Xmx2G` is
/// `-Xmx`); otherwise the whole argument.
pub open spec fn spec_arg_key(arg: Seq<char>) -> Seq<char> {
    if arg.contains('=') {
        split(arg, '=')[0]
    } else if starts_with(arg, "-XX:+"@) || starts_with(arg, "-XX:-"@) {
        arg
    } else {
        let body = if arg.len() > 0 && is_unit(arg.last()) {
            arg.drop_last()
        } else {
            arg
        };
        let digits_start = body.len() - trailing_digit_count(body);
        if digits_start < body.len() && digits_start >= 1 {
            body.subrange(0, digits_start)
        } else {
            arg
        }
    }
}

proof fn lemma_trailing_digit_count(s: Seq<char>)
    ensures
        trailing_digit_count(s) <= s.len(),
    decreases s.len(),
{
    if s.len() > 0 && is_digit(s.last()) {
        lemma_trailing_digit_count(s.drop_last());
    }
}

/// The key of a JVM argument.
pub fn arg_key(arg: &str) -> (r: String)
    ensures
        r@ == spec_arg_key(arg@),
{
    let a = chars_of(arg);
    if has_char(&a, '=') {
        let parts = split_chars(&a, '=');
        proof {
            lemma_split_nonempty(a@, '=');
        }
        assert(views(parts@)[0] == parts@[0]@);
        return string_of(&parts[0]);
    }
    proof {
        reveal_strlit("-XX:+");
        reveal_strlit("-XX:-");
    }
    if starts_with_exec(&a, &chars_of("-XX:+")) || starts_with_exec(&a, &chars_of("-XX:-")) {
        return arg.to_owned();
    }
    let body = if a.len() > 0 {
        let last = a[a.len() - 1];
        if last == 'G' || last == 'M' || last == 'K' || last == 'g' || last == 'm' || last == 'k'
            || last == 'B' || last == 'b' {
            slice(&a, 0, a.len() - 1)
        } else {
            slice(&a, 0, a.len())
        }
    } else {
        slice(&a, 0, 0)
    };
    assert(a@.subrange(0, a@.len() as int) =~= a@);
    let mut digits_start: usize = body.len();
    assert(body@.subrange(0, digits_start as int) =~= body@);
    while digits_start > 0 && body[digits_start - 1] >= '0' && body[digits_start - 1] <= '9'
        invariant
            digits_start <= body.len(),
            trailing_digit_count(body@) == (body.len() - digits_start) + trailing_digit_count(
                body@.subrange(0, digits_start as int),
            ),
        decreases digits_start,
    {
        assert(body@.subrange(0, digits_start as int).drop_last() =~= body@.subrange(
            0,
            digits_start - 1,
        ));
        digits_start = digits_start - 1;
    }
    if digits_start < body.len() && digits_start >= 1 {
        string_of(&slice(&body, 0, digits_start))
    } else {
        arg.to_owned()
    }
}

// ---------------------------------------------------------------------------------------------
// Default JVM arguments.

/// The values of a default entry that applies on the platform.
pub open spec fn spec_entry_values(entry: DefaultUserJvm, platform: Platform) -> Seq<Seq<char>> {
    if entry.rules matches Some(r) && !spec_evaluate_node(r@, platform) {
        Seq::empty()
    } else {
        match entry.value {
            Some(v) => string_views(spec_values(v)),
            None => Seq::empty(),
        }
    }
}

/// The values whose key is not yet taken, in order, and the keys taken after them.
pub open spec fn spec_pick(values: Seq<Seq<char>>, keys: Seq<Seq<char>>) -> (Seq<Seq<char>>, Seq<Seq<char>>)
    decreases values.len(),
{
    if values.len() == 0 {
        (Seq::empty(), keys)
    } else {
        let (picked, taken) = spec_pick(values.drop_last(), keys);
        let key = spec_arg_key(values.last());
        if taken.contains(key) {
            (picked, taken)
        } else {
            (picked.push(values.last()), taken.push(key))
        }
    }
}

/// The defaults of the first `n` entries, and the keys taken after them.
pub open spec fn spec_defaults_after(
    entries: Seq<DefaultUserJvm>,
    platform: Platform,
    keys: Seq<Seq<char>>,
    n: int,
) -> (Seq<Seq<char>>, Seq<Seq<char>>)
    decreases n,
{
    if n <= 0 {
        (Seq::empty(), keys)
    } else {
        let (defaults, taken) = spec_defaults_after(entries, platform, keys, n - 1);
        let (picked, now) = spec_pick(spec_entry_values(entries[n - 1], platform), taken);
        (defaults + picked, now)
    }
}

/// The keys of a list of arguments.
pub open spec fn spec_keys(args: Seq<Seq<char>>) -> Seq<Seq<char>> {
    args.map_values(|a: Seq<char>| spec_arg_key(a))
}

/// `default-user-jvm` arguments that apply on the platform and whose key no earlier argument
/// (existing, the user's, or an earlier default) has.
pub open spec fn spec_default_user_jvm(
    version: VersionJson,
    existing: Seq<Seq<char>>,
    user_args: Seq<Seq<char>>,
    platform: Platform,
) -> Seq<Seq<char>> {
    match version.arguments {
        None => Seq::empty(),
        Some(a) => spec_defaults_after(
            a.default_user_jvm@,
            platform,
            spec_keys(existing + user_args),
            a.default_user_jvm@.len() as int,
        ).0,
    }
}

fn push_keys(keys: &mut Vec<String>, args: &[String])
    ensures
        string_views(final(keys)@) == string_views(old(keys)@) + spec_keys(string_views(args@)),
{
    let ghost start = string_views(keys@);
    let mut i: usize = 0;
    while i < args.len()
        invariant
            i <= args.len(),
            string_views(keys@) == start + spec_keys(string_views(args@.subrange(0, i as int))),
        decreases args.len() - i,
    {
        let ghost before = keys@;
        let key = arg_key(args[i].as_str());
        keys.push(key);
        assert(string_views(keys@) =~= string_views(before).push(spec_arg_key(args@[i as int]@)));
        assert(spec_keys(string_views(args@.subrange(0, i + 1))) =~= spec_keys(string_views(args@.subrange(0, i as int))).push(
            spec_arg_key(args@[i as int]@),
        ));
        i = i + 1;
    }
    assert(args@.subrange(0, args.len() as int) =~= args@);
}

fn entry_values(entry: &DefaultUserJvm, platform: Platform) -> (r: Vec<String>)
    ensures
        string_views(r@) == spec_entry_values(*entry, platform),
{
    if let Some(rules) = &entry.rules {
        if !evaluate_node(rules.as_slice(), platform) {
            return Vec::new();
        }
    }
    match &entry.value {
        Some(v) => v.values(),
        None => Vec::new(),
    }
}

/// The default JVM arguments to add after `existing` and before `user_args`.
pub fn default_user_jvm_arguments(
    version: &VersionJson,
    existing: &[String],
    user_args: &[String],
    platform: Platform,
) -> (r: Vec<String>)
    ensures
        string_views(r@) == spec_default_user_jvm(
            *version,
            string_views(existing@),
            string_views(user_args@),
            platform,
        ),
{
    let arguments = match &version.arguments {
        None => {
            return Vec::new();
        },
        Some(a) => a,
    };
    let mut keys: Vec<String> = Vec::new();
    push_keys(&mut keys, existing);
    push_keys(&mut keys, user_args);
    assert(spec_keys(string_views(existing@) + string_views(user_args@)) =~= spec_keys(
        string_views(existing@),
    ) + spec_keys(string_views(user_args@)));
    let ghost keys0 = string_views(keys@);
    let entries = &arguments.default_user_jvm;
    let mut defaults: Vec<String> = Vec::new();
    let mut i: usize = 0;
    while i < entries.len()
        invariant
            i <= entries.len(),
            (string_views(defaults@), string_views(keys@)) == spec_defaults_after(
                entries@,
                platform,
                keys0,
                i as int,
            ),
        decreases entries.len() - i,
    {
        let values = entry_values(&entries[i], platform);
        let ghost d0 = string_views(defaults@);
        let ghost k0 = string_views(keys@);
        let mut j: usize = 0;
        while j < values.len()
            invariant
                j <= values.len(),
                string_views(defaults@) == d0 + spec_pick(
                    string_views(values@).subrange(0, j as int),
                    k0,
                ).0,
                string_views(keys@) == spec_pick(string_views(values@).subrange(0, j as int), k0).1,
            decreases values.len() - j,
        {
            let ghost pre = string_views(values@).subrange(0, j + 1);
            assert(pre.drop_last() =~= string_views(values@).subrange(0, j as int));
            let key = arg_key(values[j].as_str());
            let ghost dd = defaults@;
            let ghost kk = keys@;
            if !contains_string(&keys, key.as_str()) {
                defaults.push(values[j].clone());
                keys.push(key);
                assert(string_views(defaults@) =~= string_views(dd).push(values@[j as int]@));
                assert(string_views(keys@) =~= string_views(kk).push(key@));
            }
            j = j + 1;
        }
        assert(string_views(values@).subrange(0, values.len() as int) =~= string_views(values@));
        i = i + 1;
    }
    defaults
}


// ---------------------------------------------------------------------------------------------
// Game arguments.

/// The texts in order with later repeats left out.
pub open spec fn dedupe(s: Seq<Seq<char>>) -> Seq<Seq<char>>
    decreases s.len(),
{
    if s.len() == 0 {
        Seq::empty()
    } else {
        let kept = dedupe(s.drop_last());
        if kept.contains(s.last()) {
            kept
        } else {
            kept.push(s.last())
        }
    }
}

/// The game arguments a manifest gives as text: its legacy argument line split on spaces, or
/// the plain entries of its argument list.
pub open spec fn spec_version_game_texts(version: VersionJson) -> Seq<Seq<char>> {
    match version.minecraft_arguments {
        Some(a) => split(a@, ' '),
        None => match version.arguments {
            Some(args) => crate::loader::spec_plain_strings(args.game@),
            None => Seq::empty(),
        },
    }
}

/// The argument texts before placeholders are filled in: the version's, then with a loader its
/// legacy line, with repeated texts left out.
pub open spec fn spec_game_texts(input: ArgumentsInput) -> Seq<Seq<char>> {
    let base = spec_version_game_texts(*input.version);
    match input.loader {
        None => base,
        Some(l) => dedupe(
            base + match l.minecraft_arguments {
                Some(a) => split(a@, ' '),
                None => Seq::empty(),
            },
        ),
    }
}

/// The values that placeholders stand for.
pub struct PlaceholderValues {
    pub access_token: Seq<char>,
    pub player_name: Seq<char>,
    pub uuid: Seq<char>,
    pub xuid: Seq<char>,
    pub user_properties: Seq<char>,
    pub user_type: Seq<char>,
    pub version_name: Seq<char>,
    pub assets_index_name: Seq<char>,
    pub game_directory: Seq<char>,
    pub assets_root: Seq<char>,
    pub version_type: Seq<char>,
    pub client_id: Seq<char>,
}

/// `root/resources` for the legacy asset layout, `root/assets` otherwise.
pub open spec fn spec_assets_root(input: ArgumentsInput) -> Seq<char> {
    if spec_is_old(*input.version) {
        input.options.root@ + "/resources"@
    } else {
        input.options.root@ + "/assets"@
    }
}

/// The version name: the loader's non-empty id, else the version id.
pub open spec fn spec_version_name(input: ArgumentsInput) -> Seq<char> {
    match input.loader {
        Some(l) => match l.id {
            Some(id) if id@.len() > 0 => id@,
            _ => input.version.id@,
        },
        None => input.version.id@,
    }
}

/// The client id: the account's non-empty client id, else its non-empty client token, else
/// its access token.
pub open spec fn spec_client_id(account: Account) -> Seq<char> {
    match account.client_id {
        Some(id) if id@.len() > 0 => id@,
        _ => if account.client_token@.len() > 0 {
            account.client_token@
        } else {
            account.access_token@
        },
    }
}

pub open spec fn spec_placeholder_values(input: ArgumentsInput) -> PlaceholderValues {
    let account = *input.account;
    let version = *input.version;
    PlaceholderValues {
        access_token: account.access_token@,
        player_name: account.name@,
        uuid: account.uuid@,
        xuid: match spec_xuid(account.xbox_account) {
            Some(x) => x,
            None => account.access_token@,
        },
        user_properties: account.user_properties@,
        user_type: if starts_with(version.id@, "1.16"@) {
            "Xbox"@
        } else {
            spec_user_type(account.meta.kind)
        },
        version_name: spec_version_name(input),
        assets_index_name: match version.asset_index {
            Some(a) => a.id@,
            None => match version.assets {
                Some(a) => a@,
                None => version.id@,
            },
        },
        game_directory: spec_game_dir(input.options.root@, opt_view(input.options.instance)),
        assets_root: spec_assets_root(input),
        version_type: version.kind@,
        client_id: spec_client_id(account),
    }
}

/// A game argument with its placeholder, if it is exactly one, replaced by its value.
pub open spec fn spec_substitute(v: Seq<char>, p: PlaceholderValues) -> Seq<char> {
    if v == "${auth_access_token}"@ || v == "${auth_session}"@ {
        p.access_token
    } else if v == "${auth_player_name}"@ {
        p.player_name
    } else if v == "${auth_uuid}"@ {
        p.uuid
    } else if v == "${auth_xuid}"@ {
        p.xuid
    } else if v == "${user_properties}"@ {
        p.user_properties
    } else if v == "${user_type}"@ {
        p.user_type
    } else if v == "${version_name}"@ {
        p.version_name
    } else if v == "${assets_index_name}"@ {
        p.assets_index_name
    } else if v == "${game_directory}"@ {
        p.game_directory
    } else if v == "${assets_root}"@ || v == "${game_assets}"@ {
        p.assets_root
    } else if v == "${version_type}"@ {
        p.version_type
    } else if v == "${clientid}"@ {
        p.client_id
    } else {
        v
    }
}

/// `--width`/`--height` when both are set and not zero, then `--fullscreen` when asked.
pub open spec fn spec_screen_args(options: LaunchOptions) -> Seq<Seq<char>> {
    let size = match (options.screen.width, options.screen.height) {
        (Some(w), Some(h)) if w != 0 && h != 0 => seq![
            "--width"@,
            decimal(w as nat),
            "--height"@,
            decimal(h as nat),
        ],
        _ => Seq::empty(),
    };
    if options.screen.fullscreen {
        size.push("--fullscreen"@)
    } else {
        size
    }
}

/// The game arguments: the texts with placeholders filled in, the window options, then the
/// user's own game arguments.
pub open spec fn spec_game_arguments(input: ArgumentsInput) -> Seq<Seq<char>> {
    let p = spec_placeholder_values(input);
    spec_game_texts(input).map_values(|t: Seq<char>| spec_substitute(t, p)) + spec_screen_args(
        *input.options,
    ) + string_views(input.options.game_args@)
}

/// With a window size whose sides are both set and not zero, the game arguments hold
/// `--width` followed by the width in decimal, then `--height` followed by the height in
/// decimal.
pub proof fn law_window_size_arguments(input: ArgumentsInput, w: u32, h: u32)
    requires
        input.options.screen.width == Some(w),
        input.options.screen.height == Some(h),
        w != 0,
        h != 0,
    ensures
        exists|i: int|
            0 <= i && i + 3 < spec_game_arguments(input).len()
                && (#[trigger] spec_game_arguments(input)[i]) == "--width"@
                && spec_game_arguments(input)[i + 1] == decimal(w as nat)
                && spec_game_arguments(input)[i + 2] == "--height"@
                && spec_game_arguments(input)[i + 3] == decimal(h as nat),
{
    let p = spec_placeholder_values(input);
    let texts = spec_game_texts(input).map_values(|t: Seq<char>| spec_substitute(t, p));
    let screen = spec_screen_args(*input.options);
    let a = spec_game_arguments(input);
    let i = texts.len() as int;
    assert(a == texts + screen + string_views(input.options.game_args@));
    assert(screen.len() >= 4);
    assert(a[i] == screen[0]);
    assert(a[i + 1] == screen[1]);
    assert(a[i + 2] == screen[2]);
    assert(a[i + 3] == screen[3]);
}

/// A launch asked to be full screen passes `--fullscreen` among the game arguments.
pub proof fn law_fullscreen_argument(input: ArgumentsInput)
    requires
        input.options.screen.fullscreen,
    ensures
        exists|i: int|
            0 <= i < spec_game_arguments(input).len() && (#[trigger] spec_game_arguments(input)[i])
                == "--fullscreen"@,
{
    let p = spec_placeholder_values(input);
    let texts = spec_game_texts(input).map_values(|t: Seq<char>| spec_substitute(t, p));
    let screen = spec_screen_args(*input.options);
    let a = spec_game_arguments(input);
    let i = texts.len() + screen.len() - 1;
    assert(a == texts + screen + string_views(input.options.game_args@));
    assert(screen.len() >= 1 && screen.last() == "--fullscreen"@);
    assert(a[i] == screen[screen.len() - 1]);
}

/// Placeholder values, computed.
struct Placeholders {
    access_token: String,
    player_name: String,
    uuid: String,
    xuid: String,
    user_properties: String,
    user_type: String,
    version_name: String,
    assets_index_name: String,
    game_directory: String,
    assets_root: String,
    version_type: String,
    client_id: String,
}

impl Placeholders {
    spec fn holds(&self, p: PlaceholderValues) -> bool {
        &&& self.access_token@ == p.access_token
        &&& self.player_name@ == p.player_name
        &&& self.uuid@ == p.uuid
        &&& self.xuid@ == p.xuid
        &&& self.user_properties@ == p.user_properties
        &&& self.user_type@ == p.user_type
        &&& self.version_name@ == p.version_name
        &&& self.assets_index_name@ == p.assets_index_name
        &&& self.game_directory@ == p.game_directory
        &&& self.assets_root@ == p.assets_root
        &&& self.version_type@ == p.version_type
        &&& self.client_id@ == p.client_id
    }
}

fn assets_root(input: &ArgumentsInput) -> (r: String)
    ensures
        r@ == spec_assets_root(*input),
{
    let mut root = chars_of(input.options.root.as_str());
    if is_old(input.version) {
        append(&mut root, "/resources");
    } else {
        append(&mut root, "/assets");
    }
    string_of(&root)
}

fn placeholders(input: &ArgumentsInput) -> (r: Placeholders)
    ensures
        r.holds(spec_placeholder_values(*input)),
{
    let account = input.account;
    let version = input.version;
    proof {
        reveal_strlit("1.16");
    }
    let user_type = if starts_with_exec(&chars_of(version.id.as_str()), &chars_of("1.16")) {
        "Xbox".to_owned()
    } else {
        account.meta.kind.user_type().to_owned()
    };
    let assets_index_name = match &version.asset_index {
        Some(a) => a.id.clone(),
        None => match &version.assets {
            Some(a) => a.clone(),
            None => version.id.clone(),
        },
    };
    let version_name = match input.loader {
        Some(l) => match &l.id {
            Some(id) => {
                if id.as_str().unicode_len() > 0 {
                    id.clone()
                } else {
                    version.id.clone()
                }
            },
            None => version.id.clone(),
        },
        None => version.id.clone(),
    };
    let xuid = match account.xuid() {
        Some(x) => x.to_owned(),
        None => account.access_token.clone(),
    };
    let client_id = match &account.client_id {
        Some(id) if id.as_str().unicode_len() > 0 => id.clone(),
        _ => if account.client_token.as_str().unicode_len() > 0 {
            account.client_token.clone()
        } else {
            account.access_token.clone()
        },
    };
    Placeholders {
        access_token: account.access_token.clone(),
        player_name: account.name.clone(),
        uuid: account.uuid.clone(),
        xuid,
        user_properties: account.user_properties.clone(),
        user_type,
        version_name,
        assets_index_name,
        game_directory: input.options.game_dir(),
        assets_root: assets_root(input),
        version_type: version.kind.clone(),
        client_id,
    }
}

fn substitute(v: &Vec<char>, p: &Placeholders, Ghost(pv): Ghost<PlaceholderValues>) -> (r: String)
    requires
        p.holds(pv),
    ensures
        r@ == spec_substitute(v@, pv),
{
    let s = string_of(v);
    let t = s.as_str();
    if str_eq(t, "${auth_access_token}") || str_eq(t, "${auth_session}") {
        p.access_token.clone()
    } else if str_eq(t, "${auth_player_name}") {
        p.player_name.clone()
    } else if str_eq(t, "${auth_uuid}") {
        p.uuid.clone()
    } else if str_eq(t, "${auth_xuid}") {
        p.xuid.clone()
    } else if str_eq(t, "${user_properties}") {
        p.user_properties.clone()
    } else if str_eq(t, "${user_type}") {
        p.user_type.clone()
    } else if str_eq(t, "${version_name}") {
        p.version_name.clone()
    } else if str_eq(t, "${assets_index_name}") {
        p.assets_index_name.clone()
    } else if str_eq(t, "${game_directory}") {
        p.game_directory.clone()
    } else if str_eq(t, "${assets_root}") || str_eq(t, "${game_assets}") {
        p.assets_root.clone()
    } else if str_eq(t, "${version_type}") {
        p.version_type.clone()
    } else if str_eq(t, "${clientid}") {
        p.client_id.clone()
    } else {
        s
    }
}

/// The plain-text arguments of a list, as character vectors.
fn plain_texts(arguments: &Vec<Argument>) -> (r: Vec<Vec<char>>)
    ensures
        views(r@) == crate::loader::spec_plain_strings(arguments@),
{
    let mut r: Vec<Vec<char>> = Vec::new();
    let mut i: usize = 0;
    while i < arguments.len()
        invariant
            i <= arguments.len(),
            views(r@) == crate::loader::spec_plain_strings(arguments@.subrange(0, i as int)),
        decreases arguments.len() - i,
    {
        let ghost before = r@;
        match &arguments[i] {
            Argument::Plain(value) => {
                r.push(chars_of(value.as_str()));
                assert(views(r@) =~= views(before).push(value@));
            },
            Argument::Conditional { .. } => {},
        }
        assert(arguments@.subrange(0, i + 1).drop_last() =~= arguments@.subrange(0, i as int));
        i = i + 1;
    }
    assert(arguments@.subrange(0, arguments.len() as int) =~= arguments@);
    r
}

fn contains_text(list: &Vec<Vec<char>>, t: &Vec<char>) -> (r: bool)
    ensures
        r == views(list@).contains(t@),
{
    let mut i: usize = 0;
    while i < list.len()
        invariant
            i <= list.len(),
            forall|k: int| 0 <= k < i ==> list@[k]@ != t@,
        decreases list.len() - i,
    {
        if crate::foundation::text::eq_exec(&list[i], t) {
            assert(views(list@)[i as int] == t@);
            return true;
        }
        i = i + 1;
    }
    proof {
        if views(list@).contains(t@) {
            let k = choose|k: int| 0 <= k < views(list@).len() && views(list@)[k] == t@;
            assert(list@[k]@ == t@);
        }
    }
    false
}

fn dedupe_texts(s: &Vec<Vec<char>>) -> (r: Vec<Vec<char>>)
    ensures
        views(r@) == dedupe(views(s@)),
{
    let mut r: Vec<Vec<char>> = Vec::new();
    let mut i: usize = 0;
    while i < s.len()
        invariant
            i <= s.len(),
            views(r@) == dedupe(views(s@).subrange(0, i as int)),
        decreases s.len() - i,
    {
        let ghost pre = views(s@).subrange(0, i + 1);
        assert(pre.drop_last() =~= views(s@).subrange(0, i as int));
        let ghost before = r@;
        if !contains_text(&r, &s[i]) {
            r.push(s[i].clone());
            assert(views(r@) =~= views(before).push(s@[i as int]@));
        }
        i = i + 1;
    }
    assert(views(s@).subrange(0, s.len() as int) =~= views(s@));
    r
}

fn push_texts(r: &mut Vec<Vec<char>>, t: &Vec<Vec<char>>)
    ensures
        views(final(r)@) == views(old(r)@) + views(t@),
{
    let ghost start = views(r@);
    let mut i: usize = 0;
    while i < t.len()
        invariant
            i <= t.len(),
            views(r@) == start + views(t@).subrange(0, i as int),
        decreases t.len() - i,
    {
        let ghost before = r@;
        r.push(t[i].clone());
        assert(views(r@) =~= views(before).push(t@[i as int]@));
        assert(views(t@).subrange(0, i + 1) =~= views(t@).subrange(0, i as int).push(t@[i as int]@));
        i = i + 1;
    }
    assert(views(t@).subrange(0, t.len() as int) =~= views(t@));
}

fn game_texts(input: &ArgumentsInput) -> (r: Vec<Vec<char>>)
    ensures
        views(r@) == spec_game_texts(*input),
{
    let version = input.version;
    let base: Vec<Vec<char>> = match &version.minecraft_arguments {
        Some(a) => split_chars(&chars_of(a.as_str()), ' '),
        None => match &version.arguments {
            Some(args) => plain_texts(&args.game),
            None => Vec::new(),
        },
    };
    assert(views(base@) == spec_version_game_texts(*version)) by {
        if version.minecraft_arguments is None && version.arguments is None {
            assert(views(base@) =~= Seq::<Seq<char>>::empty());
        }
    }
    match input.loader {
        None => base,
        Some(loader) => {
            let mut all = base;
            match &loader.minecraft_arguments {
                Some(a) => {
                    let extra = split_chars(&chars_of(a.as_str()), ' ');
                    push_texts(&mut all, &extra);
                },
                None => {
                    assert(views(all@) =~= views(all@) + Seq::<Seq<char>>::empty());
                },
            }
            dedupe_texts(&all)
        },
    }
}

fn screen_args(options: &LaunchOptions) -> (r: Vec<String>)
    ensures
        string_views(r@) == spec_screen_args(*options),
{
    let mut r: Vec<String> = Vec::new();
    match (options.screen.width, options.screen.height) {
        (Some(w), Some(h)) => {
            if w != 0 && h != 0 {
                r.push("--width".to_owned());
                r.push(string_of(&decimal_exec(w as u64)));
                r.push("--height".to_owned());
                r.push(string_of(&decimal_exec(h as u64)));
            }
        },
        _ => {},
    }
    if options.screen.fullscreen {
        r.push("--fullscreen".to_owned());
    }
    assert(string_views(r@) =~= spec_screen_args(*options));
    r
}

fn push_strings(r: &mut Vec<String>, t: &Vec<String>)
    ensures
        string_views(final(r)@) == string_views(old(r)@) + string_views(t@),
{
    let ghost start = string_views(r@);
    let mut i: usize = 0;
    while i < t.len()
        invariant
            i <= t.len(),
            string_views(r@) == start + string_views(t@).subrange(0, i as int),
        decreases t.len() - i,
    {
        let ghost before = r@;
        r.push(t[i].clone());
        assert(string_views(r@) =~= string_views(before).push(t@[i as int]@));
        assert(string_views(t@).subrange(0, i + 1) =~= string_views(t@).subrange(0, i as int).push(
            t@[i as int]@,
        ));
        i = i + 1;
    }
    assert(string_views(t@).subrange(0, t.len() as int) =~= string_views(t@));
}

/// The arguments given to the game after the main class (without the loader's own).
pub fn game_arguments(input: &ArgumentsInput) -> (r: Vec<String>)
    ensures
        string_views(r@) == spec_game_arguments(*input),
{
    let texts = game_texts(input);
    let p = placeholders(input);
    let ghost pv = spec_placeholder_values(*input);
    let mut result: Vec<String> = Vec::new();
    let mut i: usize = 0;
    while i < texts.len()
        invariant
            i <= texts.len(),
            p.holds(pv),
            string_views(result@) == views(texts@).subrange(0, i as int).map_values(
                |t: Seq<char>| spec_substitute(t, pv),
            ),
        decreases texts.len() - i,
    {
        let ghost before = result@;
        let value = substitute(&texts[i], &p, Ghost(pv));
        result.push(value);
        assert(views(texts@).subrange(0, i + 1) =~= views(texts@).subrange(0, i as int).push(
            texts@[i as int]@,
        ));
        assert(string_views(result@) =~= string_views(before).push(value@));
        assert(string_views(result@) =~= views(texts@).subrange(0, i + 1).map_values(
            |t: Seq<char>| spec_substitute(t, pv),
        ));
        i = i + 1;
    }
    assert(views(texts@).subrange(0, texts.len() as int) =~= views(texts@));
    let screen = screen_args(input.options);
    push_strings(&mut result, &screen);
    push_strings(&mut result, &input.options.game_args);
    result
}


// ---------------------------------------------------------------------------------------------
// JVM arguments.

/// `root/versions/<id>/natives`.
pub open spec fn spec_natives_path(input: ArgumentsInput) -> Seq<char> {
    input.options.root@ + "/versions/"@ + input.version.id@ + "/natives"@
}

/// The argument each platform needs when the manifest is not a legacy one.
pub open spec fn spec_os_jvm_arg(platform: Platform) -> Seq<char> {
    match platform {
        Platform::Windows => "-XX:HeapDumpPath=MojangTricksIntelDriversForPerformance_javaw.exe_minecraft.exe.heapdump"@,
        Platform::MacOs => "-XstartOnFirstThread"@,
        Platform::Linux => "-Xss1M"@,
    }
}

/// Whether the dock icon arguments are given: on macOS, for a manifest with assets, when the
/// icon's hash is known.
pub open spec fn spec_wants_dock_icon(input: ArgumentsInput) -> bool {
    input.platform == Platform::MacOs && input.version.assets is Some && input.dock_icon is Some
}

/// The JVM arguments before the defaults and the user's own.
pub open spec fn spec_jvm_head(input: ArgumentsInput) -> Seq<Seq<char>> {
    let n = spec_natives_path(input);
    let root = input.options.root@;
    let base = seq![
        "-Xms"@ + input.options.memory.min@,
        "-Xmx"@ + input.options.memory.max@,
        "-XX:+UnlockExperimentalVMOptions"@,
        "-XX:G1NewSizePercent=20"@,
        "-XX:G1ReservePercent=20"@,
        "-XX:MaxGCPauseMillis=50"@,
        "-XX:G1HeapRegionSize=32M"@,
        "-Dfml.ignoreInvalidMinecraftCertificates=true"@,
        "-Djna.tmpdir="@ + n,
        "-Dorg.lwjgl.system.SharedLibraryExtractPath="@ + n,
        "-Dio.netty.native.workdir="@ + n,
    ];
    let a = if input.version.minecraft_arguments is None {
        base.push(spec_os_jvm_arg(input.platform))
    } else {
        base
    };
    let b = if input.options.bypass_offline {
        a + seq![
            "-Dminecraft.api.auth.host=https://nope.invalid/"@,
            "-Dminecraft.api.account.host=https://nope.invalid/"@,
            "-Dminecraft.api.session.host=https://nope.invalid/"@,
            "-Dminecraft.api.services.host=https://nope.invalid/"@,
        ]
    } else {
        a
    };
    let c = if input.natives_list {
        b.push("-Djava.library.path="@ + n)
    } else {
        b
    };
    let d = if spec_wants_dock_icon(input) {
        let icon = input.dock_icon->0@;
        c + seq![
            "-Xdock:name=Minecraft"@,
            "-Xdock:icon="@ + root + "/assets/objects/"@ + spec_two_byte_prefix(icon) + "/"@ + icon,
        ]
    } else {
        c
    };
    match input.version.logging {
        Some(l) => match l.client {
            Some(client) if !input.options.ignore_log4j => d.push(
                replace_all(
                    client.argument@,
                    "${path}"@,
                    root + "/assets/log_configs/"@ + client.file.id@,
                ),
            ),
            _ => d,
        },
        None => d,
    }
}

/// The JVM arguments: the launcher's, the defaults not yet set, then the user's own.
pub open spec fn spec_jvm_arguments(input: ArgumentsInput) -> Seq<Seq<char>> {
    let head = spec_jvm_head(input);
    head + spec_default_user_jvm(
        *input.version,
        head,
        string_views(input.options.jvm_args@),
        input.platform,
    ) + string_views(input.options.jvm_args@)
}

/// `a` followed by `b`.
fn concat(a: &str, b: &str) -> (r: String)
    ensures
        r@ == a@ + b@,
{
    let mut v = chars_of(a);
    append(&mut v, b);
    string_of(&v)
}

fn natives_path(input: &ArgumentsInput) -> (r: String)
    ensures
        r@ == spec_natives_path(*input),
{
    let mut v = chars_of(input.options.root.as_str());
    append(&mut v, "/versions/");
    append(&mut v, input.version.id.as_str());
    append(&mut v, "/natives");
    string_of(&v)
}

fn jvm_head(input: &ArgumentsInput) -> (r: Vec<String>)
    requires
        spec_wants_dock_icon(*input) ==> spec_two_byte_prefix_ok(input.dock_icon->0@),
    ensures
        string_views(r@) == spec_jvm_head(*input),
{
    let options = input.options;
    let version = input.version;
    let natives = natives_path(input);
    let root = options.root.as_str();
    let mut jvm: Vec<String> = Vec::new();
    jvm.push(concat("-Xms", options.memory.min.as_str()));
    jvm.push(concat("-Xmx", options.memory.max.as_str()));
    jvm.push("-XX:+UnlockExperimentalVMOptions".to_owned());
    jvm.push("-XX:G1NewSizePercent=20".to_owned());
    jvm.push("-XX:G1ReservePercent=20".to_owned());
    jvm.push("-XX:MaxGCPauseMillis=50".to_owned());
    jvm.push("-XX:G1HeapRegionSize=32M".to_owned());
    jvm.push("-Dfml.ignoreInvalidMinecraftCertificates=true".to_owned());
    jvm.push(concat("-Djna.tmpdir=", natives.as_str()));
    jvm.push(concat("-Dorg.lwjgl.system.SharedLibraryExtractPath=", natives.as_str()));
    jvm.push(concat("-Dio.netty.native.workdir=", natives.as_str()));
    if version.minecraft_arguments.is_none() {
        let os_specific = match input.platform {
            Platform::Windows => "-XX:HeapDumpPath=MojangTricksIntelDriversForPerformance_javaw.exe_minecraft.exe.heapdump",
            Platform::MacOs => "-XstartOnFirstThread",
            Platform::Linux => "-Xss1M",
        };
        jvm.push(os_specific.to_owned());
    }
    if options.bypass_offline {
        jvm.push("-Dminecraft.api.auth.host=https://nope.invalid/".to_owned());
        jvm.push("-Dminecraft.api.account.host=https://nope.invalid/".to_owned());
        jvm.push("-Dminecraft.api.session.host=https://nope.invalid/".to_owned());
        jvm.push("-Dminecraft.api.services.host=https://nope.invalid/".to_owned());
    }
    if input.natives_list {
        jvm.push(concat("-Djava.library.path=", natives.as_str()));
    }
    if input.platform == Platform::MacOs && version.assets.is_some() {
        if let Some(icon) = &input.dock_icon {
            let h = chars_of(icon.as_str());
            let first = h[0];
            let mut prefix: Vec<char> = Vec::new();
            prefix.push(first);
            if !((first as u32) >= 0x80 && (first as u32) < 0x800) {
                prefix.push(h[1]);
            }
            assert(prefix@ =~= spec_two_byte_prefix(icon@));
            jvm.push("-Xdock:name=Minecraft".to_owned());
            let mut v = chars_of("-Xdock:icon=");
            append(&mut v, root);
            append(&mut v, "/assets/objects/");
            push_all(&mut v, &prefix);
            append(&mut v, "/");
            append(&mut v, icon.as_str());
            jvm.push(string_of(&v));
        }
    }
    if let Some(logging) = &version.logging {
        if let Some(client) = &logging.client {
            if !options.ignore_log4j {
                let mut config = chars_of(root);
                append(&mut config, "/assets/log_configs/");
                append(&mut config, client.file.id.as_str());
                proof {
                    reveal_strlit("${path}");
                }
                let replaced = replace_all_exec(
                    &chars_of(client.argument.as_str()),
                    &chars_of("${path}"),
                    &config,
                );
                jvm.push(string_of(&replaced));
            }
        }
    }
    assert(string_views(jvm@) =~= spec_jvm_head(*input));
    jvm
}

/// The arguments given to the JVM before the class path.
pub fn jvm_arguments(input: &ArgumentsInput) -> (r: Vec<String>)
    requires
        spec_wants_dock_icon(*input) ==> spec_two_byte_prefix_ok(input.dock_icon->0@),
    ensures
        string_views(r@) == spec_jvm_arguments(*input),
{
    let mut jvm = jvm_head(input);
    let defaults = default_user_jvm_arguments(
        input.version,
        jvm.as_slice(),
        input.options.jvm_args.as_slice(),
        input.platform,
    );
    push_strings(&mut jvm, &defaults);
    push_strings(&mut jvm, &input.options.jvm_args);
    jvm
}


// ---------------------------------------------------------------------------------------------
// Class path.

/// The number of libraries the class path draws from: the loader's, then the version's.
pub open spec fn spec_combined_len(input: ArgumentsInput) -> int {
    match input.loader {
        Some(l) => (l.libraries@.len() + input.version.libraries@.len()) as int,
        None => input.version.libraries@.len() as int,
    }
}

/// The `i`-th of the loader's libraries followed by the version's, and whether it is the
/// loader's.
pub open spec fn spec_combined(input: ArgumentsInput, i: int) -> (Library, bool) {
    match input.loader {
        Some(l) => if i < l.libraries@.len() {
            (l.libraries@[i], true)
        } else {
            (input.version.libraries@[i - l.libraries@.len()], false)
        },
        None => (input.version.libraries@[i], false),
    }
}

/// The key under which a library competes with other versions of itself (its directory
/// without the version, then its file name without `-version`), and its version; `None` when
/// its version is not a version.
pub open spec fn spec_library_key(name: Seq<char>) -> Option<(Seq<char>, Version)> {
    let (path, file, version) = spec_library_path(name, None, None);
    match spec_coerce(version) {
        None => None,
        Some(v) => {
            let base = match rfind_char(path, '/') {
                Some(i) => path.subrange(0, i),
                None => Seq::empty(),
            };
            Some((base + "/"@ + replace_first(file, "-"@ + version, Seq::empty()), v))
        },
    }
}

/// The first position of a key among the chosen libraries.
pub open spec fn spec_key_pos(chosen: Seq<(Seq<char>, int, Version)>, key: Seq<char>, i: int) -> Option<int>
    decreases chosen.len() - i,
{
    if i < 0 || i >= chosen.len() {
        None
    } else if chosen[i].0 == key {
        Some(i)
    } else {
        spec_key_pos(chosen, key, i + 1)
    }
}

/// Whether later versions of a library replace earlier ones: only on Windows, for game
/// versions from 1.14.4 to 1.18.2.
pub open spec fn spec_upgrades(input: ArgumentsInput) -> bool {
    input.platform == Platform::Windows && match spec_coerce(input.options.version@) {
        Some(v) => crate::foundation::semver::version_le(Version { major: 1, minor: 14, patch: 4 }, v)
            && crate::foundation::semver::version_le(v, Version { major: 1, minor: 18, patch: 2 }),
        None => false,
    }
}

/// The libraries chosen among the first `n`: by key, in the order keys first appear, each the
/// first with that key, or with upgrades the last one of a higher version.
pub open spec fn spec_chosen(input: ArgumentsInput, n: int) -> Seq<(Seq<char>, int, Version)>
    decreases n,
{
    if n <= 0 {
        Seq::empty()
    } else {
        let prev = spec_chosen(input, n - 1);
        match spec_library_key(spec_combined(input, n - 1).0.name@) {
            None => prev,
            Some((key, v)) => match spec_key_pos(prev, key, 0) {
                None => prev.push((key, n - 1, v)),
                Some(j) => if spec_upgrades(input) && version_lt(prev[j].2, v) {
                    prev.update(j, (key, n - 1, v))
                } else {
                    prev
                },
            },
        }
    }
}

/// Whether a chosen library stays off the class path: the loader's SLF4J 2 binding of Log4j,
/// a natives library without natives for the platform, or one whose first rule names another
/// system.
pub open spec fn spec_left_out(library: Library, is_loader: bool, os_name: Seq<char>) -> bool {
    (is_loader && starts_with(library.name@, "org.apache.logging.log4j:log4j-slf4j2-impl"@))
        || match library.natives {
        Some(n) => lookup(n@, os_name) is None,
        None => match library.rules {
            Some(r) => r@.len() > 0 && match r@[0].os {
                Some(os) => opt_view(os.name) != Some(os_name),
                None => false,
            },
            None => false,
        },
    }
}

/// `<base>/libraries/<path>/<file>`, the base being the loader directory for the loader's
/// libraries and the root otherwise.
pub open spec fn spec_library_entry(input: ArgumentsInput, library: Library, is_loader: bool) -> Seq<char> {
    let (path, file, _) = spec_library_path(library.name@, None, None);
    let base = if is_loader {
        match input.loader {
            Some(l) => l.loader_dir@,
            None => input.options.root@,
        }
    } else {
        input.options.root@
    };
    base + "/libraries/"@ + path + "/"@ + file
}

/// The class path entries of the first `n` chosen libraries.
pub open spec fn spec_library_entries(input: ArgumentsInput, chosen: Seq<(Seq<char>, int, Version)>, n: int) -> Seq<Seq<char>>
    decreases n,
{
    if n <= 0 {
        Seq::empty()
    } else {
        let prev = spec_library_entries(input, chosen, n - 1);
        let (library, is_loader) = spec_combined(input, chosen[n - 1].1);
        if spec_left_out(library, is_loader, spec_mojang_name(input.platform)) {
            prev
        } else {
            prev.push(spec_library_entry(input, library, is_loader))
        }
    }
}

/// The game jar: the MCP jar when one is set, else `root/versions/<id>/<id>.jar`.
pub open spec fn spec_game_jar(input: ArgumentsInput) -> Seq<char> {
    match input.options.mcp {
        Some(m) => spec_join_normalized(
            spec_game_dir(input.options.root@, opt_view(input.options.instance)),
            m@,
        ),
        None => input.options.root@ + "/versions/"@ + input.version.id@ + "/"@ + input.version.id@
            + ".jar"@,
    }
}

/// What follows the last `/` of an entry.
pub open spec fn spec_file_part(entry: Seq<char>) -> Seq<char> {
    match rfind_char(entry, '/') {
        Some(i) => entry.subrange(i + 1, entry.len() as int),
        None => entry,
    }
}

/// The entries kept: those whose file part is not empty and is not itself a kept entry.
pub open spec fn spec_unique_entries(entries: Seq<Seq<char>>) -> Seq<Seq<char>>
    decreases entries.len(),
{
    if entries.len() == 0 {
        Seq::empty()
    } else {
        let kept = spec_unique_entries(entries.drop_last());
        let file = spec_file_part(entries.last());
        if file.len() > 0 && !kept.contains(file) {
            kept.push(entries.last())
        } else {
            kept
        }
    }
}

/// All class path entries, the game jar last.
pub open spec fn spec_classpath_entries(input: ArgumentsInput) -> Seq<Seq<char>> {
    let chosen = spec_chosen(input, spec_combined_len(input));
    spec_unique_entries(
        spec_library_entries(input, chosen, chosen.len() as int).push(spec_game_jar(input)),
    )
}

/// The main class: the loader's, or the version's, when not empty.
pub open spec fn spec_main_class(input: ArgumentsInput) -> Option<Seq<char>> {
    let m = match input.loader {
        Some(l) => opt_view(l.main_class),
        None => Some(input.version.main_class@),
    };
    match m {
        Some(c) if c.len() > 0 => Some(c),
        _ => None,
    }
}

/// The class path separator as text.
pub open spec fn spec_separator(platform: Platform) -> Seq<char> {
    if platform == Platform::Windows {
        ";"@
    } else {
        ":"@
    }
}

fn combined_len(input: &ArgumentsInput) -> (r: usize)
    requires
        spec_combined_len(*input) <= usize::MAX,
    ensures
        r == spec_combined_len(*input),
{
    match input.loader {
        Some(l) => l.libraries.len() + input.version.libraries.len(),
        None => input.version.libraries.len(),
    }
}

fn combined<'b>(input: &'b ArgumentsInput, i: usize) -> (r: (&'b Library, bool))
    requires
        i < spec_combined_len(*input),
    ensures
        (*r.0, r.1) == spec_combined(*input, i as int),
{
    match input.loader {
        Some(l) => if i < l.libraries.len() {
            (&l.libraries[i], true)
        } else {
            (&input.version.libraries[i - l.libraries.len()], false)
        },
        None => (&input.version.libraries[i], false),
    }
}

fn library_key(name: &str) -> (r: Option<(String, Version)>)
    ensures
        match r {
            Some((k, v)) => spec_library_key(name@) == Some((k@, v)),
            None => spec_library_key(name@) is None,
        },
{
    let parts = library_path(name, None, None);
    let v = match coerce(parts.version.as_str()) {
        Some(v) => v,
        None => {
            return None;
        },
    };
    let path = chars_of(parts.path.as_str());
    let base = match rfind_char_exec(&path, '/') {
        Some(i) => {
            proof {
                lemma_rfind_char(path@, '/');
            }
            slice(&path, 0, i)
        },
        None => Vec::new(),
    };
    let mut key = base;
    append(&mut key, "/");
    let mut pattern = chars_of("-");
    append(&mut pattern, parts.version.as_str());
    let file = replace_first_exec(&chars_of(parts.name.as_str()), &pattern, &Vec::new());
    push_all(&mut key, &file);
    Some((string_of(&key), v))
}

pub open spec fn chosen_view(c: Seq<(String, usize, Version)>) -> Seq<(Seq<char>, int, Version)> {
    c.map_values(|e: (String, usize, Version)| (e.0@, e.1 as int, e.2))
}

fn key_pos(chosen: &Vec<(String, usize, Version)>, key: &str) -> (r: Option<usize>)
    ensures
        match r {
            Some(j) => spec_key_pos(chosen_view(chosen@), key@, 0) == Some(j as int) && j
                < chosen@.len(),
            None => spec_key_pos(chosen_view(chosen@), key@, 0) is None,
        },
{
    let mut i: usize = 0;
    while i < chosen.len()
        invariant
            i <= chosen.len(),
            spec_key_pos(chosen_view(chosen@), key@, 0) == spec_key_pos(
                chosen_view(chosen@),
                key@,
                i as int,
            ),
        decreases chosen.len() - i,
    {
        if str_eq(chosen[i].0.as_str(), key) {
            return Some(i);
        }
        i = i + 1;
    }
    None
}

fn upgrades(input: &ArgumentsInput) -> (r: bool)
    ensures
        r == spec_upgrades(*input),
{
    let supported = match coerce(input.options.version.as_str()) {
        Some(v) => v.within(Version::new(1, 14, 4), Version::new(1, 18, 2)),
        None => false,
    };
    input.platform == Platform::Windows && supported
}

fn choose_libraries(input: &ArgumentsInput) -> (r: Vec<(String, usize, Version)>)
    requires
        spec_combined_len(*input) <= usize::MAX,
    ensures
        chosen_view(r@) == spec_chosen(*input, spec_combined_len(*input)),
        forall|k: int| 0 <= k < r@.len() ==> (#[trigger] r@[k]).1 < spec_combined_len(*input),
{
    let n = combined_len(input);
    let upgrade = upgrades(input);
    let mut chosen: Vec<(String, usize, Version)> = Vec::new();
    let mut i: usize = 0;
    while i < n
        invariant
            i <= n,
            n == spec_combined_len(*input),
            upgrade == spec_upgrades(*input),
            chosen_view(chosen@) == spec_chosen(*input, i as int),
            forall|k: int| 0 <= k < chosen@.len() ==> (#[trigger] chosen@[k]).1 < n,
        decreases n - i,
    {
        let (library, _) = combined(input, i);
        let ghost before = chosen@;
        match library_key(library.name.as_str()) {
            None => {},
            Some((key, v)) => {
                match key_pos(&chosen, key.as_str()) {
                    None => {
                        chosen.push((key, i, v));
                        assert(chosen_view(chosen@) =~= chosen_view(before).push((key@, i as int, v)));
                    },
                    Some(j) => {
                        if upgrade && lt(chosen[j].2, v) {
                            chosen.set(j, (key, i, v));
                            assert(chosen_view(chosen@) =~= chosen_view(before).update(
                                j as int,
                                (key@, i as int, v),
                            ));
                        }
                    },
                }
            },
        }
        i = i + 1;
    }
    chosen
}

fn left_out(library: &Library, is_loader: bool, os_name: &str) -> (r: bool)
    ensures
        r == spec_left_out(*library, is_loader, os_name@),
{
    proof {
        reveal_strlit("org.apache.logging.log4j:log4j-slf4j2-impl");
    }
    if is_loader && starts_with_exec(
        &chars_of(library.name.as_str()),
        &chars_of("org.apache.logging.log4j:log4j-slf4j2-impl"),
    ) {
        return true;
    }
    match &library.natives {
        Some(n) => key_index(n, os_name).is_none(),
        None => match &library.rules {
            Some(r) => {
                if r.len() > 0 {
                    match &r[0].os {
                        Some(os) => match &os.name {
                            Some(name) => !str_eq(name.as_str(), os_name),
                            None => true,
                        },
                        None => false,
                    }
                } else {
                    false
                }
            },
            None => false,
        },
    }
}

fn library_entry(input: &ArgumentsInput, library: &Library, is_loader: bool) -> (r: String)
    ensures
        r@ == spec_library_entry(*input, *library, is_loader),
{
    let info = library_path(library.name.as_str(), None, None);
    let mut v = if is_loader {
        match input.loader {
            Some(l) => chars_of(l.loader_dir.as_str()),
            None => chars_of(input.options.root.as_str()),
        }
    } else {
        chars_of(input.options.root.as_str())
    };
    append(&mut v, "/libraries/");
    append(&mut v, info.path.as_str());
    append(&mut v, "/");
    append(&mut v, info.name.as_str());
    string_of(&v)
}

fn game_jar(input: &ArgumentsInput) -> (r: String)
    ensures
        r@ == spec_game_jar(*input),
{
    match input.options.mcp_path() {
        Some(m) => m,
        None => {
            let mut v = chars_of(input.options.root.as_str());
            append(&mut v, "/versions/");
            append(&mut v, input.version.id.as_str());
            append(&mut v, "/");
            append(&mut v, input.version.id.as_str());
            append(&mut v, ".jar");
            string_of(&v)
        },
    }
}

pub fn file_part(entry: &String) -> (r: String)
    ensures
        r@ == spec_file_part(entry@),
{
    let e = chars_of(entry.as_str());
    match rfind_char_exec(&e, '/') {
        Some(i) => {
            proof {
                lemma_rfind_char(e@, '/');
            }
            string_of(&slice(&e, i + 1, e.len()))
        },
        None => entry.clone(),
    }
}

fn unique_entries(entries: &Vec<String>) -> (r: Vec<String>)
    ensures
        string_views(r@) == spec_unique_entries(string_views(entries@)),
{
    let mut r: Vec<String> = Vec::new();
    let mut i: usize = 0;
    while i < entries.len()
        invariant
            i <= entries.len(),
            string_views(r@) == spec_unique_entries(string_views(entries@).subrange(0, i as int)),
        decreases entries.len() - i,
    {
        let ghost pre = string_views(entries@).subrange(0, i + 1);
        assert(pre.drop_last() =~= string_views(entries@).subrange(0, i as int));
        let file = file_part(&entries[i]);
        let ghost before = r@;
        if file.as_str().unicode_len() > 0 && !contains_string(&r, file.as_str()) {
            r.push(entries[i].clone());
            assert(string_views(r@) =~= string_views(before).push(entries@[i as int]@));
        }
        i = i + 1;
    }
    assert(string_views(entries@).subrange(0, entries.len() as int) =~= string_views(entries@));
    r
}

/// The `-cp` argument and the class path, and the main class when there is one.
pub fn classpath(input: &ArgumentsInput) -> (r: (Vec<String>, Option<String>))
    requires
        spec_combined_len(*input) <= usize::MAX,
    ensures
        string_views(r.0@) == seq![
            "-cp"@,
            join(spec_classpath_entries(*input), spec_separator(input.platform)),
        ],
        opt_view(r.1) == spec_main_class(*input),
{
    let chosen = choose_libraries(input);
    let ghost cv = chosen_view(chosen@);
    let os_name = input.platform.mojang_name();
    let mut entries: Vec<String> = Vec::new();
    let mut i: usize = 0;
    while i < chosen.len()
        invariant
            i <= chosen.len(),
            cv == chosen_view(chosen@),
            os_name@ == spec_mojang_name(input.platform),
            forall|k: int| 0 <= k < chosen@.len() ==> (#[trigger] chosen@[k]).1 < spec_combined_len(*input),
            string_views(entries@) == spec_library_entries(*input, cv, i as int),
        decreases chosen.len() - i,
    {
        let idx = chosen[i].1;
        assert(cv[i as int].1 == idx as int);
        let (library, is_loader) = combined(input, idx);
        let ghost before = entries@;
        if !left_out(library, is_loader, os_name) {
            entries.push(library_entry(input, library, is_loader));
            assert(string_views(entries@) =~= string_views(before).push(
                spec_library_entry(*input, *library, is_loader),
            ));
        }
        i = i + 1;
    }
    let ghost lib_entries = string_views(entries@);
    entries.push(game_jar(input));
    assert(string_views(entries@) =~= lib_entries.push(spec_game_jar(*input)));
    let unique = unique_entries(&entries);
    let separator = if input.platform == Platform::Windows {
        ";"
    } else {
        ":"
    };
    let joined = join_strings(&unique, separator);
    let mut cp: Vec<String> = Vec::new();
    cp.push("-cp".to_owned());
    cp.push(string_of(&joined));
    assert(string_views(cp@) =~= seq![
        "-cp"@,
        join(spec_classpath_entries(*input), spec_separator(input.platform)),
    ]);
    let main = match input.loader {
        Some(l) => match &l.main_class {
            Some(m) => Some(m.clone()),
            None => None,
        },
        None => Some(input.version.main_class.clone()),
    };
    let main_class = match main {
        Some(m) => if m.as_str().unicode_len() > 0 {
            Some(m)
        } else {
            None
        },
        None => None,
    };
    (cp, main_class)
}


// ---------------------------------------------------------------------------------------------
// Loader arguments and the whole plan.

/// A loader JVM argument with its placeholders filled in and its JNA jars patched.
pub open spec fn spec_loader_jvm_arg(input: ArgumentsInput, loader: LoaderJson, arg: Seq<char>) -> Seq<char> {
    spec_patch_argument(
        replace_all(
            replace_all(
                replace_all(arg, "${version_name}"@, input.version.id@),
                "${library_directory}"@,
                loader.loader_dir@ + "/libraries"@,
            ),
            "${classpath_separator}"@,
            spec_separator(input.platform),
        ),
        input.platform,
    )
}

/// The loader's JVM arguments (placeholders filled in) and its game arguments; none without a
/// loader.
pub open spec fn spec_loader_arguments(input: ArgumentsInput) -> (Seq<Seq<char>>, Seq<Seq<char>>) {
    match input.loader {
        None => (Seq::empty(), Seq::empty()),
        Some(l) => (
            string_views(l.jvm_arguments@).map_values(|a: Seq<char>| spec_loader_jvm_arg(input, *l, a)),
            string_views(l.game_arguments@),
        ),
    }
}

/// The loader's JVM and game arguments.
pub fn loader_arguments(input: &ArgumentsInput) -> (r: (Vec<String>, Vec<String>))
    ensures
        (string_views(r.0@), string_views(r.1@)) == spec_loader_arguments(*input),
{
    let loader = match input.loader {
        None => {
            return (Vec::new(), Vec::new());
        },
        Some(l) => l,
    };
    let separator = if input.platform == Platform::Windows {
        ";"
    } else {
        ":"
    };
    let mut library_directory = chars_of(loader.loader_dir.as_str());
    append(&mut library_directory, "/libraries");
    proof {
        reveal_strlit("${version_name}");
        reveal_strlit("${library_directory}");
        reveal_strlit("${classpath_separator}");
    }
    let version_name = chars_of("${version_name}");
    let library_dir_key = chars_of("${library_directory}");
    let separator_key = chars_of("${classpath_separator}");
    let version_id = chars_of(input.version.id.as_str());
    let separator_text = chars_of(separator);
    let mut jvm: Vec<String> = Vec::new();
    let mut i: usize = 0;
    while i < loader.jvm_arguments.len()
        invariant
            i <= loader.jvm_arguments.len(),
            input.loader == Some(loader),
            version_name@ == "${version_name}"@,
            library_dir_key@ == "${library_directory}"@,
            separator_key@ == "${classpath_separator}"@,
            version_name@.len() > 0,
            library_dir_key@.len() > 0,
            separator_key@.len() > 0,
            version_id@ == input.version.id@,
            library_directory@ == loader.loader_dir@ + "/libraries"@,
            separator_text@ == spec_separator(input.platform),
            string_views(jvm@) == string_views(loader.jvm_arguments@).subrange(0, i as int).map_values(
                |a: Seq<char>| spec_loader_jvm_arg(*input, *loader, a),
            ),
        decreases loader.jvm_arguments.len() - i,
    {
        let a = chars_of(loader.jvm_arguments[i].as_str());
        let a1 = replace_all_exec(&a, &version_name, &version_id);
        let a2 = replace_all_exec(&a1, &library_dir_key, &library_directory);
        let a3 = replace_all_exec(&a2, &separator_key, &separator_text);
        let joined = string_of(&a3);
        let patched = patch_argument(joined.as_str(), input.platform);
        assert(patched@ == spec_loader_jvm_arg(*input, *loader, loader.jvm_arguments@[i as int]@));
        let ghost before = jvm@;
        jvm.push(patched);
        assert(string_views(jvm@) =~= string_views(before).push(patched@));
        assert(string_views(loader.jvm_arguments@).subrange(0, i + 1) =~= string_views(
            loader.jvm_arguments@,
        ).subrange(0, i as int).push(loader.jvm_arguments@[i as int]@));
        assert(string_views(jvm@) =~= string_views(loader.jvm_arguments@).subrange(
            0,
            i + 1,
        ).map_values(|a: Seq<char>| spec_loader_jvm_arg(*input, *loader, a)));
        i = i + 1;
    }
    assert(string_views(loader.jvm_arguments@).subrange(0, loader.jvm_arguments@.len() as int)
        =~= string_views(loader.jvm_arguments@));
    let game = crate::foundation::text::clone_strings(&loader.game_arguments);
    (jvm, game)
}


/// The flag that keeps Forge's early loading window off.
pub const FORGE_EARLY_WINDOW_OFF: &'static str = "-Dfml.earlyprogresswindow=false";

/// Whether the launch runs Forge on macOS, where Forge's early loading window makes older
/// versions abort before the game starts.
pub open spec fn spec_forge_on_mac(input: ArgumentsInput) -> bool {
    &&& input.platform == Platform::MacOs
    &&& input.loader is Some
    &&& input.options.loader.kind == Some(LoaderKind::Forge)
}

/// The arguments that keep Forge's early window off: the flag for Forge on macOS, else none.
pub open spec fn spec_forge_mac_arguments(input: ArgumentsInput) -> Seq<Seq<char>> {
    if spec_forge_on_mac(input) {
        seq![FORGE_EARLY_WINDOW_OFF@]
    } else {
        Seq::empty()
    }
}

/// The launch arguments in order: JVM arguments, the class path, the loader's JVM arguments,
/// the flag that keeps Forge's early window off on macOS, the main class, the game arguments,
/// the loader's game arguments.
pub open spec fn spec_plan_args(input: ArgumentsInput, main_class: Seq<char>) -> Seq<Seq<char>> {
    spec_jvm_arguments(input) + seq![
        "-cp"@,
        join(spec_classpath_entries(input), spec_separator(input.platform)),
    ] + spec_loader_arguments(input).0 + spec_forge_mac_arguments(input) + seq![main_class]
        + spec_game_arguments(input) + spec_loader_arguments(input).1
}

/// Whether the launch runs Forge on macOS.
fn forge_on_mac(input: &ArgumentsInput) -> (r: bool)
    ensures
        r == spec_forge_on_mac(*input),
{
    input.platform == Platform::MacOs && input.loader.is_some() && match input.options.loader.kind {
        Some(LoaderKind::Forge) => true,
        _ => false,
    }
}

/// The whole launch plan; it fails when there is no main class.
pub fn build(input: &ArgumentsInput, java: String) -> (r: Result<LaunchPlan, LaunchError>)
    requires
        spec_wants_dock_icon(*input) ==> spec_two_byte_prefix_ok(input.dock_icon->0@),
        spec_combined_len(*input) <= usize::MAX,
    ensures
        spec_main_class(*input) is None <==> r is Err,
        r is Err ==> r == Err::<LaunchPlan, LaunchError>(LaunchError::NoMainClass),
        r matches Ok(plan) ==> {
            &&& plan.java == java
            &&& Some(plan.main_class@) == spec_main_class(*input)
            &&& string_views(plan.args@) == spec_plan_args(*input, plan.main_class@)
            &&& plan.working_dir@ == spec_game_dir(
                input.options.root@,
                opt_view(input.options.instance),
            )
        },
{
    let game = game_arguments(input);
    let jvm = jvm_arguments(input);
    let (cp, main_class) = classpath(input);
    let (loader_jvm, loader_game) = loader_arguments(input);
    let main_class = match main_class {
        Some(m) => m,
        None => {
            return Err(LaunchError::NoMainClass);
        },
    };
    let mut args: Vec<String> = Vec::new();
    push_strings(&mut args, &jvm);
    push_strings(&mut args, &cp);
    push_strings(&mut args, &loader_jvm);
    if forge_on_mac(input) {
        args.push(FORGE_EARLY_WINDOW_OFF.to_owned());
    }
    args.push(main_class.clone());
    push_strings(&mut args, &game);
    push_strings(&mut args, &loader_game);
    proof {
        assert(string_views(args@) =~= spec_plan_args(*input, main_class@));
    }
    Ok(LaunchPlan { java, args, working_dir: input.options.game_dir(), main_class })
}

} // verus!
