//! `curio onboard`: where each setting of the harness comes from, the `.env` file
//! it keeps in step, and the checks it reports.
use vstd::prelude::*;

use crate::config::{
    Config, ConnectionConfig, ContentModelConfig, LlmConfig, RuntimeConfig, SyncConfig, WikiConfig,
};
use crate::harness::{env_get, env_insert, EnvMap, HarnessPaths, path_join, path_joined};
use crate::text::{
    ascii_lower_seq, chars_of, decimal, decimal_vec, extend_chars, extend_str, find, has_at,
    lines, replace_all, replace_vec, split_lines, str_eq, string_of, to_ascii_lower, trim,
    trim_end_char, trim_end_char_vec, trim_str, trim_vec, views,
};

verus! {

pub open spec fn env_key_list() -> Seq<Seq<char>> {
    seq![
        "CURIO_CONFLUENCE_URL"@,
        "CURIO_CONFLUENCE_EMAIL"@,
        "CURIO_CONFLUENCE_TOKEN"@,
        "CURIO_SPACE_KEY"@,
        "CURIO_CONFLUENCE_PARENT_PAGE_ID"@,
        "CURIO_TEMP_DIR"@,
        "CURIO_AUDIT_DIR"@,
    ]
}

/// The settings onboarding resolves and writes to `.env`, in order.
pub fn curio_env_keys() -> (r: Vec<&'static str>)
    ensures
        r@.map_values(|s: &str| s@) == env_key_list(),
{
    let r = vec![
        "CURIO_CONFLUENCE_URL",
        "CURIO_CONFLUENCE_EMAIL",
        "CURIO_CONFLUENCE_TOKEN",
        "CURIO_SPACE_KEY",
        "CURIO_CONFLUENCE_PARENT_PAGE_ID",
        "CURIO_TEMP_DIR",
        "CURIO_AUDIT_DIR",
    ];
    assert(r@.map_values(|s: &str| s@) =~= env_key_list());
    r
}

/// Where a setting's value came from.
#[derive(Clone, Copy, Debug, PartialEq, Eq)]
pub enum ValueSource {
    ProcessEnv,
    EnvFile,
    Default,
    Missing,
}

impl ValueSource {
    pub fn label(self) -> (s: &'static str)
        ensures
            s@ == match self {
                ValueSource::ProcessEnv => "env"@,
                ValueSource::EnvFile => "file"@,
                ValueSource::Default => "default"@,
                ValueSource::Missing => "missing"@,
            },
    {
        match self {
            ValueSource::ProcessEnv => "env",
            ValueSource::EnvFile => "file",
            ValueSource::Default => "default",
            ValueSource::Missing => "missing",
        }
    }
}

/// A setting's value and where it came from.
#[derive(Clone, Debug)]
pub struct ResolvedValue {
    pub value: String,
    pub source: ValueSource,
}

/// The value a setting takes when neither the environment nor `.env` gives one.
pub open spec fn default_of(key: Seq<char>) -> (Seq<char>, ValueSource) {
    if key == "CURIO_SPACE_KEY"@ {
        ("CURIO"@, ValueSource::Default)
    } else if key == "CURIO_CONFLUENCE_PARENT_PAGE_ID"@ || key == "CURIO_TEMP_DIR"@ {
        (seq![], ValueSource::Default)
    } else if key == "CURIO_AUDIT_DIR"@ {
        ("${REPO_ROOT}/wiki/_config"@, ValueSource::Default)
    } else {
        (seq![], ValueSource::Missing)
    }
}

/// A setting's value: the environment's unless blank, else `.env`'s unless blank,
/// else its default.
pub open spec fn resolved_of(
    key: Seq<char>,
    process: Option<Seq<char>>,
    file: Seq<(Seq<char>, Seq<char>)>,
) -> (Seq<char>, ValueSource) {
    if process is Some && trim(process->0).len() > 0 {
        (process->0, ValueSource::ProcessEnv)
    } else if env_get(file, key) is Some && trim(env_get(file, key)->0).len() > 0 {
        (env_get(file, key)->0, ValueSource::EnvFile)
    } else {
        default_of(key)
    }
}

pub open spec fn opt_str_view(o: Option<&str>) -> Option<Seq<char>> {
    match o {
        Some(s) => Some(s@),
        None => None,
    }
}

/// Resolves a setting, given its value in the process environment (if set).
pub fn resolve_env_value(key: &str, process_value: Option<&str>, file_values: &EnvMap) -> (r: (
    String,
    ValueSource,
))
    ensures
        (r.0@, r.1) == resolved_of(key@, opt_str_view(process_value), file_values.view_entries()),
{
    if let Some(v) = process_value {
        if trim_str(v).len() > 0 {
            return (String::from_str(v), ValueSource::ProcessEnv);
        }
    }
    if let Some(v) = file_values.get(key) {
        if trim_str(v).len() > 0 {
            return (String::from_str(v), ValueSource::EnvFile);
        }
    }
    if str_eq(key, "CURIO_SPACE_KEY") {
        (String::from_str("CURIO"), ValueSource::Default)
    } else if str_eq(key, "CURIO_CONFLUENCE_PARENT_PAGE_ID") || str_eq(key, "CURIO_TEMP_DIR") {
        (String::new(), ValueSource::Default)
    } else if str_eq(key, "CURIO_AUDIT_DIR") {
        (String::from_str("${REPO_ROOT}/wiki/_config"), ValueSource::Default)
    } else {
        (String::new(), ValueSource::Missing)
    }
}

// ─── The `.env` file ────────────────────────────────────────────────────────

/// A value without one pair of surrounding double or single quotes.
pub open spec fn unquoted(s: Seq<char>) -> Seq<char> {
    if s.len() >= 2 && ((s[0] == '"' && s.last() == '"') || (s[0] == '\'' && s.last() == '\'')) {
        s.subrange(1, s.len() - 1)
    } else {
        s
    }
}

pub fn strip_quotes(value: &str) -> (r: String)
    ensures
        r@ == unquoted(value@),
{
    let v = chars_of(value);
    let n = v.len();
    if n >= 2 && ((v[0] == '"' && v[n - 1] == '"') || (v[0] == '\'' && v[n - 1] == '\'')) {
        string_of(&crate::text::slice_vec(&v, 1, n - 1))
    } else {
        string_of(&v)
    }
}

/// The settings a `.env` text holds: each line that is not blank or a `#` comment
/// and has an `=` sets its trimmed key to its trimmed, unquoted value, later lines
/// over earlier ones.
pub open spec fn env_from_lines(ls: Seq<Seq<char>>) -> Seq<(Seq<char>, Seq<char>)>
    decreases ls.len(),
{
    if ls.len() == 0 {
        seq![]
    } else {
        let before = env_from_lines(ls.drop_last());
        let t = trim(ls.last());
        let n = crate::text::run_len(t, '=');
        if t.len() == 0 || t[0] == '#' || n >= t.len() {
            before
        } else {
            env_insert(before, trim(t.take(n as int)), unquoted(trim(t.skip(n as int + 1))))
        }
    }
}

fn first_char_index(s: &Vec<char>, c: char) -> (r: usize)
    ensures
        r == crate::text::run_len(s@, c),
        r <= s@.len(),
{
    let mut i: usize = 0;
    assert(s@.skip(0) =~= s@);
    while i < s.len() && s[i] != c
        invariant
            i <= s.len(),
            crate::text::run_len(s@, c) == i + crate::text::run_len(s@.skip(i as int), c),
        decreases s.len() - i,
    {
        assert(s@.skip(i as int)[0] == s@[i as int]);
        assert(s@.skip(i as int).drop_first() =~= s@.skip(i + 1));
        i += 1;
    }
    if i < s.len() {
        assert(s@.skip(i as int)[0] == s@[i as int]);
    } else {
        assert(s@.skip(i as int) =~= Seq::<char>::empty());
    }
    i
}

/// The settings of a `.env` file's text.
pub fn parse_env_file(raw: &str) -> (r: EnvMap)
    ensures
        r.view_entries() == env_from_lines(lines(raw@)),
{
    let ls = split_lines(&chars_of(raw));
    let ghost all = views(ls@);
    let mut env = EnvMap::new();
    let mut i: usize = 0;
    assert(all.take(0) =~= Seq::<Seq<char>>::empty());
    while i < ls.len()
        invariant
            i <= ls@.len(),
            all == views(ls@),
            all == lines(raw@),
            env.view_entries() == env_from_lines(all.take(i as int)),
        decreases ls@.len() - i,
    {
        let t = trim_vec(&ls[i]);
        assert(all.take(i + 1).drop_last() =~= all.take(i as int));
        assert(all.take(i + 1).last() == ls@[i as int]@);
        let n = first_char_index(&t, '=');
        if t.len() > 0 && t[0] != '#' && n < t.len() {
            let head = crate::text::slice_vec(&t, 0, n);
            assert(head@ =~= t@.take(n as int));
            let tail = crate::text::slice_vec(&t, n + 1, t.len());
            assert(tail@ =~= t@.skip(n + 1));
            let key = trim_vec(&head);
            let rest = trim_vec(&tail);
            let value = strip_quotes(string_of(&rest).as_str());
            env.insert(string_of(&key), value);
        }
        i += 1;
    }
    assert(all.take(ls@.len() as int) =~= all);
    env
}

// ─── Onboarding state ───────────────────────────────────────────────────────

/// The resolved settings and what the two env files hold.
#[derive(Clone, Debug)]
pub struct OnboardState {
    /// Each setting of `curio_env_keys`, in that order.
    pub resolved: Vec<(String, ResolvedValue)>,
    pub env_file_values: EnvMap,
    pub example_file_values: EnvMap,
    pub env_path: String,
    pub example_path: String,
}

pub open spec fn file_entries(text: Option<Seq<char>>) -> Seq<(Seq<char>, Seq<char>)> {
    match text {
        Some(t) => env_from_lines(lines(t)),
        None => seq![],
    }
}

pub open spec fn opt_string_view(o: Option<String>) -> Option<Seq<char>> {
    match o {
        Some(s) => Some(s@),
        None => None,
    }
}

/// The onboarding state of a harness: `.env` and `.env.example` under the repository
/// root (`env_text` and `example_text` are their texts, for those that are files), and
/// each setting resolved from `process_values` (the process environment's value of
/// each key of `curio_env_keys`, in order) and `.env`.
pub fn load_onboard_state(
    paths: &HarnessPaths,
    env_text: Option<&str>,
    example_text: Option<&str>,
    process_values: &[Option<String>],
) -> (r: OnboardState)
    requires
        process_values@.len() == env_key_list().len(),
    ensures
        r.env_path@ == path_joined(paths.repo_root@, ".env"@),
        r.example_path@ == path_joined(paths.repo_root@, ".env.example"@),
        r.env_file_values.view_entries() == file_entries(opt_str_view(env_text)),
        r.example_file_values.view_entries() == file_entries(opt_str_view(example_text)),
        r.resolved@.len() == env_key_list().len(),
        forall|i: int|
            0 <= i < env_key_list().len() ==> {
                let e = #[trigger] r.resolved@[i];
                &&& e.0@ == env_key_list()[i]
                &&& (e.1.value@, e.1.source) == resolved_of(
                    env_key_list()[i],
                    opt_string_view(process_values@[i]),
                    file_entries(opt_str_view(env_text)),
                )
            },
{
    let env_file_values = match env_text {
        Some(t) => parse_env_file(t),
        None => EnvMap::new(),
    };
    let example_file_values = match example_text {
        Some(t) => parse_env_file(t),
        None => EnvMap::new(),
    };
    let keys = curio_env_keys();
    let mut resolved: Vec<(String, ResolvedValue)> = Vec::new();
    let mut i: usize = 0;
    while i < keys.len()
        invariant
            i <= keys@.len(),
            keys@.map_values(|s: &str| s@) == env_key_list(),
            process_values@.len() == env_key_list().len(),
            env_file_values.view_entries() == file_entries(opt_str_view(env_text)),
            resolved@.len() == i,
            forall|j: int|
                0 <= j < i ==> {
                    let e = #[trigger] resolved@[j];
                    &&& e.0@ == env_key_list()[j]
                    &&& (e.1.value@, e.1.source) == resolved_of(
                        env_key_list()[j],
                        opt_string_view(process_values@[j]),
                        file_entries(opt_str_view(env_text)),
                    )
                },
        decreases keys@.len() - i,
    {
        let key = keys[i];
        assert(keys@.map_values(|s: &str| s@)[i as int] == key@);
        let pv: Option<&str> = match &process_values[i] {
            Some(v) => Some(v.as_str()),
            None => None,
        };
        assert(opt_str_view(pv) == opt_string_view(process_values@[i as int]));
        let (value, source) = resolve_env_value(key, pv, &env_file_values);
        resolved.push((String::from_str(key), ResolvedValue { value, source }));
        i += 1;
    }
    OnboardState {
        resolved,
        env_file_values,
        example_file_values,
        env_path: path_join(paths.repo_root.as_str(), ".env"),
        example_path: path_join(paths.repo_root.as_str(), ".env.example"),
    }
}

/// Whether `key` names something kept secret.
pub open spec fn is_secret_key(key: Seq<char>) -> bool {
    ||| exists|i: int| has_at(key, "TOKEN"@, i)
    ||| exists|i: int| has_at(key, "PASSWORD"@, i)
    ||| exists|i: int| has_at(key, "SECRET"@, i)
}

/// How a setting is shown: `<empty>` for an empty value; for a secret, its first four
/// characters, `***` and its length; otherwise the value.
pub open spec fn rendered_value(key: Seq<char>, value: Seq<char>) -> Seq<char> {
    if value.len() == 0 {
        "<empty>"@
    } else if is_secret_key(key) {
        (if value.len() < 4 {
            value
        } else {
            value.take(4)
        }) + "*** ("@ + decimal(value.len()) + " chars)"@
    } else {
        value
    }
}

pub fn render_value(key: &str, value: &str) -> (r: String)
    ensures
        r@ == rendered_value(key@, value@),
{
    let v = chars_of(value);
    if v.len() == 0 {
        return String::from_str("<empty>");
    }
    proof {
        reveal_strlit("TOKEN");
        reveal_strlit("PASSWORD");
        reveal_strlit("SECRET");
    }
    if crate::text::str_contains(key, "TOKEN") || crate::text::str_contains(key, "PASSWORD") || crate::text::str_contains(key, "SECRET") {
        let shown: usize = if v.len() < 4 {
            v.len()
        } else {
            4
        };
        let mut out = crate::text::slice_vec(&v, 0, shown);
        assert(out@ =~= (if v@.len() < 4 {
            v@
        } else {
            v@.take(4)
        }));
        extend_str(&mut out, "*** (");
        let count = decimal_vec(v.len() as u64);
        extend_chars(&mut out, &count);
        extend_str(&mut out, " chars)");
        return string_of(&out);
    }
    String::from_str(value)
}

pub open spec fn missing_fields(url: Seq<char>, email: Seq<char>, token: Seq<char>, space: Seq<char>) -> Seq<
    Seq<char>,
> {
    (if trim(url).len() == 0 {
        seq!["CURIO_CONFLUENCE_URL"@]
    } else {
        seq![]
    }) + (if trim(email).len() == 0 {
        seq!["CURIO_CONFLUENCE_EMAIL"@]
    } else {
        seq![]
    }) + (if trim(token).len() == 0 {
        seq!["CURIO_CONFLUENCE_TOKEN"@]
    } else {
        seq![]
    }) + (if trim(space).len() == 0 {
        seq!["CURIO_SPACE_KEY"@]
    } else {
        seq![]
    })
}

/// The settings a Confluence connection needs that are blank, in order.
pub fn missing_core_fields(config: &Config, auth_token: &str) -> (r: Vec<&'static str>)
    ensures
        r@.map_values(|s: &str| s@) == missing_fields(
            config.connection.confluence_url@,
            config.connection.confluence_email@,
            auth_token@,
            config.content_model.space_key@,
        ),
{
    let mut missing: Vec<&'static str> = Vec::new();
    let ghost a = missing@;
    if trim_str(config.connection.confluence_url.as_str()).len() == 0 {
        missing.push("CURIO_CONFLUENCE_URL");
    }
    if trim_str(config.connection.confluence_email.as_str()).len() == 0 {
        missing.push("CURIO_CONFLUENCE_EMAIL");
    }
    if trim_str(auth_token).len() == 0 {
        missing.push("CURIO_CONFLUENCE_TOKEN");
    }
    if trim_str(config.content_model.space_key.as_str()).len() == 0 {
        missing.push("CURIO_SPACE_KEY");
    }
    assert(missing@.map_values(|s: &str| s@) =~= missing_fields(
        config.connection.confluence_url@,
        config.connection.confluence_email@,
        auth_token@,
        config.content_model.space_key@,
    ));
    missing
}

pub open spec fn resolved_lookup(rs: Seq<(String, ResolvedValue)>, key: Seq<char>) -> Seq<char>
    decreases rs.len(),
{
    if rs.len() == 0 {
        seq![]
    } else if rs[0].0@ == key {
        rs[0].1.value@
    } else {
        resolved_lookup(rs.drop_first(), key)
    }
}

fn lookup_resolved(rs: &Vec<(String, ResolvedValue)>, key: &str) -> (r: String)
    ensures
        r@ == resolved_lookup(rs@, key@),
{
    let mut i: usize = 0;
    assert(rs@.skip(0) =~= rs@);
    while i < rs.len()
        invariant
            i <= rs@.len(),
            resolved_lookup(rs@, key@) == resolved_lookup(rs@.skip(i as int), key@),
        decreases rs@.len() - i,
    {
        assert(rs@.skip(i as int)[0] == rs@[i as int]);
        assert(rs@.skip(i as int).drop_first() =~= rs@.skip(i + 1));
        if str_eq(rs[i].0.as_str(), key) {
            return rs[i].1.value.clone();
        }
        i += 1;
    }
    String::new()
}

pub open spec fn env_lines(keys: Seq<Seq<char>>, rs: Seq<(String, ResolvedValue)>) -> Seq<char>
    decreases keys.len(),
{
    if keys.len() == 0 {
        seq![]
    } else {
        let k = keys.last();
        env_lines(keys.drop_last(), rs) + k + "="@ + (if k == "CURIO_TEMP_DIR"@ {
            seq![]
        } else {
            resolved_lookup(rs, k)
        }) + "\n"@
    }
}

/// The `.env` text onboarding writes: a header, then each setting as `KEY=value`
/// (the temporary directory left blank), one per line.
pub open spec fn env_file_text_of(state: OnboardState) -> Seq<char> {
    "# Curio harness config"@ + "\n"@ + env_lines(env_key_list(), state.resolved@)
}

pub fn env_file_text(state: &OnboardState) -> (r: String)
    ensures
        r@ == env_file_text_of(*state),
{
    let keys = curio_env_keys();
    let ghost ks = env_key_list();
    let mut out = chars_of("# Curio harness config");
    extend_str(&mut out, "\n");
    let ghost head = out@;
    let mut i: usize = 0;
    assert(ks.take(0) =~= Seq::<Seq<char>>::empty());
    while i < keys.len()
        invariant
            i <= keys@.len(),
            keys@.map_values(|s: &str| s@) == ks,
            ks == env_key_list(),
            out@ == head + env_lines(ks.take(i as int), state.resolved@),
        decreases keys@.len() - i,
    {
        let key = keys[i];
        assert(keys@.map_values(|s: &str| s@)[i as int] == key@);
        extend_str(&mut out, key);
        extend_str(&mut out, "=");
        if !str_eq(key, "CURIO_TEMP_DIR") {
            let v = lookup_resolved(&state.resolved, key);
            extend_str(&mut out, v.as_str());
        }
        extend_str(&mut out, "\n");
        assert(ks.take(i + 1).drop_last() =~= ks.take(i as int));
        assert(ks.take(i + 1).last() == key@);
        assert(out@ =~= head + env_lines(ks.take(i + 1), state.resolved@));
        i += 1;
    }
    assert(ks.take(ks.len() as int) =~= ks);
    string_of(&out)
}

/// The keys of `a`, in order, that `b` does not set.
pub open spec fn keys_not_in(a: Seq<(Seq<char>, Seq<char>)>, b: Seq<(Seq<char>, Seq<char>)>) -> Seq<Seq<char>>
    decreases a.len(),
{
    if a.len() == 0 {
        seq![]
    } else if env_get(b, a.last().0) is Some {
        keys_not_in(a.drop_last(), b)
    } else {
        keys_not_in(a.drop_last(), b).push(a.last().0)
    }
}

fn keys_missing(a: &EnvMap, b: &EnvMap) -> (r: Vec<String>)
    ensures
        crate::harness::strings_view(r@) == keys_not_in(a.view_entries(), b.view_entries()),
{
    let ghost av = a.view_entries();
    let mut out: Vec<String> = Vec::new();
    let mut i: usize = 0;
    assert(av.take(0) =~= Seq::<(Seq<char>, Seq<char>)>::empty());
    assert(crate::harness::strings_view(out@) =~= Seq::<Seq<char>>::empty());
    while i < a.entries.len()
        invariant
            i <= a.entries@.len(),
            av == a.view_entries(),
            crate::harness::strings_view(out@) == keys_not_in(av.take(i as int), b.view_entries()),
        decreases a.entries@.len() - i,
    {
        let k = &a.entries[i].0;
        assert(av[i as int].0 == k@);
        assert(av.take(i + 1).drop_last() =~= av.take(i as int));
        assert(av.take(i + 1).last() == av[i as int]);
        if b.get(k.as_str()).is_none() {
            let ghost before = out@;
            out.push(k.clone());
            assert(crate::harness::strings_view(out@) =~= crate::harness::strings_view(before).push(
                k@,
            ));
        }
        i += 1;
    }
    assert(av.take(av.len() as int) =~= av);
    out
}

/// The keys `.env.example` sets that `.env` does not, and those `.env` sets that the
/// example does not; the files agree when both are empty.
pub fn key_parity(env: &EnvMap, example: &EnvMap) -> (r: (Vec<String>, Vec<String>))
    ensures
        crate::harness::strings_view(r.0@) == keys_not_in(example.view_entries(), env.view_entries()),
        crate::harness::strings_view(r.1@) == keys_not_in(env.view_entries(), example.view_entries()),
{
    (keys_missing(example, env), keys_missing(env, example))
}

/// A path compared on `PATH`: forward slashes made backslashes, trailing backslashes
/// removed.
pub open spec fn normalized_path(path: Seq<char>) -> Seq<char> {
    trim_end_char(replace_all(path, "/"@, "\\"@), '\\')
}

pub fn normalize_path(path: &str) -> (r: String)
    ensures
        r@ == normalized_path(path@),
{
    proof {
        reveal_strlit("/");
    }
    let replaced = replace_vec(&chars_of(path), &chars_of("/"), &chars_of("\\"));
    string_of(&trim_end_char_vec(&replaced, '\\'))
}

/// The `curio` shim installed on `PATH`: a script that runs the crate with cargo,
/// pointing `CURIO_REPO_ROOT` at the repository (a batch file on Windows).
pub open spec fn shim_text(repo_root: Seq<char>, manifest: Seq<char>, windows: bool) -> Seq<char> {
    if windows {
        "@echo off\r\nset \"CURIO_REPO_ROOT="@ + repo_root + "\"\r\ncargo run --manifest-path \""@
            + manifest + "\" -- %*\r\n"@
    } else {
        "#!/usr/bin/env sh\nexport CURIO_REPO_ROOT=\""@ + repo_root
            + "\"\nexec cargo run --manifest-path \""@ + manifest + "\" -- \"$@\"\n"@
    }
}

pub fn shim_content(repo_root: &str, manifest: &str, windows: bool) -> (r: String)
    ensures
        r@ == shim_text(repo_root@, manifest@, windows),
{
    let mut out: Vec<char> = Vec::new();
    if windows {
        extend_str(&mut out, "@echo off\r\nset \"CURIO_REPO_ROOT=");
        extend_str(&mut out, repo_root);
        extend_str(&mut out, "\"\r\ncargo run --manifest-path \"");
        extend_str(&mut out, manifest);
        extend_str(&mut out, "\" -- %*\r\n");
    } else {
        extend_str(&mut out, "#!/usr/bin/env sh\nexport CURIO_REPO_ROOT=\"");
        extend_str(&mut out, repo_root);
        extend_str(&mut out, "\"\nexec cargo run --manifest-path \"");
        extend_str(&mut out, manifest);
        extend_str(&mut out, "\" -- \"$@\"\n");
    }
    string_of(&out)
}

/// The shim's file name.
pub fn shim_file_name(windows: bool) -> (r: &'static str)
    ensures
        r@ == if windows {
            "curio.cmd"@
        } else {
            "curio"@
        },
{
    if windows {
        "curio.cmd"
    } else {
        "curio"
    }
}

/// Whether an answer to the install prompt accepts: blank, `y` or `yes`, in any case.
pub open spec fn accepts(answer: Seq<char>) -> bool {
    let a = ascii_lower_seq(trim(answer));
    a.len() == 0 || a == "y"@ || a == "yes"@
}

pub fn accepts_install(answer: &str) -> (b: bool)
    ensures
        b == accepts(answer@),
{
    let t = trim_str(answer);
    let mut lower: Vec<char> = Vec::new();
    let mut i: usize = 0;
    while i < t.len()
        invariant
            i <= t.len(),
            lower@ == ascii_lower_seq(t@).take(i as int),
        decreases t.len() - i,
    {
        lower.push(to_ascii_lower(t[i]));
        assert(lower@ =~= ascii_lower_seq(t@).take(i + 1));
        i += 1;
    }
    assert(lower@ =~= ascii_lower_seq(t@));
    let s = string_of(&lower);
    lower.len() == 0 || str_eq(s.as_str(), "y") || str_eq(s.as_str(), "yes")
}

/// How onboarding reports a harness check.
#[derive(Clone, Copy, Debug, PartialEq, Eq)]
pub enum CheckStatus {
    Passed,
    Warn,
    Fail,
}

impl CheckStatus {
    pub fn as_str(self) -> (s: &'static str)
        ensures
            s@ == match self {
                CheckStatus::Passed => "OK"@,
                CheckStatus::Warn => "WARN"@,
                CheckStatus::Fail => "FAIL"@,
            },
    {
        match self {
            CheckStatus::Passed => "OK",
            CheckStatus::Warn => "WARN",
            CheckStatus::Fail => "FAIL",
        }
    }
}

/// A harness check as onboarding reports it: passed, or failed as a warning (a
/// launcher, or a check labelled in `optional`), or failed outright.
pub open spec fn status_of(label: Seq<char>, ok: bool, optional: Seq<Seq<char>>) -> CheckStatus {
    if ok {
        CheckStatus::Passed
    } else if crate::text::ends_with(label, ":launcher"@) || optional.contains(label) {
        CheckStatus::Warn
    } else {
        CheckStatus::Fail
    }
}

pub fn onboard_check_status(label: &str, ok: bool, optional: &[String]) -> (r: CheckStatus)
    ensures
        r == status_of(label@, ok, crate::harness::strings_view(optional@)),
{
    if ok {
        return CheckStatus::Passed;
    }
    if crate::text::str_ends_with(label, ":launcher") {
        return CheckStatus::Warn;
    }
    let mut i: usize = 0;
    while i < optional.len()
        invariant
            i <= optional@.len(),
            !crate::text::ends_with(label@, ":launcher"@),
            !ok,
            forall|j: int| 0 <= j < i ==> optional@[j]@ != label@,
        decreases optional@.len() - i,
    {
        if str_eq(optional[i].as_str(), label) {
            assert(crate::harness::strings_view(optional@)[i as int] == label@);
            return CheckStatus::Warn;
        }
        i += 1;
    }
    assert(!crate::harness::strings_view(optional@).contains(label@));
    CheckStatus::Fail
}

/// The configuration onboarding validates: the Confluence settings and space as
/// resolved, the temporary directory as resolved unless blank (else `default_temp`),
/// syncing on with the resolved parent page unless blank, and defaults elsewhere.
pub open spec fn onboard_config_of(state: OnboardState, default_temp: Seq<char>, c: Config) -> bool {
    let get = |k: Seq<char>| resolved_lookup(state.resolved@, k);
    &&& c.connection.confluence_url@ == get("CURIO_CONFLUENCE_URL"@)
    &&& c.connection.confluence_email@ == get("CURIO_CONFLUENCE_EMAIL"@)
    &&& c.content_model.space_key@ == get("CURIO_SPACE_KEY"@)
    &&& c.content_model.label_namespace@ == "curio"@
    &&& c.runtime.temp_dir is Some
    &&& c.runtime.temp_dir->0@ == if trim(get("CURIO_TEMP_DIR"@)).len() == 0 {
        default_temp
    } else {
        get("CURIO_TEMP_DIR"@)
    }
    &&& c.runtime.log_level is None
    &&& c.wiki.sync.enabled
    &&& if trim(get("CURIO_CONFLUENCE_PARENT_PAGE_ID"@)).len() == 0 {
        c.wiki.sync.confluence_parent_page_id is None
    } else {
        c.wiki.sync.confluence_parent_page_id is Some
            && c.wiki.sync.confluence_parent_page_id->0@ == get("CURIO_CONFLUENCE_PARENT_PAGE_ID"@)
    }
    &&& c.wiki.wiki_dir@ == "wiki"@
    &&& c.wiki.auto_commit
    &&& c.llm.api_key@.len() == 0
    &&& c.llm.model@ == "gpt-4o"@
}

/// The configuration onboarding builds from its state.
pub fn build_onboard_config(state: &OnboardState, default_temp: &str) -> (c: Config)
    ensures
        onboard_config_of(*state, default_temp@, c),
{
    let url = lookup_resolved(&state.resolved, "CURIO_CONFLUENCE_URL");
    let email = lookup_resolved(&state.resolved, "CURIO_CONFLUENCE_EMAIL");
    let space = lookup_resolved(&state.resolved, "CURIO_SPACE_KEY");
    let raw_temp = lookup_resolved(&state.resolved, "CURIO_TEMP_DIR");
    let temp_dir = if trim_str(raw_temp.as_str()).len() == 0 {
        String::from_str(default_temp)
    } else {
        raw_temp
    };
    let raw_parent = lookup_resolved(&state.resolved, "CURIO_CONFLUENCE_PARENT_PAGE_ID");
    let parent = if trim_str(raw_parent.as_str()).len() == 0 {
        None
    } else {
        Some(raw_parent)
    };
    let wiki_default = WikiConfig::default();
    Config {
        connection: ConnectionConfig { confluence_url: url, confluence_email: email },
        content_model: ContentModelConfig { space_key: space, label_namespace: String::from_str("curio") },
        runtime: RuntimeConfig { temp_dir: Some(temp_dir), log_level: None },
        wiki: WikiConfig {
            wiki_dir: wiki_default.wiki_dir,
            auto_commit: wiki_default.auto_commit,
            sync: SyncConfig { enabled: true, confluence_parent_page_id: parent },
        },
        llm: LlmConfig::default(),
    }
}

} // verus!
