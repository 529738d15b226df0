//! Curio settings: defaults, merging a config file over them, environment overrides,
//! and the `.env` file the harness keeps.
use vstd::prelude::*;

use crate::text::{
    chars_of, extend_str, find, join, join_vec, seq_eq, slice_vec, string_of, trim, trim_vec,
    views,
};

verus! {

/// LLM inference settings, required for routing and querying.
#[derive(Debug, Clone)]
pub struct LlmConfig {
    /// API key; the `OPENAI_API_KEY` environment variable is preferred.
    pub api_key: String,
    /// Model used for routing and analysis.
    pub model: String,
}

/// Why a command cannot run with the current settings.
#[derive(Debug, Clone, PartialEq, Eq)]
pub enum ConfigError {
    MissingApiKey,
    MissingConfluenceUrl,
    MissingConfluenceEmail,
}

impl ConfigError {
    /// The message shown to the user.
    pub fn message(&self) -> (s: &'static str)
        ensures
            s@ == config_error_message(*self),
    {
        match self {
            ConfigError::MissingApiKey => "OpenAI API key not configured. Set OPENAI_API_KEY env var or add to .curio.yaml under llm.api_key.",
            ConfigError::MissingConfluenceUrl => "Confluence URL is not configured. Set CURIO_CONFLUENCE_URL or add to .curio.yaml.",
            ConfigError::MissingConfluenceEmail => "Confluence email is not configured. Set CURIO_CONFLUENCE_EMAIL or add to .curio.yaml.",
        }
    }
}

pub open spec fn config_error_message(e: ConfigError) -> Seq<char> {
    match e {
        ConfigError::MissingApiKey => "OpenAI API key not configured. Set OPENAI_API_KEY env var or add to .curio.yaml under llm.api_key."@,
        ConfigError::MissingConfluenceUrl => "Confluence URL is not configured. Set CURIO_CONFLUENCE_URL or add to .curio.yaml."@,
        ConfigError::MissingConfluenceEmail => "Confluence email is not configured. Set CURIO_CONFLUENCE_EMAIL or add to .curio.yaml."@,
    }
}

/// The key in effect: the configured one when set, else the `OPENAI_API_KEY` value
/// (empty when that is unset).
pub open spec fn effective_key(configured: Seq<char>, env_key: Option<Seq<char>>) -> Seq<char> {
    if configured.len() > 0 {
        configured
    } else {
        match env_key {
            Some(k) => k,
            None => seq![],
        }
    }
}

pub open spec fn opt_string(o: Option<String>) -> Option<Seq<char>> {
    match o {
        Some(s) => Some(s@),
        None => None,
    }
}

impl LlmConfig {
    /// The model used when none is configured.
    pub fn default_model() -> (s: String)
        ensures
            s@ == "gpt-4o"@,
    {
        String::from_str("gpt-4o")
    }

    /// The API key in effect, given the value of `OPENAI_API_KEY` (if set).
    pub fn effective_api_key(&self, env_openai_key: Option<String>) -> (s: String)
        ensures
            s@ == effective_key(self.api_key@, opt_string(env_openai_key)),
    {
        if !self.api_key.as_str().is_empty() {
            return self.api_key.clone();
        }
        match env_openai_key {
            Some(k) => k,
            None => String::new(),
        }
    }

    /// The model in effect: the configured one, or the default when empty.
    pub fn effective_model(&self) -> (s: String)
        ensures
            s@ == if self.model@.len() == 0 { "gpt-4o"@ } else { self.model@ },
    {
        if self.model.as_str().is_empty() {
            return Self::default_model();
        }
        self.model.clone()
    }

    /// The API key in effect, or an error when there is none.
    pub fn require_api_key(&self, env_openai_key: Option<String>) -> (r: Result<String, ConfigError>)
        ensures
            ({
                let k = effective_key(self.api_key@, opt_string(env_openai_key));
                &&& r is Ok <==> k.len() > 0
                &&& r matches Ok(s) ==> s@ == k
                &&& r matches Err(e) ==> e == ConfigError::MissingApiKey
            }),
    {
        let key = self.effective_api_key(env_openai_key);
        if key.as_str().is_empty() {
            return Err(ConfigError::MissingApiKey);
        }
        Ok(key)
    }
}

impl Default for LlmConfig {
    fn default() -> (c: Self)
        ensures
            c.api_key@.len() == 0,
            c.model@ == "gpt-4o"@,
    {
        LlmConfig { api_key: String::new(), model: Self::default_model() }
    }
}

/// Confluence connection settings, needed for sync and Confluence-source intake.
#[derive(Debug, Clone)]
pub struct ConnectionConfig {
    pub confluence_url: String,
    pub confluence_email: String,
}

impl ConnectionConfig {
    /// Checks that the Confluence URL and email are present.
    pub fn require_confluence(&self) -> (r: Result<(), ConfigError>)
        ensures
            r is Ok <==> self.confluence_url@.len() > 0 && self.confluence_email@.len() > 0,
            r matches Err(e) ==> e == if self.confluence_url@.len() == 0 {
                ConfigError::MissingConfluenceUrl
            } else {
                ConfigError::MissingConfluenceEmail
            },
    {
        if self.confluence_url.as_str().is_empty() {
            return Err(ConfigError::MissingConfluenceUrl);
        }
        if self.confluence_email.as_str().is_empty() {
            return Err(ConfigError::MissingConfluenceEmail);
        }
        Ok(())
    }
}

impl Default for ConnectionConfig {
    fn default() -> (c: Self)
        ensures
            c.confluence_url@.len() == 0,
            c.confluence_email@.len() == 0,
    {
        ConnectionConfig { confluence_url: String::new(), confluence_email: String::new() }
    }
}

/// Confluence space and label namespace of the workspace.
#[derive(Debug, Clone)]
pub struct ContentModelConfig {
    pub space_key: String,
    pub label_namespace: String,
}

impl ContentModelConfig {
    /// The label namespace used when none is configured.
    pub fn default_label_namespace() -> (s: String)
        ensures
            s@ == "curio"@,
    {
        String::from_str("curio")
    }
}

impl Default for ContentModelConfig {
    fn default() -> (c: Self)
        ensures
            c.space_key@.len() == 0,
            c.label_namespace@ == "curio"@,
    {
        ContentModelConfig { space_key: String::new(), label_namespace: Self::default_label_namespace() }
    }
}

/// Runtime locations and logging.
#[derive(Debug, Clone)]
pub struct RuntimeConfig {
    pub temp_dir: Option<String>,
    pub log_level: Option<String>,
}

impl Default for RuntimeConfig {
    fn default() -> (c: Self)
        ensures
            c.temp_dir is None,
            c.log_level is None,
    {
        RuntimeConfig { temp_dir: None, log_level: None }
    }
}

/// Confluence sync settings.
#[derive(Debug, Clone)]
pub struct SyncConfig {
    pub enabled: bool,
    /// Numeric id of the Confluence parent page to publish under.
    pub confluence_parent_page_id: Option<String>,
}

impl Default for SyncConfig {
    fn default() -> (c: Self)
        ensures
            !c.enabled,
            c.confluence_parent_page_id is None,
    {
        SyncConfig { enabled: false, confluence_parent_page_id: None }
    }
}

/// Where the wiki lives and how pipeline commands commit.
#[derive(Debug, Clone)]
pub struct WikiConfig {
    /// Root directory of the wiki, relative to the workspace root.
    pub wiki_dir: String,
    /// Whether pipeline commands commit after every mutation.
    pub auto_commit: bool,
    pub sync: SyncConfig,
}

impl Default for WikiConfig {
    fn default() -> (c: Self)
        ensures
            c.wiki_dir@ == "wiki"@,
            c.auto_commit,
            !c.sync.enabled,
            c.sync.confluence_parent_page_id is None,
    {
        WikiConfig { wiki_dir: String::from_str("wiki"), auto_commit: true, sync: SyncConfig::default() }
    }
}

/// The settings of one Curio workspace.
#[derive(Debug, Clone)]
pub struct Config {
    pub connection: ConnectionConfig,
    pub content_model: ContentModelConfig,
    pub runtime: RuntimeConfig,
    pub wiki: WikiConfig,
    pub llm: LlmConfig,
}

pub open spec fn is_default_config(c: Config) -> bool {
    &&& c.connection.confluence_url@.len() == 0
    &&& c.connection.confluence_email@.len() == 0
    &&& c.content_model.space_key@.len() == 0
    &&& c.content_model.label_namespace@ == "curio"@
    &&& c.runtime.temp_dir is None
    &&& c.runtime.log_level is None
    &&& c.wiki.wiki_dir@ == "wiki"@
    &&& c.wiki.auto_commit
    &&& !c.wiki.sync.enabled
    &&& c.wiki.sync.confluence_parent_page_id is None
    &&& c.llm.api_key@.len() == 0
    &&& c.llm.model@ == "gpt-4o"@
}

impl Default for Config {
    fn default() -> (c: Self)
        ensures
            is_default_config(c),
    {
        Config {
            connection: ConnectionConfig::default(),
            content_model: ContentModelConfig::default(),
            runtime: RuntimeConfig::default(),
            wiki: WikiConfig::default(),
            llm: LlmConfig::default(),
        }
    }
}

/// Settings after a config file is merged over them: each setting the file sets to a
/// non-default value replaces the current one (the LLM settings are left as they are).
pub open spec fn merged(c: Config, f: Config) -> Config {
    Config {
        connection: ConnectionConfig {
            confluence_url: if f.connection.confluence_url@.len() > 0 {
                f.connection.confluence_url
            } else {
                c.connection.confluence_url
            },
            confluence_email: if f.connection.confluence_email@.len() > 0 {
                f.connection.confluence_email
            } else {
                c.connection.confluence_email
            },
        },
        content_model: ContentModelConfig {
            space_key: if f.content_model.space_key@.len() > 0 {
                f.content_model.space_key
            } else {
                c.content_model.space_key
            },
            label_namespace: if f.content_model.label_namespace@ != "curio"@ {
                f.content_model.label_namespace
            } else {
                c.content_model.label_namespace
            },
        },
        runtime: RuntimeConfig {
            temp_dir: if f.runtime.temp_dir is Some {
                f.runtime.temp_dir
            } else {
                c.runtime.temp_dir
            },
            log_level: if f.runtime.log_level is Some {
                f.runtime.log_level
            } else {
                c.runtime.log_level
            },
        },
        wiki: WikiConfig {
            wiki_dir: if f.wiki.wiki_dir@ != "wiki"@ {
                f.wiki.wiki_dir
            } else {
                c.wiki.wiki_dir
            },
            auto_commit: if !f.wiki.auto_commit {
                false
            } else {
                c.wiki.auto_commit
            },
            sync: SyncConfig {
                enabled: if f.wiki.sync.enabled {
                    true
                } else {
                    c.wiki.sync.enabled
                },
                confluence_parent_page_id: if f.wiki.sync.confluence_parent_page_id is Some {
                    f.wiki.sync.confluence_parent_page_id
                } else {
                    c.wiki.sync.confluence_parent_page_id
                },
            },
        },
        llm: c.llm,
    }
}

/// Merges the settings read from a config file over `config`.
pub fn merge_config_file(config: &mut Config, loaded: Config)
    ensures
        *final(config) == merged(*old(config), loaded),
{
    if !loaded.connection.confluence_url.as_str().is_empty() {
        config.connection.confluence_url = loaded.connection.confluence_url;
    }
    if !loaded.connection.confluence_email.as_str().is_empty() {
        config.connection.confluence_email = loaded.connection.confluence_email;
    }
    if !loaded.content_model.space_key.as_str().is_empty() {
        config.content_model.space_key = loaded.content_model.space_key;
    }
    if !crate::text::str_eq(loaded.content_model.label_namespace.as_str(), "curio") {
        config.content_model.label_namespace = loaded.content_model.label_namespace;
    }
    if loaded.runtime.temp_dir.is_some() {
        config.runtime.temp_dir = loaded.runtime.temp_dir;
    }
    if loaded.runtime.log_level.is_some() {
        config.runtime.log_level = loaded.runtime.log_level;
    }
    if !crate::text::str_eq(loaded.wiki.wiki_dir.as_str(), "wiki") {
        config.wiki.wiki_dir = loaded.wiki.wiki_dir;
    }
    if !loaded.wiki.auto_commit {
        config.wiki.auto_commit = false;
    }
    if loaded.wiki.sync.enabled {
        config.wiki.sync.enabled = true;
    }
    if loaded.wiki.sync.confluence_parent_page_id.is_some() {
        config.wiki.sync.confluence_parent_page_id = loaded.wiki.sync.confluence_parent_page_id;
    }
}

/// The `CURIO_*` environment variables that override settings, as read (unset ones `None`).
#[derive(Debug, Clone)]
pub struct EnvOverrides {
    pub confluence_url: Option<String>,
    pub confluence_email: Option<String>,
    pub space_key: Option<String>,
    pub temp_dir: Option<String>,
    pub log_level: Option<String>,
    pub wiki_dir: Option<String>,
    pub confluence_parent_page_id: Option<String>,
}

pub open spec fn is_blank(s: Seq<char>) -> bool {
    trim(s).len() == 0
}

/// Settings after the environment overrides: URL, email, space key and log level replace
/// the current values whenever set; temp dir, wiki dir and parent page id only when not
/// blank (a blank temp dir or wiki dir is ignored).
pub open spec fn overridden(c: Config, e: EnvOverrides) -> Config {
    Config {
        connection: ConnectionConfig {
            confluence_url: match e.confluence_url {
                Some(v) => v,
                None => c.connection.confluence_url,
            },
            confluence_email: match e.confluence_email {
                Some(v) => v,
                None => c.connection.confluence_email,
            },
        },
        content_model: ContentModelConfig {
            space_key: match e.space_key {
                Some(v) => v,
                None => c.content_model.space_key,
            },
            ..c.content_model
        },
        runtime: RuntimeConfig {
            temp_dir: match e.temp_dir {
                Some(v) => if !is_blank(v@) {
                    Some(v)
                } else {
                    c.runtime.temp_dir
                },
                None => c.runtime.temp_dir,
            },
            log_level: match e.log_level {
                Some(v) => Some(v),
                None => c.runtime.log_level,
            },
        },
        wiki: WikiConfig {
            wiki_dir: match e.wiki_dir {
                Some(v) => if !is_blank(v@) {
                    v
                } else {
                    c.wiki.wiki_dir
                },
                None => c.wiki.wiki_dir,
            },
            sync: SyncConfig {
                confluence_parent_page_id: match e.confluence_parent_page_id {
                    Some(v) => if !is_blank(v@) {
                        Some(v)
                    } else {
                        c.wiki.sync.confluence_parent_page_id
                    },
                    None => c.wiki.sync.confluence_parent_page_id,
                },
                ..c.wiki.sync
            },
            ..c.wiki
        },
        llm: c.llm,
    }
}

fn is_blank_str(s: &str) -> (b: bool)
    ensures
        b == is_blank(s@),
{
    trim_vec(&chars_of(s)).len() == 0
}

/// The temp dir a loaded configuration ends with: the one it set, else `curio`
/// under the system's temp dir.
pub open spec fn final_temp_dir(set: Option<String>, system_temp: Seq<char>) -> Seq<char> {
    match set {
        Some(t) => t@,
        None => crate::harness::path_joined(system_temp, "curio"@),
    }
}

/// The wiki dir a loaded configuration ends with: a relative one is taken relative
/// to the directory the configuration was loaded for.
pub open spec fn final_wiki_dir(wiki_dir: Seq<char>, config_root: Seq<char>) -> Seq<char> {
    if wiki_dir.len() > 0 && wiki_dir[0] == '/' {
        wiki_dir
    } else {
        crate::harness::path_joined(config_root, wiki_dir)
    }
}

/// The last step of loading a configuration, after the file and the environment:
/// an unset temp dir becomes `curio` under the system's temp dir (`system_temp`),
/// and a relative wiki dir is joined to the config root. Nothing else changes.
pub fn finish_config(config: &mut Config, config_root: &str, system_temp: &str)
    ensures
        final(config).runtime.temp_dir matches Some(t) && t@ == final_temp_dir(
            old(config).runtime.temp_dir,
            system_temp@,
        ),
        final(config).wiki.wiki_dir@ == final_wiki_dir(old(config).wiki.wiki_dir@, config_root@),
        final(config).runtime.log_level == old(config).runtime.log_level,
        final(config).wiki.auto_commit == old(config).wiki.auto_commit,
        final(config).wiki.sync == old(config).wiki.sync,
        final(config).connection == old(config).connection,
        final(config).content_model == old(config).content_model,
        final(config).llm == old(config).llm,
{
    if config.runtime.temp_dir.is_none() {
        config.runtime.temp_dir = Some(crate::harness::path_join(system_temp, "curio"));
    }
    let w = chars_of(config.wiki.wiki_dir.as_str());
    if !(w.len() > 0 && w[0] == '/') {
        let joined = crate::harness::path_join(config_root, config.wiki.wiki_dir.as_str());
        config.wiki.wiki_dir = joined;
    }
}

/// Applies the environment overrides to `config`.
pub fn apply_env_overrides(config: &mut Config, env: EnvOverrides)
    ensures
        *final(config) == overridden(*old(config), env),
{
    if let Some(url) = env.confluence_url {
        config.connection.confluence_url = url;
    }
    if let Some(email) = env.confluence_email {
        config.connection.confluence_email = email;
    }
    if let Some(space_key) = env.space_key {
        config.content_model.space_key = space_key;
    }
    if let Some(temp_dir) = env.temp_dir {
        if !is_blank_str(temp_dir.as_str()) {
            config.runtime.temp_dir = Some(temp_dir);
        }
    }
    if let Some(log_level) = env.log_level {
        config.runtime.log_level = Some(log_level);
    }
    if let Some(wiki_dir) = env.wiki_dir {
        if !is_blank_str(wiki_dir.as_str()) {
            config.wiki.wiki_dir = wiki_dir;
        }
    }
    if let Some(parent_page_id) = env.confluence_parent_page_id {
        if !is_blank_str(parent_page_id.as_str()) {
            config.wiki.sync.confluence_parent_page_id = Some(parent_page_id);
        }
    }
}

// ─── .env file ─────────────────────────────────────────────────────────────

/// The key of a `KEY=value` line: the text before its first `=`, trimmed.
pub open spec fn line_key(line: Seq<char>) -> Option<Seq<char>> {
    match crate::text::first_match(line, seq!['=']) {
        Some(i) => Some(trim(line.take(i))),
        None => None,
    }
}

/// Index of the first line that assigns `key`.
pub open spec fn assigning_line(ls: Seq<Seq<char>>, key: Seq<char>) -> Option<int>
    decreases ls.len(),
{
    if ls.len() == 0 {
        None
    } else if line_key(ls[0]) == Some(key) {
        Some(0)
    } else {
        match assigning_line(ls.drop_first(), key) {
            Some(i) => Some(i + 1),
            None => None,
        }
    }
}

pub open spec fn assignment(key: Seq<char>, value: Seq<char>) -> Seq<char> {
    key + seq!['='] + value
}

/// The lines of an env file once `key` is set to `value`: the first line assigning the
/// key is replaced; without one, the assignment is appended (after a blank separator
/// line unless the last line is already blank).
pub open spec fn upserted_lines(ls: Seq<Seq<char>>, key: Seq<char>, value: Seq<char>) -> Seq<
    Seq<char>,
> {
    match assigning_line(ls, key) {
        Some(i) => ls.update(i, assignment(key, value)),
        None => if ls.len() > 0 && ls.last().len() > 0 {
            ls.push(seq![]).push(assignment(key, value))
        } else {
            ls.push(assignment(key, value))
        },
    }
}

/// The env file text for these lines: joined by line feeds, ending with one.
pub open spec fn env_text(ls: Seq<Seq<char>>) -> Seq<char> {
    join(ls, seq!['\n']).push('\n')
}

fn line_key_of(line: &Vec<char>) -> (r: Option<Vec<char>>)
    ensures
        match r {
            Some(k) => line_key(line@) == Some(k@),
            None => line_key(line@) is None,
        },
{
    let mut eq: Vec<char> = Vec::new();
    eq.push('=');
    assert(eq@ =~= seq!['=']);
    match find(line, &eq) {
        Some(i) => {
            let before = slice_vec(line, 0, i);
            assert(before@ =~= line@.take(i as int));
            Some(trim_vec(&before))
        },
        None => None,
    }
}

/// Sets `key=value` in the lines of an env file and renders the file text.
#[verifier::rlimit(40)]
pub fn upsert_env_lines(lines: Vec<Vec<char>>, key: &str, value: &str) -> (r: String)
    ensures
        r@ == env_text(upserted_lines(views(lines@), key@, value@)),
{
    let mut lines = lines;
    let ghost orig = views(lines@);
    proof {
        reveal_strlit("=");
    }
    let k = chars_of(key);
    let mut assign = chars_of(key);
    extend_str(&mut assign, "=");
    extend_str(&mut assign, value);
    assert(assign@ =~= assignment(key@, value@));
    let mut i: usize = 0;
    let mut found: Option<usize> = None;
    assert(orig.skip(0) =~= orig);
    while i < lines.len() && found.is_none()
        invariant
            i <= lines.len(),
            views(lines@) == orig,
            k@ == key@,
            assign@ == assignment(key@, value@),
            match found {
                Some(j) => j < lines.len() && assigning_line(orig, key@) == Some(j as int),
                None => match assigning_line(orig.skip(i as int), key@) {
                    Some(j) => assigning_line(orig, key@) == Some(j + i),
                    None => assigning_line(orig, key@) is None,
                },
            },
        decreases lines.len() - i + (if found is None { 1int } else { 0int }),
    {
        assert(orig.skip(i as int)[0] == lines@[i as int]@);
        assert(orig.skip(i as int).drop_first() =~= orig.skip(i + 1));
        let lk = line_key_of(&lines[i]);
        let hit = match &lk {
            Some(x) => seq_eq(x, &k),
            None => false,
        };
        if hit {
            found = Some(i);
        } else {
            i += 1;
        }
    }
    match found {
        Some(j) => {
            lines.set(j, assign);
            assert(views(lines@) =~= orig.update(j as int, assignment(key@, value@)));
        },
        None => {
            assert(orig.skip(lines.len() as int) =~= Seq::<Seq<char>>::empty());
            if lines.len() > 0 && lines[lines.len() - 1].len() > 0 {
                lines.push(Vec::new());
                lines.push(assign);
                assert(views(lines@) =~= orig.push(seq![]).push(assignment(key@, value@)));
            } else {
                lines.push(assign);
                assert(views(lines@) =~= orig.push(assignment(key@, value@)));
            }
        },
    }
    let mut nl: Vec<char> = Vec::new();
    nl.push('\n');
    assert(nl@ =~= seq!['\n']);
    let mut text = join_vec(&lines, &nl);
    text.push('\n');
    string_of(&text)
}

} // verus!
