//! The agent harness: where its files live in the Curio repository, the skills and
//! plugins it offers, and how a provider is launched inside it.
use vstd::prelude::*;

use crate::order::{key_sorted, lex_le, sort_by_key, text_le, TextKeyed};
use crate::text::{
    chars_of, decimal, decimal_vec, extend_chars, extend_str, replace_all, replace_str, split_ws,
    str_eq, string_of, trim, trim_str, trim_vec, views, words,
};

verus! {

// ─── Paths ──────────────────────────────────────────────────────────────────

/// `base` joined with `rel` as `Path::join` does on Unix: an absolute `rel` replaces
/// `base`, and a separator goes between them unless `base` is empty or ends in one.
pub open spec fn path_joined(base: Seq<char>, rel: Seq<char>) -> Seq<char> {
    if rel.len() > 0 && rel[0] == '/' {
        rel
    } else if base.len() == 0 {
        rel
    } else if base.last() == '/' {
        base + rel
    } else {
        base + "/"@ + rel
    }
}

pub fn path_join(base: &str, rel: &str) -> (r: String)
    ensures
        r@ == path_joined(base@, rel@),
{
    let b = chars_of(base);
    let r = chars_of(rel);
    if r.len() > 0 && r[0] == '/' {
        return string_of(&r);
    }
    if b.len() == 0 {
        return string_of(&r);
    }
    let mut out: Vec<char> = Vec::new();
    extend_chars(&mut out, &b);
    if b[b.len() - 1] != '/' {
        out.push('/');
    }
    proof {
        reveal_strlit("/");
    }
    assert(out@ =~= if b@.last() == '/' { b@ } else { b@ + "/"@ });
    extend_chars(&mut out, &r);
    string_of(&out)
}

pub open spec fn opt_view(o: Option<String>) -> Option<Seq<char>> {
    match o {
        Some(s) => Some(s@),
        None => None,
    }
}

/// What `Path::file_name` gives for a path, as text.
pub uninterp spec fn spec_file_name(path: Seq<char>) -> Option<Seq<char>>;

/// `Path::file_name`: the final component of a path, unless it ends in `..`.
#[verifier::external_body]
pub(crate) fn file_name_of(path: &str) -> (r: Option<String>)
    ensures
        opt_view(r) == spec_file_name(path@),
{
    std::path::Path::new(path).file_name().and_then(|n| n.to_str()).map(|n| n.to_string())
}

/// What `Path::parent` gives for a path, as text.
pub uninterp spec fn spec_parent(path: Seq<char>) -> Option<Seq<char>>;

/// `Path::parent`: the path without its final component, where it has one.
#[verifier::external_body]
pub(crate) fn parent_of(path: &str) -> (r: Option<String>)
    ensures
        opt_view(r) == spec_parent(path@),
{
    std::path::Path::new(path).parent().and_then(|p| p.to_str()).map(|p| p.to_string())
}

// ─── Finding the repository root ────────────────────────────────────────────

/// What the file system says about one directory on the way up from where a
/// command starts.
#[derive(Clone, Debug)]
pub struct RootProbe {
    pub dir: String,
    /// Whether `dir/curio-rs` is a directory.
    pub has_crate_dir: bool,
    /// Whether `dir/Cargo.toml` is a file.
    pub has_cargo_toml: bool,
}

#[derive(Clone, Copy, Debug, PartialEq, Eq)]
pub enum RootError {
    /// The crate directory was found but has no parent.
    CrateWithoutParent,
    /// No directory on the way up is or holds the crate.
    NotFound,
}

/// What a failure to find the repository root says.
pub open spec fn root_error_message(e: RootError) -> Seq<char> {
    match e {
        RootError::CrateWithoutParent => "Could not resolve the Curio repo root from curio-rs"@,
        RootError::NotFound => "Could not find the Curio repo root. Run this command from the Curio repository root or set CURIO_REPO_ROOT."@,
    }
}

impl RootError {
    pub fn message(&self) -> (s: &'static str)
        ensures
            s@ == root_error_message(*self),
    {
        match self {
            RootError::CrateWithoutParent => "Could not resolve the Curio repo root from curio-rs",
            RootError::NotFound => "Could not find the Curio repo root. Run this command from the Curio repository root or set CURIO_REPO_ROOT.",
        }
    }
}

pub open spec fn is_crate_root(p: RootProbe) -> bool {
    spec_file_name(p.dir@) == Some("curio-rs"@) && p.has_cargo_toml
}

/// The repository root, looking at the directories from index `i` upward: the first
/// that holds `curio-rs`, or the parent of the first that is `curio-rs` itself.
pub open spec fn root_search(chain: Seq<RootProbe>, i: int) -> Result<Seq<char>, RootError>
    decreases chain.len() - i,
{
    if i < 0 || i >= chain.len() {
        Err(RootError::NotFound)
    } else if chain[i].has_crate_dir {
        Ok(chain[i].dir@)
    } else if is_crate_root(chain[i]) {
        match spec_parent(chain[i].dir@) {
            Some(p) => Ok(p),
            None => Err(RootError::CrateWithoutParent),
        }
    } else {
        root_search(chain, i + 1)
    }
}

/// The Curio repository root, given the directories from the starting one upward
/// (each the parent of the one before it).
pub fn find_repo_root(chain: &[RootProbe]) -> (r: Result<String, RootError>)
    ensures
        match r {
            Ok(s) => root_search(chain@, 0) == Ok::<Seq<char>, RootError>(s@),
            Err(e) => root_search(chain@, 0) == Err::<Seq<char>, RootError>(e),
        },
{
    let mut i: usize = 0;
    while i < chain.len()
        invariant
            i <= chain@.len(),
            root_search(chain@, 0) == root_search(chain@, i as int),
        decreases chain@.len() - i,
    {
        let p = &chain[i];
        if p.has_crate_dir {
            return Ok(p.dir.clone());
        }
        let name = file_name_of(p.dir.as_str());
        let named_crate = match &name {
            Some(n) => str_eq(n.as_str(), "curio-rs"),
            None => false,
        };
        if named_crate && p.has_cargo_toml {
            return match parent_of(p.dir.as_str()) {
                Some(parent) => Ok(parent),
                None => Err(RootError::CrateWithoutParent),
            };
        }
        i += 1;
    }
    Err(RootError::NotFound)
}

// ─── Harness layout ─────────────────────────────────────────────────────────

/// Where the harness files live.
#[derive(Clone, Debug)]
pub struct HarnessPaths {
    pub repo_root: String,
    pub crate_root: String,
    pub docs_dir: String,
    pub skills_dir: String,
    pub agents_skills_dir: String,
    pub plugins_dir: String,
    pub providers_dir: String,
    pub marketplace_path: String,
    pub codex_plugin_manifest_path: String,
}

pub open spec fn joined2(base: Seq<char>, a: Seq<char>, b: Seq<char>) -> Seq<char> {
    path_joined(path_joined(base, a), b)
}

/// The layout of the harness under a repository root.
pub open spec fn layout_of(p: HarnessPaths, root: Seq<char>) -> bool {
    &&& p.repo_root@ == root
    &&& p.crate_root@ == path_joined(root, "curio-rs"@)
    &&& p.docs_dir@ == path_joined(root, "docs"@)
    &&& p.skills_dir@ == path_joined(root, "skills"@)
    &&& p.agents_skills_dir@ == joined2(root, ".agents"@, "skills"@)
    &&& p.plugins_dir@ == path_joined(root, "plugins"@)
    &&& p.providers_dir@ == path_joined(root, "providers"@)
    &&& p.marketplace_path@ == path_joined(joined2(root, ".agents"@, "plugins"@), "marketplace.json"@)
    &&& p.codex_plugin_manifest_path@ == joined2(root, ".codex-plugin"@, "plugin.json"@)
}

fn join2(base: &str, a: &str, b: &str) -> (r: String)
    ensures
        r@ == joined2(base@, a@, b@),
{
    let first = path_join(base, a);
    path_join(first.as_str(), b)
}

/// What Curio knows of an agent provider: its name, the instructions file it starts
/// from (under the repository root), the variables that name its launcher and extra
/// arguments, the commands tried as its launcher, and what to do when none is found.
#[derive(Clone, Debug)]
pub struct ProviderSpec {
    pub name: String,
    pub entrypoint_file: String,
    pub command_env_key: String,
    pub args_env_key: String,
    pub candidates: Vec<String>,
    pub setup_hint: String,
}

pub open spec fn provider_upper(name: Seq<char>) -> Seq<char> {
    crate::text::ascii_upper_seq(name)
}

/// The file a provider starts from: `AGENTS.md` for Codex, else the provider's name
/// in capitals with `.md` (so `GEMINI.md` for Gemini).
pub open spec fn entrypoint_file_of(name: Seq<char>) -> Seq<char> {
    if name == "codex"@ {
        "AGENTS.md"@
    } else {
        provider_upper(name) + ".md"@
    }
}

pub open spec fn command_key_of(name: Seq<char>) -> Seq<char> {
    "CURIO_"@ + provider_upper(name) + "_CMD"@
}

/// The launchers looked for: `gemini` and then `adk` for Gemini, else the
/// provider's own name.
pub open spec fn candidates_of(name: Seq<char>) -> Seq<Seq<char>> {
    if name == "gemini"@ {
        seq!["gemini"@, "adk"@]
    } else {
        seq![name]
    }
}

pub open spec fn capitalized_name(name: Seq<char>) -> Seq<char> {
    if name.len() == 0 {
        name
    } else {
        seq![crate::text::ascii_upper(name[0])] + name.skip(1)
    }
}

pub open spec fn setup_hint_of(name: Seq<char>) -> Seq<char> {
    if name == "codex"@ {
        "Install the Codex CLI or set CURIO_CODEX_CMD."@
    } else if name == "gemini"@ {
        "Install a Gemini-compatible launcher or set CURIO_GEMINI_CMD. Curio's Gemini harness expects a launcher that honors the CURIO_* environment contract and GEMINI.md entrypoint."@
    } else {
        "Install the "@ + capitalized_name(name) + " CLI or set "@ + command_key_of(name) + "."@
    }
}

/// What the harness knows of a provider by its name: its entry-point file, the
/// variables that override its launcher and arguments, the launchers looked for, and
/// how to set one up.
pub fn provider_spec(name: &str) -> (r: ProviderSpec)
    ensures
        r.name@ == name@,
        r.entrypoint_file@ == entrypoint_file_of(name@),
        r.command_env_key@ == command_key_of(name@),
        r.args_env_key@ == "CURIO_"@ + provider_upper(name@) + "_ARGS"@,
        strings_view(r.candidates@) == candidates_of(name@),
        r.setup_hint@ == setup_hint_of(name@),
{
    let upper = crate::text::to_ascii_upper_str(name);
    let is_codex = str_eq(name, "codex");
    let is_gemini = str_eq(name, "gemini");
    let entry = if is_codex {
        chars_of("AGENTS.md")
    } else {
        let mut e = crate::text::slice_vec(&upper, 0, upper.len());
        extend_str(&mut e, ".md");
        e
    };
    let mut cmd = chars_of("CURIO_");
    extend_chars(&mut cmd, &upper);
    extend_str(&mut cmd, "_CMD");
    let mut args = chars_of("CURIO_");
    extend_chars(&mut args, &upper);
    extend_str(&mut args, "_ARGS");
    let mut candidates: Vec<String> = Vec::new();
    if is_gemini {
        candidates.push(String::from_str("gemini"));
        candidates.push(String::from_str("adk"));
        assert(strings_view(candidates@) =~= candidates_of(name@));
    } else {
        candidates.push(String::from_str(name));
        assert(strings_view(candidates@) =~= candidates_of(name@));
    }
    let hint = if is_codex {
        chars_of("Install the Codex CLI or set CURIO_CODEX_CMD.")
    } else if is_gemini {
        chars_of(
            "Install a Gemini-compatible launcher or set CURIO_GEMINI_CMD. Curio's Gemini harness expects a launcher that honors the CURIO_* environment contract and GEMINI.md entrypoint.",
        )
    } else {
        let v = chars_of(name);
        let mut h = chars_of("Install the ");
        if v.len() > 0 {
            h.push(crate::text::to_ascii_upper(v[0]));
            extend_chars(&mut h, &crate::text::slice_vec(&v, 1, v.len()));
        }
        extend_str(&mut h, " CLI or set ");
        extend_chars(&mut h, &cmd);
        extend_str(&mut h, ".");
        proof {
            if v@.len() > 0 {
                assert(h@ =~= "Install the "@ + capitalized_name(name@) + " CLI or set "@ + cmd@ + "."@);
            } else {
                assert(h@ =~= "Install the "@ + capitalized_name(name@) + " CLI or set "@ + cmd@ + "."@);
            }
        }
        h
    };
    ProviderSpec {
        name: String::from_str(name),
        entrypoint_file: string_of(&entry),
        command_env_key: string_of(&cmd),
        args_env_key: string_of(&args),
        candidates,
        setup_hint: string_of(&hint),
    }
}

impl HarnessPaths {
    /// The harness layout under a known repository root.
    pub fn from_repo_root(repo_root: &str) -> (p: Self)
        ensures
            layout_of(p, repo_root@),
    {
        let agents_plugins = join2(repo_root, ".agents", "plugins");
        HarnessPaths {
            repo_root: String::from_str(repo_root),
            crate_root: path_join(repo_root, "curio-rs"),
            docs_dir: path_join(repo_root, "docs"),
            skills_dir: path_join(repo_root, "skills"),
            agents_skills_dir: join2(repo_root, ".agents", "skills"),
            plugins_dir: path_join(repo_root, "plugins"),
            providers_dir: path_join(repo_root, "providers"),
            marketplace_path: path_join(agents_plugins.as_str(), "marketplace.json"),
            codex_plugin_manifest_path: join2(repo_root, ".codex-plugin", "plugin.json"),
        }
    }

    /// The harness layout of the repository found from the directories on the way up
    /// from where a command starts (see `find_repo_root`).
    pub fn discover_from(chain: &[RootProbe]) -> (r: Result<Self, RootError>)
        ensures
            match r {
                Ok(p) => root_search(chain@, 0) == Ok::<Seq<char>, RootError>(p.repo_root@)
                    && layout_of(p, p.repo_root@),
                Err(e) => root_search(chain@, 0) == Err::<Seq<char>, RootError>(e),
            },
    {
        match find_repo_root(chain) {
            Ok(root) => Ok(Self::from_repo_root(root.as_str())),
            Err(e) => Err(e),
        }
    }

    /// The instructions file a provider starts from.
    pub fn entrypoint_for(&self, provider: &ProviderSpec) -> (r: String)
        ensures
            r@ == path_joined(self.repo_root@, provider.entrypoint_file@),
    {
        path_join(self.repo_root.as_str(), provider.entrypoint_file.as_str())
    }
}

// ─── Skills and plugins ─────────────────────────────────────────────────────

/// A skill directory (one holding a `SKILL.md`).
#[derive(Clone, Debug)]
pub struct SkillInfo {
    pub name: String,
    pub path: String,
}

impl SkillInfo {
    /// A copy of the record.
    pub fn copied(&self) -> (r: Self)
        ensures
            r == *self,
    {
        SkillInfo { name: self.name.clone(), path: self.path.clone() }
    }
}

impl TextKeyed for SkillInfo {
    open spec fn key_view(&self) -> Seq<char> {
        self.name@
    }

    fn key(&self) -> (r: &str) {
        self.name.as_str()
    }
}

/// Skills in order of name; of skills with equal names, which comes first is left
/// open.
pub fn sort_skills(skills: Vec<SkillInfo>) -> (r: Vec<SkillInfo>)
    ensures
        r@.to_multiset() == skills@.to_multiset(),
        key_sorted(r@),
{
    sort_by_key(skills)
}

pub open spec fn flat_skills(groups: Seq<Vec<SkillInfo>>) -> Seq<SkillInfo>
    decreases groups.len(),
{
    if groups.len() == 0 {
        seq![]
    } else {
        flat_skills(groups.drop_last()) + groups.last()@
    }
}

/// All skills the harness offers, in order of name: those authored in the skills
/// directory and those of each enabled plugin.
pub fn discover_skills(authored: Vec<SkillInfo>, plugin_skills: Vec<Vec<SkillInfo>>) -> (r: Vec<
    SkillInfo,
>)
    ensures
        r@.to_multiset() == (authored@ + flat_skills(plugin_skills@)).to_multiset(),
        key_sorted(r@),
{
    let mut all = authored;
    let ghost start = all@;
    let mut i: usize = 0;
    while i < plugin_skills.len()
        invariant
            i <= plugin_skills@.len(),
            all@ == start + flat_skills(plugin_skills@.take(i as int)),
        decreases plugin_skills@.len() - i,
    {
        let group = &plugin_skills[i];
        let ghost before = all@;
        let mut j: usize = 0;
        while j < group.len()
            invariant
                j <= group@.len(),
                all@ == before + group@.take(j as int),
            decreases group@.len() - j,
        {
            all.push(group[j].copied());
            assert(all@ =~= before + group@.take(j + 1));
            j += 1;
        }
        assert(group@.take(group@.len() as int) =~= group@);
        assert(plugin_skills@.take(i + 1).drop_last() =~= plugin_skills@.take(i as int));
        assert(all@ =~= start + flat_skills(plugin_skills@.take(i + 1)));
        i += 1;
    }
    assert(plugin_skills@.take(plugin_skills@.len() as int) =~= plugin_skills@);
    sort_by_key(all)
}

/// A plugin of the marketplace catalog.
#[derive(Clone, Debug)]
pub struct MarketplacePlugin {
    pub name: String,
    pub path: String,
    pub description: String,
    pub enabled: bool,
}

impl TextKeyed for MarketplacePlugin {
    open spec fn key_view(&self) -> Seq<char> {
        self.name@
    }

    fn key(&self) -> (r: &str) {
        self.name.as_str()
    }
}

/// A plugin that the catalog does not mark is enabled.
pub fn default_enabled() -> (b: bool)
    ensures
        b,
{
    true
}

/// The marketplace catalog of plugins.
#[derive(Clone, Debug)]
pub struct MarketplaceCatalog {
    pub plugins: Vec<MarketplacePlugin>,
}

impl MarketplaceCatalog {
    /// The catalog with its plugins in order of name; of plugins with equal names,
    /// which comes first is left open.
    pub fn sorted(self) -> (r: Self)
        ensures
            r.plugins@.to_multiset() == self.plugins@.to_multiset(),
            key_sorted(r.plugins@),
    {
        MarketplaceCatalog { plugins: sort_by_key(self.plugins) }
    }
}

/// The directory of a plugin, under the repository root.
pub fn plugin_dir(paths: &HarnessPaths, plugin: &MarketplacePlugin) -> (r: String)
    ensures
        r@ == path_joined(paths.repo_root@, plugin.path@),
{
    path_join(paths.repo_root.as_str(), plugin.path.as_str())
}

/// The skills directory of a plugin.
pub fn plugin_skills_dir(paths: &HarnessPaths, plugin: &MarketplacePlugin) -> (r: String)
    ensures
        r@ == path_joined(path_joined(paths.repo_root@, plugin.path@), "skills"@),
{
    let dir = plugin_dir(paths, plugin);
    path_join(dir.as_str(), "skills")
}

pub open spec fn missing_plugin_message(name: Seq<char>, dir: Seq<char>) -> Seq<char> {
    "Enabled plugin '"@ + name + "' points to a missing directory: "@ + dir
}

/// The first enabled plugin at or after `i` whose directory is missing.
pub open spec fn first_missing(plugins: Seq<MarketplacePlugin>, dir_exists: Seq<bool>, i: int) -> Option<int>
    decreases plugins.len() - i,
{
    if i < 0 || i >= plugins.len() {
        None
    } else if plugins[i].enabled && !dir_exists[i] {
        Some(i)
    } else {
        first_missing(plugins, dir_exists, i + 1)
    }
}

/// Checks that every enabled plugin's directory exists (`dir_exists[i]` says whether
/// that of plugin `i` does); the error names the first that does not.
pub fn validate_marketplace(paths: &HarnessPaths, catalog: &MarketplaceCatalog, dir_exists: &[bool]) -> (r: Result<(), String>)
    requires
        dir_exists@.len() == catalog.plugins@.len(),
    ensures
        match first_missing(catalog.plugins@, dir_exists@, 0) {
            None => r is Ok,
            Some(i) => r is Err && r->Err_0@ == missing_plugin_message(
                catalog.plugins@[i].name@,
                path_joined(paths.repo_root@, catalog.plugins@[i].path@),
            ),
        },
{
    let mut i: usize = 0;
    while i < catalog.plugins.len()
        invariant
            i <= catalog.plugins@.len(),
            dir_exists@.len() == catalog.plugins@.len(),
            first_missing(catalog.plugins@, dir_exists@, 0) == first_missing(
                catalog.plugins@,
                dir_exists@,
                i as int,
            ),
        decreases catalog.plugins@.len() - i,
    {
        let plugin = &catalog.plugins[i];
        if plugin.enabled && !dir_exists[i] {
            let dir = plugin_dir(paths, plugin);
            let mut msg: Vec<char> = Vec::new();
            extend_str(&mut msg, "Enabled plugin '");
            extend_str(&mut msg, plugin.name.as_str());
            extend_str(&mut msg, "' points to a missing directory: ");
            extend_str(&mut msg, dir.as_str());
            assert(msg@ =~= missing_plugin_message(plugin.name@, dir@));
            return Err(string_of(&msg));
        }
        i += 1;
    }
    Ok(())
}

// ─── Environment maps ───────────────────────────────────────────────────────

pub open spec fn lex_lt(a: Seq<char>, b: Seq<char>) -> bool {
    lex_le(a, b) && a != b
}

pub open spec fn entry_views(e: Seq<(String, String)>) -> Seq<(Seq<char>, Seq<char>)> {
    e.map_values(|p: (String, String)| (p.0@, p.1@))
}

/// Sets `key` to `value` in a list of entries kept in order of key, as a `BTreeMap`
/// holds them: the entry of that key is replaced, or a new one goes before the first
/// greater key.
pub open spec fn env_insert(s: Seq<(Seq<char>, Seq<char>)>, key: Seq<char>, value: Seq<char>) -> Seq<
    (Seq<char>, Seq<char>),
>
    decreases s.len(),
{
    if s.len() == 0 {
        seq![(key, value)]
    } else if s[0].0 == key {
        seq![(key, value)] + s.drop_first()
    } else if lex_le(key, s[0].0) {
        seq![(key, value)] + s
    } else {
        seq![s[0]] + env_insert(s.drop_first(), key, value)
    }
}

/// The value of `key` in a list of entries: that of its first entry.
pub open spec fn env_get(s: Seq<(Seq<char>, Seq<char>)>, key: Seq<char>) -> Option<Seq<char>>
    decreases s.len(),
{
    if s.len() == 0 {
        None
    } else if s[0].0 == key {
        Some(s[0].1)
    } else {
        env_get(s.drop_first(), key)
    }
}

pub open spec fn keys_ascending(s: Seq<(Seq<char>, Seq<char>)>) -> bool {
    forall|i: int, j: int| 0 <= i < j < s.len() ==> lex_lt(#[trigger] s[i].0, #[trigger] s[j].0)
}

/// The entries with each of `pairs` set in turn.
pub open spec fn env_insert_all(s: Seq<(Seq<char>, Seq<char>)>, pairs: Seq<(Seq<char>, Seq<char>)>) -> Seq<
    (Seq<char>, Seq<char>),
>
    decreases pairs.len(),
{
    if pairs.len() == 0 {
        s
    } else {
        env_insert(env_insert_all(s, pairs.drop_last()), pairs.last().0, pairs.last().1)
    }
}

/// Environment variables by name, in order of name.
#[derive(Clone, Debug)]
pub struct EnvMap {
    pub entries: Vec<(String, String)>,
}

impl EnvMap {
    pub open spec fn view_entries(&self) -> Seq<(Seq<char>, Seq<char>)> {
        entry_views(self.entries@)
    }

    pub fn new() -> (m: Self)
        ensures
            m.view_entries() == Seq::<(Seq<char>, Seq<char>)>::empty(),
    {
        let m = EnvMap { entries: Vec::new() };
        assert(m.view_entries() =~= Seq::<(Seq<char>, Seq<char>)>::empty());
        m
    }

    /// Sets a variable (`BTreeMap::insert`).
    pub fn insert(&mut self, key: String, value: String)
        ensures
            final(self).view_entries() == env_insert(old(self).view_entries(), key@, value@),
    {
        let ghost s = self.view_entries();
        let mut i: usize = 0;
        assert(s.skip(0) =~= s);
        assert(s.take(0) + env_insert(s, key@, value@) =~= env_insert(s, key@, value@));
        while i < self.entries.len() && !str_eq(self.entries[i].0.as_str(), key.as_str())
            && text_le(self.entries[i].0.as_str(), key.as_str())
            invariant
                i <= self.entries@.len(),
                s == entry_views(self.entries@),
                env_insert(s, key@, value@) == s.take(i as int) + env_insert(
                    s.skip(i as int),
                    key@,
                    value@,
                ),
            decreases self.entries@.len() - i,
        {
            proof {
                let rest = s.skip(i as int);
                assert(rest[0] == s[i as int]);
                if lex_le(key@, rest[0].0) {
                    crate::order::lemma_lex_antisym(key@, rest[0].0);
                }
                assert(rest.drop_first() =~= s.skip(i + 1));
                assert(s.take(i + 1) =~= s.take(i as int) + seq![rest[0]]);
                assert(env_insert(rest, key@, value@) == seq![rest[0]] + env_insert(
                    s.skip(i + 1),
                    key@,
                    value@,
                ));
                assert(s.take(i as int) + (seq![rest[0]] + env_insert(s.skip(i + 1), key@, value@))
                    =~= s.take(i + 1) + env_insert(s.skip(i + 1), key@, value@));
            }
            i += 1;
        }
        let ghost rest = s.skip(i as int);
        let ghost old_entries = self.entries@;
        if i < self.entries.len() && str_eq(self.entries[i].0.as_str(), key.as_str()) {
            assert(rest[0] == s[i as int]);
            self.entries.set(i, (key, value));
            assert(rest.drop_first() =~= s.skip(i + 1));
            assert(self.view_entries() =~= s.take(i as int) + env_insert(rest, key@, value@));
        } else {
            if i < self.entries.len() {
                proof {
                    assert(rest[0] == s[i as int]);
                    crate::order::lemma_lex_total(key@, rest[0].0);
                }
                assert(env_insert(rest, key@, value@) == seq![(key@, value@)] + rest);
            } else {
                assert(rest =~= Seq::<(Seq<char>, Seq<char>)>::empty());
            }
            self.entries.insert(i, (key, value));
            assert(self.entries@ =~= old_entries.insert(i as int, (key, value)));
            assert(self.view_entries() =~= s.take(i as int) + env_insert(rest, key@, value@));
        }
    }

    /// The value of a variable, if it is set.
    pub fn get(&self, key: &str) -> (r: Option<&str>)
        ensures
            match r {
                Some(v) => env_get(self.view_entries(), key@) == Some(v@),
                None => env_get(self.view_entries(), key@) is None,
            },
    {
        let ghost s = self.view_entries();
        let mut i: usize = 0;
        assert(s.skip(0) =~= s);
        while i < self.entries.len()
            invariant
                i <= self.entries@.len(),
                s == entry_views(self.entries@),
                env_get(s, key@) == env_get(s.skip(i as int), key@),
            decreases self.entries@.len() - i,
        {
            assert(s.skip(i as int)[0] == s[i as int]);
            assert(s.skip(i as int).drop_first() =~= s.skip(i + 1));
            if str_eq(self.entries[i].0.as_str(), key) {
                return Some(self.entries[i].1.as_str());
            }
            i += 1;
        }
        None
    }
}

/// Reading a variable back after setting it gives the value set, and setting one
/// variable leaves every other as it was.
pub proof fn law_env_insert_get(s: Seq<(Seq<char>, Seq<char>)>, key: Seq<char>, value: Seq<char>, other: Seq<char>)
    ensures
        env_get(env_insert(s, key, value), key) == Some(value),
        other != key ==> env_get(env_insert(s, key, value), other) == env_get(s, other),
    decreases s.len(),
{
    let r = env_insert(s, key, value);
    if s.len() == 0 {
        assert(r[0] == (key, value));
        assert(r.drop_first() =~= Seq::<(Seq<char>, Seq<char>)>::empty());
    } else if s[0].0 == key {
        assert(r[0] == (key, value));
        assert(r.drop_first() =~= s.drop_first());
        if other != key {
            assert(env_get(r, other) == env_get(r.drop_first(), other));
            assert(env_get(s, other) == env_get(s.drop_first(), other));
        }
    } else if lex_le(key, s[0].0) {
        assert(r[0] == (key, value));
        assert(r.drop_first() =~= s);
        if other != key {
            assert(env_get(r, other) == env_get(r.drop_first(), other));
        }
    } else {
        law_env_insert_get(s.drop_first(), key, value, other);
        let t = env_insert(s.drop_first(), key, value);
        assert(r[0] == s[0]);
        assert(r.drop_first() =~= t);
    }
}

/// Setting a variable keeps the entries in strictly ascending order of name.
pub proof fn law_env_insert_sorted(s: Seq<(Seq<char>, Seq<char>)>, key: Seq<char>, value: Seq<char>)
    requires
        keys_ascending(s),
    ensures
        keys_ascending(env_insert(s, key, value)),
    decreases s.len(),
{
    let r = env_insert(s, key, value);
    if s.len() == 0 {
    } else if s[0].0 == key {
        assert forall|i: int, j: int| 0 <= i < j < r.len() implies lex_lt(#[trigger] r[i].0, #[trigger] r[j].0) by {
            if i == 0 {
                assert(r[j] == s[j]);
            } else {
                assert(r[i] == s[i] && r[j] == s[j]);
            }
        }
    } else if lex_le(key, s[0].0) {
        assert forall|i: int, j: int| 0 <= i < j < r.len() implies lex_lt(#[trigger] r[i].0, #[trigger] r[j].0) by {
            if i == 0 {
                assert(r[j] == s[j - 1]);
                if j - 1 > 0 {
                    assert(lex_lt(s[0].0, s[j - 1].0));
                    crate::order::lemma_lex_trans(key, s[0].0, s[j - 1].0);
                    if key == s[j - 1].0 {
                        crate::order::lemma_lex_antisym(s[0].0, key);
                    }
                }
            } else {
                assert(r[i] == s[i - 1] && r[j] == s[j - 1]);
            }
        }
    } else {
        let rest = s.drop_first();
        assert(keys_ascending(rest)) by {
            assert forall|i: int, j: int| 0 <= i < j < rest.len() implies lex_lt(#[trigger] rest[i].0, #[trigger] rest[j].0) by {
                assert(rest[i] == s[i + 1] && rest[j] == s[j + 1]);
            }
        }
        law_env_insert_sorted(rest, key, value);
        let t = env_insert(rest, key, value);
        crate::order::lemma_lex_total(key, s[0].0);
        assert forall|x: int| 0 <= x < t.len() implies lex_lt(s[0].0, #[trigger] t[x].0) by {
            lemma_env_insert_members(rest, key, value, x);
            if t[x].0 != key {
                let y = choose|y: int| 0 <= y < rest.len() && rest[y].0 == t[x].0;
                assert(rest[y] == s[y + 1]);
            }
        }
        assert forall|i: int, j: int| 0 <= i < j < r.len() implies lex_lt(#[trigger] r[i].0, #[trigger] r[j].0) by {
            if i == 0 {
                assert(r[j] == t[j - 1]);
            } else {
                assert(r[i] == t[i - 1] && r[j] == t[j - 1]);
            }
        }
    }
}

/// Every key of the entries after setting `key` is `key` or was a key before.
proof fn lemma_env_insert_members(s: Seq<(Seq<char>, Seq<char>)>, key: Seq<char>, value: Seq<char>, x: int)
    requires
        0 <= x < env_insert(s, key, value).len(),
    ensures
        env_insert(s, key, value)[x].0 == key || exists|y: int|
            0 <= y < s.len() && #[trigger] s[y].0 == env_insert(s, key, value)[x].0,
    decreases s.len(),
{
    let r = env_insert(s, key, value);
    if s.len() == 0 {
    } else if s[0].0 == key {
        if x > 0 {
            assert(r[x] == s[x]);
        }
    } else if lex_le(key, s[0].0) {
        if x > 0 {
            assert(r[x] == s[x - 1]);
        }
    } else {
        if x == 0 {
            assert(r[0] == s[0]);
        } else {
            let rest = s.drop_first();
            lemma_env_insert_members(rest, key, value, x - 1);
            assert(r[x] == env_insert(rest, key, value)[x - 1]);
            if r[x].0 != key {
                let y = choose|y: int| 0 <= y < rest.len() && rest[y].0 == r[x].0;
                assert(rest[y] == s[y + 1]);
            }
        }
    }
}

// ─── Provider launch ────────────────────────────────────────────────────────

/// A provider profile (`providers/<provider>.json`).
#[derive(Clone, Debug)]
pub struct ProviderProfile {
    pub command: Option<String>,
    pub args: Vec<String>,
    pub env: EnvMap,
    pub bootstrap_summary: String,
}

/// How a provider is launched.
#[derive(Clone, Debug)]
pub struct ProviderLaunchPlan {
    /// The provider's name.
    pub provider: String,
    pub command: String,
    pub args: Vec<String>,
    pub env: EnvMap,
    pub bootstrap_summary: String,
    pub profile_path: String,
    pub entrypoint_path: String,
    pub repo_root: String,
}

pub open spec fn strings_view(v: Seq<String>) -> Seq<Seq<char>> {
    v.map_values(|s: String| s@)
}

/// Whether `x` is the name of a provider the harness knows: Codex, Gemini, or a
/// profile under `providers/` (by file stem).
pub open spec fn known_provider(profile_stems: Seq<Seq<char>>, x: Seq<char>) -> bool {
    x == "codex"@ || x == "gemini"@ || profile_stems.contains(x)
}

/// The providers the harness knows, by name, in ascending order and each once.
pub fn provider_names(profile_stems: &[String]) -> (r: Vec<String>)
    ensures
        forall|i: int, j: int|
            0 <= i < j < r@.len() ==> lex_le(#[trigger] r@[i]@, #[trigger] r@[j]@) && r@[i]@ != r@[j]@,
        forall|x: Seq<char>|
            strings_view(r@).contains(x) <==> known_provider(strings_view(profile_stems@), x),
{
    let mut all: Vec<String> = Vec::new();
    all.push(String::from_str("codex"));
    all.push(String::from_str("gemini"));
    let mut i: usize = 0;
    while i < profile_stems.len()
        invariant
            i <= profile_stems@.len(),
            all@.len() == i + 2,
            all@[0]@ == "codex"@,
            all@[1]@ == "gemini"@,
            forall|k: int| 0 <= k < i ==> all@[k + 2] == profile_stems@[k],
        decreases profile_stems@.len() - i,
    {
        all.push(profile_stems[i].clone());
        i += 1;
    }
    let sorted = crate::order::sorted_titles(all.as_slice());
    let ghost sv = strings_view(profile_stems@);
    assert forall|x: Seq<char>| (exists|k: int| 0 <= k < sorted@.len() && sorted@[k]@ == x) <==> known_provider(
        sv,
        x,
    ) by {
        if exists|k: int| 0 <= k < sorted@.len() && sorted@[k]@ == x {
            let k = choose|k: int| 0 <= k < sorted@.len() && sorted@[k]@ == x;
            let st = sorted@[k];
            assert(sorted@.contains(st));
            vstd::seq_lib::to_multiset_contains(sorted@, st);
            vstd::seq_lib::to_multiset_contains(all@, st);
            let j = choose|j: int| 0 <= j < all@.len() && all@[j] == st;
            if j >= 2 {
                assert(sv[j - 2] == x);
            }
        }
        if known_provider(sv, x) {
            let j: int = if x == "codex"@ {
                0
            } else if x == "gemini"@ {
                1
            } else {
                let m = choose|m: int| 0 <= m < sv.len() && sv[m] == x;
                m + 2
            };
            let st = all@[j];
            assert(all@.contains(st));
            vstd::seq_lib::to_multiset_contains(all@, st);
            vstd::seq_lib::to_multiset_contains(sorted@, st);
            let k = choose|k: int| 0 <= k < sorted@.len() && sorted@[k] == st;
            assert(sorted@[k]@ == x);
        }
    }
    let mut out: Vec<String> = Vec::new();
    let mut n: usize = 0;
    while n < sorted.len()
        invariant
            n <= sorted@.len(),
            crate::order::text_sorted(sorted@),
            forall|a: int, b: int|
                0 <= a < b < out@.len() ==> lex_le(#[trigger] out@[a]@, #[trigger] out@[b]@) && out@[a]@ != out@[b]@,
            n == 0 ==> out@.len() == 0,
            n > 0 ==> out@.len() > 0 && out@[out@.len() - 1]@ == sorted@[n - 1]@,
            forall|x: Seq<char>|
                strings_view(out@).contains(x) <==> exists|k: int| 0 <= k < n && sorted@[k]@ == x,
        decreases sorted@.len() - n,
    {
        let fresh = out.len() == 0 || !str_eq(out[out.len() - 1].as_str(), sorted[n].as_str());
        let ghost before = out@;
        if fresh {
            proof {
                if n > 0 {
                    let last = before[before.len() - 1]@;
                    assert(lex_le(sorted@[n - 1].key_view(), sorted@[n as int].key_view()));
                    assert forall|a: int| 0 <= a < before.len() implies lex_le(before[a]@, sorted@[n as int]@)
                        && before[a]@ != sorted@[n as int]@ by {
                        if a < before.len() - 1 {
                            assert(lex_le(before[a]@, last));
                            crate::order::lemma_lex_trans(before[a]@, last, sorted@[n as int]@);
                            if before[a]@ == sorted@[n as int]@ {
                                crate::order::lemma_lex_antisym(last, sorted@[n as int]@);
                            }
                        }
                    }
                }
            }
            out.push(String::from_str(sorted[n].as_str()));
            proof {
                assert forall|x: Seq<char>| strings_view(out@).contains(x) <==> exists|k: int|
                    0 <= k < n + 1 && sorted@[k]@ == x by {
                    if strings_view(out@).contains(x) {
                        let m = choose|m: int| 0 <= m < strings_view(out@).len() && strings_view(out@)[m] == x;
                        if m < before.len() {
                            assert(strings_view(before)[m] == x);
                            assert(strings_view(before).contains(x));
                        } else {
                            assert(sorted@[n as int]@ == x);
                        }
                    }
                    if exists|k: int| 0 <= k < n + 1 && sorted@[k]@ == x {
                        let k = choose|k: int| 0 <= k < n + 1 && sorted@[k]@ == x;
                        if k < n {
                            assert(strings_view(before).contains(x));
                            let m = choose|m: int| 0 <= m < strings_view(before).len() && strings_view(before)[m] == x;
                            assert(strings_view(out@)[m] == x);
                        } else {
                            assert(strings_view(out@)[out@.len() - 1] == x);
                        }
                    }
                }
            }
        } else {
            proof {
                assert forall|x: Seq<char>| strings_view(out@).contains(x) <==> exists|k: int|
                    0 <= k < n + 1 && sorted@[k]@ == x by {
                    if exists|k: int| 0 <= k < n + 1 && sorted@[k]@ == x {
                        let k = choose|k: int| 0 <= k < n + 1 && sorted@[k]@ == x;
                        if k == n {
                            assert(strings_view(out@)[out@.len() - 1] == x);
                        }
                    }
                }
            }
        }
        n += 1;
    }
    out
}

impl ProviderLaunchPlan {
    /// The command and its arguments, separated by spaces.
    pub fn command_line(&self) -> (r: String)
        ensures
            r@ == crate::text::join(seq![self.command@] + strings_view(self.args@), " "@),
    {
        let mut parts: Vec<String> = Vec::new();
        parts.push(self.command.clone());
        let mut i: usize = 0;
        while i < self.args.len()
            invariant
                i <= self.args@.len(),
                strings_view(parts@) == seq![self.command@] + strings_view(self.args@.take(i as int)),
            decreases self.args@.len() - i,
        {
            let ghost before = parts@;
            let a = self.args[i].clone();
            assert(a@ == self.args@[i as int]@);
            parts.push(a);
            assert(parts@ =~= before.push(a));
            assert(strings_view(before.push(a)) =~= strings_view(before).push(a@));
            assert(strings_view(self.args@.take(i + 1)) =~= strings_view(self.args@.take(i as int)).push(
                a@,
            ));
            assert(strings_view(parts@) =~= seq![self.command@] + strings_view(
                self.args@.take(i + 1),
            ));
            i += 1;
        }
        assert(self.args@.take(self.args@.len() as int) =~= self.args@);
        let joined = crate::curio_docs::join_strings(parts.as_slice(), " ");
        assert(crate::curio_docs::strings(parts@) =~= strings_view(parts@));
        string_of(&joined)
    }
}

/// No launcher could be found for a provider.
#[derive(Clone, Debug)]
pub struct NoLauncher {
    pub provider: String,
    pub setup_hint: String,
}

impl NoLauncher {
    pub fn message(&self) -> (r: String)
        ensures
            r@ == "No launcher detected for "@ + self.provider@ + ". "@ + self.setup_hint@,
    {
        let mut out: Vec<char> = Vec::new();
        extend_str(&mut out, "No launcher detected for ");
        extend_str(&mut out, self.provider.as_str());
        extend_str(&mut out, ". ");
        extend_str(&mut out, self.setup_hint.as_str());
        string_of(&out)
    }
}

pub open spec fn opt_str_view(o: Option<&str>) -> Option<Seq<char>> {
    match o {
        Some(s) => Some(s@),
        None => None,
    }
}

pub open spec fn first_available(avail: Seq<bool>, i: int) -> Option<int>
    decreases avail.len() - i,
{
    if i < 0 || i >= avail.len() {
        None
    } else if avail[i] {
        Some(i)
    } else {
        first_available(avail, i + 1)
    }
}

/// The launcher a provider runs with: the command the environment names, else the
/// profile's, else the first candidate that is installed.
pub open spec fn launcher_of(
    provider: ProviderSpec,
    env_cmd: Option<Seq<char>>,
    profile_cmd: Option<Seq<char>>,
    available: Seq<bool>,
) -> Option<Seq<char>> {
    if env_cmd is Some && trim(env_cmd->0).len() > 0 {
        Some(trim(env_cmd->0))
    } else if profile_cmd is Some && trim(profile_cmd->0).len() > 0 {
        Some(trim(profile_cmd->0))
    } else {
        match first_available(available, 0) {
            Some(i) => Some(provider.candidates@[i]@),
            None => None,
        }
    }
}

pub open spec fn no_launcher(provider: ProviderSpec) -> NoLauncher {
    NoLauncher { provider: provider.name, setup_hint: provider.setup_hint }
}

/// Resolves a provider's launcher. `env_cmd` is the value of its command variable,
/// and `available[i]` says whether its `i`th launcher candidate is installed.
pub fn resolve_provider_command(
    provider: &ProviderSpec,
    env_cmd: Option<&str>,
    profile_command: Option<&str>,
    available: &[bool],
) -> (r: Result<String, NoLauncher>)
    requires
        available@.len() == provider.candidates@.len(),
    ensures
        match launcher_of(*provider, opt_str_view(env_cmd), opt_str_view(profile_command), available@) {
            Some(c) => r is Ok && r->Ok_0@ == c,
            None => r is Err && r->Err_0 == no_launcher(*provider),
        },
{
    if let Some(cmd) = env_cmd {
        let t = trim_str(cmd);
        if t.len() > 0 {
            return Ok(string_of(&t));
        }
    }
    if let Some(cmd) = profile_command {
        let t = trim_str(cmd);
        if t.len() > 0 {
            return Ok(string_of(&t));
        }
    }
    let mut i: usize = 0;
    while i < available.len()
        invariant
            i <= available@.len(),
            available@.len() == provider.candidates@.len(),
            first_available(available@, 0) == first_available(available@, i as int),
            !(opt_str_view(env_cmd) is Some && trim(opt_str_view(env_cmd)->0).len() > 0),
            !(opt_str_view(profile_command) is Some && trim(opt_str_view(profile_command)->0).len()
                > 0),
        decreases available@.len() - i,
    {
        if available[i] {
            assert(first_available(available@, i as int) == Some(i as int));
            return Ok(provider.candidates[i].clone());
        }
        i += 1;
    }
    Err(NoLauncher { provider: provider.name.clone(), setup_hint: provider.setup_hint.clone() })
}

/// Extra launcher arguments: the whitespace-separated words of the provider's
/// arguments variable, if it is set.
pub fn resolve_provider_args(env_args: Option<&str>) -> (r: Vec<String>)
    ensures
        strings_view(r@) == match env_args {
            Some(v) => words(v@),
            None => Seq::<Seq<char>>::empty(),
        },
{
    match env_args {
        Some(v) => {
            let parts = split_ws(&chars_of(v));
            let r = crate::curio_docs::to_strings(&parts);
            assert(strings_view(r@) =~= crate::curio_docs::strings(r@));
            r
        },
        None => {
            let r: Vec<String> = Vec::new();
            assert(strings_view(r@) =~= Seq::<Seq<char>>::empty());
            r
        },
    }
}

/// The variables Curio gives every launched provider, in the order they are set: the
/// harness layout, the provider, its entrypoint and profile, and the wiki directory
/// (`CURIO_WIKI_DIR` as the environment gives it, unless empty, or `wiki` under the
/// repository root when it is unset).
pub open spec fn base_env_pairs(
    paths: HarnessPaths,
    provider: ProviderSpec,
    profile_path: Seq<char>,
    summary: Seq<char>,
    wiki_env: Option<Seq<char>>,
) -> Seq<(Seq<char>, Seq<char>)> {
    seq![
        ("CURIO_HARNESS_DIR"@, paths.repo_root@),
        ("CURIO_PROVIDER"@, provider.name@),
        ("CURIO_REPO_ROOT"@, paths.repo_root@),
        ("CURIO_CRATE_ROOT"@, paths.crate_root@),
        ("CURIO_DOCS_DIR"@, paths.docs_dir@),
        ("CURIO_SKILLS_DIR"@, paths.skills_dir@),
        ("CURIO_AGENTS_SKILLS_DIR"@, paths.agents_skills_dir@),
        ("CURIO_PLUGINS_DIR"@, paths.plugins_dir@),
        ("CURIO_MARKETPLACE_PATH"@, paths.marketplace_path@),
        ("CURIO_ENTRYPOINT"@, path_joined(paths.repo_root@, provider.entrypoint_file@)),
        ("CURIO_CODEX_PLUGIN_MANIFEST"@, paths.codex_plugin_manifest_path@),
        ("CURIO_PROVIDER_PROFILE"@, profile_path),
        ("CURIO_BOOTSTRAP_SUMMARY"@, summary),
    ] + match wiki_env {
        Some(w) => if w.len() > 0 {
            seq![("CURIO_WIKI_DIR"@, w)]
        } else {
            seq![]
        },
        None => seq![("CURIO_WIKI_DIR"@, path_joined(paths.repo_root@, "wiki"@))],
    }
}

fn push_pair(pairs: &mut Vec<(String, String)>, key: &str, value: &str)
    ensures
        entry_views(final(pairs)@) == entry_views(old(pairs)@).push((key@, value@)),
{
    let ghost before = pairs@;
    pairs.push((String::from_str(key), String::from_str(value)));
    assert(entry_views(pairs@) =~= entry_views(before).push((key@, value@)));
}

/// Sets each of `pairs` in turn.
fn insert_all(env: &mut EnvMap, pairs: Vec<(String, String)>)
    ensures
        final(env).view_entries() == env_insert_all(old(env).view_entries(), entry_views(pairs@)),
{
    let ghost start = env.view_entries();
    let ghost all = entry_views(pairs@);
    let mut rest = pairs;
    let ghost mut done: int = 0;
    assert(all.take(0) =~= Seq::<(Seq<char>, Seq<char>)>::empty());
    assert(all.skip(0) =~= all);
    while rest.len() > 0
        invariant
            0 <= done <= all.len(),
            done + rest@.len() == all.len(),
            entry_views(rest@) == all.skip(done),
            env.view_entries() == env_insert_all(start, all.take(done)),
        decreases rest.len(),
    {
        let ghost old_rest = rest@;
        assert(entry_views(old_rest).len() == old_rest.len());
        let (k, v) = rest.remove(0);
        proof {
            assert(entry_views(old_rest)[0] == (k@, v@));
            assert(all.skip(done)[0] == (k@, v@));
            assert(all.take(done + 1).drop_last() =~= all.take(done));
            assert(all.take(done + 1).last() == (k@, v@));
            assert(rest@ =~= old_rest.remove(0));
            assert forall|x: int| 0 <= x < rest@.len() implies #[trigger] entry_views(rest@)[x]
                == all.skip(done + 1)[x] by {
                assert(rest@[x] == old_rest[x + 1]);
                assert(entry_views(old_rest)[x + 1] == all.skip(done)[x + 1]);
            }
            assert(entry_views(rest@) =~= all.skip(done + 1));
        }
        env.insert(k, v);
        proof {
            done = done + 1;
        }
    }
    assert(all.take(done) =~= all);
}

/// How a provider is launched: its launcher (see `resolve_provider_command`), the
/// profile's arguments and then those of its arguments variable, and the variables of
/// `base_env_pairs` and then the profile's, each set in turn.
pub fn build_launch_plan(
    provider: &ProviderSpec,
    paths: &HarnessPaths,
    profile: ProviderProfile,
    profile_path: &str,
    env_cmd: Option<&str>,
    env_args: Option<&str>,
    wiki_dir_env: Option<&str>,
    available: &[bool],
) -> (r: Result<ProviderLaunchPlan, NoLauncher>)
    requires
        available@.len() == provider.candidates@.len(),
    ensures
        match launcher_of(*provider, opt_str_view(env_cmd), opt_view(profile.command), available@) {
            Some(c) => r is Ok && {
                let p = r->Ok_0;
                &&& p.provider == provider.name
                &&& p.command@ == c
                &&& strings_view(p.args@) == strings_view(profile.args@) + match env_args {
                    Some(v) => words(v@),
                    None => Seq::<Seq<char>>::empty(),
                }
                &&& p.env.view_entries() == env_insert_all(
                    seq![],
                    base_env_pairs(
                        *paths,
                        *provider,
                        profile_path@,
                        profile.bootstrap_summary@,
                        opt_str_view(wiki_dir_env),
                    ) + profile.env.view_entries(),
                )
                &&& p.bootstrap_summary == profile.bootstrap_summary
                &&& p.profile_path@ == profile_path@
                &&& p.entrypoint_path@ == path_joined(paths.repo_root@, provider.entrypoint_file@)
                &&& p.repo_root == paths.repo_root
            },
            None => r is Err && r->Err_0 == no_launcher(*provider),
        },
{
    let profile_command: Option<&str> = match &profile.command {
        Some(c) => Some(c.as_str()),
        None => None,
    };
    assert(opt_str_view(profile_command) == opt_view(profile.command));
    let command = match resolve_provider_command(provider, env_cmd, profile_command, available) {
        Ok(c) => c,
        Err(e) => {
            return Err(e);
        },
    };
    let mut args = profile.args;
    let ghost args0 = args@;
    let extra = resolve_provider_args(env_args);
    let mut i: usize = 0;
    while i < extra.len()
        invariant
            i <= extra@.len(),
            strings_view(args@) == strings_view(args0) + strings_view(extra@.take(i as int)),
        decreases extra@.len() - i,
    {
        let ghost before = args@;
        let a = extra[i].clone();
        args.push(a);
        assert(strings_view(args@) =~= strings_view(before).push(a@));
        assert(strings_view(extra@.take(i + 1)) =~= strings_view(extra@.take(i as int)).push(a@));
        i += 1;
    }
    assert(extra@.take(extra@.len() as int) =~= extra@);
    let entrypoint = paths.entrypoint_for(provider);
    let mut pairs: Vec<(String, String)> = Vec::new();
    push_pair(&mut pairs, "CURIO_HARNESS_DIR", paths.repo_root.as_str());
    push_pair(&mut pairs, "CURIO_PROVIDER", provider.name.as_str());
    push_pair(&mut pairs, "CURIO_REPO_ROOT", paths.repo_root.as_str());
    push_pair(&mut pairs, "CURIO_CRATE_ROOT", paths.crate_root.as_str());
    push_pair(&mut pairs, "CURIO_DOCS_DIR", paths.docs_dir.as_str());
    push_pair(&mut pairs, "CURIO_SKILLS_DIR", paths.skills_dir.as_str());
    push_pair(&mut pairs, "CURIO_AGENTS_SKILLS_DIR", paths.agents_skills_dir.as_str());
    push_pair(&mut pairs, "CURIO_PLUGINS_DIR", paths.plugins_dir.as_str());
    push_pair(&mut pairs, "CURIO_MARKETPLACE_PATH", paths.marketplace_path.as_str());
    push_pair(&mut pairs, "CURIO_ENTRYPOINT", entrypoint.as_str());
    push_pair(&mut pairs, "CURIO_CODEX_PLUGIN_MANIFEST", paths.codex_plugin_manifest_path.as_str());
    push_pair(&mut pairs, "CURIO_PROVIDER_PROFILE", profile_path);
    push_pair(&mut pairs, "CURIO_BOOTSTRAP_SUMMARY", profile.bootstrap_summary.as_str());
    match wiki_dir_env {
        Some(w) => {
            if chars_of(w).len() > 0 {
                push_pair(&mut pairs, "CURIO_WIKI_DIR", w);
            }
        },
        None => {
            let wiki = path_join(paths.repo_root.as_str(), "wiki");
            push_pair(&mut pairs, "CURIO_WIKI_DIR", wiki.as_str());
        },
    }
    let ghost base = entry_views(pairs@);
    assert(base =~= base_env_pairs(
        *paths,
        *provider,
        profile_path@,
        profile.bootstrap_summary@,
        opt_str_view(wiki_dir_env),
    ));
    let profile_env = profile.env.entries;
    let mut j: usize = 0;
    while j < profile_env.len()
        invariant
            j <= profile_env@.len(),
            entry_views(pairs@) == base + entry_views(profile_env@.take(j as int)),
        decreases profile_env@.len() - j,
    {
        let ghost before = pairs@;
        let k = profile_env[j].0.clone();
        let v = profile_env[j].1.clone();
        pairs.push((k, v));
        assert(entry_views(pairs@) =~= entry_views(before).push((k@, v@)));
        assert(entry_views(profile_env@.take(j + 1)) =~= entry_views(profile_env@.take(j as int)).push(
            (k@, v@),
        ));
        j += 1;
    }
    assert(profile_env@.take(profile_env@.len() as int) =~= profile_env@);
    let mut env = EnvMap::new();
    insert_all(&mut env, pairs);
    Ok(
        ProviderLaunchPlan {
            provider: provider.name.clone(),
            command,
            args,
            env,
            bootstrap_summary: profile.bootstrap_summary,
            profile_path: String::from_str(profile_path),
            entrypoint_path: entrypoint,
            repo_root: paths.repo_root.clone(),
        },
    )
}

// ─── Harness checks ─────────────────────────────────────────────────────────

/// The outcome of one harness check.
#[derive(Clone, Debug)]
pub struct CheckResult {
    pub label: String,
    pub ok: bool,
    pub detail: String,
}

pub open spec fn check_view(c: CheckResult) -> (Seq<char>, bool, Seq<char>) {
    (c.label@, c.ok, c.detail@)
}

pub open spec fn checks_view(s: Seq<CheckResult>) -> Seq<(Seq<char>, bool, Seq<char>)> {
    s.map_values(|c: CheckResult| check_view(c))
}

fn check(label: Vec<char>, ok: bool, detail: Vec<char>) -> (c: CheckResult)
    ensures
        check_view(c) == (label@, ok, detail@),
{
    CheckResult { label: string_of(&label), ok, detail: string_of(&detail) }
}

fn push_check(out: &mut Vec<CheckResult>, c: CheckResult)
    ensures
        checks_view(final(out)@) == checks_view(old(out)@).push(check_view(c)),
{
    let ghost before = out@;
    out.push(c);
    assert(checks_view(out@) =~= checks_view(before).push(check_view(c)));
}

/// What the file system says about a path.
#[derive(Clone, Copy, Debug)]
pub struct PathProbe {
    pub is_dir: bool,
    pub is_file: bool,
}

/// A check that a path is a directory (or, if `expect_dir` is false, a file).
pub fn path_check(label: &str, path: &str, expect_dir: bool, probe: PathProbe) -> (c: CheckResult)
    ensures
        check_view(c) == (label@, if expect_dir { probe.is_dir } else { probe.is_file }, path@),
{
    check(chars_of(label), if expect_dir { probe.is_dir } else { probe.is_file }, chars_of(path))
}

pub open spec fn fixed_path_table(p: HarnessPaths) -> Seq<(Seq<char>, Seq<char>, bool)> {
    seq![
        ("repo_root"@, p.repo_root@, true),
        ("crate_root"@, p.crate_root@, true),
        ("docs_dir"@, p.docs_dir@, true),
        ("skills_dir"@, p.skills_dir@, true),
        ("agents_skills_dir"@, p.agents_skills_dir@, true),
        ("plugins_dir"@, p.plugins_dir@, true),
        ("providers_dir"@, p.providers_dir@, true),
        ("marketplace"@, p.marketplace_path@, false),
        ("codex_plugin_manifest"@, p.codex_plugin_manifest_path@, false),
    ]
}

pub open spec fn entrypoint_rows(root: Seq<char>, providers: Seq<ProviderSpec>) -> Seq<(Seq<char>, Seq<char>, bool)> {
    providers.map_values(
        |pr: ProviderSpec| (pr.name@ + "_entrypoint"@, path_joined(root, pr.entrypoint_file@), false),
    )
}

pub open spec fn extra_rows(root: Seq<char>, extra: Seq<(String, String)>) -> Seq<(Seq<char>, Seq<char>, bool)> {
    extra.map_values(|e: (String, String)| (e.0@, path_joined(root, e.1@), false))
}

/// The paths the harness checks, with their labels and whether each should be a
/// directory: the layout, each provider's entrypoint, and the extra files (a label
/// and a path under the repository root each).
pub open spec fn path_table(p: HarnessPaths, providers: Seq<ProviderSpec>, extra: Seq<(String, String)>) -> Seq<
    (Seq<char>, Seq<char>, bool),
> {
    fixed_path_table(p) + entrypoint_rows(p.repo_root@, providers) + extra_rows(p.repo_root@, extra)
}

fn push_row(rows: &mut Vec<(String, String, bool)>, label: String, path: String, dir: bool)
    ensures
        final(rows)@.map_values(|e: (String, String, bool)| (e.0@, e.1@, e.2)) == old(rows)@.map_values(
            |e: (String, String, bool)| (e.0@, e.1@, e.2),
        ).push((label@, path@, dir)),
{
    let ghost before = rows@;
    rows.push((label, path, dir));
    assert(rows@.map_values(|e: (String, String, bool)| (e.0@, e.1@, e.2)) =~= before.map_values(
        |e: (String, String, bool)| (e.0@, e.1@, e.2),
    ).push((label@, path@, dir)));
}

/// The checked paths, in the order they are checked.
pub fn checked_paths(paths: &HarnessPaths, providers: &[ProviderSpec], extra: &[(String, String)]) -> (r: Vec<
    (String, String, bool),
>)
    ensures
        r@.map_values(|e: (String, String, bool)| (e.0@, e.1@, e.2)) == path_table(
            *paths,
            providers@,
            extra@,
        ),
{
    let mut r: Vec<(String, String, bool)> = Vec::new();
    push_row(&mut r, String::from_str("repo_root"), paths.repo_root.clone(), true);
    push_row(&mut r, String::from_str("crate_root"), paths.crate_root.clone(), true);
    push_row(&mut r, String::from_str("docs_dir"), paths.docs_dir.clone(), true);
    push_row(&mut r, String::from_str("skills_dir"), paths.skills_dir.clone(), true);
    push_row(&mut r, String::from_str("agents_skills_dir"), paths.agents_skills_dir.clone(), true);
    push_row(&mut r, String::from_str("plugins_dir"), paths.plugins_dir.clone(), true);
    push_row(&mut r, String::from_str("providers_dir"), paths.providers_dir.clone(), true);
    push_row(&mut r, String::from_str("marketplace"), paths.marketplace_path.clone(), false);
    push_row(
        &mut r,
        String::from_str("codex_plugin_manifest"),
        paths.codex_plugin_manifest_path.clone(),
        false,
    );
    let ghost fixed = r@.map_values(|e: (String, String, bool)| (e.0@, e.1@, e.2));
    assert(fixed =~= fixed_path_table(*paths));
    let mut i: usize = 0;
    while i < providers.len()
        invariant
            i <= providers@.len(),
            fixed == fixed_path_table(*paths),
            r@.map_values(|e: (String, String, bool)| (e.0@, e.1@, e.2)) == fixed + entrypoint_rows(
                paths.repo_root@,
                providers@.take(i as int),
            ),
        decreases providers@.len() - i,
    {
        let mut label = chars_of(providers[i].name.as_str());
        extend_str(&mut label, "_entrypoint");
        let path = paths.entrypoint_for(&providers[i]);
        push_row(&mut r, string_of(&label), path, false);
        assert(entrypoint_rows(paths.repo_root@, providers@.take(i + 1)) =~= entrypoint_rows(
            paths.repo_root@,
            providers@.take(i as int),
        ).push(
            (
                providers@[i as int].name@ + "_entrypoint"@,
                path_joined(paths.repo_root@, providers@[i as int].entrypoint_file@),
                false,
            ),
        ));
        i += 1;
    }
    assert(providers@.take(providers@.len() as int) =~= providers@);
    let ghost with_entries = r@.map_values(|e: (String, String, bool)| (e.0@, e.1@, e.2));
    let mut j: usize = 0;
    while j < extra.len()
        invariant
            j <= extra@.len(),
            r@.map_values(|e: (String, String, bool)| (e.0@, e.1@, e.2)) == with_entries + extra_rows(
                paths.repo_root@,
                extra@.take(j as int),
            ),
        decreases extra@.len() - j,
    {
        let path = path_join(paths.repo_root.as_str(), extra[j].1.as_str());
        push_row(&mut r, extra[j].0.clone(), path, false);
        assert(extra_rows(paths.repo_root@, extra@.take(j + 1)) =~= extra_rows(
            paths.repo_root@,
            extra@.take(j as int),
        ).push((extra@[j as int].0@, path_joined(paths.repo_root@, extra@[j as int].1@), false)));
        j += 1;
    }
    assert(extra@.take(extra@.len() as int) =~= extra@);
    r
}

pub open spec fn path_check_views(table: Seq<(Seq<char>, Seq<char>, bool)>, probes: Seq<PathProbe>) -> Seq<
    (Seq<char>, bool, Seq<char>),
>
    decreases table.len(),
{
    if table.len() == 0 {
        seq![]
    } else {
        let i = table.len() - 1;
        path_check_views(table.drop_last(), probes) + seq![
            (table[i].0, if table[i].2 { probes[i].is_dir } else { probes[i].is_file }, table[i].1),
        ]
    }
}

/// Text normalized for comparing a skill with its mirror: CRLF line ends made LF,
/// then trimmed.
pub open spec fn normalized(text: Seq<char>) -> Seq<char> {
    trim(replace_all(text, "\r\n"@, "\n"@))
}

pub fn normalize_text(text: &str) -> (r: String)
    ensures
        r@ == normalized(text@),
{
    proof {
        reveal_strlit("\r\n");
    }
    let replaced = replace_str(text, "\r\n", "\n");
    string_of(&trim_vec(&replaced))
}

/// A skill with what reading its file and its mirror gave.
#[derive(Debug)]
pub struct MirrorProbe {
    pub skill: SkillInfo,
    pub authored: Result<String, String>,
    pub mirror: Result<String, String>,
}

/// Where the compatibility mirror of a skill lives.
pub fn mirror_file(paths: &HarnessPaths, skill: &SkillInfo) -> (r: String)
    ensures
        r@ == joined2(paths.agents_skills_dir@, skill.name@, "SKILL.md"@),
{
    join2(paths.agents_skills_dir.as_str(), skill.name.as_str(), "SKILL.md")
}

/// The authored file of a skill.
pub fn authored_file(skill: &SkillInfo) -> (r: String)
    ensures
        r@ == path_joined(skill.path@, "SKILL.md"@),
{
    path_join(skill.path.as_str(), "SKILL.md")
}

pub open spec fn mirror_check_view(paths: HarnessPaths, m: MirrorProbe) -> (Seq<char>, bool, Seq<char>) {
    let label = "skill-mirror:"@ + m.skill.name@;
    let mirrored = joined2(paths.agents_skills_dir@, m.skill.name@, "SKILL.md"@);
    match m.authored {
        Ok(a) => match m.mirror {
            Ok(b) => (label, normalized(a@) == normalized(b@), mirrored),
            Err(e) => (label, false, "Missing compatibility mirror "@ + mirrored + " ("@ + e@ + ")"@),
        },
        Err(e) => (
            label,
            false,
            "Failed to read authored skill "@ + path_joined(m.skill.path@, "SKILL.md"@) + " ("@ + e@
                + ")"@,
        ),
    }
}

pub open spec fn mirror_check_views(paths: HarnessPaths, ms: Seq<MirrorProbe>) -> Seq<
    (Seq<char>, bool, Seq<char>),
>
    decreases ms.len(),
{
    if ms.len() == 0 {
        seq![]
    } else {
        mirror_check_views(paths, ms.drop_last()) + seq![mirror_check_view(paths, ms.last())]
    }
}

/// The checks that each authored skill matches its compatibility mirror, or one
/// failed check when the skills could not be listed.
pub open spec fn skill_mirror_views(paths: HarnessPaths, r: Result<Vec<MirrorProbe>, String>) -> Seq<
    (Seq<char>, bool, Seq<char>),
> {
    match r {
        Ok(ms) => mirror_check_views(paths, ms@),
        Err(e) => seq![("skills:authored"@, false, e@)],
    }
}

fn mirror_check(paths: &HarnessPaths, m: &MirrorProbe) -> (c: CheckResult)
    ensures
        check_view(c) == mirror_check_view(*paths, *m),
{
    let mut label = chars_of("skill-mirror:");
    extend_str(&mut label, m.skill.name.as_str());
    let mirrored = mirror_file(paths, &m.skill);
    match &m.authored {
        Ok(a) => match &m.mirror {
            Ok(b) => {
                let na = normalize_text(a.as_str());
                let nb = normalize_text(b.as_str());
                let same = str_eq(na.as_str(), nb.as_str());
                check(label, same, chars_of(mirrored.as_str()))
            },
            Err(e) => {
                let mut d = chars_of("Missing compatibility mirror ");
                extend_str(&mut d, mirrored.as_str());
                extend_str(&mut d, " (");
                extend_str(&mut d, e.as_str());
                extend_str(&mut d, ")");
                check(label, false, d)
            },
        },
        Err(e) => {
            let authored = authored_file(&m.skill);
            let mut d = chars_of("Failed to read authored skill ");
            extend_str(&mut d, authored.as_str());
            extend_str(&mut d, " (");
            extend_str(&mut d, e.as_str());
            extend_str(&mut d, ")");
            check(label, false, d)
        },
    }
}

/// The checks that each authored skill matches its compatibility mirror.
pub fn skill_mirror_checks(paths: &HarnessPaths, mirrors: &Result<Vec<MirrorProbe>, String>) -> (r: Vec<CheckResult>)
    ensures
        checks_view(r@) == skill_mirror_views(*paths, *mirrors),
{
    let mut out: Vec<CheckResult> = Vec::new();
    match mirrors {
        Err(e) => {
            push_check(&mut out, check(chars_of("skills:authored"), false, chars_of(e.as_str())));
            assert(checks_view(out@) =~= skill_mirror_views(*paths, *mirrors));
        },
        Ok(ms) => {
            let mut i: usize = 0;
            assert(checks_view(out@) =~= mirror_check_views(*paths, ms@.take(0)));
            while i < ms.len()
                invariant
                    i <= ms@.len(),
                    checks_view(out@) == mirror_check_views(*paths, ms@.take(i as int)),
                decreases ms@.len() - i,
            {
                push_check(&mut out, mirror_check(paths, &ms[i]));
                assert(ms@.take(i + 1).drop_last() =~= ms@.take(i as int));
                i += 1;
            }
            assert(ms@.take(ms@.len() as int) =~= ms@);
        },
    }
    out
}

/// A catalog plugin with what the file system says of it.
#[derive(Debug)]
pub struct PluginProbe {
    pub plugin: MarketplacePlugin,
    pub dir_exists: bool,
    pub skills_dir_exists: bool,
    /// How many skills its skills directory holds, or why they could not be listed.
    pub skill_count: Result<usize, String>,
}

pub open spec fn plugin_check_views(paths: HarnessPaths, p: PluginProbe) -> Seq<(Seq<char>, bool, Seq<char>)> {
    let dir = path_joined(paths.repo_root@, p.plugin.path@);
    let skills = path_joined(dir, "skills"@);
    if !p.plugin.enabled {
        seq![]
    } else {
        seq![
            ("plugin:"@ + p.plugin.name@ + ":path"@, p.dir_exists, dir),
            (
                "plugin:"@ + p.plugin.name@ + ":skills"@,
                if p.skills_dir_exists {
                    p.skill_count is Ok
                } else {
                    true
                },
                if p.skills_dir_exists {
                    match p.skill_count {
                        Ok(n) => decimal(n as nat) + " skill(s) in "@ + skills,
                        Err(e) => e@,
                    }
                } else {
                    "No plugin-local skills under "@ + skills
                },
            ),
        ]
    }
}

pub open spec fn plugins_check_views(paths: HarnessPaths, ps: Seq<PluginProbe>) -> Seq<
    (Seq<char>, bool, Seq<char>),
>
    decreases ps.len(),
{
    if ps.len() == 0 {
        seq![]
    } else {
        plugins_check_views(paths, ps.drop_last()) + plugin_check_views(paths, ps.last())
    }
}

/// For each enabled plugin of the catalog, a check of its directory and one of its
/// skills; or one failed check when the catalog could not be loaded.
pub open spec fn plugin_catalog_views(paths: HarnessPaths, r: Result<Vec<PluginProbe>, String>) -> Seq<
    (Seq<char>, bool, Seq<char>),
> {
    match r {
        Ok(ps) => plugins_check_views(paths, ps@),
        Err(e) => seq![("plugins:catalog"@, false, e@)],
    }
}

fn plugin_checks(out: &mut Vec<CheckResult>, paths: &HarnessPaths, p: &PluginProbe)
    ensures
        checks_view(final(out)@) == checks_view(old(out)@) + plugin_check_views(*paths, *p),
{
    let ghost start = checks_view(out@);
    if !p.plugin.enabled {
        assert(checks_view(out@) =~= start + plugin_check_views(*paths, *p));
        return;
    }
    let dir = plugin_dir(paths, &p.plugin);
    let skills = path_join(dir.as_str(), "skills");
    let mut label = chars_of("plugin:");
    extend_str(&mut label, p.plugin.name.as_str());
    extend_str(&mut label, ":path");
    push_check(out, check(label, p.dir_exists, chars_of(dir.as_str())));
    let mut label2 = chars_of("plugin:");
    extend_str(&mut label2, p.plugin.name.as_str());
    extend_str(&mut label2, ":skills");
    let (ok, detail) = if p.skills_dir_exists {
        match &p.skill_count {
            Ok(n) => {
                let mut d = decimal_vec(*n as u64);
                extend_str(&mut d, " skill(s) in ");
                extend_str(&mut d, skills.as_str());
                (true, d)
            },
            Err(e) => (false, chars_of(e.as_str())),
        }
    } else {
        let mut d = chars_of("No plugin-local skills under ");
        extend_str(&mut d, skills.as_str());
        (true, d)
    };
    push_check(out, check(label2, ok, detail));
    assert(checks_view(out@) =~= start + plugin_check_views(*paths, *p));
}

/// For each enabled plugin, a check of its directory and one of its skills.
pub fn plugin_catalog_checks(paths: &HarnessPaths, catalog: &Result<Vec<PluginProbe>, String>) -> (r: Vec<CheckResult>)
    ensures
        checks_view(r@) == plugin_catalog_views(*paths, *catalog),
{
    let mut out: Vec<CheckResult> = Vec::new();
    match catalog {
        Err(e) => {
            push_check(&mut out, check(chars_of("plugins:catalog"), false, chars_of(e.as_str())));
            assert(checks_view(out@) =~= plugin_catalog_views(*paths, *catalog));
        },
        Ok(ps) => {
            let mut i: usize = 0;
            assert(checks_view(out@) =~= plugins_check_views(*paths, ps@.take(0)));
            while i < ps.len()
                invariant
                    i <= ps@.len(),
                    checks_view(out@) == plugins_check_views(*paths, ps@.take(i as int)),
                decreases ps@.len() - i,
            {
                plugin_checks(&mut out, paths, &ps[i]);
                assert(ps@.take(i + 1).drop_last() =~= ps@.take(i as int));
                i += 1;
            }
            assert(ps@.take(ps@.len() as int) =~= ps@);
        },
    }
    out
}

/// What the file system and a launch attempt say about a provider.
#[derive(Debug)]
pub struct ProviderProbe {
    pub entrypoint_is_file: bool,
    pub profile_is_file: bool,
    /// The launch command line, or why no launch plan could be built.
    pub launcher: Result<String, String>,
}

/// The profile file of a provider.
pub fn profile_path_of(paths: &HarnessPaths, provider: &ProviderSpec) -> (r: String)
    ensures
        r@ == path_joined(paths.providers_dir@, provider.name@ + ".json"@),
{
    let mut name = chars_of(provider.name.as_str());
    extend_str(&mut name, ".json");
    let name_s = string_of(&name);
    path_join(paths.providers_dir.as_str(), name_s.as_str())
}

pub open spec fn provider_check_views(paths: HarnessPaths, provider: ProviderSpec, p: ProviderProbe) -> Seq<
    (Seq<char>, bool, Seq<char>),
> {
    let prefix = "provider:"@ + provider.name@;
    seq![
        (
            prefix + ":entrypoint"@,
            p.entrypoint_is_file,
            path_joined(paths.repo_root@, provider.entrypoint_file@),
        ),
        (
            prefix + ":profile"@,
            p.profile_is_file,
            path_joined(paths.providers_dir@, provider.name@ + ".json"@),
        ),
        (
            prefix + ":launcher"@,
            p.launcher is Ok,
            match p.launcher {
                Ok(line) => line@,
                Err(e) => e@,
            },
        ),
    ]
}

fn provider_label(provider: &ProviderSpec, suffix: &str) -> (r: Vec<char>)
    ensures
        r@ == "provider:"@ + provider.name@ + suffix@,
{
    let mut l = chars_of("provider:");
    extend_str(&mut l, provider.name.as_str());
    extend_str(&mut l, suffix);
    l
}

/// The checks of a provider: its entrypoint, its profile and its launcher.
pub fn provider_checks(paths: &HarnessPaths, provider: &ProviderSpec, probe: &ProviderProbe) -> (r: Vec<CheckResult>)
    ensures
        checks_view(r@) == provider_check_views(*paths, *provider, *probe),
{
    let mut out: Vec<CheckResult> = Vec::new();
    let entry = paths.entrypoint_for(provider);
    push_check(&mut out, check(provider_label(provider, ":entrypoint"), probe.entrypoint_is_file, chars_of(entry.as_str())));
    let profile = profile_path_of(paths, provider);
    push_check(&mut out, check(provider_label(provider, ":profile"), probe.profile_is_file, chars_of(profile.as_str())));
    let (ok, detail) = match &probe.launcher {
        Ok(line) => (true, chars_of(line.as_str())),
        Err(e) => (false, chars_of(e.as_str())),
    };
    push_check(&mut out, check(provider_label(provider, ":launcher"), ok, detail));
    assert(checks_view(out@) =~= provider_check_views(*paths, *provider, *probe));
    out
}

/// Everything the harness checks look at, gathered from the file system.
#[derive(Debug)]
pub struct HarnessProbe {
    /// What each path of `checked_paths` is, in that order.
    pub paths: Vec<PathProbe>,
    /// How many plugins the catalog holds, or why it could not be loaded.
    pub marketplace: Result<usize, String>,
    pub mirrors: Result<Vec<MirrorProbe>, String>,
    pub plugins: Result<Vec<PluginProbe>, String>,
    /// A probe for each provider of `checked_providers`, in that order.
    pub providers: Vec<ProviderProbe>,
}

/// The providers a check run covers: the one selected, or all.
pub open spec fn checked_providers(all: Seq<ProviderSpec>, selected: Option<usize>) -> Seq<ProviderSpec> {
    match selected {
        Some(i) => seq![all[i as int]],
        None => all,
    }
}

pub open spec fn providers_views(paths: HarnessPaths, ps: Seq<ProviderSpec>, probes: Seq<ProviderProbe>) -> Seq<
    (Seq<char>, bool, Seq<char>),
>
    decreases ps.len(),
{
    if ps.len() == 0 {
        seq![]
    } else {
        providers_views(paths, ps.drop_last(), probes) + provider_check_views(
            paths,
            ps.last(),
            probes[ps.len() - 1],
        )
    }
}

pub open spec fn marketplace_view(r: Result<usize, String>) -> (Seq<char>, bool, Seq<char>) {
    (
        "marketplace_parse"@,
        r is Ok,
        match r {
            Ok(n) => "Loaded "@ + decimal(n as nat) + " plugin(s)"@,
            Err(e) => e@,
        },
    )
}

/// All harness checks: the paths, the catalog, the skill mirrors, the plugins and
/// the providers, in that order.
pub open spec fn run_checks_view(
    paths: HarnessPaths,
    all: Seq<ProviderSpec>,
    extra: Seq<(String, String)>,
    selected: Option<usize>,
    probe: HarnessProbe,
) -> Seq<(Seq<char>, bool, Seq<char>)> {
    path_check_views(path_table(paths, all, extra), probe.paths@) + seq![
        marketplace_view(probe.marketplace),
    ] + skill_mirror_views(paths, probe.mirrors) + plugin_catalog_views(paths, probe.plugins)
        + providers_views(paths, checked_providers(all, selected), probe.providers@)
}

fn append_checks(out: &mut Vec<CheckResult>, more: Vec<CheckResult>)
    ensures
        checks_view(final(out)@) == checks_view(old(out)@) + checks_view(more@),
{
    let ghost start = checks_view(out@);
    let mut i: usize = 0;
    while i < more.len()
        invariant
            i <= more@.len(),
            checks_view(out@) == start + checks_view(more@.take(i as int)),
        decreases more@.len() - i,
    {
        let c = CheckResult { label: more[i].label.clone(), ok: more[i].ok, detail: more[i].detail.clone() };
        push_check(out, c);
        assert(checks_view(more@.take(i + 1)) =~= checks_view(more@.take(i as int)).push(check_view(c)));
        i += 1;
    }
    assert(more@.take(more@.len() as int) =~= more@);
}

/// Runs the harness checks over what was probed. `all` are the known providers (each
/// has its entrypoint checked), `extra` the further files to check, and `selected` the
/// provider whose launch is checked (all of them when none is).
pub fn run_checks(
    paths: &HarnessPaths,
    all: &[ProviderSpec],
    extra: &[(String, String)],
    selected: Option<usize>,
    probe: &HarnessProbe,
) -> (r: Vec<CheckResult>)
    requires
        probe.paths@.len() == path_table(*paths, all@, extra@).len(),
        selected is Some ==> selected->0 < all@.len(),
        probe.providers@.len() == checked_providers(all@, selected).len(),
    ensures
        checks_view(r@) == run_checks_view(*paths, all@, extra@, selected, *probe),
{
    let mut out: Vec<CheckResult> = Vec::new();
    let table = checked_paths(paths, all, extra);
    let ghost t = path_table(*paths, all@, extra@);
    let mut i: usize = 0;
    assert(t.take(0) =~= Seq::<(Seq<char>, Seq<char>, bool)>::empty());
    assert(checks_view(out@) =~= path_check_views(t.take(0), probe.paths@));
    while i < table.len()
        invariant
            i <= table@.len(),
            table@.len() == t.len(),
            t == path_table(*paths, all@, extra@),
            table@.map_values(|e: (String, String, bool)| (e.0@, e.1@, e.2)) == t,
            probe.paths@.len() == t.len(),
            checks_view(out@) == path_check_views(t.take(i as int), probe.paths@),
        decreases table@.len() - i,
    {
        let row = &table[i];
        assert(t[i as int] == (row.0@, row.1@, row.2));
        push_check(&mut out, path_check(row.0.as_str(), row.1.as_str(), row.2, probe.paths[i]));
        assert(t.take(i + 1).drop_last() =~= t.take(i as int));
        i += 1;
    }
    assert(t.take(t.len() as int) =~= t);
    let detail = match &probe.marketplace {
        Ok(n) => {
            let mut d = chars_of("Loaded ");
            let digits = decimal_vec(*n as u64);
            extend_chars(&mut d, &digits);
            extend_str(&mut d, " plugin(s)");
            d
        },
        Err(e) => chars_of(e.as_str()),
    };
    push_check(&mut out, check(chars_of("marketplace_parse"), probe.marketplace.is_ok(), detail));
    append_checks(&mut out, skill_mirror_checks(paths, &probe.mirrors));
    append_checks(&mut out, plugin_catalog_checks(paths, &probe.plugins));
    let ghost before_providers = checks_view(out@);
    let ghost provs = checked_providers(all@, selected);
    let mut k: usize = 0;
    assert(checks_view(out@) =~= before_providers + providers_views(*paths, provs.take(0), probe.providers@));
    let count: usize = match selected {
        Some(_) => 1,
        None => all.len(),
    };
    while k < count
        invariant
            k <= count,
            count == provs.len(),
            provs == checked_providers(all@, selected),
            selected is Some ==> selected->0 < all@.len(),
            probe.providers@.len() == provs.len(),
            checks_view(out@) == before_providers + providers_views(*paths, provs.take(k as int), probe.providers@),
        decreases count - k,
    {
        let spec_ref: &ProviderSpec = match selected {
            Some(s) => &all[s],
            None => &all[k],
        };
        assert(*spec_ref == provs[k as int]);
        append_checks(&mut out, provider_checks(paths, spec_ref, &probe.providers[k]));
        assert(provs.take(k + 1).drop_last() =~= provs.take(k as int));
        k += 1;
    }
    assert(provs.take(provs.len() as int) =~= provs);
    assert(checks_view(out@) =~= run_checks_view(*paths, all@, extra@, selected, *probe));
    out
}

} // verus!
