//! `curio init`: whether a reset may go ahead, which scaffold files are (re)written,
//! what they hold when nothing better exists, and which tree directories are made.
use vstd::prelude::*;

use crate::harness::strings_view;
use crate::text::{chars_of, extend_str, string_of};

verus! {

/// The message that refuses a reset without its confirmation.
pub open spec fn reset_refusal() -> Seq<char> {
    "Refusing destructive init reset without --confirm-nuke. Re-run with `curio init --reset --confirm-nuke`."@
}

/// A reset goes ahead only with `--confirm-nuke`.
pub fn init_guard(reset: bool, confirm_nuke: bool) -> (r: Result<(), String>)
    ensures
        r is Ok <==> (!reset || confirm_nuke),
        r matches Err(m) ==> m@ == reset_refusal(),
{
    if reset && !confirm_nuke {
        Err(
            String::from_str(
                "Refusing destructive init reset without --confirm-nuke. Re-run with `curio init --reset --confirm-nuke`.",
            ),
        )
    } else {
        Ok(())
    }
}

/// A scaffold file is written when it is missing, or on a reset.
pub fn should_seed(present: bool, reset: bool) -> (b: bool)
    ensures
        b == (!present || reset),
{
    !present || reset
}

/// The NORTHSTAR written when the repository has none to copy.
pub fn default_northstar() -> (r: &'static str)
    ensures
        r@ == "# NORTHSTAR\n\n## Name\n\nCurio Workspace\n\n## High-Level Description\n\nCurio is an enterprise intelligence workspace.\n\n## Charter\n\nUse this file to capture the purpose, vision, focus, and scope of this Curio instance.\n"@,
{
    "# NORTHSTAR\n\n## Name\n\nCurio Workspace\n\n## High-Level Description\n\nCurio is an enterprise intelligence workspace.\n\n## Charter\n\nUse this file to capture the purpose, vision, focus, and scope of this Curio instance.\n"
}

/// The readme written when the repository has none to copy.
pub fn default_readme() -> (r: &'static str)
    ensures
        r@ == "# CURIO Readme\n\nCurio is a Git-native enterprise intelligence workspace.\n"@,
{
    "# CURIO Readme\n\nCurio is a Git-native enterprise intelligence workspace.\n"
}

pub open spec fn config_defaults() -> Seq<char> {
    "heal:\n  confidence_threshold: 0.85\n  show_auto_heal_callout: true\n  auto_heal_label: \"curio:auto-healed\"\n  max_pages_per_run: 20\n  stale_threshold_days: 240\n  overlap_threshold: 0.6\n  external_search_enabled: true\n  min_body_words: 50\n\nslack:\n  enabled: false\n  workspace_id: null\n  app_id: null\n  admin_user_ids: []\n  intake_channels: []\n  notification_channels: []\n  allowed_trigger_channels: []\n  job_provider_default: \"gemini\"\n  require_confirmation_for_actions: true\n"@
}

/// The seeded workspace configuration: a heading, the taxonomy as saved, then the
/// default heal and Slack settings.
pub fn seeded_config_yaml(taxonomy_yaml: &str) -> (r: String)
    ensures
        r@ == "# Curio Workspace Configuration\n\n"@ + taxonomy_yaml@ + config_defaults(),
{
    let mut v = chars_of("# Curio Workspace Configuration\n\n");
    extend_str(&mut v, taxonomy_yaml);
    extend_str(
        &mut v,
        "heal:\n  confidence_threshold: 0.85\n  show_auto_heal_callout: true\n  auto_heal_label: \"curio:auto-healed\"\n  max_pages_per_run: 20\n  stale_threshold_days: 240\n  overlap_threshold: 0.6\n  external_search_enabled: true\n  min_body_words: 50\n\nslack:\n  enabled: false\n  workspace_id: null\n  app_id: null\n  admin_user_ids: []\n  intake_channels: []\n  notification_channels: []\n  allowed_trigger_channels: []\n  job_provider_default: \"gemini\"\n  require_confirmation_for_actions: true\n",
    );
    string_of(&v)
}

/// The top-level trees used when the blueprint names none.
pub open spec fn default_tree_slugs() -> Seq<Seq<char>> {
    seq!["account-tree"@, "product-tree"@, "topic-tree"@]
}

pub open spec fn missing_of(slugs: Seq<Seq<char>>, present: Seq<bool>) -> Seq<Seq<char>>
    decreases slugs.len(),
{
    if slugs.len() == 0 {
        seq![]
    } else {
        missing_of(slugs.drop_last(), present.take(slugs.len() - 1)) + if present[slugs.len() - 1] {
            Seq::<Seq<char>>::empty()
        } else {
            seq![slugs.last()]
        }
    }
}

/// The tree slugs init lays out: the blueprint's, else the defaults.
pub open spec fn init_tree_slugs(blueprint: Seq<Seq<char>>) -> Seq<Seq<char>> {
    if blueprint.len() == 0 {
        default_tree_slugs()
    } else {
        blueprint
    }
}

/// The slugs init lays out (the blueprint's top-level trees, else the defaults).
pub fn init_tree_slugs_exec(blueprint: &[String]) -> (r: Vec<String>)
    ensures
        strings_view(r@) == init_tree_slugs(strings_view(blueprint@)),
{
    let mut out: Vec<String> = Vec::new();
    if blueprint.len() == 0 {
        out.push(String::from_str("account-tree"));
        out.push(String::from_str("product-tree"));
        out.push(String::from_str("topic-tree"));
        assert(strings_view(out@) =~= default_tree_slugs());
        return out;
    }
    let mut i: usize = 0;
    while i < blueprint.len()
        invariant
            i <= blueprint@.len(),
            strings_view(out@) == strings_view(blueprint@).take(i as int),
        decreases blueprint@.len() - i,
    {
        let ghost before = out@;
        let s = String::from_str(blueprint[i].as_str());
        out.push(s);
        assert(strings_view(out@) =~= strings_view(before).push(s@));
        assert(strings_view(blueprint@).take(i + 1) =~= strings_view(blueprint@).take(i as int).push(
            s@,
        ));
        i += 1;
    }
    assert(strings_view(blueprint@).take(blueprint@.len() as int) =~= strings_view(blueprint@));
    out
}

/// The tree directories init creates: those of `slugs` whose directory does not
/// exist yet (`present`, one flag per slug).
pub fn trees_to_create(slugs: &[String], present: &[bool]) -> (r: Vec<String>)
    requires
        slugs@.len() == present@.len(),
    ensures
        strings_view(r@) == missing_of(strings_view(slugs@), present@),
{
    let ghost sv = strings_view(slugs@);
    let mut out: Vec<String> = Vec::new();
    let mut i: usize = 0;
    while i < slugs.len()
        invariant
            i <= slugs@.len(),
            slugs@.len() == present@.len(),
            sv == strings_view(slugs@),
            strings_view(out@) == missing_of(sv.take(i as int), present@.take(i as int)),
        decreases slugs@.len() - i,
    {
        assert(sv.take(i + 1).drop_last() =~= sv.take(i as int));
        assert(present@.take(i + 1).take(i as int) =~= present@.take(i as int));
        assert(present@.take(i + 1)[i as int] == present@[i as int]);
        if !present[i] {
            let ghost before = out@;
            let s = String::from_str(slugs[i].as_str());
            out.push(s);
            assert(strings_view(out@) =~= strings_view(before).push(s@));
        }
        i += 1;
    }
    assert(sv.take(slugs@.len() as int) =~= sv);
    assert(present@.take(slugs@.len() as int) =~= present@);
    out
}

// ─── The whole scaffold ─────────────────────────────────────────────────────

/// What init finds in the workspace before it writes anything.
#[derive(Clone, Debug)]
pub struct InitFacts {
    pub northstar_exists: bool,
    /// The repository (the wiki's parent) has a `NORTHSTAR.md` to copy.
    pub repo_northstar_exists: bool,
    pub legacy_northstar_exists: bool,
    pub config_yaml_exists: bool,
    /// The top-level tree slugs of the existing workspace configuration.
    pub taxonomy_slugs: Vec<String>,
    /// The directories already under `published/`.
    pub published_dirs: Vec<String>,
    pub readme_exists: bool,
    /// The repository has a `README.md` to copy.
    pub repo_readme_exists: bool,
    pub legacy_settings_exists: bool,
    /// Whether `intake/`, `staged/` and `review/` already hold a `.gitkeep`.
    pub intake_gitkeep: bool,
    pub staged_gitkeep: bool,
    pub review_gitkeep: bool,
}

#[derive(Clone, Copy, Debug, PartialEq, Eq, Structural)]
pub enum InitOp {
    CreateDir,
    /// Copy the repository file named in `text` to `path`.
    CopyFromRepo,
    Write,
    Remove,
    /// Save the empty taxonomy to `path` and rewrite it as [`seeded_config_yaml`].
    SeedConfig,
    CreateTreeDir,
    RebuildIndexes,
    AppendLog,
}

/// One step of init: what to do, the path under the wiki it concerns, and its text.
#[derive(Clone, Debug)]
pub struct InitAction {
    pub op: InitOp,
    pub path: String,
    pub text: String,
}

pub open spec fn action_view(a: InitAction) -> (InitOp, Seq<char>, Seq<char>) {
    (a.op, a.path@, a.text@)
}

pub open spec fn actions_view(v: Seq<InitAction>) -> Seq<(InitOp, Seq<char>, Seq<char>)> {
    v.map_values(|a: InitAction| action_view(a))
}

pub open spec fn step(op: InitOp, path: Seq<char>, text: Seq<char>) -> Seq<(InitOp, Seq<char>, Seq<char>)> {
    seq![(op, path, text)]
}

pub open spec fn none() -> Seq<(InitOp, Seq<char>, Seq<char>)> {
    Seq::empty()
}

pub open spec fn default_northstar_text() -> Seq<char> {
    "# NORTHSTAR\n\n## Name\n\nCurio Workspace\n\n## High-Level Description\n\nCurio is an enterprise intelligence workspace.\n\n## Charter\n\nUse this file to capture the purpose, vision, focus, and scope of this Curio instance.\n"@
}

pub open spec fn default_readme_text() -> Seq<char> {
    "# CURIO Readme\n\nCurio is a Git-native enterprise intelligence workspace.\n"@
}

pub open spec fn tree_steps(slugs: Seq<Seq<char>>, present: Seq<Seq<char>>) -> Seq<(InitOp, Seq<char>, Seq<char>)>
    decreases slugs.len(),
{
    if slugs.len() == 0 {
        seq![]
    } else {
        tree_steps(slugs.drop_last(), present) + if present.contains(slugs.last()) {
            none()
        } else {
            step(InitOp::CreateTreeDir, "published/"@ + slugs.last(), slugs.last())
        }
    }
}

pub open spec fn gitkeep_step(dir: Seq<char>, present: bool) -> Seq<(InitOp, Seq<char>, Seq<char>)> {
    if present {
        none()
    } else {
        step(InitOp::Write, dir + "/.gitkeep"@, ""@)
    }
}

/// What `curio init` does, in order: refuse an unconfirmed reset; nothing on a dry
/// run; else make the lane directories, seed NORTHSTAR (copied from the repository
/// when it has one), drop the legacy NORTHSTAR on a reset, seed the configuration,
/// make each top-level tree directory that is missing (the defaults when the
/// configuration names no tree, as a freshly seeded one does), seed the readme (copied
/// likewise), drop the legacy settings on a reset, rebuild the indexes, add the
/// missing `.gitkeep` files, and log the run. Seeding writes a file that is missing,
/// or any on a reset.
pub open spec fn init_plan_of(f: InitFacts, reset: bool, confirm_nuke: bool, dry_run: bool) -> Result<
    Seq<(InitOp, Seq<char>, Seq<char>)>,
    Seq<char>,
> {
    if reset && !confirm_nuke {
        Err(reset_refusal())
    } else if dry_run {
        Ok(seq![])
    } else {
        let seed_config = !f.config_yaml_exists || reset;
        Ok(
            step(InitOp::CreateDir, "_admin"@, ""@) + step(InitOp::CreateDir, "intake"@, ""@)
                + step(InitOp::CreateDir, "staged"@, ""@) + step(InitOp::CreateDir, "review"@, ""@)
                + step(InitOp::CreateDir, "published"@, ""@) + (if !f.northstar_exists || reset {
                if f.repo_northstar_exists {
                    step(InitOp::CopyFromRepo, "NORTHSTAR.md"@, "NORTHSTAR.md"@)
                } else {
                    step(InitOp::Write, "NORTHSTAR.md"@, default_northstar_text())
                }
            } else {
                none()
            }) + (if reset && f.legacy_northstar_exists {
                step(InitOp::Remove, "_config/northstar.md"@, ""@)
            } else {
                none()
            }) + (if seed_config {
                step(InitOp::SeedConfig, "_admin/config.yaml"@, ""@)
            } else {
                none()
            }) + tree_steps(
                init_tree_slugs(
                    if seed_config {
                        Seq::<Seq<char>>::empty()
                    } else {
                        strings_view(f.taxonomy_slugs@)
                    },
                ),
                strings_view(f.published_dirs@),
            ) + (if !f.readme_exists || reset {
                if f.repo_readme_exists {
                    step(InitOp::CopyFromRepo, "_admin/readme.md"@, "README.md"@)
                } else {
                    step(InitOp::Write, "_admin/readme.md"@, default_readme_text())
                }
            } else {
                none()
            }) + (if reset && f.legacy_settings_exists {
                step(InitOp::Remove, "_config/settings.yaml"@, ""@)
            } else {
                none()
            }) + step(InitOp::RebuildIndexes, ""@, ""@) + gitkeep_step("intake"@, f.intake_gitkeep)
                + gitkeep_step("staged"@, f.staged_gitkeep) + gitkeep_step("review"@, f.review_gitkeep) + step(
                InitOp::AppendLog,
                ""@,
                "init: wiki scaffold created"@,
            ),
        )
    }
}

fn push_action(out: &mut Vec<InitAction>, op: InitOp, path: &str, text: &str)
    ensures
        actions_view(final(out)@) == actions_view(old(out)@) + step(op, path@, text@),
{
    let ghost before = out@;
    out.push(InitAction { op, path: String::from_str(path), text: String::from_str(text) });
    assert(actions_view(out@) =~= actions_view(before) + step(op, path@, text@));
}

fn has_name(v: &[String], s: &str) -> (b: bool)
    ensures
        b == strings_view(v@).contains(s@),
{
    let mut i: usize = 0;
    while i < v.len()
        invariant
            i <= v@.len(),
            forall|k: int| 0 <= k < i ==> v@[k]@ != s@,
        decreases v@.len() - i,
    {
        if crate::text::str_eq(v[i].as_str(), s) {
            assert(strings_view(v@)[i as int] == s@);
            return true;
        }
        i += 1;
    }
    assert forall|k: int| 0 <= k < strings_view(v@).len() implies strings_view(v@)[k] != s@ by {}
    false
}

fn push_tree_steps(out: &mut Vec<InitAction>, slugs: &Vec<String>, present: &[String])
    ensures
        actions_view(final(out)@) == actions_view(old(out)@) + tree_steps(
            strings_view(slugs@),
            strings_view(present@),
        ),
{
    let ghost start = actions_view(out@);
    let ghost sv = strings_view(slugs@);
    let ghost pv = strings_view(present@);
    let mut i: usize = 0;
    assert(sv.take(0) =~= Seq::<Seq<char>>::empty());
    assert(start + tree_steps(sv.take(0), pv) =~= start);
    while i < slugs.len()
        invariant
            i <= slugs@.len(),
            sv == strings_view(slugs@),
            pv == strings_view(present@),
            actions_view(out@) == start + tree_steps(sv.take(i as int), pv),
        decreases slugs@.len() - i,
    {
        assert(sv.take(i + 1).drop_last() =~= sv.take(i as int));
        assert(sv.take(i + 1).last() == slugs@[i as int]@);
        let slug = slugs[i].as_str();
        if !has_name(present, slug) {
            let mut p = chars_of("published/");
            extend_str(&mut p, slug);
            let ps = string_of(&p);
            push_action(out, InitOp::CreateTreeDir, ps.as_str(), slug);
        }
        assert(actions_view(out@) =~= start + tree_steps(sv.take(i + 1), pv));
        i += 1;
    }
    assert(sv.take(slugs@.len() as int) =~= sv);
}

/// The steps of `curio init` (see [`init_plan_of`]).
pub fn init_plan(f: &InitFacts, reset: bool, confirm_nuke: bool, dry_run: bool) -> (r: Result<Vec<InitAction>, String>)
    ensures
        match r {
            Ok(v) => init_plan_of(*f, reset, confirm_nuke, dry_run) == Ok::<_, Seq<char>>(actions_view(v@)),
            Err(m) => init_plan_of(*f, reset, confirm_nuke, dry_run) == Err::<Seq<(InitOp, Seq<char>, Seq<char>)>, _>(m@),
        },
{
    match init_guard(reset, confirm_nuke) {
        Err(m) => return Err(m),
        Ok(()) => {},
    }
    let mut out: Vec<InitAction> = Vec::new();
    assert(actions_view(out@) =~= Seq::<(InitOp, Seq<char>, Seq<char>)>::empty());
    proof {
        reveal_strlit("");
    }
    if dry_run {
        return Ok(out);
    }
    push_action(&mut out, InitOp::CreateDir, "_admin", "");
    push_action(&mut out, InitOp::CreateDir, "intake", "");
    push_action(&mut out, InitOp::CreateDir, "staged", "");
    push_action(&mut out, InitOp::CreateDir, "review", "");
    push_action(&mut out, InitOp::CreateDir, "published", "");
    let ghost a = actions_view(out@);
    assert(a =~= step(InitOp::CreateDir, "_admin"@, ""@) + step(InitOp::CreateDir, "intake"@, ""@)
        + step(InitOp::CreateDir, "staged"@, ""@) + step(InitOp::CreateDir, "review"@, ""@)
        + step(InitOp::CreateDir, "published"@, ""@)) by {
        reveal_strlit("");
    }
    if should_seed(f.northstar_exists, reset) {
        if f.repo_northstar_exists {
            push_action(&mut out, InitOp::CopyFromRepo, "NORTHSTAR.md", "NORTHSTAR.md");
        } else {
            push_action(&mut out, InitOp::Write, "NORTHSTAR.md", default_northstar());
        }
    }
    let ghost b = actions_view(out@);
    assert(b =~= a + (if !f.northstar_exists || reset {
        if f.repo_northstar_exists {
            step(InitOp::CopyFromRepo, "NORTHSTAR.md"@, "NORTHSTAR.md"@)
        } else {
            step(InitOp::Write, "NORTHSTAR.md"@, default_northstar_text())
        }
    } else {
        none()
    }));
    if reset && f.legacy_northstar_exists {
        push_action(&mut out, InitOp::Remove, "_config/northstar.md", "");
    }
    let ghost c = actions_view(out@);
    assert(c =~= b + (if reset && f.legacy_northstar_exists {
        step(InitOp::Remove, "_config/northstar.md"@, ""@)
    } else {
        none()
    })) by {
        reveal_strlit("");
    }
    let seed_config = should_seed(f.config_yaml_exists, reset);
    if seed_config {
        push_action(&mut out, InitOp::SeedConfig, "_admin/config.yaml", "");
    }
    let ghost d = actions_view(out@);
    assert(d =~= c + (if seed_config {
        step(InitOp::SeedConfig, "_admin/config.yaml"@, ""@)
    } else {
        none()
    })) by {
        reveal_strlit("");
    }
    let no_slugs: Vec<String> = Vec::new();
    let slugs = if seed_config {
        assert(strings_view(no_slugs@) =~= Seq::<Seq<char>>::empty());
        init_tree_slugs_exec(no_slugs.as_slice())
    } else {
        init_tree_slugs_exec(f.taxonomy_slugs.as_slice())
    };
    push_tree_steps(&mut out, &slugs, f.published_dirs.as_slice());
    let ghost e = actions_view(out@);
    assert(e == d + tree_steps(
        init_tree_slugs(
            if seed_config {
                Seq::<Seq<char>>::empty()
            } else {
                strings_view(f.taxonomy_slugs@)
            },
        ),
        strings_view(f.published_dirs@),
    ));
    if should_seed(f.readme_exists, reset) {
        if f.repo_readme_exists {
            push_action(&mut out, InitOp::CopyFromRepo, "_admin/readme.md", "README.md");
        } else {
            push_action(&mut out, InitOp::Write, "_admin/readme.md", default_readme());
        }
    }
    let ghost g = actions_view(out@);
    assert(g =~= e + (if !f.readme_exists || reset {
        if f.repo_readme_exists {
            step(InitOp::CopyFromRepo, "_admin/readme.md"@, "README.md"@)
        } else {
            step(InitOp::Write, "_admin/readme.md"@, default_readme_text())
        }
    } else {
        none()
    }));
    if reset && f.legacy_settings_exists {
        push_action(&mut out, InitOp::Remove, "_config/settings.yaml", "");
    }
    push_action(&mut out, InitOp::RebuildIndexes, "", "");
    let ghost h = actions_view(out@);
    assert(h =~= g + (if reset && f.legacy_settings_exists {
        step(InitOp::Remove, "_config/settings.yaml"@, ""@)
    } else {
        none()
    }) + step(InitOp::RebuildIndexes, ""@, ""@)) by {
        reveal_strlit("");
    }
    proof {
        reveal_strlit("intake/.gitkeep");
        reveal_strlit("staged/.gitkeep");
        reveal_strlit("review/.gitkeep");
        reveal_strlit("intake");
        reveal_strlit("staged");
        reveal_strlit("review");
        reveal_strlit("/.gitkeep");
        reveal_strlit("");
        assert("intake"@ + "/.gitkeep"@ =~= "intake/.gitkeep"@);
        assert("staged"@ + "/.gitkeep"@ =~= "staged/.gitkeep"@);
        assert("review"@ + "/.gitkeep"@ =~= "review/.gitkeep"@);
    }
    if !f.intake_gitkeep {
        push_action(&mut out, InitOp::Write, "intake/.gitkeep", "");
    }
    let ghost i1 = actions_view(out@);
    assert(i1 =~= h + gitkeep_step("intake"@, f.intake_gitkeep));
    if !f.staged_gitkeep {
        push_action(&mut out, InitOp::Write, "staged/.gitkeep", "");
    }
    let ghost i2 = actions_view(out@);
    assert(i2 =~= i1 + gitkeep_step("staged"@, f.staged_gitkeep));
    if !f.review_gitkeep {
        push_action(&mut out, InitOp::Write, "review/.gitkeep", "");
    }
    let ghost i3 = actions_view(out@);
    assert(i3 =~= i2 + gitkeep_step("review"@, f.review_gitkeep));
    push_action(&mut out, InitOp::AppendLog, "", "init: wiki scaffold created");
    assert(actions_view(out@) =~= init_plan_of(*f, reset, confirm_nuke, dry_run)->Ok_0);
    Ok(out)
}

} // verus!
