//! The git commands Curio runs: their arguments, and when staged work is committed.
use vstd::prelude::*;

use crate::harness::strings_view;
use crate::text::{chars_of, extend_str, string_of};

verus! {

fn strs_to_strings(parts: &[&str]) -> (r: Vec<String>)
    ensures
        strings_view(r@) == parts@.map_values(|s: &str| s@),
{
    let mut r: Vec<String> = Vec::new();
    let mut i: usize = 0;
    while i < parts.len()
        invariant
            i <= parts@.len(),
            strings_view(r@) == parts@.map_values(|s: &str| s@).take(i as int),
        decreases parts@.len() - i,
    {
        let s = String::from_str(parts[i]);
        let ghost before = r@;
        r.push(s);
        assert(strings_view(r@) =~= strings_view(before).push(s@));
        assert(parts@.map_values(|s: &str| s@).take(i + 1) =~= parts@.map_values(|s: &str| s@).take(
            i as int,
        ).push(parts@[i as int]@));
        i += 1;
    }
    assert(parts@.map_values(|s: &str| s@).take(parts@.len() as int) =~= parts@.map_values(
        |s: &str| s@,
    ));
    r
}

/// `git add -- <path>`.
pub fn add_args(path: &str) -> (r: Vec<String>)
    ensures
        strings_view(r@) == seq!["add"@, "--"@, path@],
{
    let r = strs_to_strings(&["add", "--", path]);
    assert(strings_view(r@) =~= seq!["add"@, "--"@, path@]);
    r
}

/// `git commit -m <message>`.
pub fn commit_args(message: &str) -> (r: Vec<String>)
    ensures
        strings_view(r@) == seq!["commit"@, "-m"@, message@],
{
    let r = strs_to_strings(&["commit", "-m", message]);
    assert(strings_view(r@) =~= seq!["commit"@, "-m"@, message@]);
    r
}

/// `git -c user.name=<name> -c user.email=<email> commit -m <message>`.
pub fn commit_with_identity_args(message: &str, user_name: &str, user_email: &str) -> (r: Vec<String>)
    ensures
        strings_view(r@) == seq![
            "-c"@,
            "user.name="@ + user_name@,
            "-c"@,
            "user.email="@ + user_email@,
            "commit"@,
            "-m"@,
            message@,
        ],
{
    let mut name = chars_of("user.name=");
    extend_str(&mut name, user_name);
    let mut email = chars_of("user.email=");
    extend_str(&mut email, user_email);
    let name_s = string_of(&name);
    let email_s = string_of(&email);
    let r = strs_to_strings(&["-c", name_s.as_str(), "-c", email_s.as_str(), "commit", "-m", message]);
    assert(strings_view(r@) =~= seq![
        "-c"@,
        "user.name="@ + user_name@,
        "-c"@,
        "user.email="@ + user_email@,
        "commit"@,
        "-m"@,
        message@,
    ]);
    r
}

/// Staged work is committed only when the workspace commits automatically and there
/// is something staged.
pub fn should_commit(auto_commit: bool, has_staged: bool) -> (b: bool)
    ensures
        b == (auto_commit && has_staged),
{
    auto_commit && has_staged
}

} // verus!
