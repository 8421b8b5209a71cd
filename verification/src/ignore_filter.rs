use vstd::prelude::*;

verus! {

/// The compiled `.syncignore` rule set is kept as the outside matcher value.
/// The library never looks inside it: the patterns it holds are named by
/// `ignore_rules`, and the verdict of a match by `ignore_match`.
#[verifier::external_type_specification]
#[verifier::external_body]
pub struct ExGitignore(ignore::gitignore::Gitignore);

/// What a compiled rule set holds: its ordered patterns together with the
/// root they are anchored at, as an opaque sequence of strings.
pub uninterp spec fn ignore_rules(g: ignore::gitignore::Gitignore) -> Seq<Seq<char>>;

/// The verdict of gitignore-style matching under a rule set's contents:
/// true exactly when the path, with its directory flag, is to be ignored.
pub uninterp spec fn ignore_match(rules: Seq<Seq<char>>, path: Seq<char>, is_dir: bool) -> bool;

/// Relies on ignore::gitignore::Gitignore::matched: the verdict is a pure
/// function of what the rule set holds (patterns and root), the path and
/// the directory flag; the path is ignored exactly when the
/// highest-precedence matching pattern is an ignore (not a whitelist)
/// pattern.
#[verifier::external_body]
pub(crate) fn is_ignored(g: &ignore::gitignore::Gitignore, path: &String, is_dir: bool) -> (r: bool)
    ensures
        r == ignore_match(ignore_rules(*g), path@, is_dir),
{
    match g.matched(std::path::Path::new(path.as_str()), is_dir) {
        ignore::Match::None => false,
        ignore::Match::Ignore(_) => true,
        ignore::Match::Whitelist(_) => false,
    }
}

} // verus!
