//! What is purged: the files that an IDE leaves in a tree, and the cache
//! of Maven for one group.

use crate::paths::join_path;
use crate::paths::path_join;
use crate::text::chars_of;
use crate::text::replace;
use crate::text::replaced;
use vstd::prelude::*;

verus! {

/// The patterns of the files and directories that an IDE leaves behind.
pub open spec fn ide_patterns() -> Seq<Seq<char>> {
    seq!["*.iml"@, "**/.idea"@, ".project"@, ".classpath"@, "**/.settings"@]
}

/// The patterns of the files and directories that an IDE leaves behind.
pub fn ide_file_patterns() -> (r: Vec<String>)
    ensures
        r.deep_view() == ide_patterns(),
{
    let mut patterns: Vec<String> = Vec::new();
    patterns.push("*.iml".to_owned());
    patterns.push("**/.idea".to_owned());
    patterns.push(".project".to_owned());
    patterns.push(".classpath".to_owned());
    patterns.push("**/.settings".to_owned());
    assert(patterns.deep_view() =~= ide_patterns());
    patterns
}

/// Whether any of the globs `patterns`, as `globset` reads them, matches
/// `path`; nothing where one of them is no glob. Paths are read by the
/// rules of the system that the crate is built for.
pub uninterp spec fn glob_match(patterns: Seq<Seq<char>>, path: Seq<char>) -> Option<bool>;

/// `globset::Glob::new` reads a pattern, `GlobSetBuilder::build` makes a set
/// of the patterns, and `GlobSet::is_match` tells whether any of them
/// matches the path.
#[verifier::external_body]
fn match_globs(patterns: &Vec<String>, path: &str) -> (r: Option<bool>)
    ensures
        r == glob_match(patterns.deep_view(), path@),
{
    let mut builder = globset::GlobSetBuilder::new();
    for pattern in patterns {
        builder.add(globset::Glob::new(pattern).ok()?);
    }
    Some(builder.build().ok()?.is_match(path))
}

/// Whether a file name marks a hidden entry: it begins with a dot and is
/// not the dot alone.
pub open spec fn hidden_name(name: Seq<char>) -> bool {
    name.len() > 1 && name[0] == '.'
}

/// Whether a file name marks a hidden entry.
pub fn is_hidden(file_name: &str) -> (r: bool)
    ensures
        r == hidden_name(file_name@),
{
    let chars = chars_of(file_name);
    chars.len() > 1 && chars[0] == '.'
}

/// What is done about one entry of the tree.
#[derive(Clone, Copy, Debug, PartialEq, Eq, Structural)]
pub struct PurgeStep {
    /// The file is to be removed.
    pub remove_file: bool,
    /// The directory is to be removed with all that is in it.
    pub remove_dir: bool,
    /// The walk does not go into the directory.
    pub skip_dir: bool,
}

/// What is done about an entry: one that an IDE has left is removed, unless
/// on a dry run, and a directory among them is not walked into; neither is
/// a hidden directory.
pub open spec fn purge_step_of(
    left_by_ide: bool,
    is_file: bool,
    is_dir: bool,
    hidden: bool,
    dry_run: bool,
) -> PurgeStep {
    if left_by_ide {
        PurgeStep {
            remove_file: !dry_run && is_file,
            remove_dir: !dry_run && !is_file && is_dir,
            skip_dir: is_dir,
        }
    } else {
        PurgeStep { remove_file: false, remove_dir: false, skip_dir: hidden && is_dir }
    }
}

/// Decides what is done about one entry of the tree, given whether its
/// path matches the patterns.
pub fn purge_step(left_by_ide: bool, is_file: bool, is_dir: bool, hidden: bool, dry_run: bool) -> (r:
    PurgeStep)
    ensures
        r == purge_step_of(left_by_ide, is_file, is_dir, hidden, dry_run),
{
    if left_by_ide {
        PurgeStep {
            remove_file: !dry_run && is_file,
            remove_dir: !dry_run && !is_file && is_dir,
            skip_dir: is_dir,
        }
    } else {
        PurgeStep { remove_file: false, remove_dir: false, skip_dir: hidden && is_dir }
    }
}

/// Decides what is done about one entry of the tree. Nothing is done
/// where the patterns cannot be read.
pub fn purge_ide_files(
    path: &str,
    file_name: &str,
    is_file: bool,
    is_dir: bool,
    dry_run: bool,
) -> (r: Option<PurgeStep>)
    ensures
        r == (match glob_match(ide_patterns(), path@) {
            Some(left_by_ide) => Some(
                purge_step_of(left_by_ide, is_file, is_dir, hidden_name(file_name@), dry_run),
            ),
            None => None,
        }),
{
    match match_globs(&ide_file_patterns(), path) {
        Some(left_by_ide) => Some(
            purge_step(left_by_ide, is_file, is_dir, is_hidden(file_name), dry_run),
        ),
        None => None,
    }
}

/// The directory of the cache of Maven for the group `path`, given with
/// dots: below the repository of the home directory, a directory for each
/// part of the name. A group that begins with a dot or a slash names none.
pub open spec fn maven_cache_dir(home: Seq<char>, path: Seq<char>) -> Option<Seq<char>> {
    if path.len() > 0 && (path[0] == '.' || path[0] == '/') {
        None
    } else {
        Some(path_join(path_join(home, ".m2/repository"@), replaced(path, "."@, "/"@)))
    }
}

/// The directory of the cache of Maven for a group.
pub fn purge_maven(home_dir: &str, path: &str) -> (r: Option<String>)
    ensures
        r.deep_view() == maven_cache_dir(home_dir@, path@),
{
    let chars = chars_of(path);
    if chars.len() > 0 && (chars[0] == '.' || chars[0] == '/') {
        return None;
    }
    let repository = join_path(home_dir, ".m2/repository");
    Some(join_path(repository.as_str(), replace(path, ".", "/").as_str()))
}

} // verus!
