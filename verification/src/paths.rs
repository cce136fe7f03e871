//! Where the engine lives on disk: its base directory, the directories
//! below it, and the newest executable.
//!
//! Nothing here touches the disk or the environment. The caller reads the
//! environment, the directory listings and the files, and hands what it
//! found to these functions.

use vstd::prelude::*;
use vstd::string::StringExecFns;
use crate::text::{
    chars_of, has_prefix, join_text, number_of, parse_number, starts_with, string_of, tail_from,
};

verus! {

/// The oldest base build of the engine that the arbiter works with.
pub const MIN_BASE_BUILD: u64 = 55958;

/// An entry of a directory listing.
#[derive(Debug, Clone, PartialEq, Eq)]
pub struct Folder {
    pub name: String,
    /// Whether the entry is a directory.
    pub is_dir: bool,
}

/// Why no executable of the engine can be used.
#[derive(Debug, Clone, Copy, PartialEq, Eq, Structural)]
pub enum ExecutableError {
    /// No folder of a base build was found.
    NotFound,
    /// The newest base build is older than the oldest supported one.
    TooOld,
}

/// The path `name` below the directory `base`: `name` itself where it
/// starts at the root, and else `base` and `name` with one `/` between
/// them.
pub open spec fn joined(base: Seq<char>, name: Seq<char>) -> Seq<char> {
    if name.len() > 0 && name[0] == '/' {
        name
    } else if base.len() == 0 || base.last() == '/' {
        base + name
    } else {
        base.push('/') + name
    }
}

/// The pattern that finds the base directory in the engine's record of its
/// last start.
pub open spec fn execute_info_pattern() -> Seq<char> {
    " = (.*)Versions"@
}

/// What the first group of the first match of the regular expression
/// `pattern` in `text` holds; none where the pattern is no regular
/// expression, where nothing matches, or where the group takes no part in
/// the match.
pub uninterp spec fn first_group(pattern: Seq<char>, text: Seq<char>) -> Option<Seq<char>>;

/// `regex::Regex::new`, `Regex::captures` and `Captures::get`: the text of
/// group 1 of the leftmost match of `pattern` in `text`. The result
/// depends on the pattern and the text alone.
#[verifier::external_body]
fn capture_first_group(pattern: &str, text: &str) -> (group: Option<String>)
    ensures
        match group {
            Some(g) => first_group(pattern@, text@) == Some(g@),
            None => first_group(pattern@, text@) is None,
        },
{
    let expression = regex::Regex::new(pattern).ok()?;
    expression.captures(text)?.get(1).map(|m| m.as_str().to_owned())
}

/// The base build that a folder name gives: the number after `Base`.
pub open spec fn base_build_of(name: Seq<char>) -> Option<nat> {
    if has_prefix(name, "Base"@) {
        number_of(name.subrange("Base"@.len() as int, name.len() as int), u64::MAX as nat)
    } else {
        None
    }
}

/// The base build of a directory entry, where it is the folder of one.
pub open spec fn build_of_folder(folder: Folder) -> Option<nat> {
    if folder.is_dir {
        base_build_of(folder.name@)
    } else {
        None
    }
}

/// Whether the entry at `index` is the folder of the newest base build: no
/// entry has a newer one, and no later entry has the same.
pub open spec fn is_latest(folders: Seq<Folder>, index: int) -> bool {
    &&& 0 <= index < folders.len()
    &&& build_of_folder(folders[index]) is Some
    &&& forall|k: int|
        0 <= k < folders.len() ==> (#[trigger] build_of_folder(folders[k]) matches Some(b) ==> b
            <= build_of_folder(folders[index])->Some_0)
    &&& forall|k: int|
        index < k < folders.len() ==> (#[trigger] build_of_folder(folders[k]) matches Some(b) ==> b
            < build_of_folder(folders[index])->Some_0)
}

/// Executable form of [`joined`].
pub fn join_path(base: &str, name: &str) -> (path: String)
    ensures
        path@ == joined(base@, name@),
{
    let base = chars_of(base);
    let name = chars_of(name);
    if name.len() > 0 && name[0] == '/' {
        string_of(&name)
    } else if base.len() == 0 || base[base.len() - 1] == '/' {
        string_of(&join_text(&base, &name))
    } else {
        let mut with_slash = base.clone();
        with_slash.push('/');
        string_of(&join_text(&with_slash, &name))
    }
}

/// The base directory of the engine: the override of the environment where
/// there is one, else the directory that the engine recorded at its last
/// start where that is known, else the default of the platform.
pub fn base_dir(env_base: Option<String>, recorded: Option<String>, default_base: String) -> (base:
    String)
    ensures
        base == (match env_base {
            Some(b) => b,
            None => match recorded {
                Some(r) => r,
                None => default_base,
            },
        }),
{
    match env_base {
        Some(b) => b,
        None => match recorded {
            Some(r) => r,
            None => default_base,
        },
    }
}

/// The base directory that the engine's record of its last start names:
/// what the first group of the first match of the pattern ` = (.*)Versions`
/// holds, that is, the path before `Versions`.
pub fn read_execute_info(contents: &str) -> (base: Option<String>)
    ensures
        match base {
            Some(b) => first_group(execute_info_pattern(), contents@) == Some(b@),
            None => first_group(execute_info_pattern(), contents@) is None,
        },
{
    capture_first_group(" = (.*)Versions", contents)
}

/// Reads the base build that a directory entry gives.
pub fn folder_build(folder: &Folder) -> (build: Option<u64>)
    ensures
        match build {
            Some(b) => build_of_folder(*folder) == Some(b as nat),
            None => build_of_folder(*folder) is None,
        },
{
    if !folder.is_dir {
        return None;
    }
    let name = chars_of(folder.name.as_str());
    let prefix = chars_of("Base");
    if starts_with(&name, &prefix) {
        parse_number(&tail_from(&name, prefix.len()), u64::MAX)
    } else {
        None
    }
}

/// The index of the folder of the newest base build among the entries of
/// the directory of versions; none where no entry is the folder of one.
pub fn latest_folder(folders: &Vec<Folder>) -> (latest: Option<(usize, u64)>)
    ensures
        match latest {
            Some((index, build)) => is_latest(folders@, index as int) && build_of_folder(
                folders@[index as int],
            ) == Some(build as nat),
            None => forall|k: int| 0 <= k < folders@.len() ==> build_of_folder(folders@[k]) is None,
        },
{
    let mut latest: Option<(usize, u64)> = None;
    let mut i: usize = 0;
    while i < folders.len()
        invariant
            i <= folders.len(),
            match latest {
                Some((index, build)) => is_latest(folders@.take(i as int), index as int)
                    && build_of_folder(folders@[index as int]) == Some(build as nat),
                None => forall|k: int| 0 <= k < i ==> build_of_folder(folders@[k]) is None,
            },
        decreases folders.len() - i,
    {
        let ghost before = folders@.take(i as int);
        let ghost now = folders@.take(i + 1);
        assert(forall|k: int| 0 <= k < i ==> before[k] == now[k]);
        assert(now[i as int] == folders@[i as int]);
        match folder_build(&folders[i]) {
            Some(build) => {
                let newer = match latest {
                    Some((_, best)) => build >= best,
                    None => true,
                };
                if newer {
                    latest = Some((i, build));
                }
            },
            None => {},
        }
        i += 1;
    }
    assert(folders@.take(folders.len() as int) =~= folders@);
    latest
}

/// The path of the newest executable of the engine: the file `bin` in the
/// folder of the newest base build below the directory `versions_dir`,
/// whose entries are `folders`. The newest base build is no older than the
/// oldest supported one.
pub fn executable(versions_dir: &str, folders: &Vec<Folder>, bin: &str) -> (path: Result<
    String,
    ExecutableError,
>)
    ensures
        match path {
            Ok(p) => exists|index: int|
                {
                    &&& is_latest(folders@, index)
                    &&& build_of_folder(folders@[index])->Some_0 >= MIN_BASE_BUILD
                    &&& p@ == joined(joined(versions_dir@, folders@[index].name@), bin@)
                },
            Err(ExecutableError::NotFound) => forall|k: int|
                0 <= k < folders@.len() ==> build_of_folder(folders@[k]) is None,
            Err(ExecutableError::TooOld) => exists|index: int|
                is_latest(folders@, index) && build_of_folder(folders@[index])->Some_0
                    < MIN_BASE_BUILD,
        },
{
    match latest_folder(folders) {
        None => Err(ExecutableError::NotFound),
        Some((index, build)) => {
            if build < MIN_BASE_BUILD {
                Err(ExecutableError::TooOld)
            } else {
                let folder = join_path(versions_dir, folders[index].name.as_str());
                Ok(join_path(folder.as_str(), bin))
            }
        },
    }
}

/// The directory to switch to before the engine starts: the directory
/// `cwd` below `base` where there is one, else `base`.
pub fn cwd_dir(base: &str, cwd: Option<&str>) -> (dir: String)
    ensures
        dir@ == (match cwd {
            Some(c) => joined(base@, c@),
            None => base@,
        }),
{
    match cwd {
        Some(c) => join_path(base, c),
        None => String::from_str(base),
    }
}

/// The directory that holds the replays.
pub fn replay_dir(base: &str) -> (dir: String)
    ensures
        dir@ == joined(base@, "Replays"@),
{
    join_path(base, "Replays")
}

/// The directory that holds the map directories.
pub fn map_dir(base: &str) -> (dir: String)
    ensures
        dir@ == joined(base@, "Maps"@),
{
    join_path(base, "Maps")
}

} // verus!
