//! Map file finder.
//!
//! Maps lie in the map directory of the engine or one level below it. A map
//! is found by its name, with or without the ending of map files, and
//! without regard to the case of letters.

use vstd::prelude::*;
use crate::paths::{join_path, joined};
use crate::text::{
    chars_of, ends_with, has_suffix, join_text, lower, lower_text, remove_char, same_text,
    lower_of_without_space, without, without_absent, without_distributes,
};

verus! {

/// An entry of the map directory: a file, or a directory with the names of
/// its entries.
#[derive(Debug, Clone, PartialEq, Eq)]
pub struct MapEntry {
    pub name: String,
    /// Whether the entry is a directory.
    pub is_dir: bool,
    /// The names of the entries of the directory, in the order of its
    /// listing; empty for a file.
    pub children: Vec<String>,
}

/// The ending of the name of a map file.
pub open spec fn map_suffix() -> Seq<char> {
    ".SC2Map"@
}

/// The name of the file of the map `name`: the name without its spaces,
/// with the ending of map files added unless it is there, in whatever case
/// of its letters.
pub open spec fn map_file_name(name: Seq<char>) -> Seq<char> {
    let stripped = without(name, ' ');
    if has_suffix(lower(stripped), lower(map_suffix())) {
        stripped
    } else {
        stripped + map_suffix()
    }
}

/// Whether a file goes by the name `target`, without regard to the case of
/// letters.
pub open spec fn names_match(file: Seq<char>, target: Seq<char>) -> bool {
    lower(file) == lower(target)
}

/// The first of the names `children` that matches `target`.
pub open spec fn first_match(children: Seq<String>, target: Seq<char>) -> Option<Seq<char>>
    decreases children.len(),
{
    if children.len() == 0 {
        None
    } else if names_match(children[0]@, target) {
        Some(children[0]@)
    } else {
        first_match(children.drop_first(), target)
    }
}

/// The path, below the map directory, of the first file in the listing that
/// goes by the name `target`: an entry of the map directory that is a file,
/// or an entry of one of its directories.
pub open spec fn found_in(listing: Seq<MapEntry>, target: Seq<char>) -> Option<Seq<char>>
    decreases listing.len(),
{
    if listing.len() == 0 {
        None
    } else {
        let entry = listing[0];
        if !entry.is_dir {
            if names_match(entry.name@, target) {
                Some(entry.name@)
            } else {
                found_in(listing.drop_first(), target)
            }
        } else {
            match first_match(entry.children@, target) {
                Some(child) => Some(joined(entry.name@, child)),
                None => found_in(listing.drop_first(), target),
            }
        }
    }
}

/// Executable form of [`map_file_name`].
pub fn file_name_of(name: &str) -> (file: Vec<char>)
    ensures
        file@ == map_file_name(name@),
{
    let stripped = remove_char(&chars_of(name), ' ');
    let suffix = chars_of(".SC2Map");
    if ends_with(&lower_text(&stripped), &lower_text(&suffix)) {
        stripped
    } else {
        join_text(&stripped, &suffix)
    }
}

/// The first of the names `children` that matches the small letters
/// `wanted`.
fn find_child(children: &Vec<String>, wanted: &Vec<char>, Ghost(target): Ghost<Seq<char>>) -> (found:
    Option<usize>)
    requires
        wanted@ == lower(target),
    ensures
        match found {
            Some(i) => i < children@.len() && first_match(children@, target) == Some(
                children@[i as int]@,
            ),
            None => first_match(children@, target) is None,
        },
{
    let mut i: usize = 0;
    assert(children@.skip(0) =~= children@);
    while i < children.len()
        invariant
            i <= children.len(),
            wanted@ == lower(target),
            first_match(children@, target) == first_match(children@.skip(i as int), target),
        decreases children.len() - i,
    {
        assert(children@.skip(i as int)[0] == children@[i as int]);
        assert(children@.skip(i as int).drop_first() =~= children@.skip(i + 1));
        let have = lower_text(&chars_of(children[i].as_str()));
        if same_text(&have, wanted) {
            return Some(i);
        }
        i += 1;
    }
    None
}

/// Finds a map file by the name of the map in the listing of the map
/// directory, and gives its path below the map directory.
pub fn find_map(name: String, listing: &Vec<MapEntry>) -> (path: Option<String>)
    ensures
        match path {
            Some(p) => found_in(listing@, map_file_name(name@)) == Some(p@),
            None => found_in(listing@, map_file_name(name@)) is None,
        },
{
    let target = file_name_of(name.as_str());
    let wanted = lower_text(&target);
    let mut i: usize = 0;
    assert(listing@.skip(0) =~= listing@);
    while i < listing.len()
        invariant
            i <= listing.len(),
            target@ == map_file_name(name@),
            wanted@ == lower(target@),
            found_in(listing@, target@) == found_in(listing@.skip(i as int), target@),
        decreases listing.len() - i,
    {
        assert(listing@.skip(i as int)[0] == listing@[i as int]);
        assert(listing@.skip(i as int).drop_first() =~= listing@.skip(i + 1));
        let entry = &listing[i];
        let ghost rest = listing@.skip(i as int);
        assert(found_in(rest, target@) == (if !rest[0].is_dir {
            if names_match(rest[0].name@, target@) {
                Some(rest[0].name@)
            } else {
                found_in(rest.drop_first(), target@)
            }
        } else {
            match first_match(rest[0].children@, target@) {
                Some(child) => Some(joined(rest[0].name@, child)),
                None => found_in(rest.drop_first(), target@),
            }
        }));
        if !entry.is_dir {
            let have = lower_text(&chars_of(entry.name.as_str()));
            if same_text(&have, &wanted) {
                return Some(entry.name.clone());
            }
        } else {
            match find_child(&entry.children, &wanted, Ghost(target@)) {
                Some(child) => {
                    return Some(join_path(entry.name.as_str(), entry.children[child].as_str()));
                },
                None => {},
            }
        }
        i += 1;
    }
    None
}

/// Two names that differ only in the case of letters match the same files.
pub proof fn first_match_ignores_case(children: Seq<String>, a: Seq<char>, b: Seq<char>)
    requires
        lower(a) == lower(b),
    ensures
        first_match(children, a) == first_match(children, b),
    decreases children.len(),
{
    if children.len() > 0 {
        first_match_ignores_case(children.drop_first(), a, b);
    }
}

/// The search does not depend on the case of the letters of the name: two
/// names of files that differ only in the case of letters find the same
/// file.
pub proof fn found_in_ignores_case(listing: Seq<MapEntry>, a: Seq<char>, b: Seq<char>)
    requires
        lower(a) == lower(b),
    ensures
        found_in(listing, a) == found_in(listing, b),
    decreases listing.len(),
{
    if listing.len() > 0 {
        found_in_ignores_case(listing.drop_first(), a, b);
        first_match_ignores_case(listing[0].children@, a, b);
    }
}

/// Two names of maps that differ only in the case of letters name files
/// that differ only in the case of letters, the ending included.
pub proof fn map_file_name_ignores_case(a: Seq<char>, b: Seq<char>)
    requires
        lower(a) == lower(b),
    ensures
        lower(map_file_name(a)) == lower(map_file_name(b)),
{
    lower_of_without_space(a);
    lower_of_without_space(b);
    let x = without(a, ' ');
    let y = without(b, ' ');
    assert(lower(x) == lower(y));
    assert(lower(x + map_suffix()) =~= lower(x) + lower(map_suffix()));
    assert(lower(y + map_suffix()) =~= lower(y) + lower(map_suffix()));
}

/// The search does not depend on the case of the letters of the name of the
/// map, its ending included: two names that differ only in the case of
/// letters find the same file.
pub proof fn find_map_ignores_case(listing: Seq<MapEntry>, a: Seq<char>, b: Seq<char>)
    requires
        lower(a) == lower(b),
    ensures
        found_in(listing, map_file_name(a)) == found_in(listing, map_file_name(b)),
{
    map_file_name_ignores_case(a, b);
    found_in_ignores_case(listing, map_file_name(a), map_file_name(b));
}

/// A map is found by its name with or without the ending of map files: a
/// name that does not end in it, in whatever case, names the same file as
/// the name with the ending added.
pub proof fn suffix_is_optional(name: Seq<char>)
    requires
        !has_suffix(lower(without(name, ' ')), lower(map_suffix())),
    ensures
        map_file_name(name + map_suffix()) == map_file_name(name),
{
    reveal_strlit(".SC2Map");
    let suffix = map_suffix();
    assert(forall|i: int| 0 <= i < suffix.len() ==> suffix[i] != ' ');
    without_absent(suffix, ' ');
    without_distributes(name, suffix, ' ');
    let stripped = without(name, ' ');
    let whole = lower(stripped + suffix);
    assert(whole.subrange(whole.len() - lower(suffix).len(), whole.len() as int) =~= lower(
        suffix,
    ));
}

} // verus!
