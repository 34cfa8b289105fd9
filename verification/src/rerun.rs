//! Change-tracking directives for the build system.

use crate::text::{str_views, views};
use vstd::prelude::*;
use vstd::string::*;

verus! {

/// The directive that makes the build system run the build script again
/// when `path` changes.
pub open spec fn directive(path: Seq<char>) -> Seq<char> {
    "cargo:rerun-if-changed="@ + path
}

/// The paths to watch: the listed ones where a list was given, else the
/// ones that the search of the source directory found.
pub open spec fn watched(deps: Option<Seq<Seq<char>>>, found: Seq<Seq<char>>) -> Seq<Seq<char>> {
    match deps {
        Some(listed) => listed,
        None => found,
    }
}

/// One directive per path, in the order of the paths.
pub open spec fn directives(paths: Seq<Seq<char>>) -> Seq<Seq<char>> {
    paths.map_values(|p: Seq<char>| directive(p))
}

/// The views of the listed paths, if a list was given.
pub open spec fn listed(deps: Option<&Vec<&str>>) -> Option<Seq<Seq<char>>> {
    match deps {
        Some(d) => Some(str_views(d@)),
        None => None,
    }
}

/// Builds the directive for `path`.
pub fn rerun_if_changed(path: &str) -> (line: String)
    ensures
        line@ == directive(path@),
{
    let mut line = String::from_str("cargo:rerun-if-changed=");
    line.append(path);
    line
}

/// Builds the directives of a skeleton build: for each listed path where
/// `deps` gives a list, whatever `found` holds; else for each path in
/// `found`, which is what the search of the source directory returned.
pub fn watch_directives(deps: Option<&Vec<&str>>, found: &Vec<String>) -> (lines: Vec<String>)
    ensures
        views(lines@) == directives(watched(listed(deps), views(found@))),
        deps matches Some(d) ==> views(lines@) == directives(str_views(d@)),
        deps is None && found@.len() == 0 ==> lines@.len() == 0,
{
    let mut lines: Vec<String> = Vec::new();
    match deps {
        Some(d) => {
            let mut i: usize = 0;
            while i < d.len()
                invariant
                    i <= d.len(),
                    lines@.len() == i,
                    forall|k: int| 0 <= k < i ==> (#[trigger] lines@[k])@ == directive(d@[k]@),
                decreases d.len() - i,
            {
                let line = rerun_if_changed(d[i]);
                lines.push(line);
                i += 1;
            }
            assert(views(lines@) =~= directives(str_views(d@)));
        },
        None => {
            let mut i: usize = 0;
            while i < found.len()
                invariant
                    i <= found.len(),
                    lines@.len() == i,
                    forall|k: int| 0 <= k < i ==> (#[trigger] lines@[k])@ == directive(found@[k]@),
                decreases found.len() - i,
            {
                let line = rerun_if_changed(found[i].as_str());
                lines.push(line);
                i += 1;
            }
            assert(views(lines@) =~= directives(views(found@)));
        },
    }
    lines
}

} // verus!
