//! Where the embedded program's source is found.
//!
//! The bridge locates the embedded program relative to the host's current
//! working directory: the parent of that directory, with a fixed
//! subdirectory name appended. The directory is recomputed for every run and
//! registered with the embedded runtime's module search path; nothing about
//! the program's actual location on disk enters the rule.
//!
//! A directory path is modelled as its components, root first.

use vstd::prelude::*;
use vstd::string::StrSliceExecFns;
use vstd::string::StringExecFns;

verus! {

/// The views of a list of path components.
pub open spec fn views_of(parts: Seq<String>) -> Seq<Seq<char>> {
    parts.map_values(|s: String| s@)
}

/// The fixed name of the subdirectory holding the embedded program's source,
/// a sibling of the host's working directory.
pub fn source_dir_name() -> (r: &'static str)
    ensures
        r@ == "server"@,
{
    "server"
}

/// The directory registered with the embedded runtime's module search path,
/// for a working directory given as components: the working directory's
/// parent, then the fixed source subdirectory name.
pub open spec fn search_dir_of(cwd: Seq<Seq<char>>) -> Seq<Seq<char>>
    recommends
        cwd.len() >= 1,
{
    cwd.drop_last().push("server"@)
}

/// Compute the module search directory. The working directory must have a
/// parent: the host never runs at the filesystem root, and the rule has no
/// answer there.
pub fn module_search_dir(cwd: &Vec<String>) -> (r: Vec<String>)
    requires
        cwd@.len() >= 1,
    ensures
        views_of(r@) =~= search_dir_of(views_of(cwd@)),
{
    let mut r: Vec<String> = Vec::new();
    let mut i: usize = 0;
    while i < cwd.len() - 1
        invariant
            cwd@.len() >= 1,
            i <= cwd@.len() - 1,
            views_of(r@) =~= views_of(cwd@).take(i as int),
        decreases cwd@.len() - 1 - i,
    {
        let ghost prev = r@;
        r.push(cwd[i].clone());
        proof {
            let vs = views_of(cwd@);
            assert(views_of(r@) =~= views_of(prev).push(cwd@[i as int]@));
            assert(vs.take(i as int).push(vs[i as int]) =~= vs.take(i + 1));
        }
        i = i + 1;
    }
    r.push(source_dir_name().to_owned());
    assert(views_of(cwd@).take(cwd@.len() - 1) =~= views_of(cwd@).drop_last());
    r
}

/// Render a directory given as components into one text path, the components
/// separated by a single separator character. A leading empty component thus
/// renders an absolute path.
pub open spec fn joined(parts: Seq<Seq<char>>) -> Seq<char>
    decreases parts.len(),
{
    if parts.len() == 0 {
        Seq::<char>::empty()
    } else if parts.len() == 1 {
        parts[0]
    } else {
        joined(parts.drop_last()) + "/"@ + parts.last()
    }
}

/// Render path components into one text path with `/` separators.
pub fn join_path(components: &Vec<String>) -> (r: String)
    ensures
        r@ == joined(views_of(components@)),
{
    let mut r = String::new();
    let mut i: usize = 0;
    while i < components.len()
        invariant
            i <= components@.len(),
            r@ == joined(views_of(components@).take(i as int)),
        decreases components@.len() - i,
    {
        if i > 0 {
            r.append("/");
        }
        r.append(components[i].as_str());
        proof {
            let views = views_of(components@);
            assert(views.take(i + 1).drop_last() =~= views.take(i as int));
            assert(views.take(i + 1).last() == views[i as int]);
            if i == 0 {
                assert(r@ =~= joined(views.take(i + 1)));
            }
        }
        i = i + 1;
    }
    proof {
        assert(views_of(components@).take(components@.len() as int) =~= views_of(
            components@,
        ));
    }
    r
}

/// Law: the module search directory is always the working directory's parent
/// with the fixed source subdirectory name appended: it has as many
/// components as the working directory, ends in that fixed name, and agrees
/// with the working directory on everything before its last component.
pub proof fn lemma_search_dir(cwd: Seq<Seq<char>>)
    requires
        cwd.len() >= 1,
    ensures
        search_dir_of(cwd).len() == cwd.len(),
        search_dir_of(cwd).last() == "server"@,
        search_dir_of(cwd).drop_last() =~= cwd.drop_last(),
{
}

} // verus!
