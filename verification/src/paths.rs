//! Native paths as byte strings, and how a name is joined to a directory.

use vstd::prelude::*;

verus! {

/// The byte that separates the components of a native path.
pub const SEPARATOR: u8 = 0x2f;

/// A path is absolute when it starts at the root of the native tree.
pub open spec fn is_absolute(path: Seq<u8>) -> bool {
    path.len() > 0 && path[0] == SEPARATOR
}

/// The path of `name` under the directory `root`.
///
/// An absolute name stands for itself. Any other name follows the root,
/// after a separator unless the root is empty or already ends in one.
pub open spec fn joined(root: Seq<u8>, name: Seq<u8>) -> Seq<u8> {
    if is_absolute(name) {
        name
    } else if root.len() > 0 && root.last() != SEPARATOR {
        root.push(SEPARATOR) + name
    } else {
        root + name
    }
}

/// Joins a name to a directory.
pub fn join_path(root: &[u8], name: &[u8]) -> (path: Vec<u8>)
    ensures
        path@ == joined(root@, name@),
{
    let mut path: Vec<u8> = Vec::new();
    if name.len() > 0 && name[0] == SEPARATOR {
        path.extend_from_slice(name);
        assert(path@ =~= name@);
        return path;
    }
    path.extend_from_slice(root);
    assert(path@ =~= root@);
    if root.len() > 0 && root[root.len() - 1] != SEPARATOR {
        path.push(SEPARATOR);
    }
    let ghost before = path@;
    path.extend_from_slice(name);
    assert(path@ =~= before + name@);
    path
}

/// A name that is not absolute, joined to a root that is not empty, gives a
/// path that begins with the root and ends with the name, with one separator
/// between them where the root does not end in one.
pub proof fn lemma_joined_keeps_root_and_name(root: Seq<u8>, name: Seq<u8>)
    requires
        root.len() > 0,
        !is_absolute(name),
    ensures
        ({
            let path = joined(root, name);
            &&& path.subrange(0, root.len() as int) == root
            &&& path.subrange(path.len() - name.len(), path.len() as int) == name
            &&& path.len() == root.len() + name.len() + (if root.last() != SEPARATOR {
                1int
            } else {
                0int
            })
        }),
{
    let path = joined(root, name);
    assert(path.subrange(0, root.len() as int) =~= root);
    assert(path.subrange(path.len() - name.len(), path.len() as int) =~= name);
}

} // verus!
