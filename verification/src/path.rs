//! Paths as plain text: names separated by `/`.
//!
//! A path is read from its end. Separators that close it are ignored, the name
//! before them is its last name, and what stands before that name is its
//! parent. Nothing here asks the filesystem anything.

use vstd::prelude::*;

verus! {

/// Length of `path` once the separators at its end are dropped.
pub open spec fn trimmed_len(path: Seq<char>) -> nat
    decreases path.len(),
{
    if path.len() > 0 && path.last() == '/' {
        trimmed_len(path.drop_last())
    } else {
        path.len()
    }
}

/// Position of the last separator in `path`, or -1 where it holds none.
pub open spec fn last_separator(path: Seq<char>) -> int
    decreases path.len(),
{
    if path.len() == 0 {
        -1
    } else if path.last() == '/' {
        path.len() - 1
    } else {
        last_separator(path.drop_last())
    }
}

/// The filesystem root, written `/`.
pub open spec fn root() -> Seq<char> {
    seq!['/']
}

/// Whether `path` is the filesystem root.
pub open spec fn is_root(path: Seq<char>) -> bool {
    path == root()
}

/// The directory that holds the last name of `path`.
///
/// A path without a name (empty, or separators only) has no parent. A single
/// relative name has the empty path as its parent, and a name directly under
/// the root has the root.
pub open spec fn parent(path: Seq<char>) -> Option<Seq<char>> {
    let body = path.take(trimmed_len(path) as int);
    let cut = last_separator(body);
    if body.len() == 0 {
        None
    } else if cut < 0 {
        Some(Seq::empty())
    } else {
        let stem = body.take(cut);
        let keep = trimmed_len(stem);
        if keep == 0 {
            Some(root())
        } else {
            Some(stem.take(keep as int))
        }
    }
}

/// `name` adjoined to `dir`.
///
/// A name that starts at the root replaces `dir`. Otherwise one separator
/// stands between the two, unless `dir` is empty or already ends in one.
pub open spec fn join(dir: Seq<char>, name: Seq<char>) -> Seq<char> {
    if name.len() > 0 && name[0] == '/' {
        name
    } else if dir.len() == 0 || dir.last() == '/' {
        dir + name
    } else {
        dir + seq!['/'] + name
    }
}

/// `dir`, one separator and `name`, whatever the two hold.
pub open spec fn slash_joined(dir: Seq<char>, name: Seq<char>) -> Seq<char> {
    dir + seq!['/'] + name
}

/// A name as a directory listing gives it: not empty, without a separator.
pub open spec fn is_plain_name(name: Seq<char>) -> bool {
    &&& name.len() > 0
    &&& forall|i: int| 0 <= i < name.len() ==> name[i] != '/'
}

/// A directory written without a closing separator, or the root itself.
pub open spec fn is_tidy(dir: Seq<char>) -> bool {
    is_root(dir) || dir.len() == 0 || dir.last() != '/'
}

/// The last separator lies inside the path and is one.
pub proof fn lemma_last_separator_bounds(path: Seq<char>)
    ensures
        -1 <= last_separator(path) < path.len(),
        last_separator(path) >= 0 ==> path[last_separator(path)] == '/',
    decreases path.len(),
{
    if path.len() > 0 && path.last() != '/' {
        lemma_last_separator_bounds(path.drop_last());
    }
}

/// A name appended without separators of its own does not move the last
/// separator of what stood before.
proof fn lemma_last_separator_append(front: Seq<char>, name: Seq<char>)
    requires
        forall|i: int| 0 <= i < name.len() ==> name[i] != '/',
    ensures
        last_separator(front + name) == last_separator(front),
    decreases name.len(),
{
    if name.len() == 0 {
        assert(front + name =~= front);
    } else {
        let whole = front + name;
        assert(whole.last() == name.last());
        assert(whole.drop_last() =~= front + name.drop_last());
        lemma_last_separator_append(front, name.drop_last());
    }
}

/// Going down into a plainly named child of a tidy directory and up again
/// leads back to that directory.
pub proof fn lemma_parent_of_join(dir: Seq<char>, name: Seq<char>)
    requires
        is_tidy(dir),
        is_plain_name(name),
    ensures
        parent(join(dir, name)) == Some(dir),
{
    let path = join(dir, name);
    assert(path.len() > 0 && path.last() == name.last());
    assert(trimmed_len(path) == path.len());
    let body = path.take(path.len() as int);
    assert(body =~= path);
    if dir.len() == 0 {
        assert(path =~= Seq::<char>::empty() + name);
        lemma_last_separator_append(Seq::empty(), name);
        assert(last_separator(path) == -1);
        assert(dir =~= Seq::<char>::empty());
    } else if dir.last() == '/' {
        assert(dir =~= root());
        assert(path == dir + name);
        lemma_last_separator_append(dir, name);
        assert(last_separator(dir) == 0);
        let stem = body.take(0);
        assert(stem =~= Seq::<char>::empty());
        assert(trimmed_len(stem) == 0);
    } else {
        let front = dir + seq!['/'];
        assert(path == front + name);
        lemma_last_separator_append(front, name);
        assert(front.last() == '/');
        assert(last_separator(front) == dir.len());
        let stem = body.take(dir.len() as int);
        assert(stem =~= dir);
        assert(trimmed_len(dir) == dir.len());
        assert(stem.take(dir.len() as int) =~= dir);
    }
}

/// Number of characters of `path[..len]` that remain once the separators at
/// its end are dropped.
fn trim_end(path: &str, len: usize) -> (keep: usize)
    requires
        len <= path@.len(),
    ensures
        keep == trimmed_len(path@.take(len as int)),
        keep <= len,
{
    let mut keep: usize = len;
    while keep > 0 && path.get_char(keep - 1) == '/'
        invariant
            keep <= len <= path@.len(),
            trimmed_len(path@.take(len as int)) == trimmed_len(path@.take(keep as int)),
        decreases keep,
    {
        proof {
            let front = path@.take(keep as int);
            assert(front.last() == '/');
            assert(front.drop_last() =~= path@.take(keep - 1));
        }
        keep = keep - 1;
    }
    keep
}

/// Position of the last separator among the first `len` characters of `path`.
fn find_last_separator(path: &str, len: usize) -> (found: Option<usize>)
    requires
        len <= path@.len(),
    ensures
        match found {
            Some(at) => at == last_separator(path@.take(len as int)),
            None => last_separator(path@.take(len as int)) == -1,
        },
{
    let mut end: usize = len;
    while end > 0
        invariant
            end <= len <= path@.len(),
            last_separator(path@.take(len as int)) == last_separator(path@.take(end as int)),
        decreases end,
    {
        let ghost front = path@.take(end as int);
        if path.get_char(end - 1) == '/' {
            assert(front.last() == '/');
            return Some(end - 1);
        }
        proof {
            assert(front.last() != '/');
            assert(front.drop_last() =~= path@.take(end - 1));
        }
        end = end - 1;
    }
    None
}

/// Whether `path` is the filesystem root.
pub fn is_root_path(path: &str) -> (yes: bool)
    ensures
        yes == is_root(path@),
{
    let yes = path.unicode_len() == 1 && path.get_char(0) == '/';
    proof {
        if yes {
            assert(path@ =~= root());
        }
    }
    yes
}

/// The parent of `path`, if it has one.
pub fn parent_of(path: &str) -> (up: Option<String>)
    ensures
        up.deep_view() == parent(path@),
{
    let len = path.unicode_len();
    let end = trim_end(path, len);
    let ghost body = path@.take(len as int).take(end as int);
    proof {
        assert(path@.take(len as int) =~= path@);
        assert(body =~= path@.take(end as int));
    }
    if end == 0 {
        return None;
    }
    match find_last_separator(path, end) {
        None => {
            let up = String::new();
            Some(up)
        },
        Some(cut) => {
            proof {
                lemma_last_separator_bounds(body);
                assert(body.take(cut as int) =~= path@.take(cut as int));
            }
            let keep = trim_end(path, cut);
            if keep == 0 {
                proof {
                    reveal_strlit("/");
                    assert("/"@ =~= root());
                }
                Some("/".to_owned())
            } else {
                proof {
                    assert(path@.take(cut as int).take(keep as int) =~= path@.subrange(
                        0,
                        keep as int,
                    ));
                }
                Some(path.substring_char(0, keep).to_owned())
            }
        },
    }
}

/// `name` adjoined to `dir`.
pub fn join_path(dir: &str, name: &str) -> (path: String)
    ensures
        path@ == join(dir@, name@),
{
    let dir_len = dir.unicode_len();
    if name.unicode_len() > 0 && name.get_char(0) == '/' {
        return name.to_owned();
    }
    let mut path = dir.to_owned();
    if dir_len > 0 && dir.get_char(dir_len - 1) != '/' {
        proof {
            reveal_strlit("/");
            assert("/"@ =~= seq!['/']);
        }
        path.append("/");
    }
    path.append(name);
    path
}

/// `dir`, one separator and `name`.
pub fn slash_join(dir: &str, name: &str) -> (path: String)
    ensures
        path@ == slash_joined(dir@, name@),
{
    let mut path = dir.to_owned();
    proof {
        reveal_strlit("/");
        assert("/"@ =~= seq!['/']);
    }
    path.append("/");
    path.append(name);
    path
}

} // verus!
