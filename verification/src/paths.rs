//! Paths, compared by the names on the way.
use vstd::prelude::*;

use crate::data;
use crate::data::Alike;
use crate::text;

verus! {

/// What stands between the slashes of `path`.
pub open spec fn pieces_of(path: Seq<char>) -> Seq<Seq<char>> {
    text::split_of(path, '/')
}

/// Whether a piece is a step on the way: neither nothing nor a single dot.
pub open spec fn is_step(piece: Seq<char>) -> bool {
    piece.len() > 0 && piece != "."@
}

/// The test for a step, as a value.
pub open spec fn steps() -> spec_fn(Seq<char>) -> bool {
    |piece: Seq<char>| is_step(piece)
}

/// Whether `path` starts at the root.
pub open spec fn is_absolute(path: Seq<char>) -> bool {
    path.len() > 0 && path[0] == '/'
}

/// Where `path` starts: at the root, explicitly where the reader stands, or with its first step.
pub open spec fn start_of(path: Seq<char>) -> Seq<Seq<char>> {
    if is_absolute(path) {
        seq!["/"@]
    } else if pieces_of(path)[0] == "."@ {
        seq!["."@]
    } else {
        Seq::empty()
    }
}

/// The parts of `path`: where it starts, and the steps from there. Two paths are the same when
/// their parts are.
pub open spec fn parts_of(path: Seq<char>) -> Seq<Seq<char>> {
    start_of(path) + pieces_of(path).filter(steps())
}

/// Whether `path` leads to `root` or to something below it.
pub open spec fn is_within(path: Seq<char>, root: Seq<char>) -> bool {
    parts_of(root).is_prefix_of(parts_of(path))
}

/// Whether `path` starts at the root.
pub fn absolute(path: &str) -> (res: bool)
    ensures
        res == is_absolute(path@),
{
    path.unicode_len() > 0 && path.get_char(0) == '/'
}

/// Computes `parts_of`.
pub fn parts(path: &str) -> (res: Vec<String>)
    ensures
        res.deep_view() == parts_of(path@),
{
    let pieces = text::split(path, '/');
    proof {
        text::split_is_some(path@, '/');
        assert(pieces.deep_view()[0] == pieces@[0]@);
    }
    let mut res: Vec<String> = Vec::new();
    if absolute(path) {
        data::append(&mut res, "/".to_owned());
    } else if text::same(pieces[0].as_str(), ".") {
        data::append(&mut res, ".".to_owned());
    }
    proof {
        reveal(Seq::filter);
        assert(res.deep_view() =~= start_of(path@));
        assert(pieces.deep_view().take(0) =~= Seq::empty());
        assert(res.deep_view() =~= start_of(path@) + pieces.deep_view().take(0).filter(steps()));
    }
    for i in 0..pieces.len()
        invariant
            res.deep_view() == start_of(path@) + pieces.deep_view().take(i as int).filter(steps()),
    {
        proof {
            reveal(Seq::filter);
            let next = pieces.deep_view().take(i + 1);
            assert(next.drop_last() =~= pieces.deep_view().take(i as int));
            assert(next.last() == pieces@[i as int]@);
        }
        let ghost before = res.deep_view();
        let piece = pieces[i].as_str();
        if piece.unicode_len() > 0 && !text::same(piece, ".") {
            data::append(&mut res, piece.to_owned());
            proof {
                assert(res.deep_view() =~= start_of(path@) + pieces.deep_view().take(
                    i as int,
                ).filter(steps()).push(piece@));
            }
        }
    }
    proof {
        assert(pieces.deep_view().take(pieces@.len() as int) =~= pieces_of(path@));
    }
    res
}

/// Whether the two paths are the same.
pub fn same_path(a: &str, b: &str) -> (res: bool)
    ensures
        res == (parts_of(a@) == parts_of(b@)),
{
    parts(a).alike(&parts(b))
}

/// Whether `path` leads to `root` or to something below it.
pub fn within(path: &str, root: &str) -> (res: bool)
    ensures
        res == is_within(path@, root@),
{
    let path_parts = parts(path);
    let root_parts = parts(root);
    proof {
        assert(path_parts.deep_view().len() == path_parts@.len());
        assert(root_parts.deep_view().len() == root_parts@.len());
    }
    if root_parts.len() > path_parts.len() {
        return false;
    }
    for i in 0..root_parts.len()
        invariant
            root_parts@.len() <= path_parts@.len(),
            path_parts.deep_view() == parts_of(path@),
            root_parts.deep_view() == parts_of(root@),
            forall|j: int|
                0 <= j < i ==> #[trigger] root_parts.deep_view()[j] == path_parts.deep_view()[j],
    {
        proof {
            assert(root_parts.deep_view()[i as int] == root_parts@[i as int]@);
            assert(path_parts.deep_view()[i as int] == path_parts@[i as int]@);
        }
        if root_parts[i] != path_parts[i] {
            return false;
        }
    }
    true
}

/// `path` as it is read from `root`: an absolute path stands for itself.
pub open spec fn joined(root: Seq<char>, path: Seq<char>) -> Seq<char> {
    if is_absolute(path) || root.len() == 0 {
        path
    } else if root.last() == '/' {
        root + path
    } else {
        root + "/"@ + path
    }
}

/// Computes `joined`.
pub fn join(root: &str, path: &str) -> (res: String)
    ensures
        res@ == joined(root@, path@),
{
    let len: usize = root.unicode_len();
    if absolute(path) || len == 0 {
        path.to_owned()
    } else if root.get_char(len - 1) == '/' {
        text::concat2(root, path)
    } else {
        text::concat3(root, "/", path)
    }
}

/// A path leads to itself.
pub proof fn within_itself(path: Seq<char>)
    ensures
        is_within(path, path),
{
}

/// What is below something that is below `root` is below `root`.
pub proof fn within_chain(path: Seq<char>, middle: Seq<char>, root: Seq<char>)
    requires
        is_within(path, middle),
        is_within(middle, root),
    ensures
        is_within(path, root),
{
}

} // verus!
