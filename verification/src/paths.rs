//! Paths as texts, with `/` between their components.

use vstd::prelude::*;

use crate::pieces::{fields, split_fields};
use crate::text::{begins_with, same_text, texts};

verus! {

/// Whether a path starts at the root.
pub open spec fn rooted(path: Seq<char>) -> bool {
    "/"@.is_prefix_of(path)
}

/// The components among the first `n` pieces of a path: empty pieces do not
/// count, nor does a dot, unless the path begins with it.
pub open spec fn kept_pieces(pieces: Seq<Seq<char>>, from_root: bool, n: int) -> Seq<Seq<char>>
    decreases n,
{
    if n <= 0 {
        Seq::empty()
    } else {
        let before = kept_pieces(pieces, from_root, n - 1);
        let p = pieces[n - 1];
        if p.len() == 0 || (p == "."@ && (from_root || n > 1)) {
            before
        } else {
            before.push(p)
        }
    }
}

/// The components of a path.
pub open spec fn components(path: Seq<char>) -> Seq<Seq<char>> {
    kept_pieces(fields(path, '/'), rooted(path), fields(path, '/').len() as int)
}

/// Whether two texts are the same path: both start at the root or neither does,
/// and their components are the same.
pub open spec fn same_path(a: Seq<char>, b: Seq<char>) -> bool {
    rooted(a) == rooted(b) && components(a) == components(b)
}

fn split_path(path: &str) -> (r: Vec<String>)
    ensures
        texts(r@) == components(path@),
{
    let from_root = begins_with(path, "/");
    let pieces = split_fields(path, '/');
    let ghost all = texts(pieces@);
    let mut r: Vec<String> = Vec::new();
    let mut i: usize = 0;
    assert(texts(r@) =~= kept_pieces(all, from_root, 0));
    while i < pieces.len()
        invariant
            all == texts(pieces@),
            i <= pieces@.len(),
            texts(r@) == kept_pieces(all, from_root, i as int),
        decreases pieces.len() - i,
    {
        let ghost before = texts(r@);
        let piece = pieces[i].as_str();
        let dot = same_text(piece, ".");
        if !(piece.is_empty() || (dot && (from_root || i > 0))) {
            r.push(pieces[i].clone());
            assert(texts(r@) =~= before.push(all[i as int]));
        }
        i += 1;
    }
    r
}

fn same_list(a: &Vec<String>, b: &Vec<String>) -> (r: bool)
    ensures
        r == (texts(a@) == texts(b@)),
{
    if a.len() != b.len() {
        assert(texts(a@).len() != texts(b@).len());
        return false;
    }
    let mut i: usize = 0;
    while i < a.len()
        invariant
            i <= a@.len(),
            a@.len() == b@.len(),
            forall|k: int| 0 <= k < i ==> (#[trigger] texts(a@)[k]) == texts(b@)[k],
        decreases a.len() - i,
    {
        if !same_text(a[i].as_str(), b[i].as_str()) {
            assert(texts(a@)[i as int] != texts(b@)[i as int]);
            return false;
        }
        i += 1;
    }
    assert(texts(a@) =~= texts(b@));
    true
}

/// Whether two texts are the same path.
pub fn is_same_path(a: &str, b: &str) -> (r: bool)
    ensures
        r == same_path(a@, b@),
{
    begins_with(a, "/") == begins_with(b, "/") && same_list(&split_path(a), &split_path(b))
}

} // verus!
