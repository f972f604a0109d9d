//! The path accessor: safe indexing into a JSON value by a chain of keys
//! and array positions.

use crate::json::{element, is_null, member, tree_of, Tree};
use serde_json::Value;
use vstd::prelude::*;

verus! {

/// One step of a path into a tree: an object key or an array position.
pub enum Hop {
    Key(Seq<char>),
    Index(nat),
}

impl Tree {
    /// The subtree one hop away; `Null` where there is none.
    pub open spec fn hop(self, hop: Hop) -> Tree {
        match hop {
            Hop::Key(key) => self.member(key),
            Hop::Index(position) => self.element(position),
        }
    }

    /// The subtree reached by following `path` from `self`. A path that
    /// leaves the tree anywhere ends in `Null`.
    pub open spec fn at(self, path: Seq<Hop>) -> Tree
        decreases path.len(),
    {
        if path.len() == 0 {
            self
        } else {
            self.at(path.drop_last()).hop(path.last())
        }
    }
}

/// One step of a path into a JSON value.
#[derive(Clone, Copy, Debug, PartialEq, Eq)]
pub enum Segment<'a> {
    Key(&'a str),
    Index(usize),
}

impl<'a> View for Segment<'a> {
    type V = Hop;

    open spec fn view(&self) -> Hop {
        match self {
            Segment::Key(key) => Hop::Key(key@),
            Segment::Index(position) => Hop::Index(*position as nat),
        }
    }
}

/// The hops that a sequence of segments stands for.
pub open spec fn hops(path: Seq<Segment<'_>>) -> Seq<Hop> {
    path.map_values(|segment: Segment| segment@)
}

/// Follows `path` from `root`, one key or index at a time. Where the path
/// leaves the tree the result is a null value, never a failure.
pub fn lookup<'a>(root: &'a Value, path: &[Segment<'_>]) -> (node: &'a Value)
    ensures
        tree_of(*node) == tree_of(*root).at(hops(path@)),
{
    let mut node = root;
    let mut taken: usize = 0;
    while taken < path.len()
        invariant
            taken <= path@.len(),
            tree_of(*node) == tree_of(*root).at(hops(path@).take(taken as int)),
        decreases path@.len() - taken,
    {
        proof {
            let done = hops(path@).take(taken as int);
            let next = hops(path@).take(taken + 1);
            assert(next.drop_last() =~= done);
            assert(next.last() == path@[taken as int]@);
        }
        node = match path[taken] {
            Segment::Key(key) => member(node, key),
            Segment::Index(position) => element(node, position),
        };
        taken = taken + 1;
    }
    proof {
        assert(hops(path@).take(taken as int) =~= hops(path@));
    }
    node
}

/// Follows `path` from `root` and tells a node that is there from one that
/// is not: `None` stands for a node that is absent or null, and a node that
/// is present is returned even where it is empty.
pub fn find<'a>(root: &'a Value, path: &[Segment<'_>]) -> (found: Option<&'a Value>)
    ensures
        match found {
            Some(node) => tree_of(*node) == tree_of(*root).at(hops(path@)) && !(tree_of(*node)
                is Null),
            None => tree_of(*root).at(hops(path@)) is Null,
        },
{
    let node = lookup(root, path);
    if is_null(node) {
        None
    } else {
        Some(node)
    }
}

/// The member of `value` under `key`, where there is one that is not null.
pub fn find_key<'a>(value: &'a Value, key: &str) -> (found: Option<&'a Value>)
    ensures
        match found {
            Some(node) => tree_of(*node) == tree_of(*value).member(key@) && !(tree_of(*node)
                is Null),
            None => tree_of(*value).member(key@) is Null,
        },
{
    let path = [Segment::Key(key)];
    proof {
        assert(hops(path@) =~= seq![Hop::Key(key@)]);
        lemma_one_key(tree_of(*value), key@);
    }
    find(value, &path)
}

/// Following a path that is one hop longer is following the path and then
/// taking the hop.
pub proof fn lemma_at_push(tree: Tree, path: Seq<Hop>, hop: Hop)
    ensures
        tree.at(path.push(hop)) == tree.at(path).hop(hop),
{
    assert(path.push(hop).drop_last() =~= path);
}

/// A path of one key leads to the member under that key.
pub proof fn lemma_one_key(tree: Tree, key: Seq<char>)
    ensures
        tree.at(seq![Hop::Key(key)]) == tree.member(key),
{
    lemma_at_push(tree, Seq::empty(), Hop::Key(key));
    assert(Seq::<Hop>::empty().push(Hop::Key(key)) =~= seq![Hop::Key(key)]);
}

/// A path of two keys leads to the member of the member.
pub proof fn lemma_two_keys(tree: Tree, first: Seq<char>, second: Seq<char>)
    ensures
        tree.at(seq![Hop::Key(first), Hop::Key(second)]) == tree.member(first).member(second),
{
    lemma_one_key(tree, first);
    lemma_at_push(tree, seq![Hop::Key(first)], Hop::Key(second));
    assert(seq![Hop::Key(first)].push(Hop::Key(second)) =~= seq![
        Hop::Key(first),
        Hop::Key(second),
    ]);
}

/// A path of three keys leads to the member of the member of the member.
pub proof fn lemma_three_keys(
    tree: Tree,
    first: Seq<char>,
    second: Seq<char>,
    third: Seq<char>,
)
    ensures
        tree.at(seq![Hop::Key(first), Hop::Key(second), Hop::Key(third)]) == tree.member(
            first,
        ).member(second).member(third),
{
    lemma_two_keys(tree, first, second);
    lemma_at_push(tree, seq![Hop::Key(first), Hop::Key(second)], Hop::Key(third));
    assert(seq![Hop::Key(first), Hop::Key(second)].push(Hop::Key(third)) =~= seq![
        Hop::Key(first),
        Hop::Key(second),
        Hop::Key(third),
    ]);
}

} // verus!
