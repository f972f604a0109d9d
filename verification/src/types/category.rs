//! Categories: the titled sections of a browse or search page.

use crate::error::{QueryError, QueryErrorView};
use crate::json::{as_array, tree_of, trees_of, Tree};
use crate::path::{find_key, hops, Hop, Segment};
use crate::types::items::{ChannelVideo, SearchChannel, SearchPlaylist};
use serde_json::Value;
use vstd::prelude::*;

verus! {

/// One item of a category. A category mixes kinds, so each item says which
/// kind it is.
#[derive(Debug, PartialEq, Eq)]
pub enum CategoryTypes<'a> {
    Video(ChannelVideo<'a>),
    SearchChannel(SearchChannel<'a>),
    SearchPlaylist(SearchPlaylist<'a>),
}

/// The content of a [`CategoryTypes`]: the kind and the renderer.
pub enum CategoryTypesView {
    Video(Tree),
    SearchChannel(Tree),
    SearchPlaylist(Tree),
}

impl<'a> View for CategoryTypes<'a> {
    type V = CategoryTypesView;

    open spec fn view(&self) -> CategoryTypesView {
        match self {
            CategoryTypes::Video(video) => CategoryTypesView::Video(video@),
            CategoryTypes::SearchChannel(channel) => CategoryTypesView::SearchChannel(channel@),
            CategoryTypes::SearchPlaylist(playlist) => CategoryTypesView::SearchPlaylist(
                playlist@,
            ),
        }
    }
}

/// The item that a child node of a list stands for. The node marks its kind
/// by the member that holds its renderer: `gridVideoRenderer`,
/// `gridChannelRenderer` or `gridPlaylistRenderer`, looked for in this
/// order. A node with none of them is of no recognized kind.
pub open spec fn classify(child: Tree) -> Option<CategoryTypesView> {
    if !(child.member("gridVideoRenderer"@) is Null) {
        Some(CategoryTypesView::Video(child.member("gridVideoRenderer"@)))
    } else if !(child.member("gridChannelRenderer"@) is Null) {
        Some(CategoryTypesView::SearchChannel(child.member("gridChannelRenderer"@)))
    } else if !(child.member("gridPlaylistRenderer"@) is Null) {
        Some(CategoryTypesView::SearchPlaylist(child.member("gridPlaylistRenderer"@)))
    } else {
        None
    }
}

impl<'a> CategoryTypes<'a> {
    /// Classifies one child node of a list by its marker.
    pub fn from_node(child: &'a Value) -> (item: Option<CategoryTypes<'a>>)
        ensures
            match item {
                Some(item) => classify(tree_of(*child)) == Some(item@),
                None => classify(tree_of(*child)) is None,
            },
    {
        if let Some(renderer) = find_key(child, "gridVideoRenderer") {
            Some(CategoryTypes::Video(ChannelVideo { renderer }))
        } else if let Some(renderer) = find_key(child, "gridChannelRenderer") {
            Some(CategoryTypes::SearchChannel(SearchChannel { renderer }))
        } else if let Some(renderer) = find_key(child, "gridPlaylistRenderer") {
            Some(CategoryTypes::SearchPlaylist(SearchPlaylist { renderer }))
        } else {
            None
        }
    }
}

/// The position of the first node of no recognized kind, if there is one.
pub open spec fn first_unrecognized(children: Seq<Tree>) -> Option<nat>
    decreases children.len(),
{
    if children.len() == 0 {
        None
    } else if classify(children.last()) is None {
        match first_unrecognized(children.drop_last()) {
            Some(position) => Some(position),
            None => Some((children.len() - 1) as nat),
        }
    } else {
        first_unrecognized(children.drop_last())
    }
}

/// The nodes of a recognized kind, in their order.
pub open spec fn recognized(children: Seq<Tree>) -> Seq<Tree> {
    children.filter(|child: Tree| classify(child) is Some)
}

/// The items that a list of child nodes stands for. The list must be an
/// array, and every child of a recognized kind: the first child that is not
/// is reported by its position, and a list that is no array by the empty
/// path.
pub open spec fn contents_of(list: Tree) -> Result<Seq<CategoryTypesView>, QueryErrorView> {
    match list {
        Tree::Array(children) => match first_unrecognized(children) {
            Some(position) => Err(QueryErrorView::ExtractionFailure(seq![Hop::Index(position)])),
            None => Ok(children.map_values(|child: Tree| classify(child).unwrap())),
        },
        _ => Err(QueryErrorView::ExtractionFailure(Seq::empty())),
    }
}

/// A named, described section of a page with the items it lists.
#[derive(Debug, PartialEq, Eq)]
pub struct Category<'a> {
    pub title: String,
    pub contents: Vec<CategoryTypes<'a>>,
    pub description_html: String,
    pub url: String,
    pub badges: String,
}

/// The content of a [`Category`].
pub struct CategoryView {
    pub title: Seq<char>,
    pub contents: Seq<CategoryTypesView>,
    pub description_html: Seq<char>,
    pub url: Seq<char>,
    pub badges: Seq<char>,
}

impl<'a> View for Category<'a> {
    type V = CategoryView;

    open spec fn view(&self) -> CategoryView {
        CategoryView {
            title: self.title@,
            contents: self.contents@.map_values(|item: CategoryTypes| item@),
            description_html: self.description_html@,
            url: self.url@,
            badges: self.badges@,
        }
    }
}

impl<'a> Category<'a> {
    /// Builds a category from its texts and from the list of its child
    /// nodes. Every child becomes one item, in the order of the list; no
    /// child is dropped.
    pub fn new(
        title: String,
        description_html: String,
        url: String,
        badges: String,
        list: &'a Value,
    ) -> (outcome: Result<Category<'a>, QueryError>)
        ensures
            match outcome {
                Ok(category) => contents_of(tree_of(*list)) == Ok::<
                    Seq<CategoryTypesView>,
                    QueryErrorView,
                >(category@.contents) && category@.title == title@
                    && category@.description_html == description_html@ && category@.url == url@
                    && category@.badges == badges@,
                Err(error) => contents_of(tree_of(*list)) == Err::<
                    Seq<CategoryTypesView>,
                    QueryErrorView,
                >(error@),
            },
    {
        let children = match as_array(list) {
            Some(children) => children,
            None => {
                let path: Vec<Segment<'static>> = Vec::new();
                assert(hops(path@) =~= Seq::<Hop>::empty());
                return Err(QueryError::ExtractionFailure(path));
            },
        };
        let ghost trees = trees_of(children@);
        let mut contents: Vec<CategoryTypes<'a>> = Vec::new();
        let mut taken: usize = 0;
        while taken < children.len()
            invariant
                taken <= children@.len(),
                trees == trees_of(children@),
                tree_of(*list) == Tree::Array(trees),
                first_unrecognized(trees.take(taken as int)) is None,
                contents@.map_values(|item: CategoryTypes| item@) == trees.take(
                    taken as int,
                ).map_values(|child: Tree| classify(child).unwrap()),
            decreases children@.len() - taken,
        {
            let ghost seen = trees.take(taken as int);
            let ghost shown = contents@.map_values(|item: CategoryTypes| item@);
            proof {
                assert(trees.take(taken + 1).drop_last() =~= seen);
                assert(trees.take(taken + 1).last() == tree_of(children@[taken as int]));
            }
            match CategoryTypes::from_node(&children[taken]) {
                Some(item) => {
                    let ghost kind = item@;
                    contents.push(item);
                    proof {
                        assert(trees.take(taken + 1) =~= seen.push(trees[taken as int]));
                        assert(contents@.map_values(|item: CategoryTypes| item@) =~= shown.push(
                            kind,
                        ));
                        assert(seen.push(trees[taken as int]).map_values(
                            |child: Tree| classify(child).unwrap(),
                        ) =~= seen.map_values(|child: Tree| classify(child).unwrap()).push(kind));
                    }
                },
                None => {
                    proof {
                        lemma_first_unrecognized_stays(trees, taken as nat);
                    }
                    let path = vec![Segment::Index(taken)];
                    assert(hops(path@) =~= seq![Hop::Index(taken as nat)]);
                    return Err(QueryError::ExtractionFailure(path));
                },
            }
            taken = taken + 1;
        }
        proof {
            assert(trees.take(taken as int) =~= trees);
        }
        Ok(Category { title, contents, description_html, url, badges })
    }
}

/// The contents of a category follow the children of a recognized kind: the
/// contents are as many as these children, and they are the items of these
/// children in the order of the list.
pub proof fn contents_follow_recognized_children(
    children: Seq<Tree>,
    contents: Seq<CategoryTypesView>,
)
    requires
        contents_of(Tree::Array(children)) == Ok::<Seq<CategoryTypesView>, QueryErrorView>(
            contents,
        ),
    ensures
        contents.len() == recognized(children).len(),
        contents == children.filter_map(|child: Tree| classify(child)),
        forall|position: int|
            0 <= position < contents.len() ==> classify(
                #[trigger] recognized(children)[position],
            ) == Some(contents[position]),
{
    lemma_all_recognized(children);
}

/// What [`first_unrecognized`] finds is the first node of no recognized
/// kind: the node at that position is of none, every node before it is of
/// one, and where nothing is found every node is of one.
pub proof fn first_unrecognized_is_first(children: Seq<Tree>)
    ensures
        match first_unrecognized(children) {
            Some(position) => {
                &&& position < children.len()
                &&& classify(children[position as int]) is None
                &&& forall|before: int|
                    0 <= before < position ==> classify(#[trigger] children[before]) is Some
            },
            None => forall|position: int|
                0 <= position < children.len() ==> classify(#[trigger] children[position])
                    is Some,
        },
    decreases children.len(),
{
    if children.len() > 0 {
        let rest = children.drop_last();
        first_unrecognized_is_first(rest);
        assert forall|position: int| 0 <= position < rest.len() implies rest[position]
            == children[position] by {}
        match first_unrecognized(children) {
            Some(found) => {
                assert forall|before: int| 0 <= before < found implies classify(
                    #[trigger] children[before],
                ) is Some by {
                    assert(rest[before] == children[before]);
                }
            },
            None => {
                assert forall|position: int| 0 <= position < children.len() implies classify(
                    #[trigger] children[position],
                ) is Some by {
                    if position < rest.len() {
                        assert(rest[position] == children[position]);
                    }
                }
            },
        }
    }
}

/// In a list without a node of no recognized kind, the recognized nodes are
/// all nodes, and their items are the items of all nodes.
pub proof fn lemma_all_recognized(children: Seq<Tree>)
    requires
        first_unrecognized(children) is None,
    ensures
        recognized(children) == children,
        children.filter_map(|child: Tree| classify(child)) == children.map_values(
            |child: Tree| classify(child).unwrap(),
        ),
    decreases children.len(),
{
    reveal(Seq::filter);
    reveal(Seq::filter_map);
    if children.len() > 0 {
        let rest = children.drop_last();
        lemma_all_recognized(rest);
        assert(rest.push(children.last()) =~= children);
    }
    assert(children.filter_map(|child: Tree| classify(child)) =~= children.map_values(
        |child: Tree| classify(child).unwrap(),
    ));
}

/// Once a prefix of a list holds a first node of no recognized kind, that
/// node is the first of the whole list.
pub proof fn lemma_first_unrecognized_stays(children: Seq<Tree>, position: nat)
    requires
        position < children.len(),
        first_unrecognized(children.take(position + 1int)) == Some(position),
    ensures
        first_unrecognized(children) == Some(position),
    decreases children.len(),
{
    if children.len() > position + 1 {
        assert(children.drop_last().take(position + 1int) =~= children.take(position + 1int));
        lemma_first_unrecognized_stays(children.drop_last(), position);
    } else {
        assert(children.take(position + 1int) =~= children);
    }
}

} // verus!
