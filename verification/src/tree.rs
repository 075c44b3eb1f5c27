//! The tree that a loaded folder stands for, and what holds of every such
//! tree.

use vstd::prelude::*;

verus! {

/// A tree of named groups with profiles of type `P` at its leaves.
pub enum FolderView<P> {
    Profile(P),
    Group { display_name: Seq<char>, content: Seq<FolderView<P>> },
}

impl<P> FolderView<P> {
    /// The profiles of the tree, depth first and left to right.
    pub open spec fn profiles(self) -> Seq<P>
        decreases self,
    {
        match self {
            FolderView::Profile(p) => seq![p],
            FolderView::Group { content, .. } => Self::profiles_of(content),
        }
    }

    /// The profiles of a run of sibling trees, in order.
    pub open spec fn profiles_of(nodes: Seq<FolderView<P>>) -> Seq<P>
        decreases nodes,
    {
        if nodes.len() == 0 {
            Seq::empty()
        } else {
            Self::profiles_of(nodes.drop_last()) + nodes.last().profiles()
        }
    }

    /// The number of leaves: one per profile, a group the sum of its children.
    pub open spec fn count(self) -> nat
        decreases self,
    {
        match self {
            FolderView::Profile(_) => 1,
            FolderView::Group { content, .. } => Self::count_of(content),
        }
    }

    /// The number of leaves in a run of sibling trees.
    pub open spec fn count_of(nodes: Seq<FolderView<P>>) -> nat
        decreases nodes,
    {
        if nodes.len() == 0 {
            0
        } else {
            Self::count_of(nodes.drop_last()) + nodes.last().count()
        }
    }

    /// No group of the tree is empty.
    pub open spec fn groups_nonempty(self) -> bool
        decreases self,
    {
        match self {
            FolderView::Profile(_) => true,
            FolderView::Group { content, .. } => {
                &&& content.len() > 0
                &&& forall|i: int|
                    0 <= i < content.len() ==> (#[trigger] content[i]).groups_nonempty()
            },
        }
    }
}

/// A run of siblings holds at least as many leaves as any of its prefixes.
pub proof fn lemma_count_of_prefix<P>(nodes: Seq<FolderView<P>>, k: int)
    requires
        0 <= k <= nodes.len(),
    ensures
        FolderView::count_of(nodes.take(k)) <= FolderView::count_of(nodes),
    decreases nodes.len() - k,
{
    if k == nodes.len() {
        assert(nodes.take(k) =~= nodes);
    } else {
        assert(nodes.take(k + 1).drop_last() =~= nodes.take(k));
        lemma_count_of_prefix(nodes, k + 1);
    }
}

/// Counting the profiles of a tree gives the length of its flattening.
pub proof fn lemma_count_is_flattened_len<P>(tree: FolderView<P>)
    ensures
        tree.count() == tree.profiles().len(),
    decreases tree,
{
    match tree {
        FolderView::Profile(_) => {},
        FolderView::Group { content, .. } => {
            lemma_count_of_is_flattened_len(content);
        },
    }
}

/// Counting the profiles of a run of siblings gives the length of its
/// flattening.
pub proof fn lemma_count_of_is_flattened_len<P>(nodes: Seq<FolderView<P>>)
    ensures
        FolderView::count_of(nodes) == FolderView::profiles_of(nodes).len(),
    decreases nodes,
{
    if nodes.len() > 0 {
        lemma_count_of_is_flattened_len(nodes.drop_last());
        lemma_count_is_flattened_len(nodes.last());
    }
}

} // verus!
