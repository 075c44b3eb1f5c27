//! Display names in a tree of profiles: what they are, how a profile is
//! found by name, and what follows where no name occurs twice.

use vstd::prelude::*;
use crate::profile::Profile;
use crate::tree::FolderView;

verus! {

impl FolderView<Profile> {
    /// The display names of the profiles, in the order of `profiles`.
    pub open spec fn names(self) -> Seq<Seq<char>> {
        names_of(self.profiles())
    }

    /// The first profile, depth first, that goes by `name`.
    pub open spec fn find(self, name: Seq<char>) -> Option<Profile> {
        first_named(self.profiles(), name)
    }

    /// What holds of every tree that a load returns: no group is empty, and
    /// no two profiles anywhere in the tree share a display name.
    pub open spec fn valid(self) -> bool {
        &&& self.groups_nonempty()
        &&& self.names().no_duplicates()
    }
}

/// The display names of `profiles`, in order.
pub open spec fn names_of(profiles: Seq<Profile>) -> Seq<Seq<char>> {
    profiles.map_values(|p: Profile| p.metadata.display_name@)
}

/// The first of `profiles` whose display name is `name`.
pub open spec fn first_named(profiles: Seq<Profile>, name: Seq<char>) -> Option<Profile>
    decreases profiles.len(),
{
    if profiles.len() == 0 {
        None
    } else if profiles[0].metadata.display_name@ == name {
        Some(profiles[0])
    } else {
        first_named(profiles.drop_first(), name)
    }
}

/// A name that was not seen before can be recorded without a duplicate.
pub proof fn lemma_push_fresh(seen: Seq<Seq<char>>, name: Seq<char>)
    requires
        seen.no_duplicates(),
        !seen.contains(name),
    ensures
        seen.push(name).no_duplicates(),
{
    let after = seen.push(name);
    assert forall|i: int, j: int|
        0 <= i < after.len() && 0 <= j < after.len() && i != j implies after[i] != after[j] by {
        if i < seen.len() {
            assert(seen.contains(seen[i]));
        }
        if j < seen.len() {
            assert(seen.contains(seen[j]));
        }
    }
}

/// Searching a concatenation searches the left part first.
pub proof fn lemma_first_named_concat(a: Seq<Profile>, b: Seq<Profile>, name: Seq<char>)
    ensures
        first_named(a + b, name) == match first_named(a, name) {
            Some(p) => Some(p),
            None => first_named(b, name),
        },
    decreases a.len(),
{
    if a.len() == 0 {
        assert(a + b =~= b);
    } else {
        assert((a + b).drop_first() =~= a.drop_first() + b);
        lemma_first_named_concat(a.drop_first(), b, name);
    }
}

/// A profile found by name among the first `k` siblings is the one found
/// among all of them.
pub proof fn lemma_find_in_prefix(nodes: Seq<FolderView<Profile>>, k: int, name: Seq<char>)
    requires
        0 <= k <= nodes.len(),
        first_named(FolderView::profiles_of(nodes.take(k)), name) is Some,
    ensures
        first_named(FolderView::profiles_of(nodes), name) == first_named(
            FolderView::profiles_of(nodes.take(k)),
            name,
        ),
    decreases nodes.len() - k,
{
    if k == nodes.len() {
        assert(nodes.take(k) =~= nodes);
    } else {
        assert(nodes.take(k + 1).drop_last() =~= nodes.take(k));
        lemma_first_named_concat(
            FolderView::profiles_of(nodes.take(k)),
            nodes[k].profiles(),
            name,
        );
        lemma_find_in_prefix(nodes, k + 1, name);
    }
}

/// In a valid tree, two different positions of the flattening hold profiles
/// with different display names.
pub proof fn lemma_valid_names_distinct(tree: FolderView<Profile>, i: int, j: int)
    requires
        tree.valid(),
        0 <= i < tree.profiles().len(),
        0 <= j < tree.profiles().len(),
        i != j,
    ensures
        tree.profiles()[i].metadata.display_name@ != tree.profiles()[j].metadata.display_name@,
{
    assert(tree.names()[i] == tree.profiles()[i].metadata.display_name@);
    assert(tree.names()[j] == tree.profiles()[j].metadata.display_name@);
}

/// Whether the profile at position `i` is the first of `profiles` that goes
/// by `name`.
pub open spec fn first_at(profiles: Seq<Profile>, name: Seq<char>, i: int) -> bool {
    &&& 0 <= i < profiles.len()
    &&& profiles[i].metadata.display_name@ == name
    &&& forall|k: int| 0 <= k < i ==> (#[trigger] profiles[k]).metadata.display_name@ != name
}

/// A search by name finds nothing where no profile of the list goes by that
/// name, else the first profile that does.
pub proof fn lemma_first_named(profiles: Seq<Profile>, name: Seq<char>)
    ensures
        match first_named(profiles, name) {
            Some(p) => exists|i: int| #[trigger] first_at(profiles, name, i) && profiles[i] == p,
            None => forall|i: int|
                0 <= i < profiles.len() ==> (#[trigger] profiles[i]).metadata.display_name@ != name,
        },
    decreases profiles.len(),
{
    if profiles.len() == 0 {
    } else if profiles[0].metadata.display_name@ == name {
        assert(first_at(profiles, name, 0));
    } else {
        let rest = profiles.drop_first();
        lemma_first_named(rest, name);
        match first_named(rest, name) {
            Some(p) => {
                let i = choose|i: int| #[trigger] first_at(rest, name, i) && rest[i] == p;
                assert forall|k: int| 0 <= k < i + 1 implies (#[trigger] profiles[k])
                    .metadata.display_name@ != name by {
                    if k > 0 {
                        assert(profiles[k] == rest[k - 1]);
                    }
                }
                assert(first_at(profiles, name, i + 1));
            },
            None => {
                assert forall|i: int| 0 <= i < profiles.len() implies (#[trigger] profiles[i])
                    .metadata.display_name@ != name by {
                    if i > 0 {
                        assert(profiles[i] == rest[i - 1]);
                    }
                }
            },
        }
    }
}

/// A tree holds a profile under `name` exactly when one of its flattened
/// profiles has that display name, and what a search returns is such a
/// profile.
pub proof fn lemma_find_iff_named(tree: FolderView<Profile>, name: Seq<char>)
    ensures
        tree.find(name) is Some <==> tree.names().contains(name),
        tree.find(name) matches Some(p) ==> p.metadata.display_name@ == name
            && tree.profiles().contains(p),
{
    let profiles = tree.profiles();
    lemma_first_named(profiles, name);
    match tree.find(name) {
        Some(p) => {
            let i = choose|i: int| #[trigger] first_at(profiles, name, i) && profiles[i] == p;
            assert(tree.names()[i] == name);
        },
        None => {
            if tree.names().contains(name) {
                let i = choose|i: int| 0 <= i < tree.names().len() && tree.names()[i] == name;
            }
        },
    }
}

/// In a valid tree at most one profile goes by a name: a search for the name
/// of the profile at any position returns that profile.
pub proof fn lemma_find_unique(tree: FolderView<Profile>, i: int)
    requires
        tree.valid(),
        0 <= i < tree.profiles().len(),
    ensures
        tree.find(tree.profiles()[i].metadata.display_name@) == Some(tree.profiles()[i]),
{
    let profiles = tree.profiles();
    let name = profiles[i].metadata.display_name@;
    lemma_first_named(profiles, name);
    let p = tree.find(name)->Some_0;
    let k = choose|k: int| #[trigger] first_at(profiles, name, k) && profiles[k] == p;
    if k != i {
        lemma_valid_names_distinct(tree, k, i);
    }
}

} // verus!
