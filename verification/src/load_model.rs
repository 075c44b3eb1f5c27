//! What loading a scanned directory gives, as a function of the scan and of
//! the display names seen so far, and what holds of every load.

use vstd::prelude::*;
use crate::error::ProfileLoadError;
use crate::names::{lemma_push_fresh, names_of};
use crate::profile::{Profile, ProfileMetadata};
use crate::profile_config::ProfileConfig;
use crate::scan::{has_files, DirScan, EntryKind, EntryScan, ProfileRead};
use crate::tree::FolderView;

verus! {

/// What a load leaves behind: its result, and the display names seen so far.
pub struct Outcome {
    /// No node for an ignored directory, a tree, or the first failure.
    pub result: Result<Option<FolderView<Profile>>, ProfileLoadError>,
    /// The names seen before the load, then those that it added.
    pub seen: Seq<Seq<char>>,
}

/// What loading a run of directory entries leaves behind.
pub struct ChildrenOutcome {
    /// The trees of the entries that gave one, in order, or the first failure.
    pub result: Result<Seq<FolderView<Profile>>, ProfileLoadError>,
    /// The names seen before the load, then those that it added.
    pub seen: Seq<Seq<char>>,
}

/// The display name of a profile: the one its document sets, else the
/// directory's name.
pub open spec fn resolved_name(config: ProfileConfig, dir_name: String) -> String {
    match config.metadata_override().display_name {
        Some(n) => n,
        None => dir_name,
    }
}

/// The working directory of a profile: the one its document sets, else the
/// directory itself.
pub open spec fn resolved_pwd(config: ProfileConfig, dir_path: String) -> String {
    match config.metadata_override().pwd {
        Some(p) => p,
        None => dir_path,
    }
}

/// The executable of a profile: what the search for the binary that its
/// document names gave, else what the search for the default binary gave.
pub open spec fn resolved_bin(
    bin_lookup: Option<Result<String, which::Error>>,
    default_bin: Result<String, which::Error>,
) -> Result<String, which::Error> {
    match bin_lookup {
        Some(found) => found,
        None => default_bin,
    }
}

/// What a directory with a profile document loads to.
pub open spec fn load_profile(
    path: String,
    name: String,
    read: ProfileRead,
    seen: Seq<Seq<char>>,
    default_bin: Result<String, which::Error>,
) -> Outcome {
    match read {
        ProfileRead::Unreadable(e) => Outcome { result: Err(ProfileLoadError::IOError(e)), seen },
        ProfileRead::Malformed(e) => Outcome {
            result: Err(ProfileLoadError::ConfigParseError(e)),
            seen,
        },
        ProfileRead::Parsed { config, bin_lookup } => {
            let display_name = resolved_name(config, name);
            if seen.contains(display_name@) {
                Outcome { result: Err(ProfileLoadError::NameConflict(display_name)), seen }
            } else {
                match resolved_bin(bin_lookup, default_bin) {
                    Err(e) => Outcome {
                        result: Err(ProfileLoadError::BadBinary(e)),
                        seen: seen.push(display_name@),
                    },
                    Ok(bin_path) => Outcome {
                        result: Ok(
                            Some(
                                FolderView::Profile(
                                    Profile {
                                        metadata: ProfileMetadata {
                                            display_name,
                                            pwd: resolved_pwd(config, path),
                                            bin_path,
                                        },
                                        config,
                                    },
                                ),
                            ),
                        ),
                        seen: seen.push(display_name@),
                    },
                }
            }
        },
    }
}

/// What a scanned path loads to, given the names seen so far.
pub open spec fn load_dir(
    dir: DirScan,
    seen: Seq<Seq<char>>,
    default_bin: Result<String, which::Error>,
) -> Outcome
    decreases dir,
{
    if !dir.is_dir {
        Outcome { result: Err(ProfileLoadError::NotDirectory(dir.path)), seen }
    } else if dir.ignored {
        Outcome { result: Ok(None), seen }
    } else {
        match dir.profile {
            Some(read) => load_profile(dir.path, dir.name, read, seen, default_bin),
            None => match dir.kinds {
                Err(e) => Outcome { result: Err(ProfileLoadError::IOError(e)), seen },
                Ok(kinds) => if has_files(kinds@) {
                    Outcome { result: Err(ProfileLoadError::NoConfigFile(dir.path)), seen }
                } else {
                    match dir.entries {
                        Err(e) => Outcome { result: Err(ProfileLoadError::IOError(e)), seen },
                        Ok(entries) => {
                            let sub = load_entries(entries@, seen, default_bin);
                            match sub.result {
                                Err(e) => Outcome { result: Err(e), seen: sub.seen },
                                Ok(children) => if children.len() == 0 {
                                    Outcome {
                                        result: Err(ProfileLoadError::EmptyGroup(dir.path)),
                                        seen: sub.seen,
                                    }
                                } else {
                                    Outcome {
                                        result: Ok(
                                            Some(
                                                FolderView::Group {
                                                    display_name: dir.name@,
                                                    content: children,
                                                },
                                            ),
                                        ),
                                        seen: sub.seen,
                                    }
                                },
                            }
                        },
                    }
                },
            },
        }
    }
}

/// What the entries of a group load to, one after the other: the first
/// failure ends the load, an ignored directory adds nothing.
pub open spec fn load_entries(
    entries: Seq<EntryScan>,
    seen: Seq<Seq<char>>,
    default_bin: Result<String, which::Error>,
) -> ChildrenOutcome
    decreases entries,
{
    if entries.len() == 0 {
        ChildrenOutcome { result: Ok(Seq::empty()), seen }
    } else {
        let before = load_entries(entries.drop_last(), seen, default_bin);
        match before.result {
            Err(_) => before,
            Ok(children) => match entries.last() {
                EntryScan::Unreadable(e) => ChildrenOutcome {
                    result: Err(ProfileLoadError::IOError(e)),
                    seen: before.seen,
                },
                EntryScan::Found(dir) => {
                    let one = load_dir(dir, before.seen, default_bin);
                    match one.result {
                        Err(e) => ChildrenOutcome { result: Err(e), seen: one.seen },
                        Ok(None) => ChildrenOutcome { result: Ok(children), seen: one.seen },
                        Ok(Some(node)) => ChildrenOutcome {
                            result: Ok(children.push(node)),
                            seen: one.seen,
                        },
                    }
                },
            },
        }
    }
}

/// What a load from the root gives: the root's own failure to resolve, the
/// first failure below it, an empty group where the root itself is ignored,
/// else the tree.
pub open spec fn load_root(
    path: String,
    root: Result<DirScan, std::io::Error>,
    default_bin: Result<String, which::Error>,
) -> Result<FolderView<Profile>, ProfileLoadError> {
    match root {
        Err(e) => Err(ProfileLoadError::IOError(e)),
        Ok(dir) => match load_dir(dir, Seq::empty(), default_bin).result {
            Err(e) => Err(e),
            Ok(None) => Err(ProfileLoadError::EmptyGroup(path)),
            Ok(Some(tree)) => Ok(tree),
        },
    }
}

/// Once a prefix of the entries has failed, the whole run fails in the same
/// way.
pub proof fn lemma_load_entries_fails(
    entries: Seq<EntryScan>,
    k: int,
    seen: Seq<Seq<char>>,
    default_bin: Result<String, which::Error>,
)
    requires
        0 <= k <= entries.len(),
        load_entries(entries.take(k), seen, default_bin).result is Err,
    ensures
        load_entries(entries, seen, default_bin) == load_entries(
            entries.take(k),
            seen,
            default_bin,
        ),
    decreases entries.len() - k,
{
    if k == entries.len() {
        assert(entries.take(k) =~= entries);
    } else {
        assert(entries.take(k + 1).drop_last() =~= entries.take(k));
        lemma_load_entries_fails(entries, k + 1, seen, default_bin);
    }
}

/// What a load of one directory guarantees: a tree that it returns has no
/// empty group, the names it records are exactly the names of that tree's
/// profiles in order, an ignored directory records nothing, and no name is
/// ever recorded twice.
pub proof fn lemma_load_dir_valid(
    dir: DirScan,
    seen: Seq<Seq<char>>,
    default_bin: Result<String, which::Error>,
)
    ensures
        match load_dir(dir, seen, default_bin).result {
            Ok(Some(tree)) => {
                &&& tree.groups_nonempty()
                &&& load_dir(dir, seen, default_bin).seen == seen + tree.names()
            },
            Ok(None) => load_dir(dir, seen, default_bin).seen == seen,
            Err(_) => true,
        },
        seen.no_duplicates() ==> load_dir(dir, seen, default_bin).seen.no_duplicates(),
    decreases dir,
{
    if dir.profile_matters() {
        match dir.profile {
            Some(ProfileRead::Parsed { config, .. }) => {
                let display_name = resolved_name(config, dir.name);
                if seen.no_duplicates() && !seen.contains(display_name@) {
                    lemma_push_fresh(seen, display_name@);
                }
            },
            Some(_) => {},
            None => {
                if let Ok(entries) = dir.entries {
                    lemma_load_entries_valid(entries@, seen, default_bin);
                }
            },
        }
    }
}

/// What a load of a run of entries guarantees: the trees that it returns have
/// no empty group, the names it records are exactly the names of their
/// profiles in order, and no name is ever recorded twice.
pub proof fn lemma_load_entries_valid(
    entries: Seq<EntryScan>,
    seen: Seq<Seq<char>>,
    default_bin: Result<String, which::Error>,
)
    ensures
        match load_entries(entries, seen, default_bin).result {
            Ok(children) => {
                &&& forall|i: int|
                    0 <= i < children.len() ==> (#[trigger] children[i]).groups_nonempty()
                &&& load_entries(entries, seen, default_bin).seen == seen + names_of(
                    FolderView::profiles_of(children),
                )
            },
            Err(_) => true,
        },
        seen.no_duplicates() ==> load_entries(entries, seen, default_bin).seen.no_duplicates(),
    decreases entries,
{
    if entries.len() > 0 {
        lemma_load_entries_valid(entries.drop_last(), seen, default_bin);
        let before = load_entries(entries.drop_last(), seen, default_bin);
        if let Ok(children) = before.result {
            if let EntryScan::Found(dir) = entries.last() {
                lemma_load_dir_valid(dir, before.seen, default_bin);
                if let Ok(Some(node)) = load_dir(dir, before.seen, default_bin).result {
                    let grown = children.push(node);
                    assert(grown.drop_last() =~= children);
                }
            }
        }
    }
}

/// Where the entries do not matter, a load gives the same whatever was
/// found in them: a scan may leave them unread.
pub proof fn lemma_entries_unread(
    dir: DirScan,
    entries: Result<Vec<EntryScan>, std::io::Error>,
    seen: Seq<Seq<char>>,
    default_bin: Result<String, which::Error>,
)
    requires
        !dir.entries_matter(),
    ensures
        load_dir(DirScan { entries, ..dir }, seen, default_bin) == load_dir(dir, seen, default_bin),
{
}

/// Where the kinds of the entries do not matter, a load gives the same
/// whatever the kinds and the entries are: a scan may leave both unread.
pub proof fn lemma_kinds_unread(
    dir: DirScan,
    kinds: Result<Vec<EntryKind>, std::io::Error>,
    entries: Result<Vec<EntryScan>, std::io::Error>,
    seen: Seq<Seq<char>>,
    default_bin: Result<String, which::Error>,
)
    requires
        !dir.kinds_matter(),
    ensures
        load_dir(DirScan { kinds, entries, ..dir }, seen, default_bin) == load_dir(
            dir,
            seen,
            default_bin,
        ),
{
}

/// Where the profile document does not matter, a load gives the same
/// whatever was read of the directory beyond its path: a scan may leave the
/// document and the entries unread.
pub proof fn lemma_profile_unread(
    dir: DirScan,
    profile: Option<ProfileRead>,
    kinds: Result<Vec<EntryKind>, std::io::Error>,
    entries: Result<Vec<EntryScan>, std::io::Error>,
    seen: Seq<Seq<char>>,
    default_bin: Result<String, which::Error>,
)
    requires
        !dir.profile_matters(),
    ensures
        load_dir(DirScan { profile, kinds, entries, ..dir }, seen, default_bin) == load_dir(
            dir,
            seen,
            default_bin,
        ),
{
}

/// An ignored directory loads to no node and no failure, and records no
/// name, whatever else it holds; as the root of a load it makes the load
/// fail as an empty group would.
pub proof fn lemma_ignored_loads_to_nothing(
    path: String,
    dir: DirScan,
    seen: Seq<Seq<char>>,
    default_bin: Result<String, which::Error>,
)
    requires
        dir.is_dir,
        dir.ignored,
    ensures
        load_dir(dir, seen, default_bin) == (Outcome { result: Ok(None), seen }),
        load_root(path, Ok(dir), default_bin) == Err::<FolderView<Profile>, ProfileLoadError>(
            ProfileLoadError::EmptyGroup(path),
        ),
{
}

/// A profile whose display name was seen before fails the load with a name
/// conflict, wherever in the tree the name was seen.
pub proof fn lemma_seen_name_conflicts(
    dir: DirScan,
    seen: Seq<Seq<char>>,
    default_bin: Result<String, which::Error>,
)
    requires
        dir.profile_matters(),
        dir.profile matches Some(ProfileRead::Parsed { config, .. }) && seen.contains(
            resolved_name(config, dir.name)@,
        ),
    ensures
        load_dir(dir, seen, default_bin) == (Outcome {
            result: Err(
                ProfileLoadError::NameConflict(
                    resolved_name(dir.profile->Some_0->config, dir.name),
                ),
            ),
            seen,
        }),
{
}

/// A profile among the entries of a group whose display name is that of a
/// profile loaded from an earlier entry, at whatever depth, fails the load of
/// the entries up to it with a name conflict.
pub proof fn lemma_conflict_with_earlier_entry(
    entries: Seq<EntryScan>,
    k: int,
    seen: Seq<Seq<char>>,
    default_bin: Result<String, which::Error>,
)
    requires
        0 <= k < entries.len(),
        load_entries(entries.take(k), seen, default_bin).result is Ok,
        entries[k] matches EntryScan::Found(dir) && dir.profile_matters() && (
        dir.profile matches Some(ProfileRead::Parsed { config, .. }) && names_of(
            FolderView::profiles_of(load_entries(entries.take(k), seen, default_bin).result->Ok_0),
        ).contains(resolved_name(config, dir.name)@)),
    ensures
        load_entries(entries.take(k + 1), seen, default_bin).result == Err::<
            Seq<FolderView<Profile>>,
            ProfileLoadError,
        >(
            ProfileLoadError::NameConflict(
                resolved_name(
                    entries[k]->Found_0.profile->Some_0->config,
                    entries[k]->Found_0.name,
                ),
            ),
        ),
{
    let before = load_entries(entries.take(k), seen, default_bin);
    let dir = entries[k]->Found_0;
    let name = resolved_name(dir.profile->Some_0->config, dir.name)@;
    lemma_load_entries_valid(entries.take(k), seen, default_bin);
    let earlier = names_of(FolderView::profiles_of(before.result->Ok_0));
    let at = choose|i: int| 0 <= i < earlier.len() && earlier[i] == name;
    assert(before.seen[seen.len() + at] == name);
    lemma_seen_name_conflicts(dir, before.seen, default_bin);
    assert(entries.take(k + 1).drop_last() =~= entries.take(k));
}

/// The first failure among the entries of a group is the failure of the
/// group: nothing of what loaded before it is returned.
pub proof fn lemma_failure_aborts_group(
    dir: DirScan,
    k: int,
    seen: Seq<Seq<char>>,
    default_bin: Result<String, which::Error>,
)
    requires
        dir.entries_matter(),
        dir.entries matches Ok(entries) && 0 <= k <= entries.len() && load_entries(
            entries@.take(k),
            seen,
            default_bin,
        ).result is Err,
    ensures
        load_dir(dir, seen, default_bin).result is Err,
        load_dir(dir, seen, default_bin).result->Err_0 == load_entries(
            dir.entries->Ok_0@.take(k),
            seen,
            default_bin,
        ).result->Err_0,
{
    lemma_load_entries_fails(dir.entries->Ok_0@, k, seen, default_bin);
}

} // verus!
