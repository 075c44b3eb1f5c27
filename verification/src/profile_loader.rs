//! The profile tree, the loader that builds it from a scanned directory, and
//! the queries on it.

use vstd::prelude::*;
use crate::error::ProfileLoadError;
use crate::load_model::{
    lemma_load_dir_valid, lemma_load_entries_fails, load_dir, load_entries,
    load_profile, load_root,
};
use crate::names::{first_named, lemma_find_in_prefix, lemma_first_named_concat};
use crate::profile::{Profile, ProfileMetadata};
use crate::scan::{listing_has_files, DirScan, EntryScan, ProfileRead};
use crate::text::texts;
use crate::tree::{lemma_count_is_flattened_len, lemma_count_of_prefix, FolderView};

verus! {

/// A group containing multiple profiles and/or subgroups.
pub struct ProfileGroup {
    pub display_name: String,
    pub content: Vec<ProfileFolder>,
}

/// A node of the profile tree: a single profile, or a group of nodes.
pub enum ProfileFolder {
    Profile(Profile),
    Group(ProfileGroup),
}

impl Clone for ProfileGroup {
    /// Copies the group, child by child.
    fn clone(&self) -> (copy: Self)
        decreases self,
    {
        let mut content: Vec<ProfileFolder> = Vec::new();
        let mut i: usize = 0;
        while i < self.content.len()
            invariant
                i <= self.content.len(),
            decreases self.content.len() - i,
        {
            content.push(self.content[i].clone());
            i = i + 1;
        }
        ProfileGroup { display_name: self.display_name.clone(), content }
    }
}

impl Clone for ProfileFolder {
    /// Copies the tree.
    fn clone(&self) -> (copy: Self)
        decreases self,
    {
        match self {
            ProfileFolder::Profile(p) => ProfileFolder::Profile(p.clone()),
            ProfileFolder::Group(g) => ProfileFolder::Group(g.clone()),
        }
    }
}

/// What a list of borrowed profiles refers to.
pub open spec fn referents(refs: Seq<&Profile>) -> Seq<Profile> {
    refs.map_values(|p: &Profile| *p)
}

impl View for ProfileFolder {
    type V = FolderView<Profile>;

    open spec fn view(&self) -> FolderView<Profile>
        decreases self,
    {
        match self {
            ProfileFolder::Profile(p) => FolderView::Profile(*p),
            ProfileFolder::Group(g) => FolderView::Group {
                display_name: g.display_name@,
                content: views_of(g.content@),
            },
        }
    }
}

/// The trees that a run of sibling nodes stands for, in order.
pub open spec fn views_of(nodes: Seq<ProfileFolder>) -> Seq<FolderView<Profile>>
    decreases nodes,
{
    if nodes.len() == 0 {
        Seq::empty()
    } else {
        views_of(nodes.drop_last()).push(nodes.last()@)
    }
}

/// `views_of` keeps length and order: the view of the i-th node is the i-th view.
pub proof fn lemma_views_of(nodes: Seq<ProfileFolder>)
    ensures
        views_of(nodes).len() == nodes.len(),
        forall|i: int| 0 <= i < nodes.len() ==> (#[trigger] views_of(nodes)[i]) == nodes[i]@,
    decreases nodes.len(),
{
    if nodes.len() > 0 {
        lemma_views_of(nodes.drop_last());
        assert(views_of(nodes) == views_of(nodes.drop_last()).push(nodes.last()@));
    }
}

/// The result of a load, with the tree taken by its view.
pub open spec fn loaded(
    r: Result<Option<ProfileFolder>, ProfileLoadError>,
) -> Result<Option<FolderView<Profile>>, ProfileLoadError> {
    match r {
        Ok(Some(node)) => Ok(Some(node@)),
        Ok(None) => Ok(None),
        Err(e) => Err(e),
    }
}

/// Whether `name` is among the names seen so far.
fn name_seen(seen_names: &Vec<String>, name: &String) -> (seen: bool)
    ensures
        seen == texts(seen_names@).contains(name@),
{
    let mut i: usize = 0;
    while i < seen_names.len()
        invariant
            i <= seen_names.len(),
            forall|j: int| 0 <= j < i ==> texts(seen_names@)[j] != name@,
        decreases seen_names.len() - i,
    {
        if seen_names[i] == *name {
            assert(texts(seen_names@)[i as int] == name@);
            return true;
        }
        i = i + 1;
    }
    false
}

impl ProfileFolder {
    /// Builds the profile of a directory that holds a profile document:
    /// resolves its display name, rejects a name seen before and records a
    /// new one, then resolves its working directory and its executable.
    pub fn load_profile(
        path: String,
        name: String,
        read: ProfileRead,
        seen_names: &mut Vec<String>,
        default_bin: &Result<String, which::Error>,
    ) -> (r: Result<Profile, ProfileLoadError>)
        ensures
            (match r {
                Ok(p) => Ok(Some(FolderView::Profile(p))),
                Err(e) => Err(e),
            }) == load_profile(path, name, read, texts(old(seen_names)@), *default_bin).result,
            texts(final(seen_names)@) == load_profile(
                path,
                name,
                read,
                texts(old(seen_names)@),
                *default_bin,
            ).seen,
    {
        match read {
            ProfileRead::Unreadable(e) => Err(ProfileLoadError::IOError(e)),
            ProfileRead::Malformed(e) => Err(ProfileLoadError::ConfigParseError(e)),
            ProfileRead::Parsed { config, bin_lookup } => {
                let display_name = match &config.get_metadata_override().display_name {
                    Some(n) => n.clone(),
                    None => name,
                };
                if name_seen(seen_names, &display_name) {
                    return Err(ProfileLoadError::NameConflict(display_name));
                }
                seen_names.push(display_name.clone());
                let pwd = match &config.get_metadata_override().pwd {
                    Some(p) => p.clone(),
                    None => path,
                };
                let found = match bin_lookup {
                    Some(found) => found,
                    None => match default_bin {
                        Ok(bin) => Ok(bin.clone()),
                        Err(e) => Err(*e),
                    },
                };
                match found {
                    Err(e) => Err(ProfileLoadError::BadBinary(e)),
                    Ok(bin_path) => {
                        let metadata = ProfileMetadata { display_name, pwd, bin_path };
                        Ok(Profile { metadata, config })
                    },
                }
            },
        }
    }

    /// Recursively loads all nested profiles within the scanned directory.
    ///
    /// `path` is the root as the caller named it, `root` what resolving and
    /// scanning it gave, `default_bin` what the search for the default binary
    /// gave.
    ///
    /// If a call to this function with the user-specified base path fails,
    /// then run the program as if there are no existing configs.
    pub fn from_path_recurse(
        path: String,
        root: Result<DirScan, std::io::Error>,
        default_bin: &Result<String, which::Error>,
    ) -> (r: Result<ProfileFolder, ProfileLoadError>)
        ensures
            (match r {
                Ok(tree) => Ok(tree@),
                Err(e) => Err(e),
            }) == load_root(path, root, *default_bin),
            r matches Ok(tree) ==> tree@.valid(),
    {
        let dir = match root {
            Ok(dir) => dir,
            Err(e) => {
                return Err(ProfileLoadError::IOError(e));
            },
        };
        let mut seen_names: Vec<String> = Vec::new();
        proof {
            assert(texts(seen_names@) =~= Seq::<Seq<char>>::empty());
            lemma_load_dir_valid(dir, Seq::empty(), *default_bin);
        }
        match Self::from_path_recurse_impl(dir, &mut seen_names, default_bin) {
            Ok(Some(tree)) => {
                Ok(tree)
            },
            Ok(None) => Err(ProfileLoadError::EmptyGroup(path)),
            Err(e) => Err(e),
        }
    }

    /// Loads the tree below a scanned path, given the display names seen so
    /// far. Returns `Ok(None)` when the directory is ignored.
    pub fn from_path_recurse_impl(
        dir: DirScan,
        seen_names: &mut Vec<String>,
        default_bin: &Result<String, which::Error>,
    ) -> (r: Result<Option<ProfileFolder>, ProfileLoadError>)
        ensures
            loaded(r) == load_dir(dir, texts(old(seen_names)@), *default_bin).result,
            texts(final(seen_names)@) == load_dir(dir, texts(old(seen_names)@), *default_bin).seen,
        decreases dir,
    {
        let DirScan { path, name, is_dir, ignored, profile, kinds, entries } = dir;
        // make sure path is a directory
        if !is_dir {
            return Err(ProfileLoadError::NotDirectory(path));
        }
        // make sure directory doesn't contain the ignore file
        if ignored {
            return Ok(None);
        }
        // if directory contains the config file, then consider it a profile
        match profile {
            Some(read) => {
                let p = Self::load_profile(path, name, read, seen_names, default_bin);
                return match p {
                    Ok(p) => Ok(Some(ProfileFolder::Profile(p))),
                    Err(e) => Err(e),
                };
            },
            None => {},
        }
        // otherwise, check if it contains files at all
        // if so consider it a profile that's missing the config file.
        let kinds = match kinds {
            Ok(kinds) => kinds,
            Err(e) => {
                return Err(ProfileLoadError::IOError(e));
            },
        };
        if listing_has_files(&kinds) {
            return Err(ProfileLoadError::NoConfigFile(path));
        }
        // otherwise, consider it a group
        let entries = match entries {
            Ok(entries) => entries,
            Err(e) => {
                return Err(ProfileLoadError::IOError(e));
            },
        };
        let ghost all = entries@;
        let ghost seen0 = texts(old(seen_names)@);
        let mut subdirs: Vec<ProfileFolder> = Vec::new();
        for entry in it: entries
            invariant
                it.seq() == all,
                dir.entries_matter(),
                dir.entries is Ok,
                dir.entries->Ok_0 == entries,
                all == entries@,
                seen0 == texts(old(seen_names)@),
                load_entries(all.take(it.index() as int), seen0, *default_bin).result == Ok::<
                    Seq<FolderView<Profile>>,
                    ProfileLoadError,
                >(views_of(subdirs@)),
                load_entries(all.take(it.index() as int), seen0, *default_bin).seen == texts(
                    seen_names@,
                ),
        {
            let ghost before = subdirs@;
            proof {
                assert(all.take(it.index() + 1).drop_last() =~= all.take(it.index() as int));
            }
            // recursively load all subdirectories
            match entry {
                EntryScan::Unreadable(e) => {
                    proof {
                        lemma_load_entries_fails(all, it.index() + 1, seen0, *default_bin);
                    }
                    return Err(ProfileLoadError::IOError(e));
                },
                EntryScan::Found(sub) => {
                    match Self::from_path_recurse_impl(sub, seen_names, default_bin) {
                        Ok(Some(node)) => {
                            subdirs.push(node);
                            proof {
                                assert(subdirs@.drop_last() =~= before);
                            }
                        },
                        Ok(None) => {},
                        Err(e) => {
                            proof {
                                lemma_load_entries_fails(all, it.index() + 1, seen0, *default_bin);
                            }
                            return Err(e);
                        },
                    }
                },
            }
        }
        proof {
            assert(all.take(all.len() as int) =~= all);
            lemma_views_of(subdirs@);
        }
        if subdirs.is_empty() {
            Err(ProfileLoadError::EmptyGroup(path))
        } else {
            Ok(Some(ProfileFolder::Group(ProfileGroup { display_name: name, content: subdirs })))
        }
    }

    /// Recursively count the number of nested profiles within this
    /// `ProfileFolder`.
    pub fn profile_count(&self) -> (n: usize)
        requires
            self@.count() <= usize::MAX,
        ensures
            n == self@.count(),
            n == self@.profiles().len(),
        decreases self,
    {
        proof {
            lemma_count_is_flattened_len(self@);
        }
        match self {
            ProfileFolder::Profile(_) => 1,
            ProfileFolder::Group(g) => {
                let ghost kids = self@->content;
                proof {
                    lemma_views_of(g.content@);
                }
                let mut n: usize = 0;
                let mut i: usize = 0;
                while i < g.content.len()
                    invariant
                        i <= g.content.len(),
                        self is Group,
                        self->Group_0 == *g,
                        kids.len() == g.content.len(),
                        forall|j: int| 0 <= j < kids.len() ==> kids[j] == g.content[j]@,
                        n == FolderView::count_of(kids.take(i as int)),
                        FolderView::count_of(kids) <= usize::MAX,
                    decreases g.content.len() - i,
                {
                    proof {
                        assert(kids.take(i + 1).drop_last() =~= kids.take(i as int));
                        lemma_count_of_prefix(kids, i + 1);
                    }
                    n = n + g.content[i].profile_count();
                    i = i + 1;
                }
                proof {
                    assert(kids.take(i as int) =~= kids);
                }
                n
            },
        }
    }

    /// Recursively get all the nested profiles within this `ProfileFolder`,
    /// flattened and returned by reference.
    pub fn get_profiles(&self) -> (out: Vec<&Profile>)
        ensures
            referents(out@) == self@.profiles(),
            out.len() == self@.count(),
        decreases self,
    {
        proof {
            lemma_count_is_flattened_len(self@);
        }
        match self {
            ProfileFolder::Profile(p) => {
                let out = vec![p];
                out
            },
            ProfileFolder::Group(g) => {
                let ghost kids = self@->content;
                proof {
                    lemma_views_of(g.content@);
                }
                let mut out: Vec<&Profile> = Vec::new();
                let mut i: usize = 0;
                while i < g.content.len()
                    invariant
                        i <= g.content.len(),
                        self is Group,
                        self->Group_0 == *g,
                        kids.len() == g.content.len(),
                        forall|j: int| 0 <= j < kids.len() ==> kids[j] == g.content[j]@,
                        referents(out@) == FolderView::profiles_of(kids.take(i as int)),
                    decreases g.content.len() - i,
                {
                    let mut sub = g.content[i].get_profiles();
                    proof {
                        assert(kids.take(i + 1).drop_last() =~= kids.take(i as int));
                    }
                    out.append(&mut sub);
                    i = i + 1;
                }
                proof {
                    assert(kids.take(i as int) =~= kids);
                }
                out
            },
        }
    }

    /// Recursively searches all the nested profiles within this
    /// `ProfileFolder` for a `Profile` with a matching name.
    pub fn lookup(&self, name: &str) -> (found: Option<&Profile>)
        ensures
            match found {
                Some(p) => self@.find(name@) == Some(*p),
                None => self@.find(name@) is None,
            },
    {
        let wanted = name.to_owned();
        self.lookup_owned(&wanted)
    }

    fn lookup_owned(&self, name: &String) -> (found: Option<&Profile>)
        ensures
            match found {
                Some(p) => self@.find(name@) == Some(*p),
                None => self@.find(name@) is None,
            },
        decreases self,
    {
        match self {
            ProfileFolder::Profile(p) => {
                proof {
                    reveal_with_fuel(first_named, 2);
                }
                if p.metadata.display_name == *name {
                    Some(p)
                } else {
                    None
                }
            },
            ProfileFolder::Group(g) => {
                let ghost kids = self@->content;
                proof {
                    lemma_views_of(g.content@);
                }
                let mut i: usize = 0;
                while i < g.content.len()
                    invariant
                        i <= g.content.len(),
                        self is Group,
                        self->Group_0 == *g,
                        kids.len() == g.content.len(),
                        forall|j: int| 0 <= j < kids.len() ==> kids[j] == g.content[j]@,
                        self@.profiles() == FolderView::profiles_of(kids),
                        first_named(FolderView::profiles_of(kids.take(i as int)), name@) is None,
                    decreases g.content.len() - i,
                {
                    let hit = g.content[i].lookup_owned(name);
                    proof {
                        assert(kids.take(i + 1).drop_last() =~= kids.take(i as int));
                        lemma_first_named_concat(
                            FolderView::profiles_of(kids.take(i as int)),
                            kids[i as int].profiles(),
                            name@,
                        );
                        if hit is Some {
                            lemma_find_in_prefix(kids, i + 1, name@);
                        }
                    }
                    if hit.is_some() {
                        return hit;
                    }
                    i = i + 1;
                }
                proof {
                    assert(kids.take(i as int) =~= kids);
                }
                None
            },
        }
    }
}

} // verus!
