//! Connection profiles in their first form: one flat document per profile,
//! a tree of folders around them, and a loader that skips what it cannot
//! load below the root.

use vstd::prelude::*;
use vstd::string::*;
use crate::scan::{has_files, listing_has_files, EntryKind};
use crate::text::{extra_texts, labelled, push_extra, texts};
use crate::tree::{lemma_count_is_flattened_len, lemma_count_of_prefix, FolderView};

verus! {

/// The path of the client's binary, if the profile names none.
pub const SSLOCAL_DEFAULT_PATH: &'static str = "sslocal";

/// The existence of this file in a directory indicates that this directory
/// is a connection profile.
pub const PROFILE_DEF_FILE_NAME: &'static str = "profile.yaml";

/// A profile as its document states it: every field may be missing.
#[derive(Debug, Clone)]
pub struct ConfigProfileSerde {
    pub display_name: Option<String>,
    pub pwd: Option<String>,
    pub ss_bin_path: Option<String>,
    pub ss_config_path: Option<String>,
    pub extra_args: Option<Vec<String>>,
}

/// A profile with every required field set.
#[derive(Debug, Clone)]
pub struct ConfigProfile {
    pub display_name: String,
    pub pwd: String,
    pub ss_bin_path: String,
    pub ss_config_path: Option<String>,
    pub extra_args: Option<Vec<String>>,
}

/// What a `ConfigProfile` says, as text.
pub struct ConfigProfileView {
    pub display_name: Seq<char>,
    pub pwd: Seq<char>,
    pub ss_bin_path: Seq<char>,
    pub ss_config_path: Option<Seq<char>>,
    pub extra_args: Option<Seq<Seq<char>>>,
}

/// The text of an optional string.
pub open spec fn text_of(s: Option<String>) -> Option<Seq<char>> {
    match s {
        Some(s) => Some(s@),
        None => None,
    }
}

/// The texts of an optional list of strings.
pub open spec fn texts_of(list: Option<Vec<String>>) -> Option<Seq<Seq<char>>> {
    match list {
        Some(list) => Some(texts(list@)),
        None => None,
    }
}

impl View for ConfigProfile {
    type V = ConfigProfileView;

    open spec fn view(&self) -> ConfigProfileView {
        ConfigProfileView {
            display_name: self.display_name@,
            pwd: self.pwd@,
            ss_bin_path: self.ss_bin_path@,
            ss_config_path: text_of(self.ss_config_path),
            extra_args: texts_of(self.extra_args),
        }
    }
}

impl ConfigProfileSerde {
    /// The profile that the document gives once its required fields are set,
    /// else the first of them that is missing.
    pub open spec fn completed(self) -> Result<ConfigProfile, Seq<char>> {
        if self.display_name is None {
            Err("display_name not set"@)
        } else if self.pwd is None {
            Err("pwd not set"@)
        } else if self.ss_bin_path is None {
            Err("ss_bin_path not set"@)
        } else {
            Ok(
                ConfigProfile {
                    display_name: self.display_name->0,
                    pwd: self.pwd->0,
                    ss_bin_path: self.ss_bin_path->0,
                    ss_config_path: self.ss_config_path,
                    extra_args: self.extra_args,
                },
            )
        }
    }

    /// Turns the document into a profile, or names the first required field
    /// that it lacks.
    pub fn try_into(self) -> (r: Result<ConfigProfile, String>)
        ensures
            match r {
                Ok(profile) => self.completed() == Ok::<ConfigProfile, Seq<char>>(profile),
                Err(e) => self.completed() == Err::<ConfigProfile, Seq<char>>(e@),
            },
    {
        let ConfigProfileSerde { display_name, pwd, ss_bin_path, ss_config_path, extra_args } =
            self;
        let display_name = match display_name {
            Some(n) => n,
            None => {
                return Err("display_name not set".to_owned());
            },
        };
        let pwd = match pwd {
            Some(p) => p,
            None => {
                return Err("pwd not set".to_owned());
            },
        };
        let ss_bin_path = match ss_bin_path {
            Some(b) => b,
            None => {
                return Err("ss_bin_path not set".to_owned());
            },
        };
        Ok(ConfigProfile { display_name, pwd, ss_bin_path, ss_config_path, extra_args })
    }
}

impl ConfigProfile {
    /// The arguments that launch the client for this profile: the config file
    /// if one is set, then the extra arguments.
    pub open spec fn launch_args(self) -> Seq<Seq<char>> {
        (match self.ss_config_path {
            Some(p) => seq!["--config"@, p@],
            None => Seq::empty(),
        }) + extra_texts(self.extra_args)
    }

    /// Builds the arguments that launch the client for this profile.
    pub fn to_launch_args(&self) -> (args: Vec<String>)
        ensures
            texts(args@) == self.launch_args(),
    {
        let mut args: Vec<String> = Vec::new();
        if let Some(p) = &self.ss_config_path {
            args.push("--config".to_owned());
            args.push(p.clone());
        }
        push_extra(&mut args, &self.extra_args);
        args
    }
}

/// A group containing multiple profiles and/or subgroups.
#[derive(Debug)]
pub struct ConfigGroup {
    pub display_name: String,
    pub content: Vec<ConfigFolder>,
}

/// Why a folder could not be loaded.
#[derive(Debug)]
pub enum ConfigLoadError {
    /// Each profile should be its own directory, which can be placed under
    /// other directories to form groups.
    NotDirectory(String),
    /// The profile definition file cannot be parsed.
    ProfileParseError(serde_yaml::Error),
    /// The directory contains files (which means it's considered a profile
    /// folder), but there's no profile definition file.
    NoProfileDef(String),
    /// The directory contains neither files nor other valid profiles.
    EmptyGroup(String),
    /// The filesystem encountered an IOError.
    IOError(std::io::Error),
}

impl ConfigLoadError {
    /// What every message of this kind of failure starts with.
    pub open spec fn label(self) -> Seq<char> {
        match self {
            ConfigLoadError::NotDirectory(_) => "ConfigLoadError-NotDirectory: "@,
            ConfigLoadError::ProfileParseError(_) => "ConfigLoadError-ProfileParseError: "@,
            ConfigLoadError::NoProfileDef(_) => "ConfigLoadError-NoProfileDef: "@,
            ConfigLoadError::EmptyGroup(_) => "ConfigLoadError-EmptyGroup: "@,
            ConfigLoadError::IOError(_) => "ConfigLoadError-IOError: "@,
        }
    }

    /// Gives what every message of this kind of failure starts with.
    pub fn label_str(&self) -> (label: &'static str)
        ensures
            label@ == self.label(),
    {
        match self {
            ConfigLoadError::NotDirectory(_) => "ConfigLoadError-NotDirectory: ",
            ConfigLoadError::ProfileParseError(_) => "ConfigLoadError-ProfileParseError: ",
            ConfigLoadError::NoProfileDef(_) => "ConfigLoadError-NoProfileDef: ",
            ConfigLoadError::EmptyGroup(_) => "ConfigLoadError-EmptyGroup: ",
            ConfigLoadError::IOError(_) => "ConfigLoadError-IOError: ",
        }
    }

    /// The message of the failure: its label, then the path it is about, or
    /// what the underlying error says of itself.
    pub fn to_string(&self) -> (message: String)
        ensures
            self.label().is_prefix_of(message@),
            match self {
                ConfigLoadError::NotDirectory(s)
                | ConfigLoadError::NoProfileDef(s)
                | ConfigLoadError::EmptyGroup(s) => message@ == self.label() + s@,
                _ => true,
            },
    {
        let detail = match self {
            ConfigLoadError::NotDirectory(s) => s.clone(),
            ConfigLoadError::ProfileParseError(e) => e.to_string(),
            ConfigLoadError::NoProfileDef(s) => s.clone(),
            ConfigLoadError::EmptyGroup(s) => s.clone(),
            ConfigLoadError::IOError(e) => e.to_string(),
        };
        labelled(self.label_str(), detail.as_str())
    }
}

impl From<serde_yaml::Error> for ConfigLoadError {
    fn from(err: serde_yaml::Error) -> (e: Self) {
        Self::ProfileParseError(err)
    }
}

impl vstd::std_specs::convert::FromSpecImpl<serde_yaml::Error> for ConfigLoadError {
    open spec fn obeys_from_spec() -> bool {
        true
    }

    open spec fn from_spec(err: serde_yaml::Error) -> Self {
        ConfigLoadError::ProfileParseError(err)
    }
}

impl From<std::io::Error> for ConfigLoadError {
    fn from(err: std::io::Error) -> (e: Self) {
        Self::IOError(err)
    }
}

impl vstd::std_specs::convert::FromSpecImpl<std::io::Error> for ConfigLoadError {
    open spec fn obeys_from_spec() -> bool {
        true
    }

    open spec fn from_spec(err: std::io::Error) -> Self {
        ConfigLoadError::IOError(err)
    }
}

/// A node of the folder tree: a single profile, or a group of nodes.
#[derive(Debug)]
pub enum ConfigFolder {
    /// A single connection profile.
    Profile(ConfigProfile),
    /// A group containing multiple profiles and/or subgroups.
    Group(ConfigGroup),
}

impl Clone for ConfigGroup {
    /// Copies the group, child by child.
    fn clone(&self) -> (copy: Self)
        decreases self,
    {
        let mut content: Vec<ConfigFolder> = Vec::new();
        let mut i: usize = 0;
        while i < self.content.len()
            invariant
                i <= self.content.len(),
            decreases self.content.len() - i,
        {
            content.push(self.content[i].clone());
            i = i + 1;
        }
        ConfigGroup { display_name: self.display_name.clone(), content }
    }
}

impl Clone for ConfigFolder {
    /// Copies the tree.
    fn clone(&self) -> (copy: Self)
        decreases self,
    {
        match self {
            ConfigFolder::Profile(p) => ConfigFolder::Profile(p.clone()),
            ConfigFolder::Group(g) => ConfigFolder::Group(g.clone()),
        }
    }
}

impl View for ConfigFolder {
    type V = FolderView<ConfigProfileView>;

    open spec fn view(&self) -> FolderView<ConfigProfileView>
        decreases self,
    {
        match self {
            ConfigFolder::Profile(p) => FolderView::Profile(p@),
            ConfigFolder::Group(g) => FolderView::Group {
                display_name: g.display_name@,
                content: views_of(g.content@),
            },
        }
    }
}

/// The trees that a run of sibling folders stands for, in order.
pub open spec fn views_of(nodes: Seq<ConfigFolder>) -> Seq<FolderView<ConfigProfileView>>
    decreases nodes,
{
    if nodes.len() == 0 {
        Seq::empty()
    } else {
        views_of(nodes.drop_last()).push(nodes.last()@)
    }
}

/// `views_of` keeps length and order: the view of the i-th folder is the
/// i-th view.
pub proof fn lemma_views_of(nodes: Seq<ConfigFolder>)
    ensures
        views_of(nodes).len() == nodes.len(),
        forall|i: int| 0 <= i < nodes.len() ==> (#[trigger] views_of(nodes)[i]) == nodes[i]@,
    decreases nodes.len(),
{
    if nodes.len() > 0 {
        lemma_views_of(nodes.drop_last());
        assert(views_of(nodes) == views_of(nodes.drop_last()).push(nodes.last()@));
    }
}

/// What a list of borrowed profiles says, in order.
pub open spec fn referent_views(refs: Seq<&ConfigProfile>) -> Seq<ConfigProfileView> {
    refs.map_values(|p: &ConfigProfile| p@)
}

/// The outcome of reading the profile definition of a directory.
pub enum ProfileDefRead {
    /// The definition could not be read.
    Unreadable(std::io::Error),
    /// The definition's text does not parse.
    Malformed(serde_yaml::Error),
    /// The definition parsed.
    Parsed(ConfigProfileSerde),
}

/// What a look at one entry of a directory, taken as a directory, found.
pub enum ConfigEntryScan {
    /// The entry, or its canonical path, could not be read.
    Unreadable(std::io::Error),
    /// What its canonical path holds.
    Found(ConfigDirScan),
}

/// What a look at one canonical path found. A scan reads the fields in
/// order, and reads each of the last three only where a load will look at
/// it: `wants_profile`, `wants_kinds` and `wants_entries` tell.
pub struct ConfigDirScan {
    /// The canonical path.
    pub path: String,
    /// Its final component.
    pub name: String,
    /// Whether it is a directory.
    pub is_dir: bool,
    /// The profile definition, where the directory directly holds one.
    pub profile: Option<ProfileDefRead>,
    /// The kind of each entry in enumeration order, or why the directory
    /// could not be listed.
    pub kinds: Result<Vec<EntryKind>, std::io::Error>,
    /// What a look at each entry found, in enumeration order, or why the
    /// directory could not be listed again.
    pub entries: Result<Vec<ConfigEntryScan>, std::io::Error>,
}

impl ConfigDirScan {
    /// Whether a load looks at the profile definition of this path: it does
    /// not for what is no directory.
    pub open spec fn profile_matters(self) -> bool {
        self.is_dir
    }

    /// Whether a load looks at the kinds of the entries of this directory:
    /// only where it found no profile definition to go by.
    pub open spec fn kinds_matter(self) -> bool {
        self.is_dir && self.profile is None
    }

    /// Whether a load looks into the entries of this directory: only where
    /// it takes the directory for a group, which holds no regular file.
    pub open spec fn entries_matter(self) -> bool {
        self.kinds_matter() && (self.kinds matches Ok(kinds) && !has_files(kinds@))
    }

    /// Tells whoever scans whether the profile definition needs to be read.
    pub fn wants_profile(&self) -> (wanted: bool)
        ensures
            wanted == self.profile_matters(),
    {
        self.is_dir
    }

    /// Tells whoever scans whether the kinds of the entries need to be read.
    pub fn wants_kinds(&self) -> (wanted: bool)
        ensures
            wanted == self.kinds_matter(),
    {
        self.is_dir && self.profile.is_none()
    }

    /// Tells whoever scans whether the entries need to be looked into.
    pub fn wants_entries(&self) -> (wanted: bool)
        ensures
            wanted == self.entries_matter(),
    {
        if !self.wants_kinds() {
            return false;
        }
        match &self.kinds {
            Ok(kinds) => !listing_has_files(kinds),
            Err(_) => false,
        }
    }
}

/// The path that pushing `rel` onto the path `base` gives, by the platform's
/// rules: `rel` itself where it is absolute, else `base` extended by it.
pub uninterp spec fn joined_path(base: Seq<char>, rel: Seq<char>) -> Seq<char>;

/// Calls `std::path::PathBuf::push` with `rel` on the path `base`. The
/// contract only names the result: the same two texts give the same path.
#[verifier::external_body]
fn join_path(base: &str, rel: &str) -> (joined: String)
    ensures
        joined@ == joined_path(base@, rel@),
{
    let mut path = std::path::PathBuf::from(base);
    path.push(rel);
    path.to_string_lossy().into_owned()
}

/// The profile of a directory whose definition parsed: the directory's name
/// where the definition sets no display name, the directory itself as the
/// working directory where it sets none, else what it sets pushed onto the
/// directory's path, and the default binary where it names none.
pub open spec fn resolved_profile(
    doc: ConfigProfileSerde,
    dir_path: Seq<char>,
    dir_name: Seq<char>,
) -> ConfigProfileView {
    ConfigProfileView {
        display_name: match doc.display_name {
            Some(n) => n@,
            None => dir_name,
        },
        pwd: match doc.pwd {
            Some(p) => joined_path(dir_path, p@),
            None => dir_path,
        },
        ss_bin_path: match doc.ss_bin_path {
            Some(b) => b@,
            None => SSLOCAL_DEFAULT_PATH@,
        },
        ss_config_path: text_of(doc.ss_config_path),
        extra_args: texts_of(doc.extra_args),
    }
}

/// What a scanned path loads to.
pub open spec fn load_dir(dir: ConfigDirScan) -> Result<
    FolderView<ConfigProfileView>,
    ConfigLoadError,
>
    decreases dir,
{
    if !dir.is_dir {
        Err(ConfigLoadError::NotDirectory(dir.path))
    } else {
        match dir.profile {
            Some(ProfileDefRead::Unreadable(e)) => Err(ConfigLoadError::IOError(e)),
            Some(ProfileDefRead::Malformed(e)) => Err(ConfigLoadError::ProfileParseError(e)),
            Some(ProfileDefRead::Parsed(doc)) => Ok(
                FolderView::Profile(resolved_profile(doc, dir.path@, dir.name@)),
            ),
            None => match dir.kinds {
                Err(e) => Err(ConfigLoadError::IOError(e)),
                Ok(kinds) => if has_files(kinds@) {
                    Err(ConfigLoadError::NoProfileDef(dir.path))
                } else {
                    match dir.entries {
                        Err(e) => Err(ConfigLoadError::IOError(e)),
                        Ok(entries) => {
                            let children = load_entries(entries@);
                            if children.len() == 0 {
                                Err(ConfigLoadError::EmptyGroup(dir.path))
                            } else {
                                Ok(
                                    FolderView::Group {
                                        display_name: dir.name@,
                                        content: children,
                                    },
                                )
                            }
                        },
                    }
                },
            },
        }
    }
}

/// The trees of the entries that load, in order: an entry that cannot be
/// read or does not load is passed over.
pub open spec fn load_entries(entries: Seq<ConfigEntryScan>) -> Seq<FolderView<ConfigProfileView>>
    decreases entries,
{
    if entries.len() == 0 {
        Seq::empty()
    } else {
        let before = load_entries(entries.drop_last());
        match entries.last() {
            ConfigEntryScan::Found(dir) => match load_dir(dir) {
                Ok(node) => before.push(node),
                Err(_) => before,
            },
            _ => before,
        }
    }
}

/// What a load from the root gives: the root's own failure to resolve, else
/// what the root directory loads to.
pub open spec fn load_root(root: Result<ConfigDirScan, std::io::Error>) -> Result<
    FolderView<ConfigProfileView>,
    ConfigLoadError,
> {
    match root {
        Err(e) => Err(ConfigLoadError::IOError(e)),
        Ok(dir) => load_dir(dir),
    }
}

/// The result of a load, with the tree taken by its view.
pub open spec fn loaded(r: Result<ConfigFolder, ConfigLoadError>) -> Result<
    FolderView<ConfigProfileView>,
    ConfigLoadError,
> {
    match r {
        Ok(node) => Ok(node@),
        Err(e) => Err(e),
    }
}

/// Sets what the definition leaves open, from the directory it stands in.
fn resolve_profile(doc: ConfigProfileSerde, dir_path: String, dir_name: String) -> (profile:
    ConfigProfile)
    ensures
        profile@ == resolved_profile(doc, dir_path@, dir_name@),
{
    let ConfigProfileSerde { display_name, pwd, ss_bin_path, ss_config_path, extra_args } = doc;
    // use directory name as default display name
    let display_name = match display_name {
        Some(n) => n,
        None => dir_name,
    };
    // use current profile path as base, and as default pwd
    let pwd = match pwd {
        Some(p) => join_path(dir_path.as_str(), p.as_str()),
        None => dir_path,
    };
    // set default binary path
    let ss_bin_path = match ss_bin_path {
        Some(b) => b,
        None => SSLOCAL_DEFAULT_PATH.to_owned(),
    };
    let filled = ConfigProfileSerde {
        display_name: Some(display_name),
        pwd: Some(pwd),
        ss_bin_path: Some(ss_bin_path),
        ss_config_path,
        extra_args,
    };
    // required fields are set
    filled.try_into().unwrap()
}

impl ConfigFolder {
    /// Recursively loads all nested profiles within the scanned directory.
    ///
    /// If a call to this function with the user-specified base path fails,
    /// then run the program as if there are no existing configs.
    pub fn from_path_recurse(root: Result<ConfigDirScan, std::io::Error>) -> (r: Result<
        ConfigFolder,
        ConfigLoadError,
    >)
        ensures
            loaded(r) == load_root(root),
            r matches Ok(tree) ==> tree@.groups_nonempty(),
    {
        match root {
            Ok(dir) => Self::from_scan(dir),
            Err(e) => Err(ConfigLoadError::IOError(e)),
        }
    }

    /// Loads the tree below a scanned path.
    pub fn from_scan(dir: ConfigDirScan) -> (r: Result<ConfigFolder, ConfigLoadError>)
        ensures
            loaded(r) == load_dir(dir),
            r matches Ok(tree) ==> tree@.groups_nonempty(),
        decreases dir,
    {
        let ConfigDirScan { path, name, is_dir, profile, kinds, entries } = dir;
        // make sure path is a directory
        if !is_dir {
            return Err(ConfigLoadError::NotDirectory(path));
        }
        // if directory contains the profile definition file, then consider it a profile
        match profile {
            Some(ProfileDefRead::Unreadable(e)) => {
                return Err(ConfigLoadError::IOError(e));
            },
            Some(ProfileDefRead::Malformed(e)) => {
                return Err(ConfigLoadError::ProfileParseError(e));
            },
            Some(ProfileDefRead::Parsed(doc)) => {
                return Ok(ConfigFolder::Profile(resolve_profile(doc, path, name)));
            },
            None => {},
        }
        // otherwise, check if it contains files at all
        // if so consider it a profile that's missing a definition file
        let kinds = match kinds {
            Ok(kinds) => kinds,
            Err(e) => {
                return Err(ConfigLoadError::IOError(e));
            },
        };
        if listing_has_files(&kinds) {
            return Err(ConfigLoadError::NoProfileDef(path));
        }
        // otherwise, consider it a group
        let entries = match entries {
            Ok(entries) => entries,
            Err(e) => {
                return Err(ConfigLoadError::IOError(e));
            },
        };
        let ghost all = entries@;
        let mut subdirs: Vec<ConfigFolder> = Vec::new();
        for entry in it: entries
            invariant
                it.seq() == all,
                dir.entries is Ok,
                dir.entries->Ok_0 == entries,
                all == entries@,
                load_entries(all.take(it.index() as int)) == views_of(subdirs@),
                forall|j: int|
                    0 <= j < subdirs.len() ==> (#[trigger] subdirs[j])@.groups_nonempty(),
        {
            let ghost before = subdirs@;
            proof {
                assert(all.take(it.index() + 1).drop_last() =~= all.take(it.index() as int));
            }
            // recursively load all subdirectories
            match entry {
                ConfigEntryScan::Found(sub) => {
                    match Self::from_scan(sub) {
                        Ok(node) => {
                            subdirs.push(node);
                            proof {
                                assert(subdirs@.drop_last() =~= before);
                            }
                        },
                        Err(_) => {},
                    }
                },
                _ => {},
            }
        }
        proof {
            assert(all.take(all.len() as int) =~= all);
            lemma_views_of(subdirs@);
        }
        if subdirs.is_empty() {
            Err(ConfigLoadError::EmptyGroup(path))
        } else {
            Ok(ConfigFolder::Group(ConfigGroup { display_name: name, content: subdirs }))
        }
    }

    /// Recursively count the number of nested profiles within this
    /// `ConfigFolder`.
    pub fn profile_count(&self) -> (n: usize)
        requires
            self@.count() <= usize::MAX,
        ensures
            n == self@.count(),
            n == self@.profiles().len(),
        decreases self,
    {
        proof {
            lemma_count_is_flattened_len(self@);
        }
        match self {
            ConfigFolder::Profile(_) => 1,
            ConfigFolder::Group(g) => {
                let ghost kids = self@->content;
                proof {
                    lemma_views_of(g.content@);
                }
                let mut n: usize = 0;
                let mut i: usize = 0;
                while i < g.content.len()
                    invariant
                        i <= g.content.len(),
                        self is Group,
                        self->Group_0 == *g,
                        kids.len() == g.content.len(),
                        forall|j: int| 0 <= j < kids.len() ==> kids[j] == g.content[j]@,
                        n == FolderView::count_of(kids.take(i as int)),
                        FolderView::count_of(kids) <= usize::MAX,
                    decreases g.content.len() - i,
                {
                    proof {
                        assert(kids.take(i + 1).drop_last() =~= kids.take(i as int));
                        lemma_count_of_prefix(kids, i + 1);
                    }
                    n = n + g.content[i].profile_count();
                    i = i + 1;
                }
                proof {
                    assert(kids.take(i as int) =~= kids);
                }
                n
            },
        }
    }

    /// Recursively get all the nested profiles within this `ConfigFolder`,
    /// flattened and returned by reference.
    pub fn get_profiles(&self) -> (out: Vec<&ConfigProfile>)
        ensures
            referent_views(out@) == self@.profiles(),
            out.len() == self@.count(),
        decreases self,
    {
        proof {
            lemma_count_is_flattened_len(self@);
        }
        match self {
            ConfigFolder::Profile(p) => {
                let out = vec![p];
                out
            },
            ConfigFolder::Group(g) => {
                let ghost kids = self@->content;
                let mut out: Vec<&ConfigProfile> = Vec::new();
                let mut i: usize = 0;
                proof {
                    lemma_views_of(g.content@);
                }
                while i < g.content.len()
                    invariant
                        i <= g.content.len(),
                        self is Group,
                        self->Group_0 == *g,
                        kids.len() == g.content.len(),
                        forall|j: int| 0 <= j < kids.len() ==> kids[j] == g.content[j]@,
                        referent_views(out@) == FolderView::profiles_of(kids.take(i as int)),
                    decreases g.content.len() - i,
                {
                    let mut sub = g.content[i].get_profiles();
                    proof {
                        assert(kids.take(i + 1).drop_last() =~= kids.take(i as int));
                    }
                    out.append(&mut sub);
                    i = i + 1;
                }
                proof {
                    assert(kids.take(i as int) =~= kids);
                }
                out
            },
        }
    }
}

/// Where the entries do not matter, a load gives the same whatever was
/// found in them: a scan may leave them unread.
pub proof fn lemma_entries_unread(
    dir: ConfigDirScan,
    entries: Result<Vec<ConfigEntryScan>, std::io::Error>,
)
    requires
        !dir.entries_matter(),
    ensures
        load_dir(ConfigDirScan { entries, ..dir }) == load_dir(dir),
{
}

/// Where the kinds of the entries do not matter, a load gives the same
/// whatever the kinds and the entries are: a scan may leave both unread.
pub proof fn lemma_kinds_unread(
    dir: ConfigDirScan,
    kinds: Result<Vec<EntryKind>, std::io::Error>,
    entries: Result<Vec<ConfigEntryScan>, std::io::Error>,
)
    requires
        !dir.kinds_matter(),
    ensures
        load_dir(ConfigDirScan { kinds, entries, ..dir }) == load_dir(dir),
{
}

} // verus!
