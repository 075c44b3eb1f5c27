//! What was read from disk, as plain values for the loader to decide on.

use vstd::prelude::*;
use vstd::string::*;
use crate::profile_config::ProfileConfig;

verus! {

/// The default binary to look up in the search path, if not overridden by
/// profile.
pub const SSLOCAL_DEFAULT_LOOKUP_NAME: &'static str = "sslocal";

/// The existence of this file in a directory marks the directory as ignored
/// during the loading process.
pub const LOAD_IGNORE_FILE_NAME: &'static str = ".ss_ignore";

/// The existence of this file in a directory indicates that this directory
/// is a launch profile.
pub const CONFIG_FILE_NAME: &'static str = "profile.yaml";

/// The outcome of reading the profile document of a directory.
pub enum ProfileRead {
    /// The document could not be read.
    Unreadable(std::io::Error),
    /// The document's text does not parse into a profile configuration.
    Malformed(serde_yaml::Error),
    /// The document parsed. `bin_lookup` is the outcome of the executable
    /// search for the binary that its metadata override names, if it names
    /// one.
    Parsed { config: ProfileConfig, bin_lookup: Option<Result<String, which::Error>> },
}

/// Calls `which::which`, the executable search, for `binary_name`. Nothing is
/// claimed of the outcome: it depends on the search path, on the working
/// directory and on what is on disk.
#[verifier::external_body]
fn search_binary(binary_name: &str) -> (found: Result<String, which::Error>) {
    which::which(binary_name).map(|path| path.to_string_lossy().into_owned())
}

impl ProfileRead {
    /// What a document that parsed to `config` was read as: the executable
    /// search is made for the binary that its metadata override names, and
    /// only if it names one.
    pub fn parsed(config: ProfileConfig) -> (read: ProfileRead)
        ensures
            read matches ProfileRead::Parsed { config: kept, bin_lookup } && kept == config && (
            bin_lookup is Some <==> config.metadata_override().bin_path is Some),
    {
        let bin_lookup = match &config.get_metadata_override().bin_path {
            Some(name) => Some(search_binary(name.as_str())),  // try to resolve
            None => None,
        };
        ProfileRead::Parsed { config, bin_lookup }
    }
}

/// What a first look at one entry of a directory found.
#[derive(Debug, Clone, Copy)]
pub enum EntryKind {
    /// A regular file.
    File,
    /// Anything else that could be looked at.
    Other,
    /// The entry could not be read.
    Unreadable,
}

/// Whether a listing holds a regular file.
pub open spec fn has_files(kinds: Seq<EntryKind>) -> bool {
    exists|i: int| 0 <= i < kinds.len() && kinds[i] is File
}

/// Tells whether a listing holds a regular file.
pub fn listing_has_files(kinds: &Vec<EntryKind>) -> (found: bool)
    ensures
        found == has_files(kinds@),
{
    let mut i: usize = 0;
    while i < kinds.len()
        invariant
            i <= kinds.len(),
            forall|j: int| 0 <= j < i ==> !(kinds@[j] is File),
        decreases kinds.len() - i,
    {
        if let EntryKind::File = kinds[i] {
            return true;
        }
        i = i + 1;
    }
    false
}

/// What a look at one entry of a directory, taken as a directory, found.
pub enum EntryScan {
    /// The entry, or its canonical path, could not be read.
    Unreadable(std::io::Error),
    /// What its canonical path holds.
    Found(DirScan),
}

/// What a look at one canonical path found. A scan reads the fields in
/// order, and reads each of the last three only where a load will look at
/// it: `wants_profile`, `wants_kinds` and `wants_entries` tell.
pub struct DirScan {
    /// The canonical path.
    pub path: String,
    /// Its final component.
    pub name: String,
    /// Whether it is a directory.
    pub is_dir: bool,
    /// Whether it directly holds the ignore marker.
    pub ignored: bool,
    /// The profile document, where the directory directly holds one.
    pub profile: Option<ProfileRead>,
    /// The kind of each entry in enumeration order, or why the directory
    /// could not be listed.
    pub kinds: Result<Vec<EntryKind>, std::io::Error>,
    /// What a look at each entry found, in enumeration order, or why the
    /// directory could not be listed again.
    pub entries: Result<Vec<EntryScan>, std::io::Error>,
}

impl DirScan {
    /// Whether a load looks at the profile document of this directory: it
    /// does not for what is no directory, and not for an ignored one.
    pub open spec fn profile_matters(self) -> bool {
        self.is_dir && !self.ignored
    }

    /// Whether a load looks at the kinds of the entries of this directory:
    /// only where it found no profile document to go by.
    pub open spec fn kinds_matter(self) -> bool {
        self.is_dir && !self.ignored && self.profile is None
    }

    /// Whether a load looks into the entries of this directory: only where
    /// it takes the directory for a group, which holds no regular file.
    pub open spec fn entries_matter(self) -> bool {
        self.kinds_matter() && (self.kinds matches Ok(kinds) && !has_files(kinds@))
    }

    /// Tells whoever scans whether the profile document needs to be read.
    pub fn wants_profile(&self) -> (wanted: bool)
        ensures
            wanted == self.profile_matters(),
    {
        self.is_dir && !self.ignored
    }

    /// Tells whoever scans whether the kinds of the entries need to be read.
    pub fn wants_kinds(&self) -> (wanted: bool)
        ensures
            wanted == self.kinds_matter(),
    {
        self.is_dir && !self.ignored && self.profile.is_none()
    }

    /// Tells whoever scans whether the entries need to be looked into.
    pub fn wants_entries(&self) -> (wanted: bool)
        ensures
            wanted == self.entries_matter(),
    {
        if !self.wants_kinds() {
            return false;
        }
        match &self.kinds {
            Ok(kinds) => !listing_has_files(kinds),
            Err(_) => false,
        }
    }
}

} // verus!
