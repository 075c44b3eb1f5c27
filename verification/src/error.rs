//! The ways in which loading a profile tree can fail.

use vstd::prelude::*;
use vstd::string::*;
use crate::text::labelled;

verus! {

/// `std::io::Error`, carried through without looking inside.
#[verifier::external_type_specification]
#[verifier::external_body]
pub struct ExIoError(std::io::Error);

/// `serde_yaml::Error`, carried through without looking inside.
#[verifier::external_type_specification]
#[verifier::external_body]
pub struct ExYamlError(serde_yaml::Error);

/// `which::Error`, carried through without looking inside.
#[verifier::external_type_specification]
#[verifier::external_body]
pub struct ExWhichError(which::Error);

/// Why a profile tree could not be built.
#[derive(Debug)]
pub enum ProfileLoadError {
    /// Each profile should be its own directory, which can be placed under
    /// other directories to form groups.
    NotDirectory(String),
    /// The profile's config file cannot be parsed.
    ConfigParseError(serde_yaml::Error),
    /// Cannot resolve a binary for this profile.
    BadBinary(which::Error),
    /// At least two profiles share the same name.
    NameConflict(String),
    /// The directory contains files (which means it's considered a profile
    /// folder), but there's no config file.
    NoConfigFile(String),
    /// The directory contains neither files nor other valid profiles.
    EmptyGroup(String),
    /// The filesystem encountered an IOError.
    IOError(std::io::Error),
}

impl ProfileLoadError {
    /// What every message of this kind of failure starts with.
    pub open spec fn label(self) -> Seq<char> {
        match self {
            ProfileLoadError::NotDirectory(_) => "ProfileLoadError-NotDirectory: "@,
            ProfileLoadError::ConfigParseError(_) => "ProfileLoadError-ConfigParseError: "@,
            ProfileLoadError::BadBinary(_) => "ProfileLoadError-BadBinary: "@,
            ProfileLoadError::NameConflict(_) => "ProfileLoadError-NameConflict: "@,
            ProfileLoadError::NoConfigFile(_) => "ProfileLoadError-NoConfigFile: "@,
            ProfileLoadError::EmptyGroup(_) => "ProfileLoadError-EmptyGroup: "@,
            ProfileLoadError::IOError(_) => "ProfileLoadError-IOError: "@,
        }
    }

    /// Gives what every message of this kind of failure starts with.
    pub fn label_str(&self) -> (label: &'static str)
        ensures
            label@ == self.label(),
    {
        match self {
            ProfileLoadError::NotDirectory(_) => "ProfileLoadError-NotDirectory: ",
            ProfileLoadError::ConfigParseError(_) => "ProfileLoadError-ConfigParseError: ",
            ProfileLoadError::BadBinary(_) => "ProfileLoadError-BadBinary: ",
            ProfileLoadError::NameConflict(_) => "ProfileLoadError-NameConflict: ",
            ProfileLoadError::NoConfigFile(_) => "ProfileLoadError-NoConfigFile: ",
            ProfileLoadError::EmptyGroup(_) => "ProfileLoadError-EmptyGroup: ",
            ProfileLoadError::IOError(_) => "ProfileLoadError-IOError: ",
        }
    }

    /// The message of the failure: its label, then the path or name it is
    /// about, or what the underlying error says of itself.
    pub fn to_string(&self) -> (message: String)
        ensures
            self.label().is_prefix_of(message@),
            match self {
                ProfileLoadError::NotDirectory(s)
                | ProfileLoadError::NameConflict(s)
                | ProfileLoadError::NoConfigFile(s)
                | ProfileLoadError::EmptyGroup(s) => message@ == self.label() + s@,
                _ => true,
            },
    {
        let detail = match self {
            ProfileLoadError::NotDirectory(s) => s.clone(),
            ProfileLoadError::ConfigParseError(e) => e.to_string(),
            ProfileLoadError::BadBinary(e) => e.to_string(),
            ProfileLoadError::NameConflict(s) => s.clone(),
            ProfileLoadError::NoConfigFile(s) => s.clone(),
            ProfileLoadError::EmptyGroup(s) => s.clone(),
            ProfileLoadError::IOError(e) => e.to_string(),
        };
        labelled(self.label_str(), detail.as_str())
    }
}

impl From<serde_yaml::Error> for ProfileLoadError {
    fn from(err: serde_yaml::Error) -> (e: Self) {
        Self::ConfigParseError(err)
    }
}

impl vstd::std_specs::convert::FromSpecImpl<serde_yaml::Error> for ProfileLoadError {
    open spec fn obeys_from_spec() -> bool {
        true
    }

    open spec fn from_spec(err: serde_yaml::Error) -> Self {
        ProfileLoadError::ConfigParseError(err)
    }
}

impl From<which::Error> for ProfileLoadError {
    fn from(err: which::Error) -> (e: Self) {
        Self::BadBinary(err)
    }
}

impl vstd::std_specs::convert::FromSpecImpl<which::Error> for ProfileLoadError {
    open spec fn obeys_from_spec() -> bool {
        true
    }

    open spec fn from_spec(err: which::Error) -> Self {
        ProfileLoadError::BadBinary(err)
    }
}

impl From<std::io::Error> for ProfileLoadError {
    fn from(err: std::io::Error) -> (e: Self) {
        Self::IOError(err)
    }
}

impl vstd::std_specs::convert::FromSpecImpl<std::io::Error> for ProfileLoadError {
    open spec fn obeys_from_spec() -> bool {
        true
    }

    open spec fn from_spec(err: std::io::Error) -> Self {
        ProfileLoadError::IOError(err)
    }
}

} // verus!
