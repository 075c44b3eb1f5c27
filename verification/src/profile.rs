//! A launch profile: resolved metadata and the configuration it launches with.

use vstd::prelude::*;
use crate::profile_config::{arg_texts, ProfileConfig, Unimplemented};

verus! {

/// Dynamically generated and patched metadata for a profile.
#[derive(Debug, Clone)]
pub struct ProfileMetadata {
    pub display_name: String,
    pub pwd: String,
    pub bin_path: String,
}

/// A complete launch profile.
#[derive(Clone)]
pub struct Profile {
    pub metadata: ProfileMetadata,
    pub config: ProfileConfig,
}

impl Profile {
    /// Builds the arguments that launch the client for this profile: those
    /// of its configuration.
    pub fn to_launch_args(&self) -> (r: Result<Vec<String>, Unimplemented>)
        ensures
            arg_texts(r) == self.config.launch_args(),
            r is Err <==> self.config is Tun,
    {
        self.config.to_launch_args()
    }
}

} // verus!
