//! Launch profiles for a proxy client, resolved from a directory hierarchy.
//!
//! A directory that holds a profile document is a profile; a directory that
//! holds only directories is a group of what they load to. Whoever reads the
//! disk records what was found as a [`scan::DirScan`]; the loader in
//! [`profile_loader`] decides on it, and [`load_model`] says what it
//! decides. [`profile_config`] turns the configuration of a profile into the
//! arguments that launch the client. [`config_loader`] holds the profiles in
//! their first form.

pub mod config_loader;
pub mod error;
pub mod load_model;
pub mod names;
pub mod profile;
pub mod profile_config;
pub mod profile_loader;
pub mod scan;
pub mod text;
pub mod tree;
