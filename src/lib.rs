//! Keeps a long-lived fork of an upstream tree in sync with two remotes and
//! reapplies a registry of patch sets on top of it.
//!
//! Everything that decides lives here and is verified; running processes and
//! touching the disk is left to the caller, which hands back plain values.
pub mod config;
pub mod engines;
pub mod fs_config;
pub mod git;
pub mod launch;
pub mod registry;
pub mod repo;
pub mod status;
pub mod sync;
pub mod text;
pub mod update;
