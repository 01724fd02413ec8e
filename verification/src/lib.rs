//! Core logic of a package-management front end that unifies a system's
//! official binary repositories with a community-maintained source-build
//! repository behind one install/search/update/uninstall workflow.
//!
//! Every decision the tool makes — which source owns a requested name, which
//! dependencies are missing, which conflicts must be resolved, where a build
//! archive is cached, which installed packages are outdated — is computed here
//! and verified. Subprocess execution, HTTP transfers and interactive prompts
//! live outside this crate; they feed captured output and plain answers into
//! these functions and carry out the command lines these functions build.

pub mod aur;
pub mod cache;
pub mod error;
pub mod install;
pub mod inventory;
pub mod maintenance;
pub mod repo;
pub mod settings;
pub mod text;
pub mod uninstall;
pub mod update;
