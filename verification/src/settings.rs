//! Configuration values and the precedence rule for command-line overrides.
//!
//! The on-disk settings files are read and written outside this crate; the
//! plain values land here, where every default and every override decision is
//! pinned down.

use vstd::prelude::*;

verus! {

/// The compact settings file: per-operation prompt skips and search limits.
#[derive(Debug, Clone)]
pub struct Settings {
    pub skip_install_confirm: bool,
    pub skip_uninstall_confirm: bool,
    pub skip_search_prompt: bool,
    pub max_search_results: usize,
    pub skip_aur_update: bool,
}

/// The full configuration file, with an explicit default for every option.
#[derive(Debug, Clone)]
pub struct Config {
    /// Fall back to an interactive search when an install target is not found.
    pub search_fallback: bool,
    /// Prompt before installing a package.
    pub confirm_installation: bool,
    /// Prompt before updating packages.
    pub confirm_update: bool,
    /// Prompt before uninstalling a package.
    pub uninstall_confirm: bool,
    /// Review the build recipe before building a community package.
    pub aur_review: bool,
    /// How many cached versions a cache-clean pass keeps.
    pub cache_version_count: usize,
    /// Include community packages in an update run.
    pub update_aur: bool,
    /// How many results each source contributes to a search listing.
    pub max_results: usize,
    /// Hand unrecognized command lines to the repository manager directly.
    pub pacman_fallback: bool,
}

/// The default for every boolean settings field.
pub fn get_false() -> (r: bool)
    ensures
        r == false,
{
    false
}

/// The default search-result limit.
pub fn default_max_search_results() -> (r: usize)
    ensures
        r == 30,
{
    30
}

/// What every field of [`Settings`] is when the settings file is absent.
pub fn get_default_settings() -> (r: Settings)
    ensures
        r.skip_install_confirm == false,
        r.skip_uninstall_confirm == false,
        r.skip_search_prompt == false,
        r.max_search_results == 30,
        r.skip_aur_update == false,
{
    Settings {
        skip_install_confirm: get_false(),
        skip_uninstall_confirm: get_false(),
        skip_search_prompt: get_false(),
        max_search_results: default_max_search_results(),
        skip_aur_update: get_false(),
    }
}

impl Default for Config {
    /// What every field of [`Config`] is when the configuration file is
    /// absent.
    fn default() -> (r: Config)
        ensures
            r.search_fallback == true,
            r.confirm_installation == true,
            r.confirm_update == true,
            r.uninstall_confirm == true,
            r.aur_review == false,
            r.cache_version_count == 5,
            r.update_aur == true,
            r.max_results == 30,
            r.pacman_fallback == false,
    {
        Config {
            search_fallback: true,
            confirm_installation: true,
            confirm_update: true,
            uninstall_confirm: true,
            aur_review: false,
            cache_version_count: 5,
            update_aur: true,
            max_results: 30,
            pacman_fallback: false,
        }
    }
}

/// An explicit command-line override takes precedence over the configured
/// default; an absent one falls back to it.
pub fn resolve_flag(explicit: Option<bool>, configured: bool) -> (r: bool)
    ensures
        r == (match explicit {
            Option::Some(b) => b,
            Option::None => configured,
        }),
{
    match explicit {
        Option::Some(b) => b,
        Option::None => configured,
    }
}

} // verus!
