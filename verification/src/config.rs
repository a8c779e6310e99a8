use vstd::prelude::*;

use crate::cache::path_join;

verus! {

/// The viewer's settings.
#[derive(Debug, Clone)]
pub struct Config {
    /// The side, in pixels, of the square image a file is drawn into.
    pub max_resolution: u32,
    pub color_theme: String,
    pub window_spawn_behavior: String,
    /// Where the metadata database and the images are kept.
    pub cache_dir: String,
}

/// The cache directory used when no per-user cache directory can be found.
pub const CACHE_DIR_FALLBACK: &'static str = "~/.cache/phosphene";

pub fn default_max_resolution() -> (resolution: u32)
    ensures
        resolution == 1024,
{
    1024
}

pub fn default_color_theme() -> (theme: String)
    ensures
        theme@ == "viridis"@,
{
    String::from_str("viridis")
}

pub fn default_window_spawn_behavior() -> (behavior: String)
    ensures
        behavior@ == "center"@,
{
    String::from_str("center")
}

/// The project's path fragment that `directories::ProjectDirs` places under a
/// base directory for the given qualifier, organization and application, as
/// `ProjectDirs::project_path` returns it (on Linux, the application name
/// trimmed and lowercased).
pub uninterp spec fn project_cache_subpath(
    qualifier: Seq<char>,
    organization: Seq<char>,
    application: Seq<char>,
) -> Seq<char>;

/// Calls `directories::ProjectDirs::from` and, when it finds the user's
/// directories, `ProjectDirs::cache_dir`, returned as text (lossily). Trusted:
/// a directory that is found is not empty and is some base directory joined
/// with the project's path fragment for these names, as the crate builds it on
/// Unix. Whether one is found, and the base directory, depend on the
/// environment and are not stated.
#[verifier::external_body]
fn project_cache_dir(
    qualifier: &str,
    organization: &str,
    application: &str,
) -> (found: Option<String>)
    ensures
        found matches Some(text) ==> {
            &&& text@.len() > 0
            &&& exists|base: Seq<char>|
                text@ == path_join(
                    base,
                    project_cache_subpath(qualifier@, organization@, application@),
                )
        },
{
    directories::ProjectDirs::from(qualifier, organization, application).map(
        |dirs| dirs.cache_dir().to_string_lossy().to_string(),
    )
}

/// Whether `dir` is what the program takes as its cache directory: the
/// fallback, or some base directory joined with the program's project path.
pub open spec fn is_program_cache_dir(dir: Seq<char>) -> bool {
    ||| dir == CACHE_DIR_FALLBACK@
    ||| exists|base: Seq<char>|
        dir == path_join(base, project_cache_subpath("com"@, "phosphene"@, "phosphene"@))
}

/// The cache directory: the per-user one when it was found, else
/// `~/.cache/phosphene`.
pub fn cache_dir_or_fallback(project_cache_dir: Option<String>) -> (dir: String)
    ensures
        match project_cache_dir {
            Some(found) => dir == found,
            None => dir@ == CACHE_DIR_FALLBACK@,
        },
{
    match project_cache_dir {
        Some(found) => found,
        None => String::from_str(CACHE_DIR_FALLBACK),
    }
}

/// The per-user cache directory of the program, or the fallback. Which one
/// depends on the environment; either way the path is not empty, and a per-user
/// one ends in the program's project path.
pub fn default_cache_dir() -> (dir: String)
    ensures
        dir@.len() > 0,
        is_program_cache_dir(dir@),
{
    let found = project_cache_dir("com", "phosphene", "phosphene");
    proof {
        reveal_strlit("~/.cache/phosphene");
    }
    cache_dir_or_fallback(found)
}

impl Default for Config {
    fn default() -> (config: Self)
        ensures
            config.max_resolution == 1024,
            config.color_theme@ == "viridis"@,
            config.window_spawn_behavior@ == "center"@,
            config.cache_dir@.len() > 0,
            is_program_cache_dir(config.cache_dir@),
    {
        Config {
            max_resolution: default_max_resolution(),
            color_theme: default_color_theme(),
            window_spawn_behavior: default_window_spawn_behavior(),
            cache_dir: default_cache_dir(),
        }
    }
}

} // verus!
