//! Where the configuration lives: the per-user configuration directory and
//! the well-known files under it.
use vstd::prelude::*;

verus! {

/// Relies on directories' ProjectDirs: the per-user configuration directory
/// that the platform assigns this program. The result depends on the
/// environment, so nothing is promised of it; absent when the platform
/// names no home for the current user.
#[verifier::external_body]
pub fn config_dir() -> (r: Option<String>) {
    match directories::ProjectDirs::from("com", "ALinuxPerson", "tuxvantage") {
        Some(dirs) => Some(dirs.config_dir().to_string_lossy().into_owned()),
        None => None,
    }
}

/// The directory that holds the external profile documents.
pub fn profiles_dir(config_dir: &str) -> (r: String)
    ensures
        r@ == config_dir@ + "/profiles"@,
{
    let mut r = String::from_str(config_dir);
    r.append("/profiles");
    r
}

/// The persisted configuration document.
pub fn tuxvantage_toml(config_dir: &str) -> (r: String)
    ensures
        r@ == config_dir@ + "/tuxvantage.toml"@,
{
    let mut r = String::from_str(config_dir);
    r.append("/tuxvantage.toml");
    r
}

/// The three well-known paths, derived from one configuration directory.
#[derive(Debug)]
pub struct ProjectPaths {
    pub config_dir: String,
    pub profiles_dir: String,
    pub tuxvantage_toml: String,
}

/// The program's paths, when the platform names a configuration directory:
/// the profile directory and the configuration document always sit directly
/// under it.
pub fn project_paths() -> (r: Option<ProjectPaths>)
    ensures
        r matches Some(paths) ==> paths.profiles_dir@ == paths.config_dir@ + "/profiles"@
            && paths.tuxvantage_toml@ == paths.config_dir@ + "/tuxvantage.toml"@,
{
    match config_dir() {
        Some(base) => {
            let profiles = profiles_dir(base.as_str());
            let document = tuxvantage_toml(base.as_str());
            Some(ProjectPaths { config_dir: base, profiles_dir: profiles, tuxvantage_toml: document })
        },
        None => None,
    }
}

} // verus!
