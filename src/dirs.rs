//! Resolution of each directory from an environment snapshot.
use vstd::prelude::*;

use crate::path::{join, path_join};
use crate::platform::Platform;

verus! {

/// The home directory could not be located.
#[derive(Clone, Copy, Debug, PartialEq, Eq, Structural)]
pub struct HomeDirError;

impl HomeDirError {
    /// A human-readable description of the error.
    pub fn message(&self) -> (r: &'static str)
        ensures
            r@ == "could not locate home directory"@,
    {
        "could not locate home directory"
    }
}

/// Everything that resolution reads: the platform family, the home directory
/// as the operating system reports it (`None` where it cannot be located),
/// and the environment variables that are consulted, each `None` where unset.
/// A variable that is set counts as set even when it is empty.
#[derive(Clone, Debug)]
pub struct Environment {
    pub platform: Platform,
    pub home: Option<String>,
    /// `XDG_DATA_HOME`
    pub xdg_data_home: Option<String>,
    /// `XDG_CONFIG_HOME`
    pub xdg_config_home: Option<String>,
    /// `XDG_CACHE_HOME`
    pub xdg_cache_home: Option<String>,
    /// `XDG_STATE_HOME`
    pub xdg_state_home: Option<String>,
    /// `XDG_RUNTIME_DIR`
    pub xdg_runtime_dir: Option<String>,
    /// `APPDATA`, the roaming application data folder on Windows.
    pub appdata: Option<String>,
    /// `LOCALAPPDATA`, the local application data folder on Windows.
    pub local_appdata: Option<String>,
}

impl Environment {
    /// An environment on `platform` with home directory `home` and none of
    /// the consulted variables set.
    pub fn new(platform: Platform, home: Option<String>) -> (r: Environment)
        ensures
            r.platform == platform,
            r.home == home,
            r.xdg_data_home is None,
            r.xdg_config_home is None,
            r.xdg_cache_home is None,
            r.xdg_state_home is None,
            r.xdg_runtime_dir is None,
            r.appdata is None,
            r.local_appdata is None,
    {
        Environment {
            platform,
            home,
            xdg_data_home: None,
            xdg_config_home: None,
            xdg_cache_home: None,
            xdg_state_home: None,
            xdg_runtime_dir: None,
            appdata: None,
            local_appdata: None,
        }
    }
}

/// The characters of an optional string.
pub open spec fn opt_view(s: Option<String>) -> Option<Seq<char>> {
    match s {
        Some(v) => Some(v@),
        None => None,
    }
}

/// The characters of a resolved path, or the error.
pub open spec fn path_view(r: Result<String, HomeDirError>) -> Result<Seq<char>, HomeDirError> {
    match r {
        Ok(p) => Ok(p@),
        Err(e) => Err(e),
    }
}

/// The characters of a resolved optional path, or the error.
pub open spec fn opt_path_view(r: Result<Option<String>, HomeDirError>) -> Result<
    Option<Seq<char>>,
    HomeDirError,
> {
    match r {
        Ok(p) => Ok(opt_view(p)),
        Err(e) => Err(e),
    }
}

/// `home` joined with `a`, then with `b`.
pub open spec fn join2(home: Seq<char>, a: Seq<char>, b: Seq<char>, p: Platform) -> Seq<char> {
    path_join(path_join(home, a, p), b, p)
}

/// The home directory, or the error where the system cannot locate it.
pub open spec fn home_spec(env: Environment) -> Result<Seq<char>, HomeDirError> {
    match env.home {
        Some(h) => Ok(h@),
        None => Err(HomeDirError),
    }
}

/// The platform's data directory under `home`.
pub open spec fn data_default(env: Environment, home: Seq<char>) -> Seq<char> {
    let p = env.platform;
    match p {
        Platform::MacOs => join2(home, "Library"@, "Application Support"@, p),
        Platform::Windows => match env.appdata {
            Some(v) => v@,
            None => join2(home, "AppData"@, "Roaming"@, p),
        },
        Platform::Posix => join2(home, ".local"@, "share"@, p),
    }
}

/// The platform's config directory under `home`.
pub open spec fn config_default(env: Environment, home: Seq<char>) -> Seq<char> {
    let p = env.platform;
    match p {
        Platform::MacOs => join2(home, "Library"@, "Preferences"@, p),
        Platform::Windows => match env.appdata {
            Some(v) => v@,
            None => join2(home, "AppData"@, "Roaming"@, p),
        },
        Platform::Posix => path_join(home, ".config"@, p),
    }
}

/// The platform's cache directory under `home`.
pub open spec fn cache_default(env: Environment, home: Seq<char>) -> Seq<char> {
    let p = env.platform;
    match p {
        Platform::MacOs => join2(home, "Library"@, "Caches"@, p),
        Platform::Windows => match env.local_appdata {
            Some(v) => v@,
            None => join2(home, "AppData"@, "Local"@, p),
        },
        Platform::Posix => path_join(home, ".cache"@, p),
    }
}

/// The platform's state directory under `home`; only the XDG default has one.
pub open spec fn state_default(env: Environment, home: Seq<char>) -> Option<Seq<char>> {
    let p = env.platform;
    match p {
        Platform::Posix => Some(join2(home, ".local"@, "state"@, p)),
        _ => None,
    }
}

/// The override where set; else the default under the home directory, which
/// is then needed.
pub open spec fn resolve(
    over: Option<String>,
    env: Environment,
    default: spec_fn(Seq<char>) -> Seq<char>,
) -> Result<Seq<char>, HomeDirError> {
    match over {
        Some(v) => Ok(v@),
        None => match env.home {
            Some(h) => Ok(default(h@)),
            None => Err(HomeDirError),
        },
    }
}

/// The data directory: `XDG_DATA_HOME` where set, else the platform default.
pub open spec fn data_spec(env: Environment) -> Result<Seq<char>, HomeDirError> {
    resolve(env.xdg_data_home, env, |h: Seq<char>| data_default(env, h))
}

/// The config directory: `XDG_CONFIG_HOME` where set, else the platform default.
pub open spec fn config_spec(env: Environment) -> Result<Seq<char>, HomeDirError> {
    resolve(env.xdg_config_home, env, |h: Seq<char>| config_default(env, h))
}

/// The cache directory: `XDG_CACHE_HOME` where set, else the platform default.
pub open spec fn cache_spec(env: Environment) -> Result<Seq<char>, HomeDirError> {
    resolve(env.xdg_cache_home, env, |h: Seq<char>| cache_default(env, h))
}

/// The state directory: `XDG_STATE_HOME` where set, else the platform default,
/// which may be absent.
pub open spec fn state_spec(env: Environment) -> Result<Option<Seq<char>>, HomeDirError> {
    match env.xdg_state_home {
        Some(v) => Ok(Some(v@)),
        None => match env.home {
            Some(h) => Ok(state_default(env, h@)),
            None => Err(HomeDirError),
        },
    }
}

/// The runtime directory: `XDG_RUNTIME_DIR` where set; no platform has a default.
pub open spec fn runtime_spec(env: Environment) -> Option<Seq<char>> {
    opt_view(env.xdg_runtime_dir)
}

fn copy_opt(s: &Option<String>) -> (r: Option<String>)
    ensures
        opt_view(r) == opt_view(*s),
{
    match s {
        Some(v) => Some(v.clone()),
        None => None,
    }
}

/// Joins `a`, then `b`, onto `home`.
fn join_two(home: &str, a: &str, b: &str, platform: Platform) -> (r: String)
    ensures
        r@ == join2(home@, a@, b@, platform),
{
    let first = join(home, a, platform);
    join(first.as_str(), b, platform)
}

/// The home directory.
pub fn home_dir(env: &Environment) -> (r: Result<String, HomeDirError>)
    ensures
        path_view(r) == home_spec(*env),
{
    match &env.home {
        Some(h) => Ok(h.clone()),
        None => Err(HomeDirError),
    }
}

fn data_under(env: &Environment, home: &str) -> (r: String)
    ensures
        r@ == data_default(*env, home@),
{
    match env.platform {
        Platform::MacOs => join_two(home, "Library", "Application Support", env.platform),
        Platform::Windows => match &env.appdata {
            Some(v) => v.clone(),
            None => join_two(home, "AppData", "Roaming", env.platform),
        },
        Platform::Posix => join_two(home, ".local", "share", env.platform),
    }
}

fn config_under(env: &Environment, home: &str) -> (r: String)
    ensures
        r@ == config_default(*env, home@),
{
    match env.platform {
        Platform::MacOs => join_two(home, "Library", "Preferences", env.platform),
        Platform::Windows => match &env.appdata {
            Some(v) => v.clone(),
            None => join_two(home, "AppData", "Roaming", env.platform),
        },
        Platform::Posix => join(home, ".config", env.platform),
    }
}

fn cache_under(env: &Environment, home: &str) -> (r: String)
    ensures
        r@ == cache_default(*env, home@),
{
    match env.platform {
        Platform::MacOs => join_two(home, "Library", "Caches", env.platform),
        Platform::Windows => match &env.local_appdata {
            Some(v) => v.clone(),
            None => join_two(home, "AppData", "Local", env.platform),
        },
        Platform::Posix => join(home, ".cache", env.platform),
    }
}

fn state_under(env: &Environment, home: &str) -> (r: Option<String>)
    ensures
        opt_view(r) == state_default(*env, home@),
{
    match env.platform {
        Platform::Posix => Some(join_two(home, ".local", "state", env.platform)),
        _ => None,
    }
}

/// The data directory. The home directory is looked up only where
/// `XDG_DATA_HOME` is unset.
pub fn data_dir(env: &Environment) -> (r: Result<String, HomeDirError>)
    ensures
        path_view(r) == data_spec(*env),
{
    match &env.xdg_data_home {
        Some(v) => Ok(v.clone()),
        None => {
            let home = home_dir(env)?;
            Ok(data_under(env, home.as_str()))
        },
    }
}

/// The config directory. The home directory is looked up only where
/// `XDG_CONFIG_HOME` is unset.
pub fn config_dir(env: &Environment) -> (r: Result<String, HomeDirError>)
    ensures
        path_view(r) == config_spec(*env),
{
    match &env.xdg_config_home {
        Some(v) => Ok(v.clone()),
        None => {
            let home = home_dir(env)?;
            Ok(config_under(env, home.as_str()))
        },
    }
}

/// The cache directory. The home directory is looked up only where
/// `XDG_CACHE_HOME` is unset.
pub fn cache_dir(env: &Environment) -> (r: Result<String, HomeDirError>)
    ensures
        path_view(r) == cache_spec(*env),
{
    match &env.xdg_cache_home {
        Some(v) => Ok(v.clone()),
        None => {
            let home = home_dir(env)?;
            Ok(cache_under(env, home.as_str()))
        },
    }
}

/// The state directory, where there is one. The home directory is looked up
/// only where `XDG_STATE_HOME` is unset.
pub fn state_dir(env: &Environment) -> (r: Result<Option<String>, HomeDirError>)
    ensures
        opt_path_view(r) == state_spec(*env),
{
    match &env.xdg_state_home {
        Some(v) => Ok(Some(v.clone())),
        None => {
            let home = home_dir(env)?;
            Ok(state_under(env, home.as_str()))
        },
    }
}

/// The runtime directory, where `XDG_RUNTIME_DIR` names one.
pub fn runtime_dir(env: &Environment) -> (r: Option<String>)
    ensures
        opt_view(r) == runtime_spec(*env),
{
    copy_opt(&env.xdg_runtime_dir)
}

/// All of a user's directories, resolved together.
#[derive(Clone, Debug)]
pub struct UserDirs {
    pub home: String,
    pub data: String,
    pub config: String,
    pub cache: String,
    pub state: Option<String>,
    pub runtime: Option<String>,
}

/// Every directory at once. The home directory is a field of the result, so
/// this fails where it cannot be located, even where overrides would have
/// served every other field. Each field is what its own function gives.
pub fn all_dirs(env: &Environment) -> (r: Result<UserDirs, HomeDirError>)
    ensures
        r is Ok <==> env.home is Some,
        r matches Ok(d) ==> {
            &&& Ok::<_, HomeDirError>(d.home@) == home_spec(*env)
            &&& Ok::<_, HomeDirError>(d.data@) == data_spec(*env)
            &&& Ok::<_, HomeDirError>(d.config@) == config_spec(*env)
            &&& Ok::<_, HomeDirError>(d.cache@) == cache_spec(*env)
            &&& Ok::<_, HomeDirError>(opt_view(d.state)) == state_spec(*env)
            &&& opt_view(d.runtime) == runtime_spec(*env)
        },
        r is Err ==> r == Err::<UserDirs, _>(HomeDirError),
{
    let home = home_dir(env)?;
    let data = match &env.xdg_data_home {
        Some(v) => v.clone(),
        None => data_under(env, home.as_str()),
    };
    let config = match &env.xdg_config_home {
        Some(v) => v.clone(),
        None => config_under(env, home.as_str()),
    };
    let cache = match &env.xdg_cache_home {
        Some(v) => v.clone(),
        None => cache_under(env, home.as_str()),
    };
    let state = match &env.xdg_state_home {
        Some(v) => Some(v.clone()),
        None => state_under(env, home.as_str()),
    };
    let runtime = copy_opt(&env.xdg_runtime_dir);
    Ok(UserDirs { home, data, config, cache, state, runtime })
}

} // verus!
