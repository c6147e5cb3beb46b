//! Laws that hold of resolution, stated over the specifications of `dirs`.
use vstd::prelude::*;

use crate::dirs::{
    cache_spec, config_spec, data_spec, home_spec, opt_view, runtime_spec, state_spec,
    Environment, HomeDirError,
};
use crate::path::path_join_all;
use crate::platform::Platform;

verus! {

/// A category whose override variable is set resolves to that variable's value
/// exactly, empty or not, whatever the platform and whether or not the home
/// directory can be located.
pub proof fn lemma_override_wins(env: Environment)
    ensures
        env.xdg_data_home matches Some(v) ==> data_spec(env) == Ok::<_, HomeDirError>(v@),
        env.xdg_config_home matches Some(v) ==> config_spec(env) == Ok::<_, HomeDirError>(v@),
        env.xdg_cache_home matches Some(v) ==> cache_spec(env) == Ok::<_, HomeDirError>(v@),
        env.xdg_state_home matches Some(v) ==> state_spec(env) == Ok::<_, HomeDirError>(
            Some(v@),
        ),
        env.xdg_runtime_dir matches Some(v) ==> runtime_spec(env) == Some(v@),
{
}

/// With no override set (and, on Windows, neither `APPDATA` nor
/// `LOCALAPPDATA`), each directory is the home directory joined with the platform's
/// fixed components.
pub proof fn lemma_defaults_under_home(env: Environment)
    requires
        env.home is Some,
        env.xdg_data_home is None,
        env.xdg_config_home is None,
        env.xdg_cache_home is None,
        env.xdg_state_home is None,
        env.platform == Platform::Windows ==> env.appdata is None && env.local_appdata is None,
    ensures
        ({
            let h = env.home.unwrap()@;
            let p = env.platform;
            &&& p == Platform::MacOs ==> {
                &&& data_spec(env) == Ok::<_, HomeDirError>(
                    path_join_all(h, seq!["Library"@, "Application Support"@], p),
                )
                &&& config_spec(env) == Ok::<_, HomeDirError>(
                    path_join_all(h, seq!["Library"@, "Preferences"@], p),
                )
                &&& cache_spec(env) == Ok::<_, HomeDirError>(
                    path_join_all(h, seq!["Library"@, "Caches"@], p),
                )
            }
            &&& p == Platform::Windows ==> {
                &&& data_spec(env) == Ok::<_, HomeDirError>(
                    path_join_all(h, seq!["AppData"@, "Roaming"@], p),
                )
                &&& config_spec(env) == Ok::<_, HomeDirError>(
                    path_join_all(h, seq!["AppData"@, "Roaming"@], p),
                )
                &&& cache_spec(env) == Ok::<_, HomeDirError>(
                    path_join_all(h, seq!["AppData"@, "Local"@], p),
                )
            }
            &&& p == Platform::Posix ==> {
                &&& data_spec(env) == Ok::<_, HomeDirError>(
                    path_join_all(h, seq![".local"@, "share"@], p),
                )
                &&& config_spec(env) == Ok::<_, HomeDirError>(
                    path_join_all(h, seq![".config"@], p),
                )
                &&& cache_spec(env) == Ok::<_, HomeDirError>(
                    path_join_all(h, seq![".cache"@], p),
                )
                &&& state_spec(env) == Ok::<_, HomeDirError>(
                    Some(path_join_all(h, seq![".local"@, "state"@], p)),
                )
            }
        }),
{
    let h = env.home.unwrap()@;
    let p = env.platform;
    lemma_join_one(h, ".config"@, p);
    lemma_join_one(h, ".cache"@, p);
    lemma_join_two(h, "Library"@, "Application Support"@, p);
    lemma_join_two(h, "Library"@, "Preferences"@, p);
    lemma_join_two(h, "Library"@, "Caches"@, p);
    lemma_join_two(h, "AppData"@, "Roaming"@, p);
    lemma_join_two(h, "AppData"@, "Local"@, p);
    lemma_join_two(h, ".local"@, "share"@, p);
    lemma_join_two(h, ".local"@, "state"@, p);
}

proof fn lemma_join_one(h: Seq<char>, a: Seq<char>, p: Platform)
    ensures
        path_join_all(h, seq![a], p) == crate::path::path_join(h, a, p),
{
    assert(seq![a].drop_last() =~= Seq::<Seq<char>>::empty());
    assert(path_join_all(h, Seq::<Seq<char>>::empty(), p) == h);
}

proof fn lemma_join_two(h: Seq<char>, a: Seq<char>, b: Seq<char>, p: Platform)
    ensures
        path_join_all(h, seq![a, b], p) == crate::dirs::join2(h, a, b, p),
{
    assert(seq![a, b].drop_last() =~= seq![a]);
    lemma_join_one(h, a, p);
}

/// Without `XDG_RUNTIME_DIR` there is no runtime directory, on every platform.
pub proof fn lemma_runtime_has_no_default(env: Environment)
    requires
        env.xdg_runtime_dir is None,
    ensures
        runtime_spec(env) is None,
{
}

/// Without `XDG_STATE_HOME` there is no state directory on macOS or Windows,
/// while under the XDG default it is `.local/state` in the home directory.
pub proof fn lemma_state_default(env: Environment)
    requires
        env.xdg_state_home is None,
        env.home is Some,
    ensures
        env.platform != Platform::Posix ==> state_spec(env) == Ok::<_, HomeDirError>(
            None::<Seq<char>>,
        ),
        env.platform == Platform::Posix ==> state_spec(env) == Ok::<_, HomeDirError>(
            Some(path_join_all(env.home.unwrap()@, seq![".local"@, "state"@], env.platform)),
        ),
{
    lemma_join_two(env.home.unwrap()@, ".local"@, "state"@, env.platform);
}

/// Where the home directory cannot be located, every directory that would need
/// it fails with `HomeDirError`; one whose override is set still resolves.
pub proof fn lemma_missing_home(env: Environment)
    requires
        env.home is None,
    ensures
        home_spec(env) == Err::<Seq<char>, _>(HomeDirError),
        data_spec(env) is Err <==> env.xdg_data_home is None,
        config_spec(env) is Err <==> env.xdg_config_home is None,
        cache_spec(env) is Err <==> env.xdg_cache_home is None,
        state_spec(env) is Err <==> env.xdg_state_home is None,
        data_spec(env) matches Err(e) ==> e == HomeDirError,
        config_spec(env) matches Err(e) ==> e == HomeDirError,
        cache_spec(env) matches Err(e) ==> e == HomeDirError,
        state_spec(env) matches Err(e) ==> e == HomeDirError,
{
}

/// Resolution keeps no hidden state: it reads only the values of the
/// environment, so environments that hold the same values resolve to the same
/// directories, every time.
pub proof fn lemma_resolution_is_repeatable(a: Environment, b: Environment)
    requires
        a.platform == b.platform,
        opt_view(a.home) == opt_view(b.home),
        opt_view(a.xdg_data_home) == opt_view(b.xdg_data_home),
        opt_view(a.xdg_config_home) == opt_view(b.xdg_config_home),
        opt_view(a.xdg_cache_home) == opt_view(b.xdg_cache_home),
        opt_view(a.xdg_state_home) == opt_view(b.xdg_state_home),
        opt_view(a.xdg_runtime_dir) == opt_view(b.xdg_runtime_dir),
        opt_view(a.appdata) == opt_view(b.appdata),
        opt_view(a.local_appdata) == opt_view(b.local_appdata),
    ensures
        home_spec(a) == home_spec(b),
        data_spec(a) == data_spec(b),
        config_spec(a) == config_spec(b),
        cache_spec(a) == cache_spec(b),
        state_spec(a) == state_spec(b),
        runtime_spec(a) == runtime_spec(b),
{
}

} // verus!
