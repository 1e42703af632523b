//! What holds of the resolved paths in every environment.

use crate::environment::EnvironmentView;
use crate::unix_path::{
    absolute, joined, lemma_joined_absolute, lemma_joined_associative, lemma_named_ascii, named,
};
use crate::paths::{
    cache_directory, config_directory, data_directory, home_directory, runtime_directory,
    socket_file, state_directory,
};
use vstd::prelude::*;
use vstd::string::*;

verus! {

/// A variable that is set decides its directory: the directory is the
/// value, byte for byte, whatever the value is (the empty one too) and
/// whatever else the environment holds.
pub proof fn lemma_set_variable_is_used(env: EnvironmentView)
    ensures
        env.xdg_config_home matches Some(value) ==> config_directory(env) == value,
        env.xdg_data_home matches Some(value) ==> data_directory(env) == value,
        env.xdg_state_home matches Some(value) ==> state_directory(env) == value,
        env.xdg_cache_home matches Some(value) ==> cache_directory(env) == value,
        env.xdg_runtime_dir matches Some(value) ==> runtime_directory(env) == value,
{
}

/// The home directory is what the platform reports, and the root where it
/// reports nothing.
pub proof fn lemma_home_or_root(env: EnvironmentView)
    ensures
        env.home matches Some(home) ==> home_directory(env) == home,
        env.home is None ==> home_directory(env) == named("/"),
{
}

/// Without `XDG_CONFIG_HOME` the configuration directory is `.config` in
/// the home directory.
pub proof fn lemma_config_default(env: EnvironmentView)
    requires
        env.xdg_config_home is None,
    ensures
        config_directory(env) == joined(home_directory(env), named(".config")),
{
}

/// Without `XDG_DATA_HOME` the data directory is `.local/.share` in the
/// home directory: the directory `.share` inside the directory `.local`.
pub proof fn lemma_data_default(env: EnvironmentView)
    requires
        env.xdg_data_home is None,
    ensures
        data_directory(env) == joined(home_directory(env), named(".local/.share")),
        data_directory(env) == joined(
            joined(home_directory(env), named(".local")),
            named(".share"),
        ),
{
    assert(joined(named(".local"), named(".share")) == named(".local/.share")) by {
        reveal_strlit(".local");
        reveal_strlit(".share");
        reveal_strlit(".local/.share");
        lemma_named_ascii(".local");
        lemma_named_ascii(".share");
        lemma_named_ascii(".local/.share");
        assert(joined(named(".local"), named(".share")) =~= named(".local/.share"));
    }
    lemma_joined_associative(home_directory(env), named(".local"), named(".share"));
}

/// Without `XDG_STATE_HOME` the state directory is `.local/.state` in the
/// home directory: the directory `.state` inside the directory `.local`.
pub proof fn lemma_state_default(env: EnvironmentView)
    requires
        env.xdg_state_home is None,
    ensures
        state_directory(env) == joined(home_directory(env), named(".local/.state")),
        state_directory(env) == joined(
            joined(home_directory(env), named(".local")),
            named(".state"),
        ),
{
    assert(joined(named(".local"), named(".state")) == named(".local/.state")) by {
        reveal_strlit(".local");
        reveal_strlit(".state");
        reveal_strlit(".local/.state");
        lemma_named_ascii(".local");
        lemma_named_ascii(".state");
        lemma_named_ascii(".local/.state");
        assert(joined(named(".local"), named(".state")) =~= named(".local/.state"));
    }
    lemma_joined_associative(home_directory(env), named(".local"), named(".state"));
}

/// Without `XDG_CACHE_HOME` the cache directory is `.cache` in the home
/// directory.
pub proof fn lemma_cache_default(env: EnvironmentView)
    requires
        env.xdg_cache_home is None,
    ensures
        cache_directory(env) == joined(home_directory(env), named(".cache")),
{
}

/// Without `XDG_RUNTIME_DIR` the runtime directory is the cache directory,
/// wherever that one comes from; without `XDG_CACHE_HOME` as well it is
/// `.cache` in the home directory.
pub proof fn lemma_runtime_falls_through(env: EnvironmentView)
    requires
        env.xdg_runtime_dir is None,
    ensures
        runtime_directory(env) == cache_directory(env),
        env.xdg_cache_home is None ==> runtime_directory(env) == joined(
            home_directory(env),
            named(".cache"),
        ),
{
}

/// In every environment the socket is the file `handbrake.socket` in the
/// runtime directory.
pub proof fn lemma_socket_in_runtime_directory(env: EnvironmentView)
    ensures
        socket_file(env) == joined(runtime_directory(env), named("handbrake.socket")),
{
}

/// Where the platform reports no home directory, every directory that no
/// variable decides lies directly below the root, and so does the socket.
pub proof fn lemma_defaults_below_root(env: EnvironmentView)
    requires
        env.home is None,
    ensures
        home_directory(env) == named("/"),
        env.xdg_config_home is None ==> config_directory(env) == named("/.config"),
        env.xdg_data_home is None ==> data_directory(env) == named("/.local/.share"),
        env.xdg_state_home is None ==> state_directory(env) == named("/.local/.state"),
        env.xdg_cache_home is None ==> cache_directory(env) == named("/.cache"),
        env.xdg_runtime_dir is None && env.xdg_cache_home is None ==> {
            &&& runtime_directory(env) == named("/.cache")
            &&& socket_file(env) == named("/.cache/handbrake.socket")
        },
{
    reveal_strlit("/");
    lemma_named_ascii("/");
    assert(joined(named("/"), named(".config")) =~= named("/.config")) by {
        reveal_strlit(".config");
        reveal_strlit("/.config");
        lemma_named_ascii(".config");
        lemma_named_ascii("/.config");
    }
    assert(joined(named("/"), named(".local/.share")) =~= named("/.local/.share")) by {
        reveal_strlit(".local/.share");
        reveal_strlit("/.local/.share");
        lemma_named_ascii(".local/.share");
        lemma_named_ascii("/.local/.share");
    }
    assert(joined(named("/"), named(".local/.state")) =~= named("/.local/.state")) by {
        reveal_strlit(".local/.state");
        reveal_strlit("/.local/.state");
        lemma_named_ascii(".local/.state");
        lemma_named_ascii("/.local/.state");
    }
    assert(joined(named("/"), named(".cache")) =~= named("/.cache")) by {
        reveal_strlit(".cache");
        reveal_strlit("/.cache");
        lemma_named_ascii(".cache");
        lemma_named_ascii("/.cache");
    }
    assert(joined(named("/.cache"), named("handbrake.socket")) =~= named(
        "/.cache/handbrake.socket",
    )) by {
        reveal_strlit("/.cache");
        reveal_strlit("handbrake.socket");
        reveal_strlit("/.cache/handbrake.socket");
        lemma_named_ascii("/.cache");
        lemma_named_ascii("handbrake.socket");
        lemma_named_ascii("/.cache/handbrake.socket");
    }
}

/// A directory that falls back on the home directory is absolute exactly
/// when the home directory is; the socket path is absolute exactly when the
/// runtime directory is.
pub proof fn lemma_absolute_as_base(env: EnvironmentView)
    ensures
        env.xdg_config_home is None ==> (absolute(config_directory(env)) <==> absolute(
            home_directory(env),
        )),
        env.xdg_data_home is None ==> (absolute(data_directory(env)) <==> absolute(
            home_directory(env),
        )),
        env.xdg_state_home is None ==> (absolute(state_directory(env)) <==> absolute(
            home_directory(env),
        )),
        env.xdg_cache_home is None ==> (absolute(cache_directory(env)) <==> absolute(
            home_directory(env),
        )),
        absolute(socket_file(env)) <==> absolute(runtime_directory(env)),
{
    lemma_fixed_names_relative();
    lemma_joined_absolute(home_directory(env), named(".config"));
    lemma_joined_absolute(home_directory(env), named(".local/.share"));
    lemma_joined_absolute(home_directory(env), named(".local/.state"));
    lemma_joined_absolute(home_directory(env), named(".cache"));
    lemma_joined_absolute(runtime_directory(env), named("handbrake.socket"));
}

/// Where every value that the environment holds is an absolute path, every
/// resolved path is absolute.
pub proof fn lemma_resolved_paths_absolute(env: EnvironmentView)
    requires
        env.all_absolute(),
    ensures
        absolute(home_directory(env)),
        absolute(config_directory(env)),
        absolute(data_directory(env)),
        absolute(state_directory(env)),
        absolute(cache_directory(env)),
        absolute(runtime_directory(env)),
        absolute(socket_file(env)),
{
    assert(absolute(named("/"))) by {
        reveal_strlit("/");
        lemma_named_ascii("/");
    }
    lemma_absolute_as_base(env);
}

/// The names that the resolution adjoins are relative and not empty: none
/// of them can replace the directory that it is adjoined to.
pub proof fn lemma_fixed_names_relative()
    ensures
        !absolute(named(".config")) && named(".config").len() > 0,
        !absolute(named(".local/.share")) && named(".local/.share").len() > 0,
        !absolute(named(".local/.state")) && named(".local/.state").len() > 0,
        !absolute(named(".cache")) && named(".cache").len() > 0,
        !absolute(named("handbrake.socket")) && named("handbrake.socket").len() > 0,
{
    reveal_strlit(".config");
    reveal_strlit(".local/.share");
    reveal_strlit(".local/.state");
    reveal_strlit(".cache");
    reveal_strlit("handbrake.socket");
    lemma_named_ascii(".config");
    lemma_named_ascii(".local/.share");
    lemma_named_ascii(".local/.state");
    lemma_named_ascii(".cache");
    lemma_named_ascii("handbrake.socket");
}

} // verus!
