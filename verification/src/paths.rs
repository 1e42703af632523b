//! The base directories and the socket path, each resolved from an
//! [`Environment`].

use crate::environment::{Environment, EnvironmentView};
use crate::laws::lemma_resolved_paths_absolute;
use crate::unix_path::{absolute, join, joined, named};
use vstd::prelude::*;
use vstd::slice::slice_to_vec;

verus! {

/// Name of the socket file inside the runtime directory.
pub const HANDBRAKE_SOCKET: &'static str = "handbrake.socket";

/// The directory that stands in for a home directory that is unknown.
pub const ROOT: &'static str = "/";

/// Where the configuration directory lies below the home directory.
pub const CONFIG_DEFAULT: &'static str = ".config";

/// Where the data directory lies below the home directory.
pub const DATA_DEFAULT: &'static str = ".local/.share";

/// Where the state directory lies below the home directory.
pub const STATE_DEFAULT: &'static str = ".local/.state";

/// Where the cache directory lies below the home directory.
pub const CACHE_DEFAULT: &'static str = ".cache";

/// The home directory: what the platform reports, or the root where it
/// reports nothing.
pub open spec fn home_directory(env: EnvironmentView) -> Seq<u8> {
    match env.home {
        Some(home) => home,
        None => named(ROOT),
    }
}

/// The configuration directory: `XDG_CONFIG_HOME`, or `.config` below the
/// home directory.
pub open spec fn config_directory(env: EnvironmentView) -> Seq<u8> {
    match env.xdg_config_home {
        Some(value) => value,
        None => joined(home_directory(env), named(CONFIG_DEFAULT)),
    }
}

/// The data directory: `XDG_DATA_HOME`, or `.local/.share` below the home
/// directory.
pub open spec fn data_directory(env: EnvironmentView) -> Seq<u8> {
    match env.xdg_data_home {
        Some(value) => value,
        None => joined(home_directory(env), named(DATA_DEFAULT)),
    }
}

/// The state directory: `XDG_STATE_HOME`, or `.local/.state` below the home
/// directory.
pub open spec fn state_directory(env: EnvironmentView) -> Seq<u8> {
    match env.xdg_state_home {
        Some(value) => value,
        None => joined(home_directory(env), named(STATE_DEFAULT)),
    }
}

/// The cache directory: `XDG_CACHE_HOME`, or `.cache` below the home
/// directory.
pub open spec fn cache_directory(env: EnvironmentView) -> Seq<u8> {
    match env.xdg_cache_home {
        Some(value) => value,
        None => joined(home_directory(env), named(CACHE_DEFAULT)),
    }
}

/// The runtime directory: `XDG_RUNTIME_DIR`, or the cache directory as a
/// whole.
pub open spec fn runtime_directory(env: EnvironmentView) -> Seq<u8> {
    match env.xdg_runtime_dir {
        Some(value) => value,
        None => cache_directory(env),
    }
}

/// The socket: the file named [`HANDBRAKE_SOCKET`] in the runtime directory.
pub open spec fn socket_file(env: EnvironmentView) -> Seq<u8> {
    joined(runtime_directory(env), named(HANDBRAKE_SOCKET))
}

/// Resolves the home directory.
pub fn home_dir(env: &Environment) -> (dir: Vec<u8>)
    ensures
        dir@ == home_directory(env@),
        env@.all_absolute() ==> absolute(dir@),
{
    proof {
        if env@.all_absolute() {
            lemma_resolved_paths_absolute(env@);
        }
    }
    match &env.home {
        Some(home) => slice_to_vec(home.as_slice()),
        None => slice_to_vec(ROOT.as_bytes()),
    }
}

/// Resolves the configuration directory.
pub fn xdg_config_home(env: &Environment) -> (dir: Vec<u8>)
    ensures
        dir@ == config_directory(env@),
        env@.all_absolute() ==> absolute(dir@),
{
    proof {
        if env@.all_absolute() {
            lemma_resolved_paths_absolute(env@);
        }
    }
    match &env.xdg_config_home {
        Some(value) => slice_to_vec(value.as_slice()),
        None => join(home_dir(env).as_slice(), CONFIG_DEFAULT.as_bytes()),
    }
}

/// Resolves the data directory.
pub fn xdg_data_home(env: &Environment) -> (dir: Vec<u8>)
    ensures
        dir@ == data_directory(env@),
        env@.all_absolute() ==> absolute(dir@),
{
    proof {
        if env@.all_absolute() {
            lemma_resolved_paths_absolute(env@);
        }
    }
    match &env.xdg_data_home {
        Some(value) => slice_to_vec(value.as_slice()),
        None => join(home_dir(env).as_slice(), DATA_DEFAULT.as_bytes()),
    }
}

/// Resolves the state directory.
pub fn xdg_state_home(env: &Environment) -> (dir: Vec<u8>)
    ensures
        dir@ == state_directory(env@),
        env@.all_absolute() ==> absolute(dir@),
{
    proof {
        if env@.all_absolute() {
            lemma_resolved_paths_absolute(env@);
        }
    }
    match &env.xdg_state_home {
        Some(value) => slice_to_vec(value.as_slice()),
        None => join(home_dir(env).as_slice(), STATE_DEFAULT.as_bytes()),
    }
}

/// Resolves the cache directory.
pub fn xdg_cache_home(env: &Environment) -> (dir: Vec<u8>)
    ensures
        dir@ == cache_directory(env@),
        env@.all_absolute() ==> absolute(dir@),
{
    proof {
        if env@.all_absolute() {
            lemma_resolved_paths_absolute(env@);
        }
    }
    match &env.xdg_cache_home {
        Some(value) => slice_to_vec(value.as_slice()),
        None => join(home_dir(env).as_slice(), CACHE_DEFAULT.as_bytes()),
    }
}

/// Resolves the runtime directory.
pub fn xdg_runtime_dir(env: &Environment) -> (dir: Vec<u8>)
    ensures
        dir@ == runtime_directory(env@),
        env@.all_absolute() ==> absolute(dir@),
{
    proof {
        if env@.all_absolute() {
            lemma_resolved_paths_absolute(env@);
        }
    }
    match &env.xdg_runtime_dir {
        Some(value) => slice_to_vec(value.as_slice()),
        None => xdg_cache_home(env),
    }
}

/// Resolves the path of the socket.
pub fn socket_path(env: &Environment) -> (path: Vec<u8>)
    ensures
        path@ == socket_file(env@),
        env@.all_absolute() ==> absolute(path@),
{
    proof {
        if env@.all_absolute() {
            lemma_resolved_paths_absolute(env@);
        }
    }
    join(xdg_runtime_dir(env).as_slice(), HANDBRAKE_SOCKET.as_bytes())
}

} // verus!
