//! The part of a process's surroundings that the resolution reads.

use crate::unix_path::absolute;
use vstd::prelude::*;
use vstd::slice::slice_to_vec;

verus! {

/// Name of the variable that holds the configuration directory.
pub const XDG_CONFIG_HOME: &'static str = "XDG_CONFIG_HOME";

/// Name of the variable that holds the data directory.
pub const XDG_DATA_HOME: &'static str = "XDG_DATA_HOME";

/// Name of the variable that holds the state directory.
pub const XDG_STATE_HOME: &'static str = "XDG_STATE_HOME";

/// Name of the variable that holds the cache directory.
pub const XDG_CACHE_HOME: &'static str = "XDG_CACHE_HOME";

/// Name of the variable that holds the runtime directory.
pub const XDG_RUNTIME_DIR: &'static str = "XDG_RUNTIME_DIR";

/// A snapshot of the environment.
///
/// Each field is `None` where the process has no such value, and holds the
/// value as it was found otherwise. A variable that is set to the empty
/// string is `Some` of no bytes: it counts as set.
#[derive(Debug, PartialEq, Eq)]
pub struct Environment {
    /// The home directory, as the platform reports it.
    pub home: Option<Vec<u8>>,
    /// The value of `XDG_CONFIG_HOME`.
    pub xdg_config_home: Option<Vec<u8>>,
    /// The value of `XDG_DATA_HOME`.
    pub xdg_data_home: Option<Vec<u8>>,
    /// The value of `XDG_STATE_HOME`.
    pub xdg_state_home: Option<Vec<u8>>,
    /// The value of `XDG_CACHE_HOME`.
    pub xdg_cache_home: Option<Vec<u8>>,
    /// The value of `XDG_RUNTIME_DIR`.
    pub xdg_runtime_dir: Option<Vec<u8>>,
}

/// What an [`Environment`] holds, as mathematical values.
pub struct EnvironmentView {
    /// The home directory, as the platform reports it.
    pub home: Option<Seq<u8>>,
    /// The value of `XDG_CONFIG_HOME`.
    pub xdg_config_home: Option<Seq<u8>>,
    /// The value of `XDG_DATA_HOME`.
    pub xdg_data_home: Option<Seq<u8>>,
    /// The value of `XDG_STATE_HOME`.
    pub xdg_state_home: Option<Seq<u8>>,
    /// The value of `XDG_CACHE_HOME`.
    pub xdg_cache_home: Option<Seq<u8>>,
    /// The value of `XDG_RUNTIME_DIR`.
    pub xdg_runtime_dir: Option<Seq<u8>>,
}

/// The bytes of a value that may be missing.
pub open spec fn content(value: Option<Vec<u8>>) -> Option<Seq<u8>> {
    match value {
        Some(bytes) => Some(bytes@),
        None => None,
    }
}

impl View for Environment {
    type V = EnvironmentView;

    open spec fn view(&self) -> EnvironmentView {
        EnvironmentView {
            home: content(self.home),
            xdg_config_home: content(self.xdg_config_home),
            xdg_data_home: content(self.xdg_data_home),
            xdg_state_home: content(self.xdg_state_home),
            xdg_cache_home: content(self.xdg_cache_home),
            xdg_runtime_dir: content(self.xdg_runtime_dir),
        }
    }
}

/// A value that is missing, or one that is an absolute path.
pub open spec fn absolute_if_present(value: Option<Seq<u8>>) -> bool {
    value matches Some(path) ==> absolute(path)
}

impl EnvironmentView {
    /// Every value that is present is an absolute path.
    pub open spec fn all_absolute(self) -> bool {
        &&& absolute_if_present(self.home)
        &&& absolute_if_present(self.xdg_config_home)
        &&& absolute_if_present(self.xdg_data_home)
        &&& absolute_if_present(self.xdg_state_home)
        &&& absolute_if_present(self.xdg_cache_home)
        &&& absolute_if_present(self.xdg_runtime_dir)
    }

    /// The environment in which the home directory is unknown and no
    /// variable is set.
    pub open spec fn unset() -> EnvironmentView {
        EnvironmentView {
            home: None,
            xdg_config_home: None,
            xdg_data_home: None,
            xdg_state_home: None,
            xdg_cache_home: None,
            xdg_runtime_dir: None,
        }
    }
}

/// Copies a value that may be missing.
fn copy_of(value: &Option<Vec<u8>>) -> (copy: Option<Vec<u8>>)
    ensures
        content(copy) == content(*value),
{
    match value {
        Some(bytes) => Some(slice_to_vec(bytes.as_slice())),
        None => None,
    }
}

impl Clone for Environment {
    fn clone(&self) -> (copy: Environment)
        ensures
            copy@ == self@,
    {
        Environment {
            home: copy_of(&self.home),
            xdg_config_home: copy_of(&self.xdg_config_home),
            xdg_data_home: copy_of(&self.xdg_data_home),
            xdg_state_home: copy_of(&self.xdg_state_home),
            xdg_cache_home: copy_of(&self.xdg_cache_home),
            xdg_runtime_dir: copy_of(&self.xdg_runtime_dir),
        }
    }
}

impl Environment {
    /// An environment in which the home directory is unknown and no variable
    /// is set.
    pub fn unset() -> (env: Environment)
        ensures
            env@ == EnvironmentView::unset(),
    {
        Environment {
            home: None,
            xdg_config_home: None,
            xdg_data_home: None,
            xdg_state_home: None,
            xdg_cache_home: None,
            xdg_runtime_dir: None,
        }
    }
}

} // verus!
