//! Resolution of the XDG base directories, and of the path of the HandBrake
//! socket that is derived from them.
//!
//! Nothing here looks at the process: every function works on an
//! [`Environment`], a snapshot of the few values that the resolution depends
//! on. Paths are Unix paths, held as the bytes they are made of.

pub mod environment;
pub mod export;
pub mod laws;
pub mod paths;
pub mod unix_path;

pub use environment::{Environment, EnvironmentView};
pub use export::write_path;
pub use paths::{
    home_dir, socket_path, xdg_cache_home, xdg_config_home, xdg_data_home, xdg_runtime_dir,
    xdg_state_home, HANDBRAKE_SOCKET,
};
pub use unix_path::{is_absolute, join};
