//! Locations of a user's standard directories (home, data, config, cache,
//! state and runtime).
//!
//! An XDG override variable, where set, always wins, whatever the platform.
//! Only where it is unset does the platform's own convention apply, computed
//! from the home directory. Resolution is a pure function of an
//! [`Environment`] snapshot, so every rule can be stated and proved here.
pub mod dirs;
pub mod laws;
pub mod path;
pub mod platform;

pub use dirs::{
    all_dirs, cache_dir, config_dir, data_dir, home_dir, runtime_dir, state_dir, Environment,
    HomeDirError, UserDirs,
};
pub use platform::Platform;
