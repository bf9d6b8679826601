//! Gamepad input bindings: physical sources, subaction paths, haptic
//! dispatch, default-binding snapshots and the configuration lifecycle.

pub mod binding;
pub mod config;
pub mod default_bindings;
pub mod device;
pub mod haptic;
pub mod path;
pub mod provider;
pub mod search;
pub mod source;
pub mod subaction_paths;
pub mod text;
pub mod value;
