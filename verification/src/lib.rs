//! Layered configuration: per-domain defaults masked by user settings,
//! resolved through a precedence chain of immutable snapshots.

pub mod chain;
pub mod defaults;
pub mod domain;
pub mod error;
pub mod json;
pub mod laws;
pub mod manager;
pub mod model;
pub mod pair;
pub mod paths;
pub mod snapshot;
pub mod stack;
pub mod text;
pub mod validator;
