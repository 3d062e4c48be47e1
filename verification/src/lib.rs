//! Selection, identity and initialization of memo stores.
//!
//! `store` chooses the store a command works on, `discovery` finds the
//! repository of the working directory and its identity, `project` turns an
//! identity into a project id, `marker` reads and creates the format marker
//! and renders the selection report, `config` holds the user configuration
//! and the environment's base directories. `path`, `text`, `bytes` and
//! `error` are the shared vocabulary.
pub mod bytes;
pub mod command;
pub mod config;
pub mod discovery;
pub mod error;
pub mod marker;
pub mod path;
pub mod project;
pub mod store;
pub mod text;
