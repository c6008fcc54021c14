//! The decision logic of a self-updating native-module installer.
//!
//! The crate holds every rule of an update run: which release asset fits the
//! platform, when a component has to be installed again, how a download is
//! judged, which paths an archive may write to, and in which order the steps
//! of a run follow each other. It performs no I/O of its own. A host program
//! performs each [`protocol::Action`] and reports what happened as an
//! [`protocol::Event`].

pub mod text;
pub mod platform;
pub mod paths;
pub mod version_cache;
pub mod release;
pub mod install;
pub mod archive;
pub mod command;
pub mod extract;
pub mod delegate;
pub mod config;
pub mod protocol;
pub mod model;
pub mod orchestrator;
pub mod laws;
