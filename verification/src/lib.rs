//! State-synchronisation engine of a terminal dashboard for one repository's
//! pull requests and workflow runs.
//!
//! The crate holds the state core with its navigation machine, the text
//! pipeline for logs and diffs, the artifact cache and the rules by which remote
//! replies become state. Drawing, the network and the event loop live outside
//! and talk to it through plain values.
pub mod ansi;
pub mod cache;
pub mod cli;
pub mod diff;
pub mod gateway;
pub mod github;
pub mod log_view;
pub mod logs;
pub mod nav;
pub mod recent;
pub mod search;
pub mod state;
pub mod status;
pub mod text;
pub mod token;
pub mod tone;

