//! The state core: everything the dashboard shows, the one place that
//! changes it, and the requests it hands to whoever talks to the network.
pub mod actions;
pub mod app;
pub mod calls;
pub mod keys;
pub mod laws;
pub mod messages;
pub mod model;
pub mod request;
pub mod run;

