//! Entities fetched from the hosting provider.
pub mod types;

