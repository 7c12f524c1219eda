//! Retry steps as Google Cloud Workflows defines them.
pub mod http;
