//! The backoffs that come with the library.
mod func;

pub use func::Backoff as FnBackoff;

pub mod google_cloud_workflows;
pub mod impl_backoff_rs;
pub mod impl_exponential_backoff;
