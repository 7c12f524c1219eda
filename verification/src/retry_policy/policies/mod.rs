//! The policies that come with the library.
mod func;
mod simple;

pub use func::Policy as FnPolicy;
pub use simple::Policy as SimplePolicy;

pub mod google_cloud_workflows;
