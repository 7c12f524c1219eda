//! The predicates that come with the library.
mod always;
mod func;
mod never;

pub use always::Predicate as AlwaysPredicate;
pub use func::Predicate as FnPredicate;
pub use never::Predicate as NeverPredicate;
