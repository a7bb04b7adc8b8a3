//! The names most callers want in scope.

pub use crate::single::Single;
