//! `Single` holds the one item that a `bevy_ecs` query matches.
//!
//! A query over a world may match no item, exactly one, or several. Code that expects exactly
//! one asks the query for its single result and gets either the item or a
//! `bevy_ecs::query::QuerySingleError`. This library turns that answer into a [`Single`], a
//! transparent wrapper with read and write access to the item, or into a [`SingleError`] that
//! says whether the query matched nothing or too much.

pub mod error;
pub mod prelude;
pub mod single;

pub use crate::error::SingleError;
pub use crate::single::Single;
