//! Terminal image snapshots built from a glyph encoder's text, and a cache that
//! decides when a new encoding is owed.

pub mod rect;
pub mod snapshot;
pub mod source;
pub mod stateful;
