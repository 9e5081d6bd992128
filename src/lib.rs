//! An interactive browser over a fixed list of installed games: a filtered,
//! order-preserving view with a wrapping cursor, a search mode, and the
//! decision of what opening the selected entry does.

pub mod text;
pub mod item;
pub mod browser;
pub mod input;
pub mod laws;
