//! An interactive-fiction narrative engine: a world of characters, items and
//! scenes, a closed set of preconditioned events that advance that world, a
//! narrator that derives the currently legal events, and a codec that dumps
//! and restores the whole state as a structured value tree.

pub mod cake;
pub mod characters;
pub mod codec;
pub mod doll;
pub mod entities;
pub mod errors;
pub mod events;
pub mod translations;
pub mod values;
pub mod world;
