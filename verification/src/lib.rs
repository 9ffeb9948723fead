//! A board cursor: the highlighted cell that shows whose turn it is.
//!
//! The cursor is an entity with a coordinate and a visibility state. Gameplay
//! code changes the state and thereby marks it dirty; once per frame the
//! cursor system redraws what is dirty: the hidden marker, the sprite and the
//! transform.

pub mod coord;
pub mod cursor;
pub mod decimal;
pub mod setup;
pub mod system;
pub mod world;

pub use coord::Coord;
pub use cursor::Cursor;
pub use setup::initialize_cursor;
pub use system::{CursorSystem, Redraw};
pub use world::{Components, Entity, SpriteRender, SpriteSheetHandle, Tint, Transform, World};
