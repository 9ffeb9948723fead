//! The entity store that the cursor lives in, held as plain values.
//!
//! An entity is an index into a list of component records. A record says which
//! components the entity carries. The shared resources sit next to the list.
//! What the renderer keeps as floating-point matrices and asset handles is held
//! here by the integers that decide them.

use crate::coord::Coord;
use crate::cursor::Cursor;
use vstd::prelude::*;

verus! {

/// Names a sprite sheet by the number under which the asset store keeps it.
#[derive(Clone, Copy, Debug, PartialEq, Eq, Structural)]
pub struct SpriteSheetHandle {
    pub id: u32,
}

/// Which glyph of which sheet an entity is drawn with.
#[derive(Clone, Copy, Debug, PartialEq, Eq, Structural)]
pub struct SpriteRender {
    pub sprite_sheet: SpriteSheetHandle,
    pub sprite_number: usize,
}

impl SpriteRender {
    /// The glyph with the given number on the given sheet.
    pub fn new(sprite_sheet: SpriteSheetHandle, sprite_number: usize) -> (s: Self)
        ensures
            s == (SpriteRender { sprite_sheet, sprite_number }),
    {
        SpriteRender { sprite_sheet, sprite_number }
    }
}

/// What decides where and how large an entity is drawn.
///
/// `cell` is the board cell the entity sits on; without one it is parked at the
/// anchor point beside the board. The scale is uniform, in thousandths.
#[derive(Clone, Copy, Debug, PartialEq, Eq, Structural)]
pub struct Transform {
    pub cell: Option<Coord>,
    pub scale_per_mille: u32,
}

impl Transform {
    /// This transform carried to a board cell: the cell changes, the scale stays.
    pub open spec fn placed(self, pos: Coord) -> Transform {
        Transform { cell: Some(pos), scale_per_mille: self.scale_per_mille }
    }

    /// Carries this transform to a board cell.
    pub fn place(&self, pos: &Coord) -> (t: Transform)
        ensures
            t == self.placed(*pos),
    {
        Transform { cell: Some(*pos), scale_per_mille: self.scale_per_mille }
    }
}

/// A colour laid over a sprite, each channel in percent.
#[derive(Clone, Copy, Debug, PartialEq, Eq, Structural)]
pub struct Tint {
    pub red: u8,
    pub green: u8,
    pub blue: u8,
    pub alpha: u8,
}

/// Handle of an entity: its index in the world's list.
#[derive(Clone, Copy, Debug, PartialEq, Eq, Structural)]
pub struct Entity {
    pub id: usize,
}

/// The components of one entity. An absent component is `None`; the two
/// markers are present when `true`.
#[derive(Clone, Copy, Debug, PartialEq, Eq)]
pub struct Components {
    pub coord: Option<Coord>,
    pub cursor: Option<Cursor>,
    pub sprite: Option<SpriteRender>,
    pub transform: Option<Transform>,
    pub hidden: bool,
    pub transparent: bool,
    pub tint: Option<Tint>,
}

/// All entities and the shared resources.
#[derive(Debug, PartialEq, Eq)]
pub struct World {
    pub entities: Vec<Components>,
    pub default_transform: Option<Transform>,
    pub default_sprite: Option<SpriteRender>,
    pub cursor_entity: Option<Entity>,
}

impl World {
    /// A world without entities and without resources.
    pub fn new() -> (w: Self)
        ensures
            w.entities@ == Seq::<Components>::empty(),
            w.default_transform is None,
            w.default_sprite is None,
            w.cursor_entity is None,
    {
        World {
            entities: Vec::new(),
            default_transform: None,
            default_sprite: None,
            cursor_entity: None,
        }
    }

    /// Adds an entity with the given components and returns its handle. The
    /// entities that were there keep their handles and their components.
    pub fn create_entity(&mut self, components: Components) -> (e: Entity)
        ensures
            e.id == old(self).entities@.len(),
            final(self).entities@ == old(self).entities@.push(components),
            final(self).default_transform == old(self).default_transform,
            final(self).default_sprite == old(self).default_sprite,
            final(self).cursor_entity == old(self).cursor_entity,
    {
        let id: usize = self.entities.len();
        self.entities.push(components);
        Entity { id }
    }
}

} // verus!
