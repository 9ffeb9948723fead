//! One-time creation of the cursor entity and of the shared defaults.

use crate::coord::Coord;
use crate::cursor::{Cursor, Mark};
use crate::system::CursorSystem;
use crate::world::{Components, SpriteRender, SpriteSheetHandle, Tint, Transform, World};
use vstd::prelude::*;

verus! {

/// The shared transform template: parked beside the board, at an eighth of
/// full size.
pub open spec fn default_transform() -> Transform {
    Transform { cell: None, scale_per_mille: 125 }
}

/// The shared sprite: the first glyph of the sheet.
pub open spec fn default_sprite(sheet: SpriteSheetHandle) -> SpriteRender {
    SpriteRender { sprite_sheet: sheet, sprite_number: 0 }
}

/// The cursor's tint: light grey, half see-through.
pub open spec fn cursor_tint() -> Tint {
    Tint { red: 80, green: 80, blue: 80, alpha: 50 }
}

/// What the cursor entity carries when it is created: it sits at the origin of
/// the board, is not shown and not dirty, and is marked hidden and transparent.
pub open spec fn cursor_components(sheet: SpriteSheetHandle) -> Components {
    Components {
        coord: Some(Coord { x: 0, y: 0, out_of_bound: false }),
        cursor: Some(Cursor { show: false, dirty: false }),
        sprite: Some(default_sprite(sheet)),
        transform: Some(default_transform()),
        hidden: true,
        transparent: true,
        tint: Some(cursor_tint()),
    }
}

/// The cursor entity as it is created is looked at by the update and is not
/// due: an update leaves it as it is, hidden. Once its cursor is marked dirty
/// without being shown, an update redraws it, and it is hidden still.
pub proof fn lemma_new_cursor_stays_hidden(
    sheet: SpriteSheetHandle,
    template: Transform,
    piece_idx: usize,
)
    ensures
        CursorSystem::joins(cursor_components(sheet)),
        !CursorSystem::due(cursor_components(sheet)),
        CursorSystem::redrawn(cursor_components(sheet), template, piece_idx) == cursor_components(
            sheet,
        ),
        CursorSystem::redrawn(
            CursorSystem::marked(cursor_components(sheet), Mark::Dirty),
            template,
            piece_idx,
        ).hidden,
{
}

/// Publishes the default transform and the default sprite, creates the cursor
/// entity and publishes its handle.
///
/// Earlier values of the three resources are overwritten. The entities that
/// were there stay as they are, so a second call leaves the first cursor
/// entity in the world without a handle to it.
pub fn initialize_cursor(world: &mut World, sprite_sheet_handle: SpriteSheetHandle)
    ensures
        final(world).default_transform == Some(default_transform()),
        final(world).default_sprite == Some(default_sprite(sprite_sheet_handle)),
        final(world).entities@ == old(world).entities@.push(
            cursor_components(sprite_sheet_handle),
        ),
        final(world).cursor_entity matches Some(e) && e.id == old(world).entities@.len(),
{
    let transform = Transform { cell: None, scale_per_mille: 125 };
    world.default_transform = Some(transform);

    let sprite_render = SpriteRender::new(sprite_sheet_handle, 0);
    world.default_sprite = Some(sprite_render);

    let cursor_entity = world.create_entity(
        Components {
            coord: Some(Coord::new_bounded(0, 0)),
            cursor: Some(Cursor::default()),
            sprite: Some(sprite_render),
            transform: Some(transform),
            hidden: true,
            transparent: true,
            tint: Some(Tint { red: 80, green: 80, blue: 80, alpha: 50 }),
        },
    );
    world.cursor_entity = Some(cursor_entity);
}

} // verus!
