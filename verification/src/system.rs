//! The per-frame update of the cursor.

use crate::coord::Coord;
use crate::cursor::{Cursor, Mark};
use crate::world::{Components, SpriteRender, Transform, World};
use vstd::prelude::*;

verus! {

/// Redraws, once per frame, every cursor that is marked dirty.
pub struct CursorSystem;

/// What a redraw gives an entity: whether it carries the hidden marker, the
/// number of its sprite, and its transform.
#[derive(Clone, Copy, Debug, PartialEq, Eq)]
pub struct Redraw {
    pub hidden: bool,
    pub sprite_number: usize,
    pub transform: Transform,
}

impl CursorSystem {
    /// The update looks at an entity only if it carries a coordinate, a cursor,
    /// a sprite and a transform.
    pub open spec fn joins(c: Components) -> bool {
        c.coord is Some && c.cursor is Some && c.sprite is Some && c.transform is Some
    }

    /// An entity is redrawn in this frame if the update looks at it and its
    /// cursor is dirty.
    pub open spec fn due(c: Components) -> bool {
        Self::joins(c) && c.cursor.unwrap().dirty
    }

    /// The entity after one update, for a given transform template and the
    /// sprite number of the piece whose turn it is.
    ///
    /// An entity that is due loses its dirty mark, is hidden exactly if its
    /// cursor is not shown, takes the sprite number, and gets the template
    /// carried to its coordinate. Any other entity stays as it is.
    pub open spec fn redrawn(c: Components, template: Transform, piece_idx: usize) -> Components {
        if Self::due(c) {
            Components {
                cursor: Some(Cursor { show: c.cursor.unwrap().show, dirty: false }),
                hidden: !c.cursor.unwrap().show,
                sprite: Some(
                    SpriteRender {
                        sprite_sheet: c.sprite.unwrap().sprite_sheet,
                        sprite_number: piece_idx,
                    },
                ),
                transform: Some(template.placed(c.coord.unwrap())),
                ..c
            }
        } else {
            c
        }
    }

    /// All entities after one update: each one redrawn on its own.
    pub open spec fn frame(
        entities: Seq<Components>,
        template: Transform,
        piece_idx: usize,
    ) -> Seq<Components> {
        Seq::new(entities.len(), |e: int| Self::redrawn(entities[e], template, piece_idx))
    }

    /// An entity that is not due comes out of an update as it went in: its
    /// hidden marker, its sprite, its transform and everything else. An entity
    /// whose cursor is not dirty is never due.
    pub proof fn lemma_clean_entity_unchanged(
        c: Components,
        template: Transform,
        piece_idx: usize,
    )
        requires
            !Self::due(c),
        ensures
            Self::redrawn(c, template, piece_idx) == c,
    {
    }

    /// An update of a world in which nothing is due changes no entity.
    pub proof fn lemma_clean_frame_unchanged(
        entities: Seq<Components>,
        template: Transform,
        piece_idx: usize,
    )
        requires
            forall|e: int| 0 <= e < entities.len() ==> !Self::due(#[trigger] entities[e]),
        ensures
            Self::frame(entities, template, piece_idx) == entities,
    {
    }

    /// An update of a due entity clears the dirty mark and redraws the hidden
    /// marker, the sprite number and the transform from the cursor, the turn
    /// and the coordinate; `show`, the coordinate and the sprite sheet stay.
    /// After it the entity is not due, so a further update, with whatever
    /// template and turn, changes nothing.
    pub proof fn lemma_dirty_entity_redrawn_once(
        c: Components,
        template: Transform,
        piece_idx: usize,
        next_template: Transform,
        next_piece_idx: usize,
    )
        requires
            Self::due(c),
        ensures
            ({
                let r = Self::redrawn(c, template, piece_idx);
                &&& r.cursor == Some(Cursor { show: c.cursor.unwrap().show, dirty: false })
                &&& r.hidden == !c.cursor.unwrap().show
                &&& r.sprite == Some(
                    SpriteRender {
                        sprite_sheet: c.sprite.unwrap().sprite_sheet,
                        sprite_number: piece_idx,
                    },
                )
                &&& r.transform == Some(template.placed(c.coord.unwrap()))
                &&& r.coord == c.coord
                &&& !Self::due(r)
                &&& Self::redrawn(r, next_template, next_piece_idx) == r
            }),
    {
    }

    /// Two updates in a row, with no call on a cursor in between, do what the
    /// first one does alone.
    pub proof fn lemma_second_frame_unchanged(
        entities: Seq<Components>,
        template: Transform,
        piece_idx: usize,
        next_template: Transform,
        next_piece_idx: usize,
    )
        ensures
            Self::frame(
                Self::frame(entities, template, piece_idx),
                next_template,
                next_piece_idx,
            ) == Self::frame(entities, template, piece_idx),
    {
        let once = Self::frame(entities, template, piece_idx);
        assert forall|e: int| 0 <= e < once.len() implies !Self::due(#[trigger] once[e]) by {
            if Self::due(entities[e]) {
                Self::lemma_dirty_entity_redrawn_once(
                    entities[e],
                    template,
                    piece_idx,
                    next_template,
                    next_piece_idx,
                );
            }
        }
        Self::lemma_clean_frame_unchanged(once, next_template, next_piece_idx);
    }

    /// An entity with one more call made on its cursor.
    pub open spec fn marked(c: Components, mark: Mark) -> Components {
        Components { cursor: Some(c.cursor.unwrap().after(mark)), ..c }
    }

    /// Whatever call is made on the cursor of an entity that the update looks
    /// at, the next update redraws the entity: it is hidden exactly if the
    /// cursor is then not shown, its sprite number is that of the turn, its
    /// transform is the template carried to its coordinate, and the cursor
    /// keeps what the call gave `show` and is no longer dirty.
    pub proof fn lemma_marked_entity_is_redrawn(
        c: Components,
        mark: Mark,
        template: Transform,
        piece_idx: usize,
    )
        requires
            Self::joins(c),
        ensures
            ({
                let called = c.cursor.unwrap().after(mark);
                let r = Self::redrawn(Self::marked(c, mark), template, piece_idx);
                &&& r.cursor == Some(Cursor { show: called.show, dirty: false })
                &&& r.hidden == !called.show
                &&& r.sprite.unwrap().sprite_number == piece_idx
                &&& r.transform == Some(template.placed(c.coord.unwrap()))
            }),
    {
    }

    /// After `set_show(true)` and one update the entity is visible.
    pub proof fn lemma_shown_cursor_becomes_visible(
        c: Components,
        template: Transform,
        piece_idx: usize,
    )
        requires
            Self::joins(c),
        ensures
            ({
                let r = Self::redrawn(Self::marked(c, Mark::SetShow(true)), template, piece_idx);
                &&& !r.hidden
                &&& r.cursor == Some(Cursor { show: true, dirty: false })
                &&& r.sprite.unwrap().sprite_number == piece_idx
                &&& r.transform == Some(template.placed(c.coord.unwrap()))
            }),
    {
    }

    /// After `dirty()` alone and one update, `show` is what it was, and sprite
    /// number and transform are redrawn all the same.
    pub proof fn lemma_dirty_mark_alone_redraws(
        c: Components,
        template: Transform,
        piece_idx: usize,
    )
        requires
            Self::joins(c),
        ensures
            ({
                let r = Self::redrawn(Self::marked(c, Mark::Dirty), template, piece_idx);
                &&& r.cursor == Some(Cursor { show: c.cursor.unwrap().show, dirty: false })
                &&& r.hidden == !c.cursor.unwrap().show
                &&& r.sprite.unwrap().sprite_number == piece_idx
                &&& r.transform == Some(template.placed(c.coord.unwrap()))
            }),
    {
    }

    /// Decides what is to be drawn for one cursor, and clears its dirty mark.
    ///
    /// For a dirty cursor the answer is what its entity is to get: the hidden
    /// marker exactly if the cursor is not shown, the sprite number of the
    /// piece whose turn it is, and the template carried to the coordinate. For
    /// a cursor that is not dirty there is nothing to draw. `show` stays.
    pub fn redraw(
        cursor: &mut Cursor,
        pos: &Coord,
        default_trans: &Transform,
        piece_idx: usize,
    ) -> (drawn: Option<Redraw>)
        ensures
            *final(cursor) == (Cursor { show: old(cursor).show, dirty: false }),
            old(cursor).dirty ==> drawn == Some(
                Redraw {
                    hidden: !old(cursor).show,
                    sprite_number: piece_idx,
                    transform: default_trans.placed(*pos),
                },
            ),
            !old(cursor).dirty ==> drawn is None,
    {
        if cursor.dirty {
            cursor.dirty = false;
            Some(
                Redraw {
                    hidden: !cursor.show,
                    sprite_number: piece_idx,
                    transform: default_trans.place(pos),
                },
            )
        } else {
            None
        }
    }

    /// Updates one entity and says whether it was redrawn.
    ///
    /// The dirty mark is cleared before anything is redrawn, so one mark leads
    /// to one redraw.
    pub fn update(
        entity: &mut Components,
        default_trans: &Transform,
        piece_idx: usize,
    ) -> (drawn: bool)
        ensures
            drawn == Self::due(*old(entity)),
            *final(entity) == Self::redrawn(*old(entity), *default_trans, piece_idx),
    {
        match (entity.coord, entity.cursor, entity.sprite, entity.transform) {
            (Some(pos), Some(mut cursor), Some(mut renderer), Some(_)) => {
                match Self::redraw(&mut cursor, &pos, default_trans, piece_idx) {
                    Some(redraw) => {
                        entity.cursor = Some(cursor);
                        entity.hidden = redraw.hidden;
                        renderer.sprite_number = redraw.sprite_number;
                        entity.sprite = Some(renderer);
                        entity.transform = Some(redraw.transform);
                        true
                    },
                    None => false,
                }
            },
            _ => false,
        }
    }

    /// Runs the update over every entity of the world.
    ///
    /// The transform template must have been published. The resources and the
    /// number of entities stay as they are.
    pub fn run(&mut self, world: &mut World, piece_idx: usize)
        requires
            old(world).default_transform is Some,
        ensures
            final(world).entities@ == Self::frame(
                old(world).entities@,
                old(world).default_transform.unwrap(),
                piece_idx,
            ),
            final(world).default_transform == old(world).default_transform,
            final(world).default_sprite == old(world).default_sprite,
            final(world).cursor_entity == old(world).cursor_entity,
    {
        let default_trans = world.default_transform.unwrap();
        let count: usize = world.entities.len();
        let mut at: usize = 0;
        while at < count
            invariant
                at <= count,
                count == old(world).entities@.len(),
                world.entities@.len() == count,
                world.default_transform == old(world).default_transform,
                world.default_sprite == old(world).default_sprite,
                world.cursor_entity == old(world).cursor_entity,
                world.default_transform == Some(default_trans),
                forall|e: int|
                    0 <= e < at ==> world.entities@[e] == Self::redrawn(
                        #[trigger] old(world).entities@[e],
                        default_trans,
                        piece_idx,
                    ),
                forall|e: int|
                    at <= e < count ==> world.entities@[e] == #[trigger] old(world).entities@[e],
            decreases count - at,
        {
            let mut entity = world.entities[at];
            Self::update(&mut entity, &default_trans, piece_idx);
            world.entities[at] = entity;
            at += 1;
        }
    }
}

} // verus!
