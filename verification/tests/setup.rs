use board_cursor::{
    initialize_cursor, Components, Coord, Cursor, Entity, SpriteRender, SpriteSheetHandle, Tint,
    Transform, World,
};

#[test]
fn new_world_is_empty() {
    let world = World::new();
    assert!(world.entities.is_empty());
    assert_eq!(world.default_transform, None);
    assert_eq!(world.default_sprite, None);
    assert_eq!(world.cursor_entity, None);
}

#[test]
fn create_entity_appends_and_returns_the_index() {
    let mut world = World::new();
    let plain = Components {
        coord: Some(Coord::new_bounded(1, 1)),
        cursor: None,
        sprite: None,
        transform: None,
        hidden: false,
        transparent: false,
        tint: None,
    };
    let other = Components { hidden: true, ..plain };
    let a = world.create_entity(plain);
    let b = world.create_entity(other);
    assert_eq!(a, Entity { id: 0 });
    assert_eq!(b, Entity { id: 1 });
    assert_eq!(world.entities, vec![plain, other]);
    assert_eq!(world.cursor_entity, None);
    assert_eq!(world.default_transform, None);
    assert_eq!(world.default_sprite, None);
}

#[test]
fn initialize_publishes_the_defaults() {
    let mut world = World::new();
    initialize_cursor(&mut world, SpriteSheetHandle { id: 21 });
    assert_eq!(world.default_transform, Some(Transform { cell: None, scale_per_mille: 125 }));
    assert_eq!(
        world.default_sprite,
        Some(SpriteRender { sprite_sheet: SpriteSheetHandle { id: 21 }, sprite_number: 0 })
    );
}

#[test]
fn initialize_creates_one_cursor_entity() {
    let mut world = World::new();
    initialize_cursor(&mut world, SpriteSheetHandle { id: 21 });
    assert_eq!(world.entities.len(), 1);
    assert_eq!(world.cursor_entity, Some(Entity { id: 0 }));
    assert_eq!(
        world.entities[0],
        Components {
            coord: Some(Coord { x: 0, y: 0, out_of_bound: false }),
            cursor: Some(Cursor { show: false, dirty: false }),
            sprite: Some(SpriteRender {
                sprite_sheet: SpriteSheetHandle { id: 21 },
                sprite_number: 0
            }),
            transform: Some(Transform { cell: None, scale_per_mille: 125 }),
            hidden: true,
            transparent: true,
            tint: Some(Tint { red: 80, green: 80, blue: 80, alpha: 50 }),
        }
    );
}

#[test]
fn initialize_keeps_the_entities_that_were_there() {
    let mut world = World::new();
    let plain = Components {
        coord: Some(Coord::new(4, 4, true)),
        cursor: None,
        sprite: None,
        transform: None,
        hidden: false,
        transparent: false,
        tint: None,
    };
    world.create_entity(plain);
    world.create_entity(plain);
    initialize_cursor(&mut world, SpriteSheetHandle { id: 1 });
    assert_eq!(world.entities.len(), 3);
    assert_eq!(world.entities[0], plain);
    assert_eq!(world.entities[1], plain);
    assert_eq!(world.cursor_entity, Some(Entity { id: 2 }));
    assert_eq!(world.entities[2].cursor, Some(Cursor::default()));
}

#[test]
fn initialize_overwrites_earlier_resources() {
    let mut world = World::new();
    world.default_transform = Some(Transform { cell: Some(Coord::new_bounded(1, 1)), scale_per_mille: 7 });
    world.default_sprite = Some(SpriteRender::new(SpriteSheetHandle { id: 99 }, 5));
    world.cursor_entity = Some(Entity { id: 40 });
    initialize_cursor(&mut world, SpriteSheetHandle { id: 2 });
    assert_eq!(world.default_transform, Some(Transform { cell: None, scale_per_mille: 125 }));
    assert_eq!(world.default_sprite, Some(SpriteRender::new(SpriteSheetHandle { id: 2 }, 0)));
    assert_eq!(world.cursor_entity, Some(Entity { id: 0 }));
}

#[test]
fn second_initialize_orphans_the_first_cursor() {
    let mut world = World::new();
    initialize_cursor(&mut world, SpriteSheetHandle { id: 3 });
    let first = world.entities[0];
    initialize_cursor(&mut world, SpriteSheetHandle { id: 3 });
    assert_eq!(world.entities.len(), 2);
    assert_eq!(world.entities[0], first);
    assert_eq!(world.entities[1], first);
    assert_eq!(world.cursor_entity, Some(Entity { id: 1 }));
}

#[test]
fn sprite_render_new_keeps_sheet_and_number() {
    let s = SpriteRender::new(SpriteSheetHandle { id: 6 }, 2);
    assert_eq!(s.sprite_sheet, SpriteSheetHandle { id: 6 });
    assert_eq!(s.sprite_number, 2);
}
