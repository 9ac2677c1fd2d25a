use isomap::atlas::SpriteSheet;
use isomap::grid::{Direction, Location};
use isomap::mapfile::{GameMap, MapHandle, MapTile, MapWall};
use isomap::material::{MaterialHandle, MaterialStore, TextureHandle};
use isomap::scene::{direction_controller, location_controller, Scene, SceneNode};
use isomap::sync::{update_map, detect_changes, ActiveMap, AssetEvent, FatalError, MapEvent};

fn handle(id: u64) -> MapHandle {
    MapHandle { id }
}

fn sample_map() -> GameMap {
    GameMap {
        name: String::from("courtyard"),
        tile_sprites: SpriteSheet {
            grid_dimensions: (10, 5),
            sprite_sheet: TextureHandle { id: 1 },
        },
        wall_sprites: SpriteSheet {
            grid_dimensions: (10, 5),
            sprite_sheet: TextureHandle { id: 2 },
        },
        tiles: vec![
            MapTile { pos: (0, 0), id: None },
            MapTile { pos: (1, 0), id: Some(1) },
            MapTile { pos: (0, 1), id: Some(0) },
        ],
        walls: vec![
            MapWall { pos: (0, 0), direction: Direction::PositiveY, id: None },
            MapWall { pos: (1, 0), direction: Direction::NegativeX, id: Some(1) },
        ],
    }
}

fn placements(scene: &Scene) -> Vec<(Location, Option<Direction>)> {
    let root = scene.root.as_ref().expect("scene must have a root");
    root.children
        .iter()
        .map(|n| match n {
            SceneNode::Tile(b) => (b.grid_pos, None),
            SceneNode::Wall(b) => (b.location, Some(b.direction)),
        })
        .collect()
}

fn materials_of(scene: &Scene) -> Vec<MaterialHandle> {
    let root = scene.root.as_ref().expect("scene must have a root");
    root.children
        .iter()
        .map(|n| match n {
            SceneNode::Tile(b) => b.material,
            SceneNode::Wall(b) => b.material,
        })
        .collect()
}

#[test]
fn empty_batch_yields_no_updates() {
    let active = ActiveMap { map: handle(1) };
    let updates = detect_changes(&active, &Vec::new()).expect("nothing to process");
    assert!(updates.is_empty());
}

#[test]
fn empty_map_rebuilds_to_empty_scene() {
    let empty = GameMap {
        name: String::from("void"),
        tile_sprites: SpriteSheet {
            grid_dimensions: (10, 5),
            sprite_sheet: TextureHandle { id: 1 },
        },
        wall_sprites: SpriteSheet {
            grid_dimensions: (10, 5),
            sprite_sheet: TextureHandle { id: 2 },
        },
        tiles: vec![],
        walls: vec![],
    };
    let mut scene = Scene::new();
    let mut store = MaterialStore::new();
    let event = MapEvent::Update { handle: handle(9) };
    update_map(&mut scene, &event, &empty, None, None, &mut store);
    let root = scene.root.as_ref().expect("the root is still created");
    assert_eq!(root.map, handle(9));
    assert!(root.children.is_empty());
    assert_eq!(store.len(), 0);
}

#[test]
fn detect_changes_queues_updates_in_order() {
    let active = ActiveMap { map: handle(1) };
    let events = vec![
        AssetEvent::Created { handle: handle(1) },
        AssetEvent::Modified { handle: handle(2) },
        AssetEvent::Modified { handle: handle(1) },
    ];
    let updates = detect_changes(&active, &events).expect("no removal was notified");
    assert_eq!(
        updates,
        vec![MapEvent::Update { handle: handle(1) }, MapEvent::Update { handle: handle(1) }]
    );
}

#[test]
fn removing_the_active_map_is_fatal() {
    let active = ActiveMap { map: handle(7) };
    let events = vec![
        AssetEvent::Created { handle: handle(7) },
        AssetEvent::Removed { handle: handle(7) },
    ];
    assert_eq!(detect_changes(&active, &events), Err(FatalError::ActiveMapRemoved));
}

#[test]
fn removing_another_map_is_a_no_op() {
    let active = ActiveMap { map: handle(7) };
    let events = vec![AssetEvent::Removed { handle: handle(8) }];
    let updates = detect_changes(&active, &events).expect("other maps may vanish");
    assert!(updates.is_empty());
}

#[test]
fn events_for_other_maps_are_ignored() {
    let active = ActiveMap { map: handle(7) };
    let events = vec![
        AssetEvent::Created { handle: handle(8) },
        AssetEvent::Modified { handle: handle(9) },
    ];
    let updates = detect_changes(&active, &events).expect("nothing fatal here");
    assert!(updates.is_empty());
}

#[test]
fn rebuild_spawns_tiles_then_walls_in_file_order() {
    let map = sample_map();
    let mut scene = Scene::new();
    let mut store = MaterialStore::new();
    let event = MapEvent::Update { handle: handle(3) };
    update_map(&mut scene, &event, &map, Some((50, 25)), Some((50, 25)), &mut store);

    let root = scene.root.as_ref().expect("rebuild must create the root");
    assert_eq!(root.map, handle(3));
    assert_eq!(
        placements(&scene),
        vec![
            (Location { x: 0, y: 0 }, None),
            (Location { x: 1, y: 0 }, None),
            (Location { x: 0, y: 1 }, None),
            (Location { x: 0, y: 0 }, Some(Direction::PositiveY)),
            (Location { x: 1, y: 0 }, Some(Direction::NegativeX)),
        ]
    );
    match &root.children[3] {
        SceneNode::Wall(b) => {
            assert_eq!(b.rotation, Direction::PositiveY.to_rotation());
            assert_eq!(b.transform, Location { x: 0, y: 0 }.to_translation());
        }
        SceneNode::Tile(_) => panic!("fourth child must be a wall"),
    }
}

#[test]
fn rebuild_shares_materials_per_sprite_only() {
    let map = sample_map();
    let mut scene = Scene::new();
    let mut store = MaterialStore::new();
    let event = MapEvent::Update { handle: handle(3) };
    update_map(&mut scene, &event, &map, Some((50, 25)), Some((50, 25)), &mut store);

    let mats = materials_of(&scene);
    // Tiles 0 and 2 both select sprite 0 and share one material; tile 1
    // selects sprite 1 and does not.
    assert_eq!(mats[0], mats[2]);
    assert_ne!(mats[0], mats[1]);
    // The wall sheet never shares materials with the tile sheet, even for
    // equal sprite indices.
    assert_ne!(mats[3], mats[0]);
    assert_ne!(mats[3], mats[1]);
    assert_ne!(mats[4], mats[1]);
    // Two materials for the tiles, two for the walls.
    assert_eq!(store.len(), 4);
    let tile_material = store.get(mats[0]).expect("realized");
    assert_eq!(tile_material.sprite_sheet, TextureHandle { id: 1 });
    let wall_material = store.get(mats[3]).expect("realized");
    assert_eq!(wall_material.sprite_sheet, TextureHandle { id: 2 });
}

#[test]
fn rebuild_is_idempotent() {
    let map = sample_map();
    let event = MapEvent::Update { handle: handle(3) };

    let mut first = Scene::new();
    let mut first_store = MaterialStore::new();
    update_map(&mut first, &event, &map, Some((50, 25)), Some((50, 25)), &mut first_store);

    // Rebuild a second scene twice against the same map, reusing its store.
    let mut second = Scene::new();
    let mut second_store = MaterialStore::new();
    update_map(&mut second, &event, &map, Some((50, 25)), Some((50, 25)), &mut second_store);
    update_map(&mut second, &event, &map, Some((50, 25)), Some((50, 25)), &mut second_store);

    assert_eq!(placements(&first), placements(&second));
}

#[test]
fn controllers_track_changed_cells_and_directions() {
    let map = sample_map();
    let event = MapEvent::Update { handle: handle(3) };
    let mut scene = Scene::new();
    let mut store = MaterialStore::new();
    update_map(&mut scene, &event, &map, Some((50, 25)), Some((50, 25)), &mut store);
    let root = scene.root.as_mut().expect("rebuild must create the root");

    // Move the first tile and turn the first wall, then let the reactive
    // controllers catch the transforms up.
    match &mut root.children[0] {
        SceneNode::Tile(b) => b.grid_pos = Location { x: 9, y: -4 },
        SceneNode::Wall(_) => panic!("first child must be a tile"),
    }
    match &mut root.children[3] {
        SceneNode::Wall(b) => b.direction = Direction::NegativeY,
        SceneNode::Tile(_) => panic!("fourth child must be a wall"),
    }
    location_controller(&mut root.children);
    direction_controller(&mut root.children);

    match &root.children[0] {
        SceneNode::Tile(b) => {
            assert_eq!(b.transform, Location { x: 9, y: -4 }.to_translation());
        }
        SceneNode::Wall(_) => panic!("first child must be a tile"),
    }
    match &root.children[3] {
        SceneNode::Wall(b) => {
            assert_eq!(b.rotation, Direction::NegativeY.to_rotation());
            // The wall's translation is untouched by a direction change.
            assert_eq!(b.transform, Location { x: 0, y: 0 }.to_translation());
        }
        SceneNode::Tile(_) => panic!("fourth child must be a wall"),
    }
}

#[test]
fn rebuild_replaces_children_wholesale() {
    let map = sample_map();
    let event = MapEvent::Update { handle: handle(3) };
    let mut scene = Scene::new();
    let mut store = MaterialStore::new();
    update_map(&mut scene, &event, &map, Some((50, 25)), Some((50, 25)), &mut store);
    assert_eq!(placements(&scene).len(), 5);

    let smaller = GameMap {
        name: String::from("cell"),
        tile_sprites: map.tile_sprites,
        wall_sprites: map.wall_sprites,
        tiles: vec![MapTile { pos: (5, 5), id: None }],
        walls: vec![],
    };
    let event2 = MapEvent::Update { handle: handle(4) };
    update_map(&mut scene, &event2, &smaller, Some((50, 25)), Some((50, 25)), &mut store);
    assert_eq!(placements(&scene), vec![(Location { x: 5, y: 5 }, None)]);
    assert_eq!(scene.root.as_ref().unwrap().map, handle(4));
}
