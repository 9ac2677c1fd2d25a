use isomap::grid::Direction;
use isomap::mapfile::{MapFile, MapLoader, MapTile, MapWall, ParseError, SpriteSheetFile};
use isomap::material::TextureHandle;

fn sample_file() -> MapFile {
    MapFile {
        name: String::from("courtyard"),
        tile_sprites: SpriteSheetFile {
            sprite_sheet: String::from("textures/floor.png"),
            grid_dimensions: (10, 5),
        },
        wall_sprites: SpriteSheetFile {
            sprite_sheet: String::from("textures/wall.png"),
            grid_dimensions: (8, 16),
        },
        tiles: vec![MapTile { pos: (0, 0), id: None }, MapTile { pos: (1, 0), id: Some(3) }],
        walls: vec![MapWall { pos: (0, 1), direction: Direction::NegativeY, id: None }],
    }
}

#[test]
fn validate_accepts_sound_sheets() {
    assert!(MapLoader::validate(&sample_file()).is_ok());
}

#[test]
fn validate_rejects_zero_cells() {
    let mut file = sample_file();
    file.wall_sprites.grid_dimensions = (8, 0);
    assert_eq!(MapLoader::validate(&file), Err(ParseError::Malformed));
    let mut file = sample_file();
    file.tile_sprites.grid_dimensions = (0, 5);
    assert_eq!(MapLoader::validate(&file), Err(ParseError::Malformed));
}

#[test]
fn load_links_textures_and_reports_dependencies() {
    let (map, deps) = MapLoader::load(
        sample_file(),
        TextureHandle { id: 11 },
        TextureHandle { id: 12 },
    );
    assert_eq!(map.name, "courtyard");
    assert_eq!(map.tile_sprites.grid_dimensions, (10, 5));
    assert_eq!(map.tile_sprites.sprite_sheet, TextureHandle { id: 11 });
    assert_eq!(map.wall_sprites.grid_dimensions, (8, 16));
    assert_eq!(map.wall_sprites.sprite_sheet, TextureHandle { id: 12 });
    assert_eq!(map.tiles.len(), 2);
    assert_eq!(map.walls.len(), 1);
    assert_eq!(deps, vec![String::from("textures/floor.png"), String::from("textures/wall.png")]);
}

#[test]
fn extensions_recognized() {
    assert_eq!(MapLoader::extensions(), vec!["map", ".map.yaml"]);
}

#[test]
fn direction_labels_roundtrip() {
    for d in [
        Direction::PositiveX,
        Direction::NegativeY,
        Direction::NegativeX,
        Direction::PositiveY,
    ] {
        let label = d.label();
        assert_eq!(Direction::from_label(&label), Some(d));
    }
}

#[test]
fn direction_label_values() {
    assert_eq!(Direction::PositiveX.label(), "+x");
    assert_eq!(Direction::NegativeY.label(), "-y");
    assert_eq!(Direction::NegativeX.label(), "-x");
    assert_eq!(Direction::PositiveY.label(), "+y");
}

#[test]
fn unknown_direction_label_is_rejected() {
    assert_eq!(Direction::from_label(&String::from("north")), None);
    assert_eq!(Direction::from_label(&String::from("")), None);
    assert_eq!(Direction::from_label(&String::from("+z")), None);
}
