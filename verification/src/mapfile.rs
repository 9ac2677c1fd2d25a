//! The map description: its decoded file form, the fully resolved in-memory
//! map, and the loader step that links texture dependencies.
//!
//! Decoding the structured text itself happens outside the library; this
//! module owns everything after decoding: the schema check, the direction
//! labels, and the linking of sheet paths to texture handles together with
//! the dependency list reported to the asset store.

use vstd::prelude::*;

verus! {

use crate::atlas::SpriteSheet;
use crate::grid::Direction;
use crate::material::TextureHandle;

/// A handle naming one map asset in the asset store.
#[derive(Debug, Copy, Clone, PartialEq, Eq, Structural, Hash)]
pub struct MapHandle {
    pub id: u64,
}

/// One floor tile row of a map description. A missing `id` selects sprite 0.
#[derive(Debug, Copy, Clone)]
pub struct MapTile {
    pub pos: (i32, i32),
    pub id: Option<u32>,
}

/// One wall row of a map description. A missing `id` selects sprite 0.
#[derive(Debug, Copy, Clone)]
pub struct MapWall {
    pub pos: (i32, i32),
    pub direction: Direction,
    pub id: Option<u32>,
}

/// A sheet as a map file declares it: a texture path plus the cell size.
#[derive(Debug)]
pub struct SpriteSheetFile {
    pub sprite_sheet: String,
    pub grid_dimensions: (u32, u32),
}

/// The decoded form of one map file, before textures are linked.
#[derive(Debug)]
pub struct MapFile {
    pub name: String,
    pub tile_sprites: SpriteSheetFile,
    pub wall_sprites: SpriteSheetFile,
    pub tiles: Vec<MapTile>,
    pub walls: Vec<MapWall>,
}

/// The fully resolved, immutable in-memory form of one map description.
/// Replaced wholesale on reload, never mutated in place.
#[derive(Debug)]
pub struct GameMap {
    /// Name of the map.
    pub name: String,
    /// Texture sheet for floor tiles.
    pub tile_sprites: SpriteSheet,
    /// Texture sheet for wall tiles.
    pub wall_sprites: SpriteSheet,
    /// List of all floor tiles.
    pub tiles: Vec<MapTile>,
    /// List of all wall tiles.
    pub walls: Vec<MapWall>,
}

impl GameMap {
    /// Both sheets have nonzero cell extents, so every sprite index has a
    /// rectangle.
    pub open spec fn wf(self) -> bool {
        self.tile_sprites.wf() && self.wall_sprites.wf()
    }

    /// Run-time form of `wf`.
    pub fn is_well_formed(&self) -> (b: bool)
        ensures
            b == self.wf(),
    {
        self.tile_sprites.is_well_formed() && self.wall_sprites.is_well_formed()
    }
}

/// Why a map description is rejected.
#[derive(Debug, Copy, Clone, PartialEq, Eq, Structural)]
pub enum ParseError {
    /// The description does not fit the schema.
    Malformed,
}

/// Turns decoded map files into resolved maps and their load dependencies.
pub struct MapLoader;

impl MapLoader {
    /// The schema check applied after decoding: a sheet whose declared cell
    /// size is zero in either extent cannot subdivide any texture and is
    /// malformed.
    pub fn validate(file: &MapFile) -> (r: Result<(), ParseError>)
        ensures
            r is Ok <==> file.tile_sprites.grid_dimensions.0 > 0
                && file.tile_sprites.grid_dimensions.1 > 0
                && file.wall_sprites.grid_dimensions.0 > 0
                && file.wall_sprites.grid_dimensions.1 > 0,
            r is Err ==> r->Err_0 == ParseError::Malformed,
    {
        if file.tile_sprites.grid_dimensions.0 > 0 && file.tile_sprites.grid_dimensions.1 > 0
            && file.wall_sprites.grid_dimensions.0 > 0
            && file.wall_sprites.grid_dimensions.1 > 0 {
            Ok(())
        } else {
            Err(ParseError::Malformed)
        }
    }

    /// Link a decoded map file against the handles the asset store assigned
    /// to its two sheet textures, and report the texture paths as load
    /// dependencies (tile sheet first, wall sheet second).
    pub fn load(file: MapFile, tile_texture: TextureHandle, wall_texture: TextureHandle) -> (r: (
        GameMap,
        Vec<String>,
    ))
        ensures
            r.0.name == file.name,
            r.0.tile_sprites.grid_dimensions == file.tile_sprites.grid_dimensions,
            r.0.tile_sprites.sprite_sheet == tile_texture,
            r.0.wall_sprites.grid_dimensions == file.wall_sprites.grid_dimensions,
            r.0.wall_sprites.sprite_sheet == wall_texture,
            r.0.tiles@ == file.tiles@,
            r.0.walls@ == file.walls@,
            r.1@.len() == 2,
            r.1@[0] == file.tile_sprites.sprite_sheet,
            r.1@[1] == file.wall_sprites.sprite_sheet,
    {
        let MapFile { name, tile_sprites, wall_sprites, tiles, walls } = file;
        let map = GameMap {
            name,
            tile_sprites: SpriteSheet {
                grid_dimensions: tile_sprites.grid_dimensions,
                sprite_sheet: tile_texture,
            },
            wall_sprites: SpriteSheet {
                grid_dimensions: wall_sprites.grid_dimensions,
                sprite_sheet: wall_texture,
            },
            tiles,
            walls,
        };
        let mut deps: Vec<String> = Vec::new();
        deps.push(tile_sprites.sprite_sheet);
        deps.push(wall_sprites.sprite_sheet);
        (map, deps)
    }

    /// The file extensions recognized as map descriptions.
    pub fn extensions() -> (r: Vec<&'static str>)
        ensures
            r@.len() == 2,
            r@[0]@ == "map"@,
            r@[1]@ == ".map.yaml"@,
    {
        let mut r: Vec<&'static str> = Vec::new();
        r.push("map");
        r.push(".map.yaml");
        r
    }
}

impl Direction {
    /// The label this direction carries in a map file.
    pub fn label(&self) -> (s: String)
        ensures
            s@ == direction_label(*self),
    {
        match self {
            Direction::PositiveX => "+x".to_owned(),
            Direction::NegativeY => "-y".to_owned(),
            Direction::NegativeX => "-x".to_owned(),
            Direction::PositiveY => "+y".to_owned(),
        }
    }

    /// Parse a map file's direction label; anything but the four axis
    /// labels is rejected.
    pub fn from_label(s: &String) -> (d: Option<Direction>)
        ensures
            d == parse_direction(s@),
    {
        proof {
            lemma_direction_labels_distinct();
        }
        let px: String = "+x".to_owned();
        let ny: String = "-y".to_owned();
        let nx: String = "-x".to_owned();
        let py: String = "+y".to_owned();
        if *s == px {
            Some(Direction::PositiveX)
        } else if *s == ny {
            Some(Direction::NegativeY)
        } else if *s == nx {
            Some(Direction::NegativeX)
        } else if *s == py {
            Some(Direction::PositiveY)
        } else {
            None
        }
    }
}

/// The map-file label of a direction.
pub open spec fn direction_label(d: Direction) -> Seq<char> {
    match d {
        Direction::PositiveX => "+x"@,
        Direction::NegativeY => "-y"@,
        Direction::NegativeX => "-x"@,
        Direction::PositiveY => "+y"@,
    }
}

/// The direction a map-file label denotes, if any.
pub open spec fn parse_direction(s: Seq<char>) -> Option<Direction> {
    if s == "+x"@ {
        Some(Direction::PositiveX)
    } else if s == "-y"@ {
        Some(Direction::NegativeY)
    } else if s == "-x"@ {
        Some(Direction::NegativeX)
    } else if s == "+y"@ {
        Some(Direction::PositiveY)
    } else {
        None
    }
}

/// The four direction labels are pairwise distinct.
proof fn lemma_direction_labels_distinct()
    ensures
        "+x"@ != "-y"@,
        "+x"@ != "-x"@,
        "+x"@ != "+y"@,
        "-y"@ != "-x"@,
        "-y"@ != "+y"@,
        "-x"@ != "+y"@,
{
    reveal_strlit("+x");
    reveal_strlit("-y");
    reveal_strlit("-x");
    reveal_strlit("+y");
    assert("+x"@[0] == '+' && "+x"@[1] == 'x');
    assert("-y"@[0] == '-' && "-y"@[1] == 'y');
    assert("-x"@[0] == '-' && "-x"@[1] == 'x');
    assert("+y"@[0] == '+' && "+y"@[1] == 'y');
}

/// Labels round-trip: printing a direction and parsing it back yields the
/// same direction.
pub proof fn lemma_direction_label_roundtrip(d: Direction)
    ensures
        parse_direction(direction_label(d)) == Some(d),
{
    lemma_direction_labels_distinct();
    match d {
        Direction::PositiveX => {},
        Direction::NegativeY => {},
        Direction::NegativeX => {},
        Direction::PositiveY => {},
    }
}

} // verus!
