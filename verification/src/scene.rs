//! The live scene: the single root entity and the tile and wall bundles it
//! owns for the active map.

use vstd::prelude::*;

verus! {

use crate::grid::Location;
use crate::grid::Direction;
use crate::grid::Rotation;
use crate::grid::translation_spec;
use crate::grid::direction_rotation;
use crate::material::MaterialHandle;
use crate::mapfile::MapHandle;
use crate::vec3::Vec3Fx;
use crate::vec3::v3;

/// Tag component marking floor tiles.
#[derive(Debug, Copy, Clone)]
pub struct Tile;

/// Tag component marking walls.
#[derive(Debug, Copy, Clone)]
pub struct Wall;

/// Which shared mesh an entity renders with.
#[derive(Debug, Copy, Clone, PartialEq, Eq, Structural)]
pub enum MeshKind {
    Tile,
    Wall,
}

/// The components spawned for one floor tile.
#[derive(Debug, Copy, Clone)]
pub struct TileBundle {
    pub tag: Tile,
    pub grid_pos: Location,
    pub material: MaterialHandle,
    pub transform: Vec3Fx,
    pub mesh: MeshKind,
}

impl TileBundle {
    /// Create a tile at the given location with the provided material.
    pub fn new(grid_pos: Location, material: MaterialHandle) -> (b: TileBundle)
        ensures
            b.grid_pos == grid_pos,
            b.material == material,
            v3(b.transform) == translation_spec(grid_pos),
            b.mesh == MeshKind::Tile,
    {
        TileBundle {
            tag: Tile,
            grid_pos,
            material,
            transform: grid_pos.to_translation(),
            mesh: MeshKind::Tile,
        }
    }
}

/// The components spawned for one vertical wall.
#[derive(Debug, Copy, Clone)]
pub struct WallBundle {
    pub tag: Wall,
    pub location: Location,
    pub direction: Direction,
    pub material: MaterialHandle,
    pub transform: Vec3Fx,
    pub rotation: Rotation,
    pub mesh: MeshKind,
}

impl WallBundle {
    /// Create a wall at the given location, facing `direction`, with the
    /// provided material.
    pub fn new(location: Location, direction: Direction, material: MaterialHandle) -> (b:
        WallBundle)
        ensures
            b.location == location,
            b.direction == direction,
            b.material == material,
            v3(b.transform) == translation_spec(location),
            b.rotation == direction_rotation(direction),
            b.mesh == MeshKind::Wall,
    {
        WallBundle {
            tag: Wall,
            location,
            direction,
            material,
            transform: location.to_translation(),
            rotation: direction.to_rotation(),
            mesh: MeshKind::Wall,
        }
    }
}

/// One spawned child of the scene root.
#[derive(Debug, Copy, Clone)]
pub enum SceneNode {
    Tile(TileBundle),
    Wall(WallBundle),
}

/// The material handle a child carries.
pub open spec fn node_material(n: SceneNode) -> MaterialHandle {
    match n {
        SceneNode::Tile(b) => b.material,
        SceneNode::Wall(b) => b.material,
    }
}

/// A child's placement: its grid cell and, for walls, its direction.
pub open spec fn node_footprint(n: SceneNode) -> (Location, Option<Direction>) {
    match n {
        SceneNode::Tile(b) => (b.grid_pos, None),
        SceneNode::Wall(b) => (b.location, Some(b.direction)),
    }
}

/// The root entity owning every tile and wall child of the active map; its
/// children are destroyed and recreated as a unit on every rebuild.
#[derive(Debug)]
pub struct SceneRoot {
    /// The map the children currently mirror.
    pub map: MapHandle,
    pub children: Vec<SceneNode>,
}

/// The live scene. At most one root exists: rebuilds create it only when it
/// is absent, never a second one.
#[derive(Debug)]
pub struct Scene {
    pub root: Option<SceneRoot>,
}

impl Scene {
    /// An empty scene with no root yet.
    pub fn new() -> (s: Scene)
        ensures
            s.root is None,
    {
        Scene { root: None }
    }
}

/// The placement footprint of the whole scene, in child order.
pub open spec fn footprint(s: Scene) -> Seq<(Location, Option<Direction>)> {
    match s.root {
        None => Seq::empty(),
        Some(root) => root.children@.map_values(|n: SceneNode| node_footprint(n)),
    }
}

/// A grid cell's translation as a stored vector (its components always fit).
pub open spec fn translation_vec(loc: Location) -> Vec3Fx {
    Vec3Fx {
        x: (loc.x as int * crate::grid::TILE_SIZE as int) as i64,
        y: 0,
        z: (loc.y as int * crate::grid::TILE_SIZE as int) as i64,
    }
}

/// A child with its translation recomputed from its grid cell.
pub open spec fn refresh_translation(n: SceneNode) -> SceneNode {
    match n {
        SceneNode::Tile(b) => SceneNode::Tile(TileBundle { transform: translation_vec(b.grid_pos), ..b }),
        SceneNode::Wall(b) => SceneNode::Wall(WallBundle { transform: translation_vec(b.location), ..b }),
    }
}

/// A child with its rotation recomputed from its direction (tiles carry no
/// direction and are unchanged).
pub open spec fn refresh_rotation(n: SceneNode) -> SceneNode {
    match n {
        SceneNode::Tile(b) => SceneNode::Tile(b),
        SceneNode::Wall(b) => SceneNode::Wall(WallBundle { rotation: direction_rotation(b.direction), ..b }),
    }
}

/// When a child's grid cell has been changed, change its translation to
/// match; every other component is kept.
pub fn location_controller(children: &mut Vec<SceneNode>)
    ensures
        final(children)@.len() == old(children)@.len(),
        forall|i: int|
            0 <= i < old(children)@.len() ==> final(children)@[i] == refresh_translation(
                #[trigger] old(children)@[i],
            ),
{
    let n: usize = children.len();
    let mut i: usize = 0;
    while i < n
        invariant
            i <= n == children@.len(),
            children@.len() == old(children)@.len(),
            forall|k: int|
                0 <= k < i ==> children@[k] == refresh_translation(#[trigger] old(children)@[k]),
            forall|k: int| i <= k < n ==> children@[k] == old(children)@[k],
        decreases n - i,
    {
        let updated: SceneNode = match children[i] {
            SceneNode::Tile(b) => SceneNode::Tile(
                TileBundle { transform: b.grid_pos.to_translation(), ..b },
            ),
            SceneNode::Wall(b) => SceneNode::Wall(
                WallBundle { transform: b.location.to_translation(), ..b },
            ),
        };
        children.set(i, updated);
        i = i + 1;
    }
}

/// When a child's direction has been changed, change its rotation to
/// match; every other component is kept.
pub fn direction_controller(children: &mut Vec<SceneNode>)
    ensures
        final(children)@.len() == old(children)@.len(),
        forall|i: int|
            0 <= i < old(children)@.len() ==> final(children)@[i] == refresh_rotation(
                #[trigger] old(children)@[i],
            ),
{
    let n: usize = children.len();
    let mut i: usize = 0;
    while i < n
        invariant
            i <= n == children@.len(),
            children@.len() == old(children)@.len(),
            forall|k: int|
                0 <= k < i ==> children@[k] == refresh_rotation(#[trigger] old(children)@[k]),
            forall|k: int| i <= k < n ==> children@[k] == old(children)@[k],
        decreases n - i,
    {
        let updated: SceneNode = match children[i] {
            SceneNode::Tile(b) => SceneNode::Tile(b),
            SceneNode::Wall(b) => SceneNode::Wall(
                WallBundle { rotation: b.direction.to_rotation(), ..b },
            ),
        };
        children.set(i, updated);
        i = i + 1;
    }
}

} // verus!
