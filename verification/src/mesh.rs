//! The two shared meshes of the scene: the floor-tile plane and the wall
//! quad, stated vertex by vertex in fixed point.

use vstd::prelude::*;

verus! {

use crate::fx::FX_ONE;
use crate::grid::TILE_SIZE;
use crate::grid::WALL_HEIGHT;
use crate::vec3::Vec3Fx;

/// Half a tile's side, rounded down.
pub const HALF_TILE: i64 = 6553;

/// The floor-tile quad: a square ground plane of side `TILE_SIZE` centered
/// on the cell origin. The renderer instantiates its mesh from this size;
/// keeping the value alive stands for the one strong mesh handle.
#[derive(Debug, Copy, Clone)]
pub struct TileMesh {
    pub size: i64,
}

impl TileMesh {
    /// The shared tile plane.
    pub fn new() -> (m: TileMesh)
        ensures
            m.size == TILE_SIZE,
    {
        TileMesh { size: TILE_SIZE }
    }
}

/// The wall quad in model space, as a four-vertex triangle strip. Model
/// coordinates are relative to the center of the tile on the ground plane;
/// since the `PositiveX` direction is rotation zero, the quad spans the
/// `(y,z)` plane at `x = HALF_TILE`, rising from the ground to
/// `WALL_HEIGHT`, with its normal along `-x`.
#[derive(Debug)]
pub struct WallMesh {
    pub positions: Vec<Vec3Fx>,
    /// Texture coordinates in fixed point (`FX_ONE` is the far edge).
    pub uvs: Vec<(i64, i64)>,
    pub normals: Vec<Vec3Fx>,
    pub indices: Vec<u16>,
}

impl WallMesh {
    /// The shared wall quad.
    pub fn new() -> (m: WallMesh)
        ensures
            m.positions@ =~= seq![
                Vec3Fx { x: HALF_TILE, y: 0, z: HALF_TILE },
                Vec3Fx { x: HALF_TILE, y: WALL_HEIGHT, z: HALF_TILE },
                Vec3Fx { x: HALF_TILE, y: 0, z: ((-HALF_TILE) as i64) },
                Vec3Fx { x: HALF_TILE, y: WALL_HEIGHT, z: ((-HALF_TILE) as i64) },
            ],
            m.uvs@ =~= seq![(FX_ONE, FX_ONE), (FX_ONE, 0i64), (0i64, FX_ONE), (0i64, 0i64)],
            m.normals@ =~= seq![
                Vec3Fx { x: ((-FX_ONE) as i64), y: 0, z: 0 },
                Vec3Fx { x: ((-FX_ONE) as i64), y: 0, z: 0 },
                Vec3Fx { x: ((-FX_ONE) as i64), y: 0, z: 0 },
                Vec3Fx { x: ((-FX_ONE) as i64), y: 0, z: 0 },
            ],
            m.indices@ =~= seq![0u16, 1u16, 2u16, 3u16],
    {
        let mut positions: Vec<Vec3Fx> = Vec::new();
        positions.push(Vec3Fx { x: HALF_TILE, y: 0, z: HALF_TILE });
        positions.push(Vec3Fx { x: HALF_TILE, y: WALL_HEIGHT, z: HALF_TILE });
        positions.push(Vec3Fx { x: HALF_TILE, y: 0, z: -HALF_TILE });
        positions.push(Vec3Fx { x: HALF_TILE, y: WALL_HEIGHT, z: -HALF_TILE });
        let mut uvs: Vec<(i64, i64)> = Vec::new();
        uvs.push((FX_ONE, FX_ONE));
        uvs.push((FX_ONE, 0));
        uvs.push((0, FX_ONE));
        uvs.push((0, 0));
        let normal = Vec3Fx { x: -FX_ONE, y: 0, z: 0 };
        let mut normals: Vec<Vec3Fx> = Vec::new();
        normals.push(normal);
        normals.push(normal);
        normals.push(normal);
        normals.push(normal);
        let mut indices: Vec<u16> = Vec::new();
        indices.push(0);
        indices.push(1);
        indices.push(2);
        indices.push(3);
        WallMesh { positions, uvs, normals, indices }
    }
}

} // verus!
