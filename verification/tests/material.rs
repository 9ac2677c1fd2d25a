use isomap::fx::FX_ONE;
use isomap::grid::{TILE_SIZE, WALL_HEIGHT};
use isomap::material::{
    GpuUnlitMaterial, MaterialStore, PrepareError, TextureHandle, UnlitMaterial, UvFrac, UvRect,
};
use isomap::mesh::{TileMesh, WallMesh, HALF_TILE};
use isomap::vec3::Vec3Fx;

fn rect(l: (u64, u64), t: (u64, u64), r: (u64, u64), b: (u64, u64)) -> UvRect {
    UvRect {
        left: UvFrac { num: l.0, den: l.1 },
        top: UvFrac { num: t.0, den: t.1 },
        right: UvFrac { num: r.0, den: r.1 },
        bottom: UvFrac { num: b.0, den: b.1 },
    }
}

#[test]
fn material_new_keeps_fields() {
    let tex = TextureHandle { id: 3 };
    let sprite = rect((0, 50), (0, 25), (10, 50), (5, 25));
    let m = UnlitMaterial::new(tex, sprite);
    assert_eq!(m.sprite_sheet, tex);
    assert_eq!(m.sprite, sprite);
}

#[test]
fn full_sheet_covers_unit_square() {
    let m = UnlitMaterial::full_sheet(TextureHandle { id: 3 });
    assert_eq!(m.sprite, rect((0, 1), (0, 1), (1, 1), (1, 1)));
}

#[test]
fn prepare_retries_until_texture_ready() {
    let m = UnlitMaterial::new(TextureHandle { id: 3 }, rect((0, 50), (0, 25), (10, 50), (5, 25)));
    assert_eq!(m.prepare(false), Err(PrepareError::RetryNextUpdate));
    let gpu: GpuUnlitMaterial = m.prepare(true).expect("ready texture must prepare");
    assert_eq!(gpu.uv_min_u, m.sprite.left);
    assert_eq!(gpu.uv_min_v, m.sprite.top);
    assert_eq!(gpu.uv_max_u, m.sprite.right);
    assert_eq!(gpu.uv_max_v, m.sprite.bottom);
}

#[test]
fn store_hands_out_stable_handles() {
    let mut store = MaterialStore::new();
    let a = UnlitMaterial::full_sheet(TextureHandle { id: 1 });
    let b = UnlitMaterial::full_sheet(TextureHandle { id: 2 });
    let ha = store.add(a);
    let hb = store.add(b);
    assert_ne!(ha, hb);
    assert_eq!(store.len(), 2);
    assert_eq!(store.get(ha).unwrap().sprite_sheet, TextureHandle { id: 1 });
    assert_eq!(store.get(hb).unwrap().sprite_sheet, TextureHandle { id: 2 });
}

#[test]
fn tile_mesh_spans_one_tile() {
    assert_eq!(TileMesh::new().size, TILE_SIZE);
}

#[test]
fn wall_mesh_is_a_vertical_quad() {
    let m = WallMesh::new();
    assert_eq!(
        m.positions,
        vec![
            Vec3Fx { x: HALF_TILE, y: 0, z: HALF_TILE },
            Vec3Fx { x: HALF_TILE, y: WALL_HEIGHT, z: HALF_TILE },
            Vec3Fx { x: HALF_TILE, y: 0, z: -HALF_TILE },
            Vec3Fx { x: HALF_TILE, y: WALL_HEIGHT, z: -HALF_TILE },
        ]
    );
    assert_eq!(m.uvs, vec![(FX_ONE, FX_ONE), (FX_ONE, 0), (0, FX_ONE), (0, 0)]);
    assert_eq!(m.normals.len(), 4);
    for n in &m.normals {
        assert_eq!(*n, Vec3Fx { x: -FX_ONE, y: 0, z: 0 });
    }
    assert_eq!(m.indices, vec![0, 1, 2, 3]);
}
