use isomap::atlas::SpriteSheet;
use isomap::material::{MaterialStore, TextureHandle, UvRect};

fn frac(num: u64, den: u64) -> f32 {
    num as f32 / den as f32
}

fn sheet_5x5() -> SpriteSheet {
    // 10 x 5 pixel cells on a 50 x 25 pixel texture: five sprites per row.
    SpriteSheet { grid_dimensions: (10, 5), sprite_sheet: TextureHandle { id: 7 } }
}

#[test]
fn atlas_index_first_cell() {
    let alloc = sheet_5x5().material_allocator(Some((50, 25)));
    let r: UvRect = alloc.index(0);
    assert_eq!(frac(r.left.num, r.left.den), 0.0);
    assert_eq!(frac(r.top.num, r.top.den), 0.0);
    assert_eq!(frac(r.right.num, r.right.den), 0.2);
    assert_eq!(frac(r.bottom.num, r.bottom.den), 0.2);
}

#[test]
fn atlas_index_wraps_to_next_row() {
    // After five entries the linear index wraps to the next row down.
    let alloc = sheet_5x5().material_allocator(Some((50, 25)));
    let r = alloc.index(5);
    assert_eq!(frac(r.left.num, r.left.den), 0.0);
    assert_eq!(frac(r.top.num, r.top.den), 0.2);
    assert_eq!(frac(r.right.num, r.right.den), 0.2);
    assert_eq!(frac(r.bottom.num, r.bottom.den), 0.4);
}

#[test]
fn atlas_index_advances_along_x_first() {
    let alloc = sheet_5x5().material_allocator(Some((50, 25)));
    let r = alloc.index(3);
    assert_eq!(frac(r.left.num, r.left.den), 0.6);
    assert_eq!(frac(r.top.num, r.top.den), 0.0);
    assert_eq!(frac(r.right.num, r.right.den), 0.8);
    assert_eq!(frac(r.bottom.num, r.bottom.den), 0.2);
}

#[test]
fn atlas_out_of_range_index_is_not_rejected() {
    // An index beyond the sheet yields a rectangle below 1.0's far edge;
    // the sampler is left to clamp it.
    let alloc = sheet_5x5().material_allocator(Some((50, 25)));
    let r = alloc.index(26);
    assert_eq!(frac(r.left.num, r.left.den), 0.2);
    assert_eq!(frac(r.top.num, r.top.den), 1.0);
    assert_eq!(frac(r.bottom.num, r.bottom.den), 1.2);
}

#[test]
fn dimensions_fall_back_to_one_cell() {
    let sheet = sheet_5x5();
    assert_eq!(sheet.dimensions(None), (10, 5));
    assert_eq!(sheet.dimensions(Some((50, 25))), (50, 25));
}

#[test]
fn allocator_caches_per_index() {
    let mut store = MaterialStore::new();
    let mut alloc = sheet_5x5().material_allocator(Some((50, 25)));
    let h1 = alloc.get_material(2, &mut store);
    let h2 = alloc.get_material(2, &mut store);
    assert_eq!(h1, h2);
    assert_eq!(store.len(), 1);
    let h3 = alloc.get_material(4, &mut store);
    assert_ne!(h1, h3);
    assert_eq!(store.len(), 2);
}

#[test]
fn allocator_realizes_expected_material() {
    let mut store = MaterialStore::new();
    let sheet = sheet_5x5();
    let mut alloc = sheet.material_allocator(Some((50, 25)));
    let h = alloc.get_material(5, &mut store);
    let m = store.get(h).expect("handle must be realized");
    assert_eq!(m.sprite_sheet, TextureHandle { id: 7 });
    assert_eq!(m.sprite, alloc.index(5));
}

#[test]
fn allocators_never_share_materials() {
    // Two allocators over the same sheet still realize their own materials.
    let mut store = MaterialStore::new();
    let sheet = sheet_5x5();
    let mut first = sheet.material_allocator(Some((50, 25)));
    let mut second = sheet.material_allocator(Some((50, 25)));
    let h1 = first.get_material(0, &mut store);
    let h2 = second.get_material(0, &mut store);
    assert_ne!(h1, h2);
    assert_eq!(store.len(), 2);
}

#[test]
fn undecoded_sheet_acts_as_single_cell() {
    let sheet = sheet_5x5();
    let alloc = sheet.material_allocator(None);
    let r = alloc.index(0);
    assert_eq!(frac(r.left.num, r.left.den), 0.0);
    assert_eq!(frac(r.right.num, r.right.den), 1.0);
    assert_eq!(frac(r.bottom.num, r.bottom.den), 1.0);
}
