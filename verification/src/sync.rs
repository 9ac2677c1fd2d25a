//! The map synchronizer: turning asset-store notifications into scene
//! rebuilds that keep the root's children in step with the active map.
//!
//! Notifications are drained in order. A content notification (created or
//! modified) for the active map queues an update; one for any other map is
//! ignored; a removal of the active map is the single fatal condition. An
//! update rebuilds the scene from scratch: all children are torn down and
//! the map's tiles, then walls, are spawned in file order with materials
//! resolved through one fresh allocator per sheet.

use vstd::prelude::*;

verus! {

use crate::atlas::MaterialAllocator;
use crate::atlas::cache_has;
use crate::atlas::cache_at;
use crate::atlas::decoded_ok;
use crate::atlas::dimensions_spec;
use crate::atlas::lemma_cache_at_distinct;
use crate::atlas::uv_rect_spec;
use crate::grid::Location;
use crate::grid::Direction;
use crate::grid::translation_spec;
use crate::grid::direction_rotation;
use crate::mapfile::GameMap;
use crate::mapfile::MapHandle;
use crate::mapfile::MapTile;
use crate::mapfile::MapWall;
use crate::material::MaterialStore;
use crate::material::UnlitMaterial;
use crate::scene::MeshKind;
use crate::scene::Scene;
use crate::scene::SceneNode;
use crate::scene::SceneRoot;
use crate::scene::TileBundle;
use crate::scene::WallBundle;
use crate::scene::footprint;
use crate::scene::node_footprint;
use crate::scene::node_material;
use crate::vec3::v3;

/// The process-wide record of which map the scene mirrors.
#[derive(Debug, Copy, Clone)]
pub struct ActiveMap {
    pub map: MapHandle,
}

/// A change notification from the asset store, one per decode or removal.
#[derive(Debug, Copy, Clone, PartialEq, Eq, Structural)]
pub enum AssetEvent {
    Created { handle: MapHandle },
    Modified { handle: MapHandle },
    Removed { handle: MapHandle },
}

/// An instruction to re-synchronize the scene against a map's content.
#[derive(Debug, Copy, Clone, PartialEq, Eq, Structural)]
pub enum MapEvent {
    Update { handle: MapHandle },
}

/// The one unrecoverable condition: the map backing the live scene is gone.
#[derive(Debug, Copy, Clone, PartialEq, Eq, Structural)]
pub enum FatalError {
    ActiveMapRemoved,
}

/// The handle an asset notification is about.
pub open spec fn event_handle(e: AssetEvent) -> MapHandle {
    match e {
        AssetEvent::Created { handle } => handle,
        AssetEvent::Modified { handle } => handle,
        AssetEvent::Removed { handle } => handle,
    }
}

/// The notification announces decoded content (a first or repeated decode).
pub open spec fn is_content_event(e: AssetEvent) -> bool {
    e is Created || e is Modified
}

/// The handle a map event instructs to synchronize with.
pub open spec fn map_event_handle(e: MapEvent) -> MapHandle {
    match e {
        MapEvent::Update { handle } => handle,
    }
}

/// The batch holds a removal of the active map.
pub open spec fn has_fatal_removal(active: MapHandle, events: Seq<AssetEvent>) -> bool {
    exists|i: int|
        0 <= i < events.len() && (#[trigger] events[i]) is Removed && event_handle(events[i])
            == active
}

/// The updates a batch of notifications induces, in emission order: one per
/// content notification for the active map, nothing for any other.
pub open spec fn updates_of(active: MapHandle, events: Seq<AssetEvent>) -> Seq<MapEvent>
    decreases events.len(),
{
    if events.len() == 0 {
        Seq::empty()
    } else {
        let front = updates_of(active, events.drop_last());
        let e = events.last();
        if is_content_event(e) && event_handle(e) == active {
            front.push(MapEvent::Update { handle: active })
        } else {
            front
        }
    }
}

/// Drain one tick's asset notifications. Content notifications for the
/// active map become update instructions in order; notifications for other
/// maps are ignored; a removal of the active map is fatal.
pub fn detect_changes(active_map: &ActiveMap, asset_events: &Vec<AssetEvent>) -> (r: Result<
    Vec<MapEvent>,
    FatalError,
>)
    ensures
        r is Err <==> has_fatal_removal(active_map.map, asset_events@),
        r is Err ==> r->Err_0 == FatalError::ActiveMapRemoved,
        r is Ok ==> r->Ok_0@ == updates_of(active_map.map, asset_events@),
{
    let active: MapHandle = active_map.map;
    let mut out: Vec<MapEvent> = Vec::new();
    let n: usize = asset_events.len();
    let mut i: usize = 0;
    while i < n
        invariant
            i <= n == asset_events@.len(),
            active == active_map.map,
            !has_fatal_removal(active, asset_events@.take(i as int)),
            out@ == updates_of(active, asset_events@.take(i as int)),
        decreases n - i,
    {
        let e: AssetEvent = asset_events[i];
        let ghost prefix = asset_events@.take(i as int);
        let ghost grown = asset_events@.take(i as int + 1);
        proof {
            assert(grown.drop_last() =~= prefix);
            assert(grown.last() == e);
        }
        match e {
            AssetEvent::Removed { handle } => {
                if handle == active {
                    proof {
                        assert(asset_events@[i as int] is Removed && event_handle(
                            asset_events@[i as int],
                        ) == active);
                    }
                    return Err(FatalError::ActiveMapRemoved);
                }
                proof {
                    assert forall|j: int|
                        0 <= j < grown.len() implies !((#[trigger] grown[j]) is Removed
                        && event_handle(grown[j]) == active) by {
                        if j < prefix.len() {
                            assert(grown[j] == prefix[j]);
                            assert(!has_fatal_removal(active, prefix));
                            assert(!(prefix[j] is Removed && event_handle(prefix[j]) == active));
                        }
                    }
                }
            },
            AssetEvent::Created { handle } => {
                if handle == active {
                    out.push(MapEvent::Update { handle });
                }
                proof {
                    lemma_no_fatal_grows(active, prefix, grown);
                }
            },
            AssetEvent::Modified { handle } => {
                if handle == active {
                    out.push(MapEvent::Update { handle });
                }
                proof {
                    lemma_no_fatal_grows(active, prefix, grown);
                }
            },
        }
        i = i + 1;
    }
    proof {
        assert(asset_events@.take(n as int) =~= asset_events@);
    }
    Ok(out)
}

/// Extending a batch by a non-removal notification cannot introduce the
/// fatal condition.
proof fn lemma_no_fatal_grows(active: MapHandle, prefix: Seq<AssetEvent>, grown: Seq<AssetEvent>)
    requires
        !has_fatal_removal(active, prefix),
        grown.drop_last() =~= prefix,
        grown.len() == prefix.len() + 1,
        !(grown.last() is Removed),
    ensures
        !has_fatal_removal(active, grown),
{
    assert forall|j: int|
        0 <= j < grown.len() implies !((#[trigger] grown[j]) is Removed && event_handle(grown[j])
        == active) by {
        if j < prefix.len() {
            assert(grown[j] == prefix[j]);
            assert(!(prefix[j] is Removed && event_handle(prefix[j]) == active));
        }
    }
}

/// The sprite a map row selects: a missing id is sprite 0.
pub open spec fn sprite_id_of(id: Option<u32>) -> u32 {
    match id {
        Some(v) => v,
        None => 0,
    }
}

/// The grid cell of a tile row.
pub open spec fn tile_location(t: MapTile) -> Location {
    Location { x: t.pos.0, y: t.pos.1 }
}

/// The grid cell of a wall row.
pub open spec fn wall_location(w: MapWall) -> Location {
    Location { x: w.pos.0, y: w.pos.1 }
}

/// The child spawned for one tile row carries the row's cell, the cell's
/// translation and the tile mesh.
pub open spec fn tile_child_matches(n: SceneNode, t: MapTile) -> bool {
    match n {
        SceneNode::Tile(b) => b.grid_pos == tile_location(t) && v3(b.transform)
            == translation_spec(tile_location(t)) && b.mesh == MeshKind::Tile,
        SceneNode::Wall(_) => false,
    }
}

/// The child spawned for one wall row carries the row's cell and direction,
/// the cell's translation, the direction's rotation and the wall mesh.
pub open spec fn wall_child_matches(n: SceneNode, w: MapWall) -> bool {
    match n {
        SceneNode::Tile(_) => false,
        SceneNode::Wall(b) => b.location == wall_location(w) && b.direction == w.direction && v3(
            b.transform,
        ) == translation_spec(wall_location(w)) && b.rotation == direction_rotation(w.direction)
            && b.mesh == MeshKind::Wall,
    }
}

/// The children realize exactly the map's rows: tiles in file order, then
/// walls in file order.
pub open spec fn children_match_map(children: Seq<SceneNode>, map: GameMap) -> bool {
    &&& children.len() == map.tiles@.len() + map.walls@.len()
    &&& forall|i: int|
        0 <= i < map.tiles@.len() ==> tile_child_matches(#[trigger] children[i], map.tiles@[i])
    &&& forall|j: int|
        0 <= j < map.walls@.len() ==> wall_child_matches(
            children[map.tiles@.len() + j],
            #[trigger] map.walls@[j],
        )
}

/// Every child's material is realized in the store with its sheet's texture
/// and its sprite's exact rectangle; two rows of one sheet share a handle
/// exactly when they select the same sprite, and the two sheets never share
/// a handle even when they agree on everything else.
pub open spec fn materials_match_map(
    children: Seq<SceneNode>,
    map: GameMap,
    tile_dims: (u32, u32),
    wall_dims: (u32, u32),
    store: MaterialStore,
) -> bool {
    let nt = map.tiles@.len() as int;
    let nw = map.walls@.len() as int;
    &&& forall|i: int|
        0 <= i < nt ==> (#[trigger] node_material(children[i])).id < store.materials@.len()
            && store.materials@[node_material(children[i]).id as int] == (UnlitMaterial {
            sprite_sheet: map.tile_sprites.sprite_sheet,
            sprite: uv_rect_spec(
                tile_dims,
                map.tile_sprites.grid_dimensions,
                sprite_id_of(map.tiles@[i].id),
            ),
        })
    &&& forall|j: int|
        0 <= j < nw ==> (#[trigger] node_material(children[nt + j])).id < store.materials@.len()
            && store.materials@[node_material(children[nt + j]).id as int] == (UnlitMaterial {
            sprite_sheet: map.wall_sprites.sprite_sheet,
            sprite: uv_rect_spec(
                wall_dims,
                map.wall_sprites.grid_dimensions,
                sprite_id_of(map.walls@[j].id),
            ),
        })
    &&& forall|i: int, j: int|
        0 <= i < nt && 0 <= j < nt ==> ((#[trigger] node_material(children[i]))
            == #[trigger] node_material(children[j]) <==> sprite_id_of(map.tiles@[i].id)
            == sprite_id_of(map.tiles@[j].id))
    &&& forall|i: int, j: int|
        0 <= i < nw && 0 <= j < nw ==> ((#[trigger] node_material(children[nt + i]))
            == #[trigger] node_material(children[nt + j]) <==> sprite_id_of(map.walls@[i].id)
            == sprite_id_of(map.walls@[j].id))
    &&& forall|i: int, j: int|
        0 <= i < nt && 0 <= j < nw ==> (#[trigger] node_material(children[i]))
            != #[trigger] node_material(children[nt + j])
}

/// The footprint a map asks for: its tiles' cells, then its walls' cells
/// with their directions.
pub open spec fn map_footprint(map: GameMap) -> Seq<(Location, Option<Direction>)> {
    map.tiles@.map_values(|t: MapTile| (tile_location(t), None::<Direction>))
        + map.walls@.map_values(|w: MapWall| (wall_location(w), Some(w.direction)))
}

/// Children that realize a map have exactly the map's footprint.
pub proof fn lemma_children_footprint(children: Seq<SceneNode>, map: GameMap)
    requires
        children_match_map(children, map),
    ensures
        children.map_values(|n: SceneNode| node_footprint(n)) =~= map_footprint(map),
{
    let lhs = children.map_values(|n: SceneNode| node_footprint(n));
    let rhs = map_footprint(map);
    let nt = map.tiles@.len() as int;
    assert(lhs.len() == rhs.len());
    assert forall|i: int| 0 <= i < lhs.len() implies lhs[i] == rhs[i] by {
        if i < nt {
            assert(tile_child_matches(children[i], map.tiles@[i]));
        } else {
            assert(wall_child_matches(children[nt + (i - nt)], map.walls@[i - nt]));
        }
    }
}

/// Rebuild idempotence: scenes rebuilt against the same map content have
/// the same footprint, however many times and in whatever order the
/// rebuilds ran.
pub proof fn lemma_rebuild_idempotent(first: Scene, second: Scene, map: GameMap)
    requires
        footprint(first) == map_footprint(map),
        footprint(second) == map_footprint(map),
    ensures
        footprint(first) == footprint(second),
{
}

/// Re-synchronize the scene with the active map's current content: locate
/// or create the single root, tear down all of its children, and spawn the
/// map's tiles then walls in file order, resolving materials through one
/// fresh allocator per sheet. `tile_decoded` and `wall_decoded` are the
/// pixel sizes the asset store has decoded for the two sheet textures, when
/// it has.
#[verifier::loop_isolation(false)]
#[verifier::rlimit(100)]
pub fn update_map(
    scene: &mut Scene,
    event: &MapEvent,
    map: &GameMap,
    tile_decoded: Option<(u32, u32)>,
    wall_decoded: Option<(u32, u32)>,
    materials: &mut MaterialStore,
)
    requires
        map.wf(),
        decoded_ok(map.tile_sprites, tile_decoded),
        decoded_ok(map.wall_sprites, wall_decoded),
        old(materials).materials@.len() + map.tiles@.len() + map.walls@.len() < u64::MAX,
    ensures
        final(scene).root is Some,
        (final(scene).root->Some_0).map == map_event_handle(*event),
        children_match_map((final(scene).root->Some_0).children@, *map),
        materials_match_map(
            (final(scene).root->Some_0).children@,
            *map,
            dimensions_spec(map.tile_sprites, tile_decoded),
            dimensions_spec(map.wall_sprites, wall_decoded),
            *final(materials),
        ),
        old(materials).materials@.is_prefix_of(final(materials).materials@),
        footprint(*final(scene)) == map_footprint(*map),
{
    let handle: MapHandle = match event {
        MapEvent::Update { handle } => *handle,
    };
    let ghost base = materials.materials@.len();
    let mut tile_alloc: MaterialAllocator = map.tile_sprites.material_allocator(tile_decoded);
    let mut wall_alloc: MaterialAllocator = map.wall_sprites.material_allocator(wall_decoded);
    let ghost tdims = dimensions_spec(map.tile_sprites, tile_decoded);
    let ghost wdims = dimensions_spec(map.wall_sprites, wall_decoded);
    let mut children: Vec<SceneNode> = Vec::new();
    let nt: usize = map.tiles.len();
    let nw: usize = map.walls.len();
    let mut i: usize = 0;
    while i < nt
        invariant
            i <= nt,
            children@.len() == i,
            tile_alloc.texture == map.tile_sprites.sprite_sheet,
            tile_alloc.grid_dimensions == map.tile_sprites.grid_dimensions,
            tile_alloc.dimensions == tdims,
            tile_alloc.geometry_wf(),
            tile_alloc.wf_cache(*materials),
            old(materials).materials@.is_prefix_of(materials.materials@),
            materials.materials@.len() <= base + i,
            forall|k: int|
                0 <= k < i ==> tile_child_matches(#[trigger] children@[k], map.tiles@[k]),
            forall|k: int|
                0 <= k < i ==> (#[trigger] node_material(children@[k])).id
                    < materials.materials@.len() && materials.materials@[node_material(
                    children@[k],
                ).id as int] == (UnlitMaterial {
                    sprite_sheet: map.tile_sprites.sprite_sheet,
                    sprite: uv_rect_spec(
                        tdims,
                        map.tile_sprites.grid_dimensions,
                        sprite_id_of(map.tiles@[k].id),
                    ),
                }),
            forall|k: int|
                0 <= k < i ==> cache_has(
                    tile_alloc.cache@,
                    sprite_id_of(#[trigger] map.tiles@[k].id),
                ) && cache_at(tile_alloc.cache@, sprite_id_of(map.tiles@[k].id)) == node_material(
                    children@[k],
                ),
        decreases nt - i,
    {
        let t: MapTile = map.tiles[i];
        let id: u32 = match t.id {
            Some(v) => v,
            None => 0,
        };
        let ghost prev_cache = tile_alloc.cache@;
        let h = tile_alloc.get_material(id, materials);
        children.push(SceneNode::Tile(TileBundle::new(Location { x: t.pos.0, y: t.pos.1 }, h)));
        proof {
            assert(tile_child_matches(children@[i as int], map.tiles@[i as int]));
            assert forall|k: int|
                0 <= k < i + 1 implies cache_has(
                tile_alloc.cache@,
                sprite_id_of(#[trigger] map.tiles@[k].id),
            ) && cache_at(tile_alloc.cache@, sprite_id_of(map.tiles@[k].id)) == node_material(
                children@[k],
            ) by {
                let key = sprite_id_of(map.tiles@[k].id);
                if k < i {
                    if !cache_has(prev_cache, id) {
                        crate::atlas::lemma_cache_at_push_stable(prev_cache, (id, h), key);
                    }
                }
            }
        }
        i = i + 1;
    }
    let ghost mid = materials.materials@.len();
    let ghost tile_cache = tile_alloc.cache@;
    let mut j: usize = 0;
    while j < nw
        invariant
            j <= nw,
            children@.len() == nt + j,
            wall_alloc.texture == map.wall_sprites.sprite_sheet,
            wall_alloc.grid_dimensions == map.wall_sprites.grid_dimensions,
            wall_alloc.dimensions == wdims,
            wall_alloc.geometry_wf(),
            wall_alloc.wf_cache(*materials),
            old(materials).materials@.is_prefix_of(materials.materials@),
            mid <= materials.materials@.len() <= mid + j,
            forall|k: int|
                0 <= k < nt ==> tile_child_matches(#[trigger] children@[k], map.tiles@[k]),
            forall|k: int|
                0 <= k < nt ==> (#[trigger] node_material(children@[k])).id < mid
                    && materials.materials@[node_material(children@[k]).id as int] == (
                UnlitMaterial {
                    sprite_sheet: map.tile_sprites.sprite_sheet,
                    sprite: uv_rect_spec(
                        tdims,
                        map.tile_sprites.grid_dimensions,
                        sprite_id_of(map.tiles@[k].id),
                    ),
                }),
            forall|k: int|
                0 <= k < nt ==> cache_has(
                    tile_cache,
                    sprite_id_of(#[trigger] map.tiles@[k].id),
                ) && cache_at(tile_cache, sprite_id_of(map.tiles@[k].id)) == node_material(
                    children@[k],
                ),
            forall|k: int|
                0 <= k < j ==> wall_child_matches(
                    #[trigger] children@[nt + k],
                    map.walls@[k],
                ),
            forall|k: int|
                0 <= k < j ==> (#[trigger] node_material(children@[nt + k])).id
                    < materials.materials@.len() && materials.materials@[node_material(
                    children@[nt + k],
                ).id as int] == (UnlitMaterial {
                    sprite_sheet: map.wall_sprites.sprite_sheet,
                    sprite: uv_rect_spec(
                        wdims,
                        map.wall_sprites.grid_dimensions,
                        sprite_id_of(map.walls@[k].id),
                    ),
                }),
            forall|k: int|
                0 <= k < j ==> cache_has(
                    wall_alloc.cache@,
                    sprite_id_of(#[trigger] map.walls@[k].id),
                ) && cache_at(wall_alloc.cache@, sprite_id_of(map.walls@[k].id)) == node_material(
                    children@[nt + k],
                ),
            forall|e: int|
                0 <= e < wall_alloc.cache@.len() ==> (#[trigger] wall_alloc.cache@[e]).1.id >= mid,
        decreases nw - j,
    {
        let w: MapWall = map.walls[j];
        let id: u32 = match w.id {
            Some(v) => v,
            None => 0,
        };
        let ghost prev_cache = wall_alloc.cache@;
        let h = wall_alloc.get_material(id, materials);
        children.push(
            SceneNode::Wall(WallBundle::new(Location { x: w.pos.0, y: w.pos.1 }, w.direction, h)),
        );
        proof {
            assert(wall_child_matches(children@[nt + j as int], map.walls@[j as int]));
            assert forall|k: int|
                0 <= k < j + 1 implies cache_has(
                wall_alloc.cache@,
                sprite_id_of(#[trigger] map.walls@[k].id),
            ) && cache_at(wall_alloc.cache@, sprite_id_of(map.walls@[k].id)) == node_material(
                children@[nt + k],
            ) by {
                let key = sprite_id_of(map.walls@[k].id);
                if k < j {
                    if !cache_has(prev_cache, id) {
                        crate::atlas::lemma_cache_at_push_stable(prev_cache, (id, h), key);
                    }
                }
            }
        }
        j = j + 1;
    }
    proof {
        assert(children_match_map(children@, *map));
        let ch = children@;
        let ntg = map.tiles@.len() as int;
        let nwg = map.walls@.len() as int;
        assert forall|a: int, b: int| 0 <= a < ntg && 0 <= b < ntg implies ((
        #[trigger] node_material(ch[a])) == #[trigger] node_material(ch[b]) <==> sprite_id_of(
            map.tiles@[a].id,
        ) == sprite_id_of(map.tiles@[b].id)) by {
            let ka = sprite_id_of(map.tiles@[a].id);
            let kb = sprite_id_of(map.tiles@[b].id);
            if ka != kb {
                lemma_cache_at_distinct(tile_cache, ka, kb);
            }
        }
        assert forall|a: int, b: int| 0 <= a < nwg && 0 <= b < nwg implies ((
        #[trigger] node_material(ch[ntg + a])) == #[trigger] node_material(ch[ntg + b])
            <==> sprite_id_of(map.walls@[a].id) == sprite_id_of(map.walls@[b].id)) by {
            let ka = sprite_id_of(map.walls@[a].id);
            let kb = sprite_id_of(map.walls@[b].id);
            if ka != kb {
                lemma_cache_at_distinct(wall_alloc.cache@, ka, kb);
            }
        }
        assert forall|a: int, b: int| 0 <= a < ntg && 0 <= b < nwg implies (
        #[trigger] node_material(ch[a])) != #[trigger] node_material(ch[ntg + b]) by {
            let kb = sprite_id_of(map.walls@[b].id);
            crate::atlas::lemma_cache_at_is_entry(wall_alloc.cache@, kb);
            let e = choose|e: int|
                0 <= e < wall_alloc.cache@.len() && (#[trigger] wall_alloc.cache@[e]).0 == kb
                    && wall_alloc.cache@[e].1 == cache_at(wall_alloc.cache@, kb);
            assert(node_material(ch[ntg + b]).id >= mid);
        }
    }
    let ghost spawned = children@;
    scene.root = Some(SceneRoot { map: handle, children });
    proof {
        lemma_children_footprint(spawned, *map);
        assert(footprint(*scene) =~= map_footprint(*map));
    }
}

/// A removal notification for the active map raises the fatal condition.
pub proof fn lemma_removed_active_is_fatal(active: MapHandle, events: Seq<AssetEvent>, i: int)
    requires
        0 <= i < events.len(),
        events[i] == (AssetEvent::Removed { handle: active }),
    ensures
        has_fatal_removal(active, events),
{
    assert(events[i] is Removed && event_handle(events[i]) == active);
}

/// A removal of any other handle is a no-op: alone in a batch it raises no
/// fatal condition and queues no update.
pub proof fn lemma_removed_other_is_noop(active: MapHandle, other: MapHandle)
    requires
        other != active,
    ensures
        !has_fatal_removal(active, seq![AssetEvent::Removed { handle: other }]),
        updates_of(active, seq![AssetEvent::Removed { handle: other }]) =~= Seq::<
            MapEvent,
        >::empty(),
{
    reveal_with_fuel(updates_of, 3);
    let events = seq![AssetEvent::Removed { handle: other }];
    assert forall|i: int|
        0 <= i < events.len() implies !((#[trigger] events[i]) is Removed && event_handle(
        events[i],
    ) == active) by {
        assert(events[i] == AssetEvent::Removed { handle: other });
    }
    assert(events.drop_last() =~= Seq::<AssetEvent>::empty());
}

} // verus!
