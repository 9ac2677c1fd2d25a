//! The grid coordinate system: integer cells and compass directions, and
//! their exact mapping to world translations and vertical-axis rotations.
//!
//! Tile centers sit at `cell * TILE_SIZE` with no half-cell offset, and wall
//! rotations are whole quarter turns about the vertical axis, so both maps
//! are exact and invertible over the integers.

use vstd::prelude::*;

verus! {

use crate::vec3::Vec3Fx;
use crate::vec3::v3;

/// Square tile side length in 16.16 fixed point (0.2 world units).
pub const TILE_SIZE: i64 = 13107;

/// Wall height in 16.16 fixed point (0.5 world units).
pub const WALL_HEIGHT: i64 = 32768;

/// A cell of the map's integer grid.
#[derive(Debug, Copy, Clone, PartialEq, Eq, Structural, Hash)]
pub struct Location {
    pub x: i32,
    pub y: i32,
}

/// The world translation of a grid cell: `(x * TILE_SIZE, 0, y * TILE_SIZE)`.
pub open spec fn translation_spec(loc: Location) -> (int, int, int) {
    (loc.x as int * TILE_SIZE as int, 0, loc.y as int * TILE_SIZE as int)
}

impl Location {
    /// Place this cell on the ground plane.
    pub fn to_translation(&self) -> (t: Vec3Fx)
        ensures
            v3(t) == translation_spec(*self),
    {
        Vec3Fx { x: (self.x as i64) * TILE_SIZE, y: 0, z: (self.y as i64) * TILE_SIZE }
    }

    /// Recover the grid cell from a translation that places some cell.
    pub fn from_translation(t: Vec3Fx) -> (loc: Location)
        requires
            exists|l: Location| v3(t) == translation_spec(l),
        ensures
            v3(t) == translation_spec(loc),
    {
        let ghost l = choose|l: Location| v3(t) == translation_spec(l);
        proof {
            assert(tile_aligned(t.x as int, l.x));
            assert(tile_aligned(t.z as int, l.y));
        }
        let x: i64 = grid_div(t.x);
        let y: i64 = grid_div(t.z);
        proof {
            assert(x == l.x && y == l.y) by (nonlinear_arith)
                requires
                    t.x == x * (TILE_SIZE as int),
                    t.z == y * (TILE_SIZE as int),
                    t.x == (l.x as int) * (TILE_SIZE as int),
                    t.z == (l.y as int) * (TILE_SIZE as int),
                    (TILE_SIZE as int) > 0,
            ;
        }
        Location { x: x as i32, y: y as i32 }
    }
}

/// `t` is the scaled image of the whole grid coordinate `c`.
pub open spec fn tile_aligned(t: int, c: i32) -> bool {
    t == c as int * TILE_SIZE as int
}

/// Exact division of a tile-aligned coordinate by `TILE_SIZE`.
fn grid_div(t: i64) -> (q: i64)
    requires
        exists|c: i32| tile_aligned(t as int, c),
    ensures
        t == q * TILE_SIZE as int,
        i32::MIN <= q <= i32::MAX,
{
    let ghost c = choose|c: i32| tile_aligned(t as int, c);
    let neg: bool = t < 0;
    let ut: u64 = if t >= 0 {
        t as u64
    } else {
        (-(t as i128)) as u64
    };
    let uq: u64 = ut / (TILE_SIZE as u64);
    proof {
        if t >= 0 {
            assert(ut == c as int * TILE_SIZE as int);
            assert(c >= 0) by (nonlinear_arith)
                requires
                    (c as int) * (TILE_SIZE as int) >= 0,
                    (TILE_SIZE as int) > 0,
            ;
            vstd::arithmetic::div_mod::lemma_div_by_multiple(c as int, TILE_SIZE as int);
            assert(uq == c as int);
        } else {
            assert(ut == (-c) as int * TILE_SIZE as int) by (nonlinear_arith)
                requires
                    ut == -(c as int * TILE_SIZE as int),
            ;
            assert(c < 0) by (nonlinear_arith)
                requires
                    (c as int) * (TILE_SIZE as int) < 0,
                    (TILE_SIZE as int) > 0,
            ;
            vstd::arithmetic::div_mod::lemma_div_by_multiple((-c) as int, TILE_SIZE as int);
            assert(uq == (-c) as int);
        }
    }
    if neg {
        (-(uq as i128)) as i64
    } else {
        uq as i64
    }
}

impl core::convert::From<(i32, i32)> for Location {
    /// A pair read from a map row names the cell directly.
    fn from(pos: (i32, i32)) -> (loc: Location) {
        Location { x: pos.0, y: pos.1 }
    }
}

impl vstd::std_specs::convert::FromSpecImpl<(i32, i32)> for Location {
    open spec fn obeys_from_spec() -> bool {
        true
    }

    open spec fn from_spec(pos: (i32, i32)) -> Location {
        Location { x: pos.0, y: pos.1 }
    }
}

/// Grid placement is injective: distinct cells have distinct translations.
pub proof fn lemma_translation_injective(a: Location, b: Location)
    requires
        translation_spec(a) == translation_spec(b),
    ensures
        a == b,
{
    assert(a.x as int * TILE_SIZE as int == b.x as int * TILE_SIZE as int);
    assert(a.x == b.x) by (nonlinear_arith)
        requires
            a.x as int * TILE_SIZE as int == b.x as int * TILE_SIZE as int,
            (TILE_SIZE as int) > 0,
    ;
    assert(a.y == b.y) by (nonlinear_arith)
        requires
            a.y as int * TILE_SIZE as int == b.y as int * TILE_SIZE as int,
            (TILE_SIZE as int) > 0,
    ;
}

/// A compass direction on the grid plane.
#[derive(Debug, Copy, Clone, PartialEq, Eq, Structural)]
pub enum Direction {
    PositiveX,
    NegativeY,
    NegativeX,
    PositiveY,
}

/// A rotation about the vertical axis, counted in quarter turns (`0..4`).
#[derive(Debug, Copy, Clone, PartialEq, Eq, Structural)]
pub struct Rotation {
    pub quarter_turns: u8,
}

/// One counterclockwise quarter turn about the vertical axis, exactly:
/// `(x, y, z) -> (z, y, -x)`.
pub open spec fn quarter_turn3(v: (int, int, int)) -> (int, int, int) {
    (v.2, v.1, -v.0)
}

/// `n` quarter turns applied in sequence.
pub open spec fn rotate_quarters(n: nat, v: (int, int, int)) -> (int, int, int)
    decreases n,
{
    if n == 0 {
        v
    } else {
        quarter_turn3(rotate_quarters((n - 1) as nat, v))
    }
}

impl Rotation {
    /// The count of quarter turns is reduced modulo a full turn.
    pub open spec fn wf(self) -> bool {
        self.quarter_turns < 4
    }

    /// The identity rotation.
    pub fn identity() -> (r: Rotation)
        ensures
            r.wf(),
            r.quarter_turns == 0,
    {
        Rotation { quarter_turns: 0 }
    }

    /// Apply `self` after `other`.
    pub fn compose(self, other: Rotation) -> (r: Rotation)
        requires
            self.wf(),
            other.wf(),
        ensures
            r.wf(),
            r.quarter_turns == (self.quarter_turns + other.quarter_turns) % 4,
    {
        Rotation { quarter_turns: (self.quarter_turns + other.quarter_turns) % 4 }
    }

    /// The rotation that undoes `self`.
    pub fn inverse(self) -> (r: Rotation)
        requires
            self.wf(),
        ensures
            r.wf(),
            (self.quarter_turns + r.quarter_turns) % 4 == 0,
    {
        Rotation { quarter_turns: (4 - self.quarter_turns) % 4 }
    }

    /// The rotation angle in degrees.
    pub fn angle_degrees(self) -> (d: u32)
        ensures
            d == self.quarter_turns as int * 90,
    {
        (self.quarter_turns as u32) * 90
    }

    /// Rotate a vector by this many exact quarter turns.
    pub fn apply(self, v: Vec3Fx) -> (r: Vec3Fx)
        requires
            self.wf(),
            -0x4000_0000_0000_0000 < v.x < 0x4000_0000_0000_0000,
            -0x4000_0000_0000_0000 < v.z < 0x4000_0000_0000_0000,
        ensures
            v3(r) == rotate_quarters(self.quarter_turns as nat, v3(v)),
    {
        let mut out: Vec3Fx = v;
        let mut i: u8 = 0;
        while i < self.quarter_turns
            invariant
                i <= self.quarter_turns <= 4,
                v3(out) == rotate_quarters(i as nat, v3(v)),
                -0x4000_0000_0000_0000 < out.x < 0x4000_0000_0000_0000,
                -0x4000_0000_0000_0000 < out.z < 0x4000_0000_0000_0000,
                out.y == v.y,
            decreases self.quarter_turns - i,
        {
            out = Vec3Fx { x: out.z, y: out.y, z: -out.x };
            i = i + 1;
        }
        out
    }
}

/// One quarter turn agrees exactly with the camera math's rotation about
/// the vertical axis by a right angle (cosine 0, sine 1): the symbolic grid
/// rotation and the fixed-point rotation are the same map.
pub proof fn lemma_quarter_turn_is_vertical_rotation(v: (int, int, int))
    ensures
        crate::vec3::rotate3(
            (0int, crate::fx::FX_ONE as int, 0int),
            0int,
            crate::fx::FX_ONE as int,
            v,
        ) == quarter_turn3(v),
{
    crate::fx::lemma_fx_mul_unit(v.0);
    crate::fx::lemma_fx_mul_unit(v.1);
    crate::fx::lemma_fx_mul_unit(v.2);
    crate::fx::lemma_fx_mul_zero(v.0);
    crate::fx::lemma_fx_mul_zero(v.1);
    crate::fx::lemma_fx_mul_zero(v.2);
    let one = crate::fx::FX_ONE as int;
    let k = (0int, one, 0int);
    assert(crate::vec3::dot3(k, v) == v.1);
    assert(crate::vec3::cross3(k, v) == (v.2, 0int, -v.0));
    let dt = crate::fx::fx_mul_spec(v.1, one - 0);
    crate::fx::lemma_fx_mul_zero(dt);
    crate::fx::lemma_fx_mul_zero(one);
    crate::fx::lemma_fx_mul_unit(dt);
    crate::fx::lemma_fx_mul_unit(-v.0);
    assert(crate::vec3::rotate3(k, 0int, one, v).0 == v.2);
    assert(crate::vec3::rotate3(k, 0int, one, v).1 == v.1);
    assert(crate::vec3::rotate3(k, 0int, one, v).2 == -v.0);
}

/// The rotation assigned to a wall direction: `+X` is the zero reference and
/// `-Y`, `-X`, `+Y` follow at successive quarter turns (90, 180, 270 degrees).
pub open spec fn direction_rotation(d: Direction) -> Rotation {
    Rotation {
        quarter_turns: match d {
            Direction::PositiveX => 0,
            Direction::NegativeY => 1,
            Direction::NegativeX => 2,
            Direction::PositiveY => 3,
        },
    }
}

impl Direction {
    /// The wall rotation for this direction.
    pub fn to_rotation(&self) -> (r: Rotation)
        ensures
            r.wf(),
            r == direction_rotation(*self),
    {
        match self {
            Direction::PositiveX => Rotation { quarter_turns: 0 },
            Direction::NegativeY => Rotation { quarter_turns: 1 },
            Direction::NegativeX => Rotation { quarter_turns: 2 },
            Direction::PositiveY => Rotation { quarter_turns: 3 },
        }
    }

    /// The next direction in the quarter-turn cycle.
    pub fn succ(self) -> (d: Direction)
        ensures
            d == direction_succ(self),
    {
        match self {
            Direction::PositiveX => Direction::NegativeY,
            Direction::NegativeY => Direction::NegativeX,
            Direction::NegativeX => Direction::PositiveY,
            Direction::PositiveY => Direction::PositiveX,
        }
    }
}

/// The next direction in the quarter-turn cycle.
pub open spec fn direction_succ(d: Direction) -> Direction {
    match d {
        Direction::PositiveX => Direction::NegativeY,
        Direction::NegativeY => Direction::NegativeX,
        Direction::NegativeX => Direction::PositiveY,
        Direction::PositiveY => Direction::PositiveX,
    }
}

/// The relative rotation from one direction's orientation to another's.
pub open spec fn rotation_between(a: Direction, b: Direction) -> Rotation {
    Rotation {
        quarter_turns: ((4 + direction_rotation(b).quarter_turns
            - direction_rotation(a).quarter_turns) % 4) as u8,
    }
}

/// Stepping around the direction cycle `+X -> -Y -> -X -> +Y -> +X` takes one
/// quarter turn per step, and the four steps compose to the identity.
pub proof fn lemma_direction_cycle_identity()
    ensures
        forall|d: Direction| #[trigger] rotation_between(d, direction_succ(d)).quarter_turns == 1,
        forall|v: (int, int, int)| #[trigger] rotate_quarters(4, v) == v,
{
    assert forall|d: Direction| #[trigger] rotation_between(d, direction_succ(d)).quarter_turns
        == 1 by {
        match d {
            Direction::PositiveX => {},
            Direction::NegativeY => {},
            Direction::NegativeX => {},
            Direction::PositiveY => {},
        }
    }
    assert forall|v: (int, int, int)| #[trigger] rotate_quarters(4, v) == v by {
        reveal_with_fuel(rotate_quarters, 5);
    }
}

} // verus!
