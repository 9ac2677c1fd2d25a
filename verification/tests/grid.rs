use isomap::grid::{Direction, Location, Rotation, TILE_SIZE};
use isomap::vec3::Vec3Fx;

#[test]
fn translation_is_scaled_cell() {
    let loc = Location { x: 3, y: -2 };
    let t = loc.to_translation();
    assert_eq!(t, Vec3Fx { x: 3 * TILE_SIZE, y: 0, z: -2 * TILE_SIZE });
}

#[test]
fn translation_roundtrip_over_small_range() {
    let mut x: i32 = -1000;
    while x <= 1000 {
        let mut y: i32 = -1000;
        while y <= 1000 {
            let loc = Location { x, y };
            let back = Location::from_translation(loc.to_translation());
            assert_eq!(back, loc);
            y += 157;
        }
        x += 157;
    }
}

#[test]
fn translation_roundtrip_at_extremes() {
    for &(x, y) in &[(i32::MIN, i32::MAX), (i32::MAX, i32::MIN), (0, 0), (-1, 1)] {
        let loc = Location { x, y };
        assert_eq!(Location::from_translation(loc.to_translation()), loc);
    }
}

#[test]
fn translation_injective_on_samples() {
    let a = Location { x: 1, y: 0 }.to_translation();
    let b = Location { x: 0, y: 1 }.to_translation();
    let c = Location { x: -1, y: 0 }.to_translation();
    assert_ne!(a, b);
    assert_ne!(a, c);
    assert_ne!(b, c);
}

#[test]
fn location_from_pair() {
    assert_eq!(Location::from((2, -7)), Location { x: 2, y: -7 });
}

#[test]
fn direction_rotation_angles() {
    assert_eq!(Direction::PositiveX.to_rotation().angle_degrees(), 0);
    assert_eq!(Direction::NegativeY.to_rotation().angle_degrees(), 90);
    assert_eq!(Direction::NegativeX.to_rotation().angle_degrees(), 180);
    assert_eq!(Direction::PositiveY.to_rotation().angle_degrees(), 270);
}

#[test]
fn direction_rotation_closure() {
    // Stepping +X -> -Y -> -X -> +Y -> +X is one quarter turn per step, and
    // the four steps compose back to the identity rotation.
    let mut d = Direction::PositiveX;
    let mut total = Rotation::identity();
    for _ in 0..4 {
        let next = d.succ();
        let step = next.to_rotation().compose(d.to_rotation().inverse());
        assert_eq!(step.quarter_turns, 1);
        total = total.compose(step);
        d = next;
    }
    assert_eq!(d, Direction::PositiveX);
    assert_eq!(total, Rotation::identity());
}

#[test]
fn quarter_turns_have_period_four() {
    let v = Vec3Fx { x: 5 * TILE_SIZE, y: 7, z: -3 * TILE_SIZE };
    let quarter = Rotation { quarter_turns: 1 };
    let mut w = v;
    for _ in 0..4 {
        w = quarter.apply(w);
    }
    assert_eq!(w, v);
    // A single quarter turn moves the vector.
    assert_ne!(quarter.apply(v), v);
}

#[test]
fn full_rotation_applies_as_identity() {
    let v = Vec3Fx { x: 42, y: -9, z: 1000 };
    assert_eq!(Rotation::identity().apply(v), v);
    let half = Rotation { quarter_turns: 2 };
    assert_eq!(half.apply(v), Vec3Fx { x: -42, y: -9, z: -1000 });
}
