use isomap::camera::{Angle, ControllerBasis, OrbitTransform, YawPitchControls};
use isomap::fx::FX_ONE;
use isomap::vec3::Vec3Fx;

fn to_f32(v: Vec3Fx) -> (f32, f32, f32) {
    let s = FX_ONE as f32;
    (v.x as f32 / s, v.y as f32 / s, v.z as f32 / s)
}

fn angle_of(radians: f32) -> Angle {
    let s = FX_ONE as f32;
    Angle { cos: (radians.cos() * s) as i64, sin: (radians.sin() * s) as i64 }
}

fn close(a: f32, b: f32, tol: f32) -> bool {
    (a - b).abs() <= tol
}

#[test]
fn camera_isometric_scenario() {
    // Basis up (0,1,0), forward (0,0,1); yaw 45 degrees, pitch 45 degrees,
    // distance 1: the camera must sit near (0.5, 0.707, 0.5), looking back
    // at the origin.
    let basis = ControllerBasis::default();
    let controls = YawPitchControls::default();
    let pose: OrbitTransform = controls.transform(&basis).expect("pose must be defined");
    let (px, py, pz) = to_f32(pose.translation);
    assert!(close(px, 0.5, 0.01), "x was {px}");
    assert!(close(py, 0.70710678, 0.01), "y was {py}");
    assert!(close(pz, 0.5, 0.01), "z was {pz}");
    // The back axis points from the focus (the origin) to the camera.
    let (bx, by, bz) = to_f32(pose.back);
    assert!(close(bx, 0.5, 0.01));
    assert!(close(by, 0.70710678, 0.01));
    assert!(close(bz, 0.5, 0.01));
}

#[test]
fn camera_frame_is_orthogonal() {
    let basis = ControllerBasis::default();
    let controls = YawPitchControls {
        focus: Vec3Fx { x: FX_ONE, y: 0, z: -FX_ONE },
        yaw: angle_of(0.9),
        pitch: angle_of(0.6),
        dist: 3 * FX_ONE,
    };
    let pose = controls.transform(&basis).expect("pose must be defined");
    let (rx, ry, rz) = to_f32(pose.right);
    let (ux, uy, uz) = to_f32(pose.up);
    let (bx, by, bz) = to_f32(pose.back);
    assert!(close(rx * bx + ry * by + rz * bz, 0.0, 0.01));
    assert!(close(rx * ux + ry * uy + rz * uz, 0.0, 0.01));
    assert!(close((rx * rx + ry * ry + rz * rz).sqrt(), 1.0, 0.01));
    assert!(close((bx * bx + by * by + bz * bz).sqrt(), 1.0, 0.01));
}

#[test]
fn camera_zero_angles_sits_along_forward() {
    let basis = ControllerBasis::default();
    let controls = YawPitchControls {
        focus: Vec3Fx { x: 0, y: 0, z: 0 },
        yaw: Angle { cos: FX_ONE, sin: 0 },
        pitch: Angle { cos: FX_ONE, sin: 0 },
        dist: 2 * FX_ONE,
    };
    let pose = controls.transform(&basis).expect("pose must be defined");
    let (px, py, pz) = to_f32(pose.translation);
    assert!(close(px, 0.0, 0.01));
    assert!(close(py, 0.0, 0.01));
    assert!(close(pz, 2.0, 0.01));
}

#[test]
fn camera_translation_follows_focus() {
    let basis = ControllerBasis::default();
    let mut controls = YawPitchControls::default();
    controls.focus = Vec3Fx { x: 10 * FX_ONE, y: 0, z: 0 };
    let pose = controls.transform(&basis).expect("pose must be defined");
    let (px, _, _) = to_f32(pose.translation);
    assert!(close(px, 10.5, 0.01));
}

#[test]
fn degenerate_basis_has_no_pose() {
    // Up parallel to forward: the pitch axis vanishes.
    let basis = ControllerBasis {
        up: Vec3Fx { x: 0, y: 0, z: FX_ONE },
        forward: Vec3Fx { x: 0, y: 0, z: FX_ONE },
    };
    let controls = YawPitchControls::default();
    assert!(controls.rotator(&basis).is_none());
    assert!(controls.local_basis(&basis).is_none());
    assert!(controls.transform(&basis).is_none());
}

#[test]
fn yaw_rotation_is_about_basis_up() {
    let basis = ControllerBasis::default();
    let controls = YawPitchControls::default();
    let yaw = controls.yaw(&basis);
    assert_eq!(yaw.axis, basis.up);
    assert_eq!(yaw.cos, controls.yaw.cos);
    assert_eq!(yaw.sin, controls.yaw.sin);
}

#[test]
fn local_basis_tilts_forward_down() {
    // Pitching by 45 degrees rotates forward toward up.
    let basis = ControllerBasis::default();
    let controls = YawPitchControls {
        focus: Vec3Fx { x: 0, y: 0, z: 0 },
        yaw: Angle { cos: FX_ONE, sin: 0 },
        pitch: angle_of(std::f32::consts::FRAC_PI_4),
        dist: FX_ONE,
    };
    let local = controls.local_basis(&basis).expect("basis must be defined");
    let (fx_, fy, fz) = to_f32(local.forward);
    assert!(close(fx_, 0.0, 0.01));
    assert!(close(fy, 0.70710678, 0.01));
    assert!(close(fz, 0.70710678, 0.01));
}
