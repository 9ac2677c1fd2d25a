//! The orbit-camera controller: a full camera pose derived from a focus
//! point, yaw, pitch, a distance, and a configurable up/forward basis.
//!
//! Angles are carried as fixed-point cosine/sine pairs, so the whole
//! derivation — pitch about the basis's side axis, yaw about its up, then a
//! look-at back toward the focus — is exact fixed-point arithmetic whose
//! result the contracts state completely.

use vstd::prelude::*;

verus! {

use crate::fx::FX_ONE;
use crate::fx::lemma_fx_mul_bound;
use crate::vec3::Vec3Fx;
use crate::vec3::v3;
use crate::vec3::l1;
use crate::vec3::bounded3;
use crate::vec3::add3;
use crate::vec3::scale3;
use crate::vec3::cross3;
use crate::vec3::rotate3;
use crate::vec3::normalize3;
use crate::vec3::vec_add;
use crate::vec3::vec_scale;
use crate::vec3::vec_cross;
use crate::vec3::vec_normalize;
use crate::vec3::vec_rotate;

/// An angle, carried as its fixed-point cosine and sine.
#[derive(Debug, Copy, Clone, PartialEq, Eq, Structural)]
pub struct Angle {
    pub cos: i64,
    pub sin: i64,
}

impl Angle {
    /// Cosine and sine stay within one unit.
    pub open spec fn wf(self) -> bool {
        -FX_ONE <= self.cos <= FX_ONE && -FX_ONE <= self.sin <= FX_ONE
    }
}

/// Define the coordinate system a controller will use.
#[derive(Debug, Copy, Clone)]
pub struct ControllerBasis {
    /// Up basis vector.
    pub up: Vec3Fx,
    /// Forward basis vector.
    pub forward: Vec3Fx,
}

impl ControllerBasis {
    /// Basis vectors are unit scale: no component exceeds one unit.
    pub open spec fn wf(self) -> bool {
        bounded3(v3(self.up), FX_ONE as int) && bounded3(v3(self.forward), FX_ONE as int)
    }
}

impl Default for ControllerBasis {
    /// The default basis: up along `+y`, forward along `+z`.
    fn default() -> (b: Self)
        ensures
            b.up == (Vec3Fx { x: 0, y: FX_ONE, z: 0 }),
            b.forward == (Vec3Fx { x: 0, y: 0, z: FX_ONE }),
            b.wf(),
    {
        ControllerBasis {
            up: Vec3Fx { x: 0, y: FX_ONE, z: 0 },
            forward: Vec3Fx { x: 0, y: 0, z: FX_ONE },
        }
    }
}

/// The fixed-point cosine (and sine) of 45 degrees.
pub const COS_45: i64 = 46341;

/// Set the entity's transform based on yaw, pitch, and distance from focus.
#[derive(Debug, Copy, Clone)]
pub struct YawPitchControls {
    /// The focus point to orient around.
    pub focus: Vec3Fx,
    /// The angle the camera is rotated around the focus.
    pub yaw: Angle,
    /// The angle the camera looks down from.
    pub pitch: Angle,
    /// Distance from the focus.
    pub dist: i64,
}

impl YawPitchControls {
    /// Angles are unit pairs, the focus is within the world's extent, and
    /// the camera keeps a positive distance from it.
    pub open spec fn wf(self) -> bool {
        &&& self.yaw.wf()
        &&& self.pitch.wf()
        &&& bounded3(v3(self.focus), 0x1_0000_0000)
        &&& 0 < self.dist <= 0x1_0000_0000
    }
}

impl Default for YawPitchControls {
    /// Spawn the camera in the ideal spot for an isometric perspective:
    /// yaw and pitch at 45 degrees, one unit from the origin.
    fn default() -> (c: Self)
        ensures
            c.focus == (Vec3Fx { x: 0, y: 0, z: 0 }),
            c.yaw == (Angle { cos: COS_45, sin: COS_45 }),
            c.pitch == (Angle { cos: COS_45, sin: COS_45 }),
            c.dist == FX_ONE,
            c.wf(),
    {
        YawPitchControls {
            focus: Vec3Fx { x: 0, y: 0, z: 0 },
            yaw: Angle { cos: COS_45, sin: COS_45 },
            pitch: Angle { cos: COS_45, sin: COS_45 },
            dist: FX_ONE,
        }
    }
}

/// A rotation about a unit axis, stored with its angle's cosine and sine.
#[derive(Debug, Copy, Clone)]
pub struct AxisAngle {
    pub axis: Vec3Fx,
    pub cos: i64,
    pub sin: i64,
}

impl AxisAngle {
    /// The axis is unit scale and the angle pair is within one unit.
    pub open spec fn wf(self) -> bool {
        bounded3(v3(self.axis), FX_ONE as int) && -FX_ONE <= self.cos <= FX_ONE && -FX_ONE
            <= self.sin <= FX_ONE
    }

    /// Rotate a vector about the axis.
    pub fn rotate(&self, v: Vec3Fx) -> (r: Vec3Fx)
        requires
            self.wf(),
            l1(v3(v)) <= 0x40_0000_0000,
        ensures
            v3(r) == rotate3(v3(self.axis), self.cos as int, self.sin as int, v3(v)),
            bounded3(v3(r), 4 * l1(v3(v))),
    {
        vec_rotate(self.axis, self.cos, self.sin, v)
    }
}

/// Rotation which maps global space to local space: a pitch about the
/// basis's side axis, then a yaw about the basis up.
#[derive(Debug, Copy, Clone)]
pub struct Rotator {
    pub pitch: AxisAngle,
    pub yaw: AxisAngle,
}

impl Rotator {
    /// Both parts are well formed.
    pub open spec fn wf(self) -> bool {
        self.pitch.wf() && self.yaw.wf()
    }

    /// Apply the orientation: pitch first, then yaw.
    pub fn rotate(&self, v: Vec3Fx) -> (r: Vec3Fx)
        requires
            self.wf(),
            l1(v3(v)) <= 0x1000_0000,
        ensures
            v3(r) == rotate3(
                v3(self.yaw.axis),
                self.yaw.cos as int,
                self.yaw.sin as int,
                rotate3(v3(self.pitch.axis), self.pitch.cos as int, self.pitch.sin as int, v3(v)),
            ),
            bounded3(v3(r), 48 * l1(v3(v))),
    {
        let mid: Vec3Fx = self.pitch.rotate(v);
        self.yaw.rotate(mid)
    }
}

/// The pitch axis before normalization: the cross of up with forward.
pub open spec fn pitch_axis_raw(basis: ControllerBasis) -> (int, int, int) {
    cross3(v3(basis.up), v3(basis.forward))
}

/// The controller's orientation exists when up and forward do not align.
pub open spec fn rotator_defined(basis: ControllerBasis) -> bool {
    pitch_axis_raw(basis) != (0int, 0int, 0int)
}

/// The orientation applied to a vector: pitch by the negated pitch angle
/// about the normalized side axis, then yaw about the basis up.
pub open spec fn orient3(c: YawPitchControls, basis: ControllerBasis, v: (int, int, int)) -> (
    int,
    int,
    int,
) {
    rotate3(
        v3(basis.up),
        c.yaw.cos as int,
        c.yaw.sin as int,
        rotate3(
            normalize3(pitch_axis_raw(basis)),
            c.pitch.cos as int,
            -(c.pitch.sin as int),
            v,
        ),
    )
}

/// The forward direction after orientation.
pub open spec fn local_forward3(c: YawPitchControls, basis: ControllerBasis) -> (int, int, int) {
    orient3(c, basis, v3(basis.forward))
}

/// The up direction after orientation.
pub open spec fn local_up3(c: YawPitchControls, basis: ControllerBasis) -> (int, int, int) {
    orient3(c, basis, v3(basis.up))
}

/// The camera's offset from the focus: the local forward, scaled by the
/// distance.
pub open spec fn camera_offset3(c: YawPitchControls, basis: ControllerBasis) -> (int, int, int) {
    scale3(local_forward3(c, basis), c.dist as int)
}

/// The camera's position.
pub open spec fn camera_translation3(c: YawPitchControls, basis: ControllerBasis) -> (
    int,
    int,
    int,
) {
    add3(v3(c.focus), camera_offset3(c, basis))
}

/// The unit direction from the focus to the camera (the camera looks along
/// its negation).
pub open spec fn look_back3(c: YawPitchControls, basis: ControllerBasis) -> (int, int, int) {
    normalize3(camera_offset3(c, basis))
}

/// The unnormalized right direction of the look-at frame.
pub open spec fn look_right_raw3(c: YawPitchControls, basis: ControllerBasis) -> (int, int, int) {
    cross3(local_up3(c, basis), look_back3(c, basis))
}

/// The right direction of the look-at frame.
pub open spec fn look_right3(c: YawPitchControls, basis: ControllerBasis) -> (int, int, int) {
    normalize3(look_right_raw3(c, basis))
}

/// The re-derived up direction of the look-at frame.
pub open spec fn look_up3(c: YawPitchControls, basis: ControllerBasis) -> (int, int, int) {
    cross3(look_back3(c, basis), look_right3(c, basis))
}

/// The pose derivation succeeds: the basis spans a plane, the camera sits
/// away from the focus, and the look-at frame is not degenerate.
pub open spec fn transform_defined(c: YawPitchControls, basis: ControllerBasis) -> bool {
    &&& rotator_defined(basis)
    &&& camera_offset3(c, basis) != (0int, 0int, 0int)
    &&& look_right_raw3(c, basis) != (0int, 0int, 0int)
}

/// A camera pose: its position, and the frame it looks along. The camera
/// looks along `-back` toward the focus; `right` and `up` span the image
/// plane.
#[derive(Debug, Copy, Clone)]
pub struct OrbitTransform {
    pub translation: Vec3Fx,
    pub right: Vec3Fx,
    pub up: Vec3Fx,
    pub back: Vec3Fx,
}

impl YawPitchControls {
    /// Create a rotation that represents yaw around the global basis up.
    pub fn yaw(&self, basis: &ControllerBasis) -> (r: AxisAngle)
        requires
            self.wf(),
            basis.wf(),
        ensures
            r.axis == basis.up,
            r.cos == self.yaw.cos,
            r.sin == self.yaw.sin,
            r.wf(),
    {
        AxisAngle { axis: basis.up, cos: self.yaw.cos, sin: self.yaw.sin }
    }

    /// Rotation which maps global space to local space: pitch up or down by
    /// the pitch angle about the normalized side axis, composed with the
    /// yaw rotation. Undefined when up and forward align.
    pub fn rotator(&self, basis: &ControllerBasis) -> (r: Option<Rotator>)
        requires
            self.wf(),
            basis.wf(),
        ensures
            r is Some <==> rotator_defined(*basis),
            r is Some ==> {
                let rot = r->Some_0;
                &&& v3(rot.pitch.axis) == normalize3(pitch_axis_raw(*basis))
                &&& rot.pitch.cos == self.pitch.cos
                &&& rot.pitch.sin as int == -(self.pitch.sin as int)
                &&& rot.yaw.axis == basis.up
                &&& rot.yaw.cos == self.yaw.cos
                &&& rot.yaw.sin == self.yaw.sin
                &&& rot.wf()
            },
    {
        let raw: Vec3Fx = vec_cross(basis.up, basis.forward);
        if raw.x == 0 && raw.y == 0 && raw.z == 0 {
            return None;
        }
        let axis: Vec3Fx = vec_normalize(raw);
        Some(
            Rotator {
                pitch: AxisAngle { axis, cos: self.pitch.cos, sin: -self.pitch.sin },
                yaw: self.yaw(basis),
            },
        )
    }

    /// Transform the global space controller basis by yaw and pitch.
    pub fn local_basis(&self, basis: &ControllerBasis) -> (r: Option<ControllerBasis>)
        requires
            self.wf(),
            basis.wf(),
        ensures
            r is Some <==> rotator_defined(*basis),
            r is Some ==> {
                let lb = r->Some_0;
                &&& v3(lb.forward) == local_forward3(*self, *basis)
                &&& v3(lb.up) == local_up3(*self, *basis)
                &&& bounded3(v3(lb.forward), 0x100_0000)
                &&& bounded3(v3(lb.up), 0x100_0000)
            },
    {
        match self.rotator(basis) {
            None => None,
            Some(rot) => {
                let forward: Vec3Fx = rot.rotate(basis.forward);
                let up: Vec3Fx = rot.rotate(basis.up);
                Some(ControllerBasis { up, forward })
            },
        }
    }

    /// Resolve the controls into the transform they represent: determine
    /// the position relative to the focus based on the local basis, then
    /// generate the transform looking back at the focus with the local up.
    pub fn transform(&self, basis: &ControllerBasis) -> (r: Option<OrbitTransform>)
        requires
            self.wf(),
            basis.wf(),
        ensures
            r is Some <==> transform_defined(*self, *basis),
            r is Some ==> {
                let t = r->Some_0;
                &&& v3(t.translation) == camera_translation3(*self, *basis)
                &&& v3(t.back) == look_back3(*self, *basis)
                &&& v3(t.right) == look_right3(*self, *basis)
                &&& v3(t.up) == look_up3(*self, *basis)
            },
    {
        let lb: ControllerBasis = match self.local_basis(basis) {
            None => {
                return None;
            },
            Some(lb) => lb,
        };
        let offset: Vec3Fx = vec_scale(lb.forward, self.dist);
        proof {
            lemma_fx_mul_bound(lb.forward.x as int, self.dist as int, 0x100_0000, 0x1_0000_0000);
            lemma_fx_mul_bound(lb.forward.y as int, self.dist as int, 0x100_0000, 0x1_0000_0000);
            lemma_fx_mul_bound(lb.forward.z as int, self.dist as int, 0x100_0000, 0x1_0000_0000);
        }
        let translation: Vec3Fx = vec_add(self.focus, offset);
        if offset.x == 0 && offset.y == 0 && offset.z == 0 {
            return None;
        }
        let back: Vec3Fx = vec_normalize(offset);
        let right_raw: Vec3Fx = vec_cross(lb.up, back);
        if right_raw.x == 0 && right_raw.y == 0 && right_raw.z == 0 {
            return None;
        }
        let right: Vec3Fx = vec_normalize(right_raw);
        let up: Vec3Fx = vec_cross(back, right);
        Some(OrbitTransform { translation, right, up, back })
    }
}

} // verus!
