//! `Transform`: where a component sits, how it is turned and how large it is.
//! Its position and scale also span the axis-aligned box that the cursor is
//! tested against.

use vstd::prelude::*;
use crate::event::{PhysicalPosition, PhysicalSize};
use crate::rendering::coords;
use crate::rendering::coords::{window_to_centered, CenteredPosition};

verus! {

/// A vector of three integer components.
#[derive(Clone, Copy, Debug, PartialEq, Eq, Structural)]
pub struct Vector3 {
    pub x: i32,
    pub y: i32,
    pub z: i32,
}

/// A rotation, as a scalar and a vector part in fixed-point units that the
/// caller chooses.
#[derive(Clone, Copy, Debug, PartialEq, Eq, Structural)]
pub struct Quaternion {
    pub s: i32,
    pub v: Vector3,
}

/// The three sources of a model matrix. Two poses give the same matrix exactly
/// when they are equal, so a pose stands for the matrix composed from it.
#[derive(Clone, Copy, Debug, PartialEq, Eq, Structural)]
pub struct Pose {
    pub position: Vector3,
    pub rotation: Quaternion,
    pub scale: Vector3,
}

/// Position, rotation and scale of a component, with the pose that was last
/// composed and the pose that the GPU-side uniform mirrors.
#[derive(Clone, Copy, Debug, PartialEq, Eq, Structural)]
pub struct Transform {
    pub position: Vector3,
    pub rotation: Quaternion,
    pub scale: Vector3,
    /// The pose composed at the last `new`, `update` or `synchronize`.
    pub value: Pose,
    /// The pose that the uniform buffer mirrors.
    pub uploaded: Pose,
}

/// Whether `coordinate` lies strictly between `center - extent / 2` and
/// `center + extent / 2`. Doubling both sides keeps the halves exact.
pub open spec fn axis_contains(center: int, extent: int, coordinate: int) -> bool {
    2 * center - extent < 2 * coordinate < 2 * center + extent
}

pub open spec fn abs_diff(a: int, b: int) -> int {
    if a >= b {
        a - b
    } else {
        b - a
    }
}

impl Vector3 {
    pub fn new(x: i32, y: i32, z: i32) -> (v: Self)
        ensures
            v == (Vector3 { x, y, z }),
    {
        Vector3 { x, y, z }
    }
}

impl Quaternion {
    pub fn new(s: i32, xi: i32, yj: i32, zk: i32) -> (q: Self)
        ensures
            q == (Quaternion { s, v: Vector3 { x: xi, y: yj, z: zk } }),
    {
        Quaternion { s, v: Vector3 { x: xi, y: yj, z: zk } }
    }
}

impl Transform {
    /// The pose of the current position, rotation and scale.
    pub open spec fn spec_pose(&self) -> Pose {
        Pose { position: self.position, rotation: self.rotation, scale: self.scale }
    }

    /// Whether the uniform buffer lags behind the current fields.
    pub open spec fn spec_is_stale(&self) -> bool {
        self.spec_pose() != self.uploaded
    }

    /// Whether a point of centered device space lies strictly inside the box
    /// spanned by position and scale.
    pub open spec fn spec_contains(&self, point: (int, int)) -> bool {
        &&& axis_contains(self.position.x as int, self.scale.x as int, point.0)
        &&& axis_contains(self.position.y as int, self.scale.y as int, point.1)
    }

    /// Whether a cursor at `cursor`, in window pixel space, is over the box.
    pub open spec fn spec_hit(&self, cursor: PhysicalPosition, surface: PhysicalSize) -> bool {
        self.spec_contains(coords::spec_window_to_centered(cursor, surface))
    }

    /// The x and y of the position: where the component sits in centered
    /// device space.
    pub open spec fn spec_anchor(&self) -> CenteredPosition {
        CenteredPosition { x: self.position.x, y: self.position.y }
    }

    /// A transform whose uniform is up to date.
    pub fn new(position: Vector3, rotation: Quaternion, scale: Vector3) -> (transform: Self)
        ensures
            transform.position == position,
            transform.rotation == rotation,
            transform.scale == scale,
            transform.value == transform.spec_pose(),
            transform.uploaded == transform.spec_pose(),
            !transform.spec_is_stale(),
    {
        let pose = Pose { position, rotation, scale };
        Transform { position, rotation, scale, value: pose, uploaded: pose }
    }

    pub fn pose(&self) -> (pose: Pose)
        ensures
            pose == self.spec_pose(),
    {
        Pose { position: self.position, rotation: self.rotation, scale: self.scale }
    }

    /// Composes the pose anew from the fields. The uniform buffer is left as
    /// it is.
    pub fn update(&mut self)
        ensures
            final(self).value == old(self).spec_pose(),
            final(self).spec_pose() == old(self).spec_pose(),
            final(self).uploaded == old(self).uploaded,
    {
        self.value = self.pose();
    }

    pub fn is_stale(&self) -> (stale: bool)
        ensures
            stale == self.spec_is_stale(),
    {
        self.pose() != self.uploaded
    }

    /// Brings the uniform up to date. Returns whether the buffer has to be
    /// written again: exactly when a field changed since the last upload.
    pub fn synchronize(&mut self) -> (upload: bool)
        ensures
            upload == old(self).spec_is_stale(),
            final(self).spec_pose() == old(self).spec_pose(),
            final(self).value == old(self).spec_pose(),
            final(self).uploaded == old(self).spec_pose(),
            !final(self).spec_is_stale(),
    {
        let current = self.pose();
        self.value = current;
        if current != self.uploaded {
            self.uploaded = current;
            true
        } else {
            false
        }
    }

    pub fn contains(&self, point: (i64, i64)) -> (inside: bool)
        ensures
            inside == self.spec_contains((point.0 as int, point.1 as int)),
    {
        let px: i128 = 2 * (point.0 as i128);
        let py: i128 = 2 * (point.1 as i128);
        let cx: i128 = 2 * (self.position.x as i128);
        let cy: i128 = 2 * (self.position.y as i128);
        let sx: i128 = self.scale.x as i128;
        let sy: i128 = self.scale.y as i128;
        cx - sx < px && px < cx + sx && cy - sy < py && py < cy + sy
    }

    pub fn hit_test(&self, cursor: PhysicalPosition, surface: PhysicalSize) -> (hit: bool)
        ensures
            hit == self.spec_hit(cursor, surface),
    {
        self.contains(window_to_centered(cursor, surface))
    }

    pub fn anchor(&self) -> (p: CenteredPosition)
        ensures
            p == self.spec_anchor(),
    {
        CenteredPosition { x: self.position.x, y: self.position.y }
    }
}

/// A point is inside the box exactly when, on both axes, it is closer to the
/// centre than half the scale; on the edge and beyond it is outside.
pub proof fn lemma_contains_iff_within_half_scale(transform: Transform, point: (int, int))
    ensures
        transform.spec_contains(point) <==> (2 * abs_diff(point.0, transform.position.x as int)
            < transform.scale.x && 2 * abs_diff(point.1, transform.position.y as int)
            < transform.scale.y),
{
}

/// Nothing is uploaded twice: right after `synchronize`, and until a field
/// changes, the transform is not stale.
pub proof fn lemma_fresh_until_changed(before: Transform, after: Transform)
    requires
        !before.spec_is_stale(),
        after.uploaded == before.uploaded,
    ensures
        after.spec_is_stale() <==> after.spec_pose() != before.spec_pose(),
{
}

} // verus!
