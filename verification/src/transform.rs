//! Where an instance stands: position, rotation and scale.

use crate::scalar::Scalar;
use crate::scalar::ONE;
use crate::scalar::ZERO;
use vstd::prelude::*;

verus! {

/// Position, rotation (Euler angles in degrees, about x, y and z) and scale
/// of an instance. The model matrix is derived from it by the caller, as
/// translation times the rotations about z, y and x times the scale.
#[derive(Clone, Copy, Debug, PartialEq, Eq)]
pub struct Transform {
    pub position: [Scalar; 3],
    pub rotation: [Scalar; 3],
    pub scale: [Scalar; 3],
}

/// One factor of a model matrix.
#[derive(Clone, Copy, Debug, PartialEq, Eq)]
pub enum Factor {
    /// A translation by a vector.
    Translation([Scalar; 3]),
    /// A rotation about the z axis by an angle in degrees.
    RotationZ(Scalar),
    /// A rotation about the y axis by an angle in degrees.
    RotationY(Scalar),
    /// A rotation about the x axis by an angle in degrees.
    RotationX(Scalar),
    /// A scaling along the axes.
    Scale([Scalar; 3]),
}

/// The factors of the model matrix of a transform, from left to right:
/// translation, rotation about z, about y, about x, scale. Applied to a
/// point, the scale comes first and the translation last, and of the
/// rotations the one about x comes first.
pub open spec fn factors_of(t: Transform) -> Seq<Factor> {
    seq![
        Factor::Translation(t.position),
        Factor::RotationZ(t.rotation[2]),
        Factor::RotationY(t.rotation[1]),
        Factor::RotationX(t.rotation[0]),
        Factor::Scale(t.scale),
    ]
}

/// The transform that changes nothing: at the origin, not rotated, of unit
/// scale.
pub open spec fn identity_transform() -> Transform {
    Transform {
        position: [Scalar { bits: ZERO }, Scalar { bits: ZERO }, Scalar { bits: ZERO }],
        rotation: [Scalar { bits: ZERO }, Scalar { bits: ZERO }, Scalar { bits: ZERO }],
        scale: [Scalar { bits: ONE }, Scalar { bits: ONE }, Scalar { bits: ONE }],
    }
}

impl Transform {
    /// The transform that changes nothing.
    pub fn new() -> (t: Transform)
        ensures
            t == identity_transform(),
    {
        Transform {
            position: [Scalar { bits: ZERO }, Scalar { bits: ZERO }, Scalar { bits: ZERO }],
            rotation: [Scalar { bits: ZERO }, Scalar { bits: ZERO }, Scalar { bits: ZERO }],
            scale: [Scalar { bits: ONE }, Scalar { bits: ONE }, Scalar { bits: ONE }],
        }
    }

    /// The same transform at another position.
    pub fn with_position(self, x: Scalar, y: Scalar, z: Scalar) -> (t: Transform)
        ensures
            t == (Transform { position: [x, y, z], ..self }),
    {
        Transform { position: [x, y, z], rotation: self.rotation, scale: self.scale }
    }

    /// The same transform with another rotation.
    pub fn with_rotation(self, x: Scalar, y: Scalar, z: Scalar) -> (t: Transform)
        ensures
            t == (Transform { rotation: [x, y, z], ..self }),
    {
        Transform { position: self.position, rotation: [x, y, z], scale: self.scale }
    }

    /// The same transform with another scale.
    pub fn with_scale(self, x: Scalar, y: Scalar, z: Scalar) -> (t: Transform)
        ensures
            t == (Transform { scale: [x, y, z], ..self }),
    {
        Transform { position: self.position, rotation: self.rotation, scale: [x, y, z] }
    }
}

impl Transform {
    /// The factors of the model matrix, from left to right. The caller
    /// turns each into a matrix and multiplies them in this order.
    pub fn factors(&self) -> (r: Vec<Factor>)
        ensures
            r@ == factors_of(*self),
    {
        let mut r: Vec<Factor> = Vec::new();
        r.push(Factor::Translation(self.position));
        r.push(Factor::RotationZ(self.rotation[2]));
        r.push(Factor::RotationY(self.rotation[1]));
        r.push(Factor::RotationX(self.rotation[0]));
        r.push(Factor::Scale(self.scale));
        r
    }
}

impl Default for Transform {
    fn default() -> (t: Transform)
        ensures
            t == identity_transform(),
    {
        Transform::new()
    }
}

} // verus!
