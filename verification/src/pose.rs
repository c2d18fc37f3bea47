//! Rigid transforms and velocities, component by component.
//!
//! The values are carried, compared and stored here, never combined: the
//! product and the inverse of two poses are the caller's arithmetic.

use vstd::prelude::*;
use crate::scalar::Scalar;

verus! {

/// The bits of 0.0.
pub const ZERO_BITS: u32 = 0x0000_0000;

/// The bits of 1.0.
pub const ONE_BITS: u32 = 0x3F80_0000;

/// Three coordinates.
#[derive(Clone, Copy, Debug, PartialEq, Eq, Structural)]
pub struct Vector {
    pub x: Scalar,
    pub y: Scalar,
    pub z: Scalar,
}

/// An orientation as a unit quaternion: the vector part `i`, `j`, `k` and
/// the scalar part `w`.
#[derive(Clone, Copy, Debug, PartialEq, Eq, Structural)]
pub struct Quaternion {
    pub i: Scalar,
    pub j: Scalar,
    pub k: Scalar,
    pub w: Scalar,
}

/// A position and an orientation in space.
#[derive(Clone, Copy, Debug, PartialEq, Eq, Structural)]
pub struct Pose {
    pub translation: Vector,
    pub rotation: Quaternion,
}

/// How a body or a controller moves: along and around the three axes.
#[derive(Clone, Copy, Debug, PartialEq, Eq, Structural)]
pub struct Velocity {
    pub linear: Vector,
    pub angular: Vector,
}

impl Vector {
    /// The vector with the given coordinates.
    pub open spec fn of(x: u32, y: u32, z: u32) -> Vector {
        Vector { x: Scalar { bits: x }, y: Scalar { bits: y }, z: Scalar { bits: z } }
    }

    /// The vector whose coordinates are all 0.0.
    pub open spec fn zero() -> Vector {
        Vector::of(ZERO_BITS, ZERO_BITS, ZERO_BITS)
    }

    /// Builds a vector from the bits of its coordinates.
    pub fn from_bits(x: u32, y: u32, z: u32) -> (v: Vector)
        ensures
            v == Vector::of(x, y, z),
    {
        Vector { x: Scalar { bits: x }, y: Scalar { bits: y }, z: Scalar { bits: z } }
    }
}

impl Quaternion {
    /// The orientation that turns nothing: (0, 0, 0, 1).
    pub open spec fn identity() -> Quaternion {
        Quaternion {
            i: Scalar { bits: ZERO_BITS },
            j: Scalar { bits: ZERO_BITS },
            k: Scalar { bits: ZERO_BITS },
            w: Scalar { bits: ONE_BITS },
        }
    }
}

impl Pose {
    /// The pose at a point, turned nowhere.
    pub open spec fn at(x: u32, y: u32, z: u32) -> Pose {
        Pose { translation: Vector::of(x, y, z), rotation: Quaternion::identity() }
    }

    /// The pose that moves nothing.
    pub open spec fn identity() -> Pose {
        Pose::at(ZERO_BITS, ZERO_BITS, ZERO_BITS)
    }

    /// Builds the pose at a point, turned nowhere, from the bits of the
    /// point's coordinates.
    pub fn from_translation(x: u32, y: u32, z: u32) -> (p: Pose)
        ensures
            p == Pose::at(x, y, z),
    {
        Pose {
            translation: Vector::from_bits(x, y, z),
            rotation: Quaternion {
                i: Scalar { bits: ZERO_BITS },
                j: Scalar { bits: ZERO_BITS },
                k: Scalar { bits: ZERO_BITS },
                w: Scalar { bits: ONE_BITS },
            },
        }
    }

    /// How high the pose stands: the second coordinate of its position.
    pub fn height(&self) -> (h: Scalar)
        ensures
            h == self.translation.y,
    {
        self.translation.y
    }
}

impl Velocity {
    /// No motion at all.
    pub open spec fn rest() -> Velocity {
        Velocity { linear: Vector::zero(), angular: Vector::zero() }
    }

    /// Builds the velocity of a thing at rest.
    pub fn at_rest() -> (v: Velocity)
        ensures
            v == Velocity::rest(),
    {
        Velocity {
            linear: Vector::from_bits(ZERO_BITS, ZERO_BITS, ZERO_BITS),
            angular: Vector::from_bits(ZERO_BITS, ZERO_BITS, ZERO_BITS),
        }
    }
}

} // verus!
