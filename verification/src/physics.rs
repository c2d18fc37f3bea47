//! Rigid bodies as the objects know them, and the batch that carries them
//! to the physics step and back.
//!
//! Every object keeps a copy of its body. Each frame the copies are
//! submitted, one after the other, the world is stepped once for all of
//! them, and every object takes its own body back by the token that the
//! submission gave it.

use vstd::prelude::*;
use crate::pose::{Pose, Vector, Velocity};
use crate::scalar::Scalar;

verus! {

/// A convex piece of a collision shape.
#[derive(Clone, Copy, Debug, PartialEq, Eq, Structural)]
pub enum Solid {
    /// A box, given by half its extent along each axis.
    Cuboid { half_extents: Vector },
    /// A cylinder along the second axis.
    Cylinder { half_height: Scalar, radius: Scalar },
}

/// A solid and where it sits within the body.
#[derive(Clone, Copy, Debug, PartialEq, Eq, Structural)]
pub struct Part {
    pub placement: Pose,
    pub solid: Solid,
}

/// What a body collides as.
#[derive(Clone, Copy, Debug, PartialEq, Eq, Structural)]
pub enum Shape {
    /// One solid, centred on the body.
    Single { solid: Solid },
    /// Two solids, each with its own place in the body.
    Compound { first: Part, second: Part },
}

/// One simulated body: where it is, how it moves and what it is made of.
#[derive(Clone, Copy, Debug, PartialEq, Eq, Structural)]
pub struct RigidBody {
    pub pose: Pose,
    pub velocity: Velocity,
    pub shape: Shape,
    pub density: Scalar,
    pub restitution: Scalar,
    pub friction: Scalar,
    /// The thin shell around the shape within which contacts are found;
    /// `None` leaves it as the physics engine sets it.
    pub margin: Option<Scalar>,
}

/// Names one body of a frame's batch: its place in the order of submission.
#[derive(Clone, Copy, Debug, PartialEq, Eq, Structural)]
pub struct Token {
    pub index: usize,
}

/// Collects the bodies of one frame for the physics step.
pub struct PhysicsGuru {
    gravity: Vector,
    bodies: Vec<RigidBody>,
}

impl PhysicsGuru {
    /// The pull on every body.
    pub closed spec fn gravity(self) -> Vector {
        self.gravity
    }

    /// The bodies submitted so far, in the order of submission.
    pub closed spec fn submitted(self) -> Seq<RigidBody> {
        self.bodies@
    }

    /// An empty batch under the given gravity.
    pub fn new(gravity: Vector) -> (guru: PhysicsGuru)
        ensures
            guru.gravity() == gravity,
            guru.submitted() == Seq::<RigidBody>::empty(),
    {
        PhysicsGuru { gravity, bodies: Vec::new() }
    }

    /// Adds a body to the batch. The token is the body's place in it.
    pub fn submit(&mut self, body: RigidBody) -> (token: Token)
        ensures
            token.index == old(self).submitted().len(),
            final(self).submitted() == old(self).submitted().push(body),
            final(self).gravity() == old(self).gravity(),
    {
        let index: usize = self.bodies.len();
        self.bodies.push(body);
        Token { index }
    }

    /// How many bodies the batch holds.
    pub fn len(&self) -> (n: usize)
        ensures
            n == self.submitted().len(),
    {
        self.bodies.len()
    }

    /// The gravity the batch was made with.
    pub fn pull(&self) -> (g: Vector)
        ensures
            g == self.gravity(),
    {
        self.gravity
    }

    /// Closes the batch for the physics step: hands out its bodies, in the
    /// order of submission. Nothing can be submitted to it afterwards.
    pub fn into_bodies(self) -> (bodies: Vec<RigidBody>)
        ensures
            bodies@ == self.submitted(),
    {
        self.bodies
    }

    /// The body that a token names, if the batch holds it.
    pub fn body(&self, token: Token) -> (b: Option<RigidBody>)
        ensures
            b == lookup(self.submitted(), token),
    {
        if token.index < self.bodies.len() {
            Some(self.bodies[token.index])
        } else {
            None
        }
    }
}

/// The body at a token's place, if the sequence reaches that far.
pub open spec fn lookup(bodies: Seq<RigidBody>, token: Token) -> Option<RigidBody> {
    if token.index < bodies.len() {
        Some(bodies[token.index as int])
    } else {
        None
    }
}

/// The bodies of one frame after the physics step, in the order in which
/// they were submitted.
pub struct Resolved {
    bodies: Vec<RigidBody>,
}

impl Resolved {
    /// The stepped bodies, in the order of submission.
    pub closed spec fn bodies(self) -> Seq<RigidBody> {
        self.bodies@
    }

    /// Takes the stepped bodies, in the order in which they were submitted.
    pub fn new(bodies: Vec<RigidBody>) -> (resolved: Resolved)
        ensures
            resolved.bodies() == bodies@,
    {
        Resolved { bodies }
    }

    /// The stepped body that a token names, if the step returned it.
    pub fn get(&self, token: Token) -> (b: Option<RigidBody>)
        ensures
            b == lookup(self.bodies(), token),
    {
        if token.index < self.bodies.len() {
            Some(self.bodies[token.index])
        } else {
            None
        }
    }
}

} // verus!
