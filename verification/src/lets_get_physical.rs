//! The hammer scene: one heavy hammer that can be picked up and thrown,
//! comes back when it falls off the world, and remembers where it lay.

use vstd::prelude::*;
use crate::controller::ControllerSample;
use crate::draw::{DrawCommand, MeshHandle};
use crate::grab::{Contact, GrabState};
use crate::object::{Frame, ObjectController, Pending};
use crate::physics::{lookup, Part, PhysicsGuru, Resolved, RigidBody, Shape, Solid};
use crate::pose::{Pose, Vector, Velocity, ZERO_BITS};
use crate::scalar::Scalar;

verus! {

/// The bits of -10.0: a hammer below this height has left the world.
pub const FLOOR_BITS: u32 = 0xC120_0000;

/// The bits of 2.5, the height at which the hammer appears.
pub const SPAWN_HEIGHT_BITS: u32 = 0x4020_0000;

/// The bits of -0.24, the height of the head's centre within the hammer.
pub const HEAD_CENTRE_BITS: u32 = 0xBE75_C28F;

/// The bits of 0.16, half the length of the head.
pub const HEAD_HALF_LENGTH_BITS: u32 = 0x3E23_D70A;

/// The bits of 0.12, half the width and half the height of the head.
pub const HEAD_HALF_WIDTH_BITS: u32 = 0x3DF5_C28F;

/// The bits of 1.25 times 0.08 as single precision multiplies them, one
/// step below 0.1: the height of the handle's centre within the hammer.
pub const HANDLE_CENTRE_BITS: u32 = 0x3DCC_CCCC;

/// The bits of 0.26, half the length of the handle.
pub const HANDLE_HALF_LENGTH_BITS: u32 = 0x3E85_1EB8;

/// The bits of 0.04, the radius of the handle.
pub const HANDLE_RADIUS_BITS: u32 = 0x3D23_D70A;

/// The bits of 2330.0, the density of the hammer.
pub const HAMMER_DENSITY_BITS: u32 = 0x4511_A000;

/// The bits of 0.35, the restitution of the hammer.
pub const HAMMER_RESTITUTION_BITS: u32 = 0x3EB3_3333;

/// The bits of 0.47, the friction of the hammer.
pub const HAMMER_FRICTION_BITS: u32 = 0x3EF0_A3D7;

/// What is kept of the scene between runs: where the hammer lies.
#[derive(Clone, Copy, Debug, PartialEq, Eq, Structural)]
pub struct LetsGetPhysicalState {
    pub location: Pose,
}

/// The hammer as it appears: free and at rest above the origin, a box for
/// a head below a cylinder for a handle.
pub open spec fn mjolnir() -> ObjectController {
    ObjectController {
        body: RigidBody {
            pose: Pose::at(ZERO_BITS, SPAWN_HEIGHT_BITS, ZERO_BITS),
            velocity: Velocity::rest(),
            shape: Shape::Compound {
                first: Part {
                    placement: Pose::at(ZERO_BITS, HEAD_CENTRE_BITS, ZERO_BITS),
                    solid: Solid::Cuboid {
                        half_extents: Vector::of(
                            HEAD_HALF_LENGTH_BITS,
                            HEAD_HALF_WIDTH_BITS,
                            HEAD_HALF_WIDTH_BITS,
                        ),
                    },
                },
                second: Part {
                    placement: Pose::at(ZERO_BITS, HANDLE_CENTRE_BITS, ZERO_BITS),
                    solid: Solid::Cylinder {
                        half_height: Scalar { bits: HANDLE_HALF_LENGTH_BITS },
                        radius: Scalar { bits: HANDLE_RADIUS_BITS },
                    },
                },
            },
            density: Scalar { bits: HAMMER_DENSITY_BITS },
            restitution: Scalar { bits: HAMMER_RESTITUTION_BITS },
            friction: Scalar { bits: HAMMER_FRICTION_BITS },
            margin: None,
        },
        grab: GrabState::Free,
    }
}

/// The object has fallen below the floor of the world.
pub open spec fn fell(object: ObjectController) -> bool {
    object.body.pose.translation.y.less(Scalar { bits: FLOOR_BITS })
}

/// The object once the floor has been looked after: a fallen one is
/// replaced by the hammer as it appears, whatever state it was in, and any
/// other is left alone.
pub open spec fn recovered(object: ObjectController) -> ObjectController {
    if fell(object) {
        mjolnir()
    } else {
        object
    }
}

/// The contact that counts for the object in a frame: none at all in the
/// frame in which it is brought back, since what was found out about it
/// belongs to the place it fell from.
pub open spec fn contact_after_recovery(object: ObjectController, contact: Contact) -> Contact {
    if fell(object) {
        Contact::absent()
    } else {
        contact
    }
}

/// What is kept of an object: the pose of its body.
pub open spec fn saved(object: ObjectController) -> LetsGetPhysicalState {
    LetsGetPhysicalState { location: object.body.pose }
}

/// The object with its body put at a stored place and its grab state
/// cleared.
pub open spec fn restored(object: ObjectController, state: LetsGetPhysicalState) -> ObjectController {
    ObjectController {
        body: RigidBody { pose: state.location, ..object.body },
        grab: GrabState::Free,
    }
}

/// Makes the hammer as it appears.
pub fn spawn_mjolnir() -> (hammer: ObjectController)
    ensures
        hammer == mjolnir(),
{
    let head = Part {
        placement: Pose::from_translation(ZERO_BITS, HEAD_CENTRE_BITS, ZERO_BITS),
        solid: Solid::Cuboid {
            half_extents: Vector::from_bits(
                HEAD_HALF_LENGTH_BITS,
                HEAD_HALF_WIDTH_BITS,
                HEAD_HALF_WIDTH_BITS,
            ),
        },
    };
    let handle = Part {
        placement: Pose::from_translation(ZERO_BITS, HANDLE_CENTRE_BITS, ZERO_BITS),
        solid: Solid::Cylinder {
            half_height: Scalar { bits: HANDLE_HALF_LENGTH_BITS },
            radius: Scalar { bits: HANDLE_RADIUS_BITS },
        },
    };
    let body = RigidBody {
        pose: Pose::from_translation(ZERO_BITS, SPAWN_HEIGHT_BITS, ZERO_BITS),
        velocity: Velocity::at_rest(),
        shape: Shape::Compound { first: head, second: handle },
        density: Scalar { bits: HAMMER_DENSITY_BITS },
        restitution: Scalar { bits: HAMMER_RESTITUTION_BITS },
        friction: Scalar { bits: HAMMER_FRICTION_BITS },
        margin: None,
    };
    ObjectController::new_free(body)
}

/// The scene as contracts see it.
pub struct LetsGetPhysicalView {
    pub mesh: MeshHandle,
    pub object: ObjectController,
}

/// The hammer scene.
pub struct LetsGetPhysical {
    mjolnir: MeshHandle,
    grabbable_state: ObjectController,
}

impl View for LetsGetPhysical {
    type V = LetsGetPhysicalView;

    closed spec fn view(&self) -> LetsGetPhysicalView {
        LetsGetPhysicalView { mesh: self.mjolnir, object: self.grabbable_state }
    }
}

impl LetsGetPhysical {
    /// The scene with the hammer as it appears, drawn with the given mesh.
    pub fn new(mjolnir: MeshHandle) -> (scene: LetsGetPhysical)
        ensures
            scene@.mesh == mjolnir,
            scene@.object == self::mjolnir(),
    {
        LetsGetPhysical { mjolnir, grabbable_state: spawn_mjolnir() }
    }

    /// The hammer as it is.
    pub fn object(&self) -> (o: ObjectController)
        ensures
            o == self@.object,
    {
        self.grabbable_state
    }

    /// The mesh of the hammer.
    pub fn mesh(&self) -> (m: MeshHandle)
        ensures
            m == self@.mesh,
    {
        self.mjolnir
    }

    /// What to keep of the scene: the pose of the hammer's body.
    pub fn se_state(&self) -> (state: LetsGetPhysicalState)
        ensures
            state == saved(self@.object),
    {
        LetsGetPhysicalState { location: self.grabbable_state.body.pose }
    }

    /// Takes up what was kept: the hammer's body is put at the stored
    /// pose, past the grab state machine, and the hammer is free.
    pub fn de_state(&mut self, state: LetsGetPhysicalState)
        ensures
            final(self)@.object == restored(old(self)@.object, state),
            final(self)@.mesh == old(self)@.mesh,
    {
        self.grabbable_state.body.pose = state.location;
        self.grabbable_state.grab = GrabState::Free;
    }

    /// Brings the hammer back if it has fallen below the floor, and says
    /// whether it had. The floor lies across the second axis, whichever
    /// way gravity pulls.
    pub fn recover(&mut self) -> (reset: bool)
        ensures
            reset == fell(old(self)@.object),
            final(self)@.object == recovered(old(self)@.object),
            final(self)@.mesh == old(self)@.mesh,
    {
        let reset = self.grabbable_state.body.pose.height().lt(Scalar { bits: FLOOR_BITS });
        if reset {
            self.grabbable_state = spawn_mjolnir();
        }
        reset
    }

    /// First phase of a frame: brings a fallen hammer back, then submits
    /// the hammer's body and proposes its next state. A hammer brought
    /// back in this call takes `contact` for none.
    pub fn begin_update(
        &mut self,
        sample: &ControllerSample,
        contact: &Contact,
        physics: &mut PhysicsGuru,
    ) -> (pending: Pending)
        ensures
            final(self)@.object == recovered(old(self)@.object),
            final(self)@.mesh == old(self)@.mesh,
            pending == final(self)@.object.pending(
                *sample,
                contact_after_recovery(old(self)@.object, *contact),
                pending.token,
            ),
            pending.token.index == old(physics).submitted().len(),
            final(physics).submitted() == old(physics).submitted().push(final(self)@.object.body),
            final(physics).gravity() == old(physics).gravity(),
    {
        if self.recover() {
            let none = Contact::none();
            self.grabbable_state.begin_update(sample, &none, physics)
        } else {
            self.grabbable_state.begin_update(sample, contact, physics)
        }
    }

    /// Second phase of a frame, after the physics step: settles the hammer
    /// and says where to draw it. `carried` is the controller's pose
    /// followed by the hammer's offset; it is read only if the hammer is
    /// held.
    pub fn finish(&mut self, pending: &Pending, resolved: &Resolved, carried: Pose) -> (draw:
        DrawCommand)
        ensures
            final(self)@.object == old(self)@.object.settled(
                *pending,
                lookup(resolved.bodies(), pending.token),
                carried,
            ),
            final(self)@.mesh == old(self)@.mesh,
            draw == (DrawCommand { mesh: final(self)@.mesh, pose: final(self)@.object.body.pose }),
    {
        let pose = self.grabbable_state.finish(pending, resolved, carried);
        DrawCommand { mesh: self.mjolnir, pose }
    }
}

/// A hammer that has fallen below the floor is brought back by the next
/// update, whatever state it was in: it is the hammer as it first appeared,
/// free, at rest and above the floor, and it is still free when that
/// update is done.
pub proof fn lemma_floor_recovery(object: ObjectController, frame: Frame)
    requires
        fell(object),
    ensures
        recovered(object) == mjolnir(),
        recovered(object).grab == GrabState::Free,
        recovered(object).body.pose == Pose::at(ZERO_BITS, SPAWN_HEIGHT_BITS, ZERO_BITS),
        !fell(recovered(object)),
        recovered(object).after(
            Frame { contact: contact_after_recovery(object, frame.contact), ..frame },
        ).grab == GrabState::Free,
{
}

/// A hammer at or above the floor, or at no height that is a number, is
/// left alone.
pub proof fn lemma_no_recovery_above_floor(object: ObjectController)
    requires
        !fell(object),
    ensures
        recovered(object) == object,
{
}

/// What is kept of one hammer and taken up by another puts the other
/// hammer's body exactly where the first one's was, and leaves it free,
/// whatever state either was in.
pub proof fn lemma_state_round_trip(kept: ObjectController, fresh: ObjectController)
    ensures
        restored(fresh, saved(kept)).body.pose == kept.body.pose,
        restored(fresh, saved(kept)).grab == GrabState::Free,
        saved(restored(fresh, saved(kept))) == saved(kept),
{
}

} // verus!
