//! One object: a rigid body, its grab state, and the two phases of its
//! update.
//!
//! In the first phase the object submits its body and proposes its next
//! state from what it knew when the frame began. In the second, after the
//! one physics step of the frame, it takes its stepped body back and
//! settles. No object sees what another has settled while it proposes.

use vstd::prelude::*;
use vstd::seq_lib::{to_multiset_build, to_multiset_contains, to_multiset_len, to_multiset_remove};
use crate::controller::ControllerSample;
use crate::grab::{Contact, GrabState};
use crate::physics::{lookup, PhysicsGuru, Resolved, RigidBody, Token};
use crate::pose::{Pose, Velocity};

verus! {

/// A rigid body together with its grab state.
#[derive(Clone, Copy, Debug, PartialEq, Eq, Structural)]
pub struct ObjectController {
    pub body: RigidBody,
    pub grab: GrabState,
}

/// What an object proposed in the first phase of a frame.
#[derive(Clone, Copy, Debug, PartialEq, Eq, Structural)]
pub struct Pending {
    /// The state the object will be in when the frame is done.
    pub next: GrabState,
    /// The controller's velocity, where the body is to take it over: while
    /// the object is held, and in the frame in which it is let go.
    pub handover: Option<Velocity>,
    /// Names the object's body in the frame's batch.
    pub token: Token,
}

impl Pending {
    /// The offset of an object that will be held when the frame is done.
    /// Its pose is then the controller's pose followed by this offset.
    pub fn offset(&self) -> (o: Option<Pose>)
        ensures
            o == match self.next {
                GrabState::Held { offset } => Some(offset),
                _ => None::<Pose>,
            },
    {
        self.next.offset()
    }
}

impl ObjectController {
    /// What the object proposes for a frame.
    pub open spec fn pending(self, sample: ControllerSample, contact: Contact, token: Token) -> Pending {
        let next = self.grab.proposed(sample, contact);
        Pending {
            next,
            handover: if next.is_held() || self.grab.is_held() {
                Some(sample.velocity)
            } else {
                None
            },
            token,
        }
    }

    /// The object after a frame.
    ///
    /// Its body is the stepped one, or its own where the step returned
    /// none. A velocity handed over replaces the body's. A held object is
    /// put at `carried`, the controller's pose followed by its offset,
    /// whatever the step made of it.
    pub open spec fn settled(
        self,
        pending: Pending,
        stepped: Option<RigidBody>,
        carried: Pose,
    ) -> ObjectController {
        let after = match stepped {
            Some(b) => b,
            None => self.body,
        };
        let moving = match pending.handover {
            Some(v) => RigidBody { velocity: v, ..after },
            None => after,
        };
        let placed = if pending.next.is_held() {
            RigidBody { pose: carried, ..moving }
        } else {
            moving
        };
        ObjectController { body: placed, grab: pending.next }
    }

    /// A free object with the given body.
    pub fn new_free(body: RigidBody) -> (object: ObjectController)
        ensures
            object.body == body,
            object.grab == GrabState::Free,
    {
        ObjectController { body, grab: GrabState::Free }
    }

    /// First phase: submits the body to the frame's batch and proposes the
    /// next state. The object itself stays as it is.
    pub fn begin_update(
        &self,
        sample: &ControllerSample,
        contact: &Contact,
        physics: &mut PhysicsGuru,
    ) -> (pending: Pending)
        ensures
            pending == self.pending(*sample, *contact, pending.token),
            pending.token.index == old(physics).submitted().len(),
            final(physics).submitted() == old(physics).submitted().push(self.body),
            final(physics).gravity() == old(physics).gravity(),
    {
        let token = physics.submit(self.body);
        let held_before = self.grab.held();
        let next = self.grab.propose(sample, contact);
        let handover = if next.held() || held_before {
            Some(sample.velocity)
        } else {
            None
        };
        Pending { next, handover, token }
    }

    /// Second phase: takes the stepped body back and settles. Returns the
    /// pose at which the object is to be drawn, which is the pose of its
    /// body.
    pub fn finish(&mut self, pending: &Pending, resolved: &Resolved, carried: Pose) -> (pose: Pose)
        ensures
            *final(self) == old(self).settled(
                *pending,
                lookup(resolved.bodies(), pending.token),
                carried,
            ),
            pose == final(self).body.pose,
    {
        let mut body = match resolved.get(pending.token) {
            Some(b) => b,
            None => self.body,
        };
        match pending.handover {
            Some(v) => {
                body.velocity = v;
            },
            None => {},
        }
        if pending.next.held() {
            body.pose = carried;
        }
        self.body = body;
        self.grab = pending.next;
        body.pose
    }
}

/// What one frame brings to one object: the controller's snapshot, the
/// object's contact with the controller, the object's stepped body, if the
/// step returned one, and the pose at which the controller carries the
/// object if it holds it.
pub struct Frame {
    pub sample: ControllerSample,
    pub contact: Contact,
    pub stepped: Option<RigidBody>,
    pub carried: Pose,
}

/// An object and what a frame brings to it.
pub struct Turn {
    pub object: ObjectController,
    pub frame: Frame,
}

impl ObjectController {
    /// The object after both phases of one frame.
    pub open spec fn after(self, frame: Frame) -> ObjectController {
        self.settled(
            self.pending(frame.sample, frame.contact, Token { index: 0 }),
            frame.stepped,
            frame.carried,
        )
    }

    /// The object after a run of frames, the first of them first.
    pub open spec fn after_all(self, frames: Seq<Frame>) -> ObjectController
        decreases frames.len(),
    {
        if frames.len() == 0 {
            self
        } else {
            self.after_all(frames.drop_last()).after(frames.last())
        }
    }
}

/// The state and the pose that a turn leaves its object with.
pub open spec fn outcome(turn: Turn) -> (GrabState, Pose) {
    let object = turn.object.after(turn.frame);
    (object.grab, object.body.pose)
}

/// The outcomes of the turns of one frame, in the order in which the
/// objects are visited.
pub open spec fn outcomes(turns: Seq<Turn>) -> Seq<(GrabState, Pose)> {
    turns.map_values(|turn: Turn| outcome(turn))
}

/// A token names a body in the batch and decides nothing else: an object
/// settles the same way under any token, given the same stepped body.
pub proof fn lemma_token_only_names(
    object: ObjectController,
    frame: Frame,
    token: Token,
)
    ensures
        object.settled(
            object.pending(frame.sample, frame.contact, token),
            frame.stepped,
            frame.carried,
        ) == object.after(frame),
{
}

/// An object taken in a frame is held from that frame on with the offset
/// it had then, which is its pose as seen from the controller, and stands
/// where the controller carries it. As long as the trigger stays pulled in
/// the frames that follow, the offset stays the same and the object stands,
/// after each of them, where the controller carries it in that frame.
pub proof fn lemma_grab_capture(object: ObjectController, grab: Frame, later: Seq<Frame>)
    requires
        object.grab.taken(grab.sample, grab.contact),
        forall|g: int| 0 <= g < later.len() ==> (#[trigger] later[g]).sample.engaged(),
    ensures
        object.after(grab).grab == (GrabState::Held { offset: grab.contact.relative }),
        object.after(grab).body.pose == grab.carried,
        object.after(grab).after_all(later).grab == (GrabState::Held {
            offset: grab.contact.relative,
        }),
        later.len() > 0 ==> object.after(grab).after_all(later).body.pose == later.last().carried,
    decreases later.len(),
{
    if later.len() > 0 {
        let earlier = later.drop_last();
        assert forall|g: int| 0 <= g < earlier.len() implies (#[trigger] earlier[g]).sample.engaged() by {
            assert(earlier[g] == later[g]);
        }
        lemma_grab_capture(object, grab, earlier);
    }
}

/// An object let go in a frame is free when the frame is done, and its
/// body moves as the controller did in that very frame, along and around
/// every axis, whatever the physics step made of the body.
pub proof fn lemma_release_hands_velocity_over(object: ObjectController, frame: Frame)
    requires
        object.grab.released(frame.sample),
    ensures
        object.after(frame).grab == GrabState::Free,
        object.after(frame).body.velocity == frame.sample.velocity,
{
}

/// A free or pointed-at object that is not taken in a frame is left to
/// the physics step: it ends the frame with its stepped body, untouched.
pub proof fn lemma_loose_object_follows_physics(object: ObjectController, frame: Frame, body: RigidBody)
    requires
        !object.grab.is_held(),
        !object.grab.taken(frame.sample, frame.contact),
        frame.stepped == Some(body),
    ensures
        object.after(frame).body == body,
        !object.after(frame).grab.is_held(),
        object.after(frame).grab == if frame.contact.hit {
            GrabState::Pointed
        } else {
            GrabState::Free
        },
{
}

proof fn lemma_same_items_same_images<A, B>(a: Seq<A>, b: Seq<A>, f: spec_fn(A) -> B)
    requires
        a.to_multiset() == b.to_multiset(),
    ensures
        a.map_values(f).to_multiset() == b.map_values(f).to_multiset(),
    decreases a.len(),
{
    to_multiset_len(a);
    to_multiset_len(b);
    if a.len() == 0 {
        assert(a.map_values(f) =~= b.map_values(f));
    } else {
        let x = a.last();
        let rest = a.drop_last();
        assert(a =~= rest.push(x));
        to_multiset_build(rest, x);
        to_multiset_contains(b, x);
        assert(a.to_multiset().count(x) > 0);
        assert(b.contains(x));
        let k = choose|k: int| 0 <= k < b.len() && b[k] == x;
        let others = b.remove(k);
        to_multiset_remove(b, k);
        assert(others.to_multiset() =~= rest.to_multiset());
        lemma_same_items_same_images(rest, others, f);
        assert(a.map_values(f) =~= rest.map_values(f).push(f(x)));
        to_multiset_build(rest.map_values(f), f(x));
        assert(b.map_values(f).remove(k) =~= others.map_values(f));
        to_multiset_remove(b.map_values(f), k);
        to_multiset_contains(b.map_values(f), f(x));
        assert(b.map_values(f)[k] == f(x));
        assert(b.map_values(f).contains(f(x)));
        assert(b.map_values(f).to_multiset() =~= others.map_values(f).to_multiset().insert(f(x)));
    }
}

/// The order in which the objects of a frame are visited does not matter:
/// visited in any other order, with each object keeping what the frame
/// brings to it, the objects end the frame with the same states and poses,
/// each as often as before.
pub proof fn lemma_frame_order_independent(turns: Seq<Turn>, shuffled: Seq<Turn>)
    requires
        shuffled.to_multiset() == turns.to_multiset(),
    ensures
        outcomes(shuffled).to_multiset() == outcomes(turns).to_multiset(),
        outcomes(shuffled).to_set() == outcomes(turns).to_set(),
{
    lemma_same_items_same_images(shuffled, turns, |turn: Turn| outcome(turn));
    let a = outcomes(shuffled);
    let b = outcomes(turns);
    assert forall|x: (GrabState, Pose)| a.to_set().contains(x) == b.to_set().contains(x) by {
        to_multiset_contains(a, x);
        to_multiset_contains(b, x);
    }
    assert(a.to_set() =~= b.to_set());
}

} // verus!
