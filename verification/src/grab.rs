//! The grab state machine of one object.

use vstd::prelude::*;
use crate::controller::{well_formed, ControllerSample};
use crate::pose::{Pose, ZERO_BITS};

verus! {

/// How an object stands to the controller that may take it.
#[derive(Clone, Copy, Debug, PartialEq, Eq, Structural)]
pub enum GrabState {
    /// The object obeys physics alone.
    Free,
    /// The controller points at the object without holding it. The object
    /// still obeys physics.
    Pointed,
    /// The object is fixed to the controller: its pose is the controller's
    /// pose followed by `offset`.
    Held { offset: Pose },
}

/// What the caller found out about one object and the controller before
/// the frame's update.
#[derive(Clone, Copy, Debug, PartialEq, Eq, Structural)]
pub struct Contact {
    /// The controller's pointing ray meets the object's shape.
    pub hit: bool,
    /// The object's pose as seen from the controller: the inverse of the
    /// controller's pose followed by the object's pose.
    pub relative: Pose,
}

impl Contact {
    /// The controller does not point at the object.
    pub open spec fn absent() -> Contact {
        Contact { hit: false, relative: Pose::identity() }
    }

    /// Builds the contact of an object that the controller does not point
    /// at.
    pub fn none() -> (c: Contact)
        ensures
            c == Contact::absent(),
    {
        Contact { hit: false, relative: Pose::from_translation(ZERO_BITS, ZERO_BITS, ZERO_BITS) }
    }
}

impl GrabState {
    /// The object is fixed to the controller.
    pub open spec fn is_held(self) -> bool {
        self is Held
    }

    /// The state that follows `self` in a frame.
    ///
    /// A held object stays held, with the offset it was taken with, as long
    /// as the trigger is pulled, and is let go as soon as it is not. Any
    /// other object is taken in the frame in which the trigger crosses the
    /// threshold while the controller points at it, and its offset is its
    /// pose as seen from the controller in that frame. Otherwise it is
    /// pointed at or free, as the pointing ray says. A malformed trigger
    /// value, now or one frame earlier, takes nothing.
    pub open spec fn proposed(self, sample: ControllerSample, contact: Contact) -> GrabState {
        match self {
            GrabState::Held { offset } => if sample.engaged() {
                GrabState::Held { offset }
            } else {
                GrabState::Free
            },
            _ => if contact.hit && sample.rising() {
                GrabState::Held { offset: contact.relative }
            } else if contact.hit {
                GrabState::Pointed
            } else {
                GrabState::Free
            },
        }
    }

    /// The object is let go in this frame.
    pub open spec fn released(self, sample: ControllerSample) -> bool {
        self.is_held() && !sample.engaged()
    }

    /// The object is taken in this frame.
    pub open spec fn taken(self, sample: ControllerSample, contact: Contact) -> bool {
        !self.is_held() && contact.hit && sample.rising()
    }

    /// The state of an object that nothing holds or points at.
    pub fn new() -> (state: GrabState)
        ensures
            state == GrabState::Free,
    {
        GrabState::Free
    }

    /// Whether the object is fixed to the controller.
    pub fn held(&self) -> (r: bool)
        ensures
            r == self.is_held(),
    {
        match self {
            GrabState::Held { .. } => true,
            _ => false,
        }
    }

    /// The offset a held object was taken with.
    pub fn offset(&self) -> (o: Option<Pose>)
        ensures
            o == match *self {
                GrabState::Held { offset } => Some(offset),
                _ => None::<Pose>,
            },
    {
        match self {
            GrabState::Held { offset } => Some(*offset),
            _ => None,
        }
    }

    /// Proposes the state that follows `self` in a frame, from the
    /// controller's snapshot and the object's contact with the controller.
    pub fn propose(&self, sample: &ControllerSample, contact: &Contact) -> (next: GrabState)
        ensures
            next == self.proposed(*sample, *contact),
    {
        match self {
            GrabState::Held { offset } => {
                if sample.is_engaged() {
                    GrabState::Held { offset: *offset }
                } else {
                    GrabState::Free
                }
            },
            _ => {
                if contact.hit && sample.is_rising() {
                    GrabState::Held { offset: contact.relative }
                } else if contact.hit {
                    GrabState::Pointed
                } else {
                    GrabState::Free
                }
            },
        }
    }
}

/// A malformed trigger never grabs. Where the trigger's value, now or one
/// frame earlier, is no number from 0.0 to 1.0, an object that was not
/// held is not taken: it is pointed at or free, as the pointing ray says.
/// Where the value now is malformed, a held object is let go.
pub proof fn lemma_malformed_trigger_grabs_nothing(
    state: GrabState,
    sample: ControllerSample,
    contact: Contact,
)
    requires
        !well_formed(sample.trigger) || !well_formed(sample.trigger_before),
    ensures
        !sample.rising(),
        !state.taken(sample, contact),
        !state.is_held() ==> state.proposed(sample, contact) == if contact.hit {
            GrabState::Pointed
        } else {
            GrabState::Free
        },
        !well_formed(sample.trigger) ==> !sample.engaged(),
        !well_formed(sample.trigger) && state.is_held() ==> state.proposed(sample, contact)
            == GrabState::Free,
{
}

} // verus!
