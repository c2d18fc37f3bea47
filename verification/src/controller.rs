//! Tracked hand controllers: one snapshot per controller and frame.

use vstd::prelude::*;
use crate::pose::{Pose, Velocity, ONE_BITS, ZERO_BITS};
use crate::scalar::Scalar;

verus! {

/// The bits of 0.5, the trigger value above which a trigger counts as
/// pulled.
pub const TRIGGER_THRESHOLD_BITS: u32 = 0x3F00_0000;

/// What one controller reports in one frame.
#[derive(Clone, Copy, Debug, PartialEq, Eq, Structural)]
pub struct ControllerReading {
    pub pose: Pose,
    pub velocity: Velocity,
    /// How far the trigger is pulled, from 0.0 to 1.0. Any other value is
    /// malformed, see [`well_formed`].
    pub trigger: Scalar,
}

/// The snapshot of one controller for one frame.
///
/// The change of the trigger since the frame before is not kept as a
/// difference: the snapshot holds the two values themselves.
#[derive(Clone, Copy, Debug, PartialEq, Eq, Structural)]
pub struct ControllerSample {
    pub pose: Pose,
    pub velocity: Velocity,
    /// How far the trigger is pulled in this frame, from 0.0 to 1.0.
    pub trigger: Scalar,
    /// The value the trigger had one frame earlier, as the controller
    /// reported it then; [`PoseGuru::refresh`] stores exactly that. A
    /// caller that knows only the trigger and its change puts their
    /// difference here, and where that difference is no value from 0.0 to
    /// 1.0 it counts as malformed like any other.
    pub trigger_before: Scalar,
}

/// Which of the two controllers.
#[derive(Clone, Copy, Debug, PartialEq, Eq, Structural)]
pub enum ControllerId {
    Primary,
    Secondary,
}

/// The threshold as a number.
pub open spec fn threshold() -> Scalar {
    Scalar { bits: TRIGGER_THRESHOLD_BITS }
}

/// A trigger value is well formed if it is a number from 0.0 to 1.0, both
/// included. Everything else is malformed: what is not a number, the two
/// infinities, every negative number and every number above 1.0. Negative
/// zero is zero.
pub open spec fn well_formed(value: Scalar) -> bool {
    Scalar { bits: ZERO_BITS }.at_most(value) && value.at_most(Scalar { bits: ONE_BITS })
}

/// Whether a trigger value is a number from 0.0 to 1.0.
pub fn is_well_formed(value: Scalar) -> (r: bool)
    ensures
        r == well_formed(value),
{
    value.ge(Scalar { bits: ZERO_BITS }) && value.le(Scalar { bits: ONE_BITS })
}

impl ControllerSample {
    /// The trigger is pulled: its value is well formed and above the
    /// threshold. A malformed value counts as not pulled.
    pub open spec fn engaged(self) -> bool {
        well_formed(self.trigger) && threshold().less(self.trigger)
    }

    /// The trigger crossed the threshold in this frame: it is pulled now,
    /// and its value one frame earlier is well formed and at or below the
    /// threshold. Where either value is malformed nothing has crossed.
    pub open spec fn rising(self) -> bool {
        self.engaged() && well_formed(self.trigger_before) && self.trigger_before.at_most(
            threshold(),
        )
    }

    /// A controller that rests at the origin with its trigger open.
    pub open spec fn idle() -> ControllerSample {
        ControllerSample {
            pose: Pose::identity(),
            velocity: Velocity::rest(),
            trigger: Scalar { bits: ZERO_BITS },
            trigger_before: Scalar { bits: ZERO_BITS },
        }
    }

    /// The snapshot that follows `self` when the controller reports
    /// `reading`: the reading itself, with the trigger of `self` as the
    /// earlier value.
    pub open spec fn followed_by(self, reading: ControllerReading) -> ControllerSample {
        ControllerSample {
            pose: reading.pose,
            velocity: reading.velocity,
            trigger: reading.trigger,
            trigger_before: self.trigger,
        }
    }

    /// Whether the trigger is pulled.
    pub fn is_engaged(&self) -> (r: bool)
        ensures
            r == self.engaged(),
    {
        is_well_formed(self.trigger) && self.trigger.gt(Scalar { bits: TRIGGER_THRESHOLD_BITS })
    }

    /// Whether the trigger crossed the threshold in this frame.
    pub fn is_rising(&self) -> (r: bool)
        ensures
            r == self.rising(),
    {
        self.is_engaged() && is_well_formed(self.trigger_before) && self.trigger_before.le(
            Scalar { bits: TRIGGER_THRESHOLD_BITS },
        )
    }
}

/// Keeps the current snapshot of both controllers.
#[derive(Clone, Copy, Debug, PartialEq, Eq, Structural)]
pub struct PoseGuru {
    pub primary: ControllerSample,
    pub secondary: ControllerSample,
}

impl PoseGuru {
    /// The snapshot of the given controller.
    pub open spec fn sample_of(self, id: ControllerId) -> ControllerSample {
        match id {
            ControllerId::Primary => self.primary,
            ControllerId::Secondary => self.secondary,
        }
    }

    /// The guru after one controller's report for a new frame. With no
    /// report the controller keeps the snapshot it had.
    pub open spec fn refreshed(self, id: ControllerId, reading: Option<ControllerReading>) -> PoseGuru {
        match reading {
            Some(r) => match id {
                ControllerId::Primary => PoseGuru { primary: self.primary.followed_by(r), ..self },
                ControllerId::Secondary => PoseGuru { secondary: self.secondary.followed_by(r), ..self },
            },
            None => self,
        }
    }

    /// Two idle controllers.
    pub fn new() -> (guru: PoseGuru)
        ensures
            guru.primary == ControllerSample::idle(),
            guru.secondary == ControllerSample::idle(),
    {
        let idle = ControllerSample {
            pose: Pose::from_translation(ZERO_BITS, ZERO_BITS, ZERO_BITS),
            velocity: Velocity::at_rest(),
            trigger: Scalar { bits: ZERO_BITS },
            trigger_before: Scalar { bits: ZERO_BITS },
        };
        PoseGuru { primary: idle, secondary: idle }
    }

    /// Takes one controller's report for a new frame. A missing report
    /// leaves the controller's snapshot as it was.
    pub fn refresh(&mut self, id: ControllerId, reading: Option<ControllerReading>)
        ensures
            *final(self) == old(self).refreshed(id, reading),
    {
        match reading {
            Some(r) => match id {
                ControllerId::Primary => {
                    self.primary = ControllerSample {
                        pose: r.pose,
                        velocity: r.velocity,
                        trigger: r.trigger,
                        trigger_before: self.primary.trigger,
                    };
                },
                ControllerId::Secondary => {
                    self.secondary = ControllerSample {
                        pose: r.pose,
                        velocity: r.velocity,
                        trigger: r.trigger,
                        trigger_before: self.secondary.trigger,
                    };
                },
            },
            None => {},
        }
    }

    /// The current snapshot of the given controller.
    pub fn sample(&self, id: ControllerId) -> (s: ControllerSample)
        ensures
            s == self.sample_of(id),
    {
        match id {
            ControllerId::Primary => self.primary,
            ControllerId::Secondary => self.secondary,
        }
    }
}

} // verus!
