//! The state that the running demonstrator keeps besides the pendulum and
//! the controller's gains: whether it is paused, whether the time step
//! follows the frame rate, and the history of angles and time steps that
//! the controller is fed. The values are generic: the program instantiates
//! them with its floating-point numbers.
use vstd::prelude::*;
use crate::samples::pid_accepts;

verus! {

/// Session state. `angles` and `dts` list, frame by frame, the angle and
/// the time step in use that each running frame recorded; after a start or
/// a controller reset `angles` begins with the starting angle.
pub struct Session<T> {
    pub paused: bool,
    pub adaptive_dt: bool,
    pub angles: Vec<T>,
    pub dts: Vec<T>,
}

/// What a frame decided: the time step the pendulum now uses, and whether
/// the simulation advanced (recorded a sample and is to be stepped).
#[derive(Debug)]
pub struct FrameOutcome<T> {
    pub dt: T,
    pub advanced: bool,
}

impl<T: Copy> Session<T> {
    /// A session as the program starts it: paused, with the time step
    /// following the frame rate, and a history holding the starting angle
    /// and no step.
    pub fn new(initial_angle: T) -> (s: Self)
        ensures
            s.paused,
            s.adaptive_dt,
            s.angles@ == seq![initial_angle],
            s.dts@ == Seq::<T>::empty(),
    {
        let mut angles: Vec<T> = Vec::new();
        angles.push(initial_angle);
        Session { paused: true, adaptive_dt: true, angles, dts: Vec::new() }
    }

    /// One frame. The pendulum's step becomes `frame_dt` when the step
    /// follows the frame rate and the frame's duration is usable
    /// (`frame_dt_usable`), else it stays `current_dt`. Unless paused, the
    /// session then records `angle` and the step in use, and the caller is
    /// to compute the response and step the pendulum.
    pub fn advance_frame(&mut self, angle: T, current_dt: T, frame_dt: T, frame_dt_usable: bool) -> (out: FrameOutcome<T>)
        ensures
            out.dt == (if old(self).adaptive_dt && frame_dt_usable { frame_dt } else { current_dt }),
            out.advanced == !old(self).paused,
            final(self).paused == old(self).paused,
            final(self).adaptive_dt == old(self).adaptive_dt,
            !old(self).paused ==> final(self).angles@ == old(self).angles@.push(angle),
            !old(self).paused ==> final(self).dts@ == old(self).dts@.push(out.dt),
            old(self).paused ==> final(self).angles@ == old(self).angles@,
            old(self).paused ==> final(self).dts@ == old(self).dts@,
    {
        let dt = if self.adaptive_dt && frame_dt_usable { frame_dt } else { current_dt };
        let advanced = !self.paused;
        if advanced {
            self.angles.push(angle);
            self.dts.push(dt);
        }
        FrameOutcome { dt, advanced }
    }

    /// The pause button: pauses a running simulation, resumes a paused one.
    pub fn toggle_pause(&mut self)
        ensures
            final(self).paused == !old(self).paused,
            final(self).adaptive_dt == old(self).adaptive_dt,
            final(self).angles@ == old(self).angles@,
            final(self).dts@ == old(self).dts@,
    {
        self.paused = !self.paused;
    }

    /// The pendulum's reset button: the history is emptied (angles and
    /// steps alike).
    pub fn reset_pendulum_history(&mut self)
        ensures
            final(self).paused == old(self).paused,
            final(self).adaptive_dt == old(self).adaptive_dt,
            final(self).angles@ == Seq::<T>::empty(),
            final(self).dts@ == Seq::<T>::empty(),
    {
        self.angles.clear();
        self.dts.clear();
    }

    /// The controller's reset button: the history restarts from
    /// `initial_angle` with no step.
    pub fn reset_controller_history(&mut self, initial_angle: T)
        ensures
            final(self).paused == old(self).paused,
            final(self).adaptive_dt == old(self).adaptive_dt,
            final(self).angles@ == seq![initial_angle],
            final(self).dts@ == Seq::<T>::empty(),
    {
        let mut angles: Vec<T> = Vec::new();
        angles.push(initial_angle);
        self.angles = angles;
        self.dts.clear();
    }
}

/// Recording frames never changes whether the controller accepts a
/// history: `k` frames add `k` angles and `k` steps.
pub proof fn lemma_frames_keep_acceptance(n_angles: nat, n_dts: nat, k: nat)
    ensures
        pid_accepts((n_angles + k) as int, (n_dts + k) as int) == pid_accepts(n_angles as int, n_dts as int),
{
}

/// From a start or a controller reset (one angle, no step), the history
/// after any number `k` of recorded frames is accepted by the controller;
/// from a pendulum reset (nothing recorded), it never is, however many
/// frames follow, until the controller is reset.
pub proof fn lemma_history_after_resets(k: nat)
    ensures
        pid_accepts(1 + k as int, k as int),
        !pid_accepts(k as int, k as int),
{
}

} // verus!
