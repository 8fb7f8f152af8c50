//! The follower's bookkeeping: which point it chases, what it saw last frame,
//! and what one frame of following does.
use vstd::prelude::*;

verus! {

/// What a camera follower remembers between frames: the point it follows, and
/// the target it saw on the previous frame, from which the look-ahead velocity
/// is estimated. `P` is the type of a world-space point.
pub struct FollowTracker<P> {
    pub target: Option<P>,
    pub prev_target: Option<P>,
}

/// What one frame of following asks of the camera.
#[derive(Debug, Clone, Copy, PartialEq, Eq)]
pub enum FollowStep<P> {
    /// There is no target: the camera stays where it is.
    Idle,
    /// The target lies inside the deadzone: the camera stays where it is.
    Hold,
    /// Move toward `target`. `previous` is the target of the previous frame;
    /// without one there is no velocity estimate, hence no look-ahead.
    Chase { target: P, previous: Option<P> },
}

impl<P: Copy> FollowTracker<P> {
    /// A follower with no target and no memory of one.
    pub fn new() -> (r: Self)
        ensures
            r.target is None,
            r.prev_target is None,
    {
        FollowTracker { target: None, prev_target: None }
    }

    /// Start following `pos`; the memory of the previous frame is kept.
    pub fn set_target(&mut self, pos: P)
        ensures
            final(self).target == Some(pos),
            final(self).prev_target == old(self).prev_target,
    {
        self.target = Some(pos);
    }

    /// Stop following, and forget the previous frame's target.
    pub fn clear_target(&mut self)
        ensures
            final(self).target is None,
            final(self).prev_target is None,
    {
        self.target = None;
        self.prev_target = None;
    }

    /// One frame of following. `target_in_deadzone` tells whether the current
    /// target, taken relative to the camera, lies in the deadzone; it is not
    /// read when there is no target.
    ///
    /// Without a target the follower forgets the previous frame and the camera
    /// stays still. With one, the target becomes the previous frame's target;
    /// inside the deadzone the camera stays still, otherwise it chases the
    /// target, with the old previous target as its velocity reference.
    pub fn step(&mut self, target_in_deadzone: bool) -> (s: FollowStep<P>)
        ensures
            final(self).target == old(self).target,
            match old(self).target {
                None => s == FollowStep::<P>::Idle && final(self).prev_target is None,
                Some(t) => {
                    &&& final(self).prev_target == Some(t)
                    &&& s == (if target_in_deadzone {
                        FollowStep::<P>::Hold
                    } else {
                        FollowStep::Chase { target: t, previous: old(self).prev_target }
                    })
                },
            },
    {
        match self.target {
            None => {
                self.prev_target = None;
                FollowStep::Idle
            },
            Some(t) => {
                let previous = self.prev_target;
                self.prev_target = Some(t);
                if target_in_deadzone {
                    FollowStep::Hold
                } else {
                    FollowStep::Chase { target: t, previous }
                }
            },
        }
    }
}

} // verus!
