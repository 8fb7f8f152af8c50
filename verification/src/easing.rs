//! The easing curves that a camera transition can follow.
use vstd::prelude::*;

verus! {

/// Easing function for camera transitions.
#[derive(Debug, Clone, Copy, PartialEq, Eq)]
pub enum Easing {
    Linear,
    EaseIn,
    EaseOut,
    EaseInOut,
}

} // verus!
