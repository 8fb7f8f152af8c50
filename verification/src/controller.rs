//! The camera controller's effects and the order in which one update runs its
//! stages: follow, then transition, then shake, then the bounds clamp.
use vstd::prelude::*;

verus! {

/// A stage of one controller update.
#[derive(Debug, Clone, Copy, PartialEq, Eq)]
pub enum Stage {
    /// Move the camera toward the follow target.
    Follow,
    /// Advance the running transition and apply its state.
    Transition,
    /// Advance the running shake and offset the camera by it.
    Shake,
    /// Clamp the camera centre into the bounds.
    Clamp,
}

/// The position of a stage in an update: stages run in increasing rank.
pub open spec fn stage_rank(s: Stage) -> int {
    match s {
        Stage::Follow => 0,
        Stage::Transition => 1,
        Stage::Shake => 2,
        Stage::Clamp => 3,
    }
}

/// The stages of one update, given which effects are present: following
/// always runs; a transition, a shake and a clamp run when present, in that
/// order.
pub open spec fn stage_plan(has_transition: bool, has_shake: bool, has_bounds: bool) -> Seq<Stage> {
    seq![Stage::Follow]
        + (if has_transition { seq![Stage::Transition] } else { Seq::empty() })
        + (if has_shake { seq![Stage::Shake] } else { Seq::empty() })
        + (if has_bounds { seq![Stage::Clamp] } else { Seq::empty() })
}

/// The optional effects of a camera controller: a running shake `S`, a
/// running transition `T`, and world-space bounds `B` for the camera centre.
pub struct Effects<S, T, B> {
    pub shake: Option<S>,
    pub transition: Option<T>,
    pub bounds: Option<B>,
}

impl<S, T, B> Effects<S, T, B> {
    /// No shake, no transition, no bounds.
    pub fn new() -> (r: Self)
        ensures
            r.shake is None,
            r.transition is None,
            r.bounds is None,
    {
        Effects { shake: None, transition: None, bounds: None }
    }

    /// Start `shake`, replacing any running shake.
    pub fn start_shake(&mut self, shake: S)
        ensures
            final(self).shake == Some(shake),
            final(self).transition == old(self).transition,
            final(self).bounds == old(self).bounds,
    {
        self.shake = Some(shake);
    }

    /// Start `transition`, replacing any running transition.
    pub fn start_transition(&mut self, transition: T)
        ensures
            final(self).transition == Some(transition),
            final(self).shake == old(self).shake,
            final(self).bounds == old(self).bounds,
    {
        self.transition = Some(transition);
    }

    /// Set the bounds of the camera centre, replacing any earlier bounds.
    pub fn constrain(&mut self, bounds: B)
        ensures
            final(self).bounds == Some(bounds),
            final(self).shake == old(self).shake,
            final(self).transition == old(self).transition,
    {
        self.bounds = Some(bounds);
    }

    /// The stages of the next update, in the order they run.
    pub fn plan(&self) -> (r: Vec<Stage>)
        ensures
            r@ == stage_plan(self.transition is Some, self.shake is Some, self.bounds is Some),
    {
        let mut r: Vec<Stage> = Vec::new();
        r.push(Stage::Follow);
        if self.transition.is_some() {
            r.push(Stage::Transition);
        }
        if self.shake.is_some() {
            r.push(Stage::Shake);
        }
        if self.bounds.is_some() {
            r.push(Stage::Clamp);
        }
        r
    }

    /// After an update: a transition that completed, and a shake that
    /// finished, are dropped; everything else stays.
    pub fn settle(&mut self, transition_complete: bool, shake_finished: bool)
        ensures
            final(self).transition == (if transition_complete {
                None
            } else {
                old(self).transition
            }),
            final(self).shake == (if shake_finished {
                None
            } else {
                old(self).shake
            }),
            final(self).bounds == old(self).bounds,
    {
        if transition_complete {
            self.transition = None;
        }
        if shake_finished {
            self.shake = None;
        }
    }
}

/// The stages of an update run in the documented order, follow, transition,
/// shake, clamp: each at most once, following always first, and each optional
/// stage present exactly when its effect is.
pub proof fn lemma_plan_order(has_transition: bool, has_shake: bool, has_bounds: bool)
    ensures
        ({
            let p = stage_plan(has_transition, has_shake, has_bounds);
            &&& p.len() >= 1
            &&& p[0] == Stage::Follow
            &&& forall|i: int, j: int|
                0 <= i < j < p.len() ==> stage_rank(#[trigger] p[i]) < stage_rank(#[trigger] p[j])
            &&& p.contains(Stage::Transition) == has_transition
            &&& p.contains(Stage::Shake) == has_shake
            &&& p.contains(Stage::Clamp) == has_bounds
        }),
{
    let p = stage_plan(has_transition, has_shake, has_bounds);
    let t: Seq<Stage> = if has_transition { seq![Stage::Transition] } else { Seq::empty() };
    let s: Seq<Stage> = if has_shake { seq![Stage::Shake] } else { Seq::empty() };
    let c: Seq<Stage> = if has_bounds { seq![Stage::Clamp] } else { Seq::empty() };
    assert(p == seq![Stage::Follow] + t + s + c);
    if has_transition {
        assert(p[1] == Stage::Transition);
    }
    if has_shake {
        assert(p[p.len() - 1 - (if has_bounds { 1int } else { 0 })] == Stage::Shake);
    }
    if has_bounds {
        assert(p[p.len() - 1] == Stage::Clamp);
    }
}

} // verus!
