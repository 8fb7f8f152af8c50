use lau_camera::follow::{FollowStep, FollowTracker};

type P = (i64, i64);

#[test]
fn tracker_new_is_empty() {
    let t: FollowTracker<P> = FollowTracker::new();
    assert_eq!(t.target, None);
    assert_eq!(t.prev_target, None);
}

#[test]
fn tracker_without_target_stays_idle() {
    let mut t: FollowTracker<P> = FollowTracker::new();
    assert_eq!(t.step(false), FollowStep::Idle);
    assert_eq!(t.step(true), FollowStep::Idle);
    assert_eq!(t.prev_target, None);
}

#[test]
fn tracker_chases_outside_deadzone() {
    let mut t: FollowTracker<P> = FollowTracker::new();
    t.set_target((100, 0));
    assert_eq!(t.target, Some((100, 0)));
    assert_eq!(t.step(false), FollowStep::Chase { target: (100, 0), previous: None });
    assert_eq!(t.prev_target, Some((100, 0)));
    t.set_target((110, 5));
    assert_eq!(
        t.step(false),
        FollowStep::Chase { target: (110, 5), previous: Some((100, 0)) }
    );
    assert_eq!(t.prev_target, Some((110, 5)));
}

#[test]
fn tracker_holds_inside_deadzone() {
    let mut t: FollowTracker<P> = FollowTracker::new();
    t.set_target((50, 0));
    assert_eq!(t.step(true), FollowStep::Hold);
    assert_eq!(t.prev_target, Some((50, 0)));
    assert_eq!(t.target, Some((50, 0)));
}

#[test]
fn tracker_clear_target_forgets_everything() {
    let mut t: FollowTracker<P> = FollowTracker::new();
    t.set_target((100, 0));
    t.step(false);
    t.clear_target();
    assert_eq!(t.target, None);
    assert_eq!(t.prev_target, None);
    assert_eq!(t.step(false), FollowStep::Idle);
}

#[test]
fn tracker_set_target_keeps_memory() {
    let mut t: FollowTracker<P> = FollowTracker::new();
    t.set_target((1, 1));
    t.step(true);
    t.set_target((2, 2));
    assert_eq!(t.prev_target, Some((1, 1)));
}

#[test]
fn tracker_losing_target_forgets_previous() {
    let mut t: FollowTracker<P> = FollowTracker { target: None, prev_target: Some((3, 4)) };
    assert_eq!(t.step(false), FollowStep::Idle);
    assert_eq!(t.prev_target, None);
}
