use wormhole_bridge::staging::{V2Action, V2Event, V2Outcome, V2Receive};

fn run(events: &[V2Event]) -> Vec<V2Action> {
    let (mut r, first) = V2Receive::new();
    let mut actions = vec![first];
    for e in events {
        actions.push(r.step(*e));
    }
    actions
}

#[test]
fn successful_receive_promotes_then_cleans_up() {
    let a = run(&[V2Event::Done, V2Event::Done, V2Event::Done, V2Event::Done, V2Event::Done]);
    assert_eq!(
        a,
        vec![
            V2Action::CreateStaging,
            V2Action::CreateDirectories,
            V2Action::Accept,
            V2Action::Promote,
            V2Action::RemoveStaging,
            V2Action::Finish(V2Outcome::Completed),
        ]
    );
}

#[test]
fn collision_removes_staging_and_reports_collision() {
    let a = run(&[V2Event::Done, V2Event::Done, V2Event::Done, V2Event::Collided, V2Event::Done]);
    assert_eq!(a[4], V2Action::RemoveStaging);
    assert_eq!(a[5], V2Action::Finish(V2Outcome::Collision));
}

#[test]
fn cancel_mid_accept_still_cleans_up() {
    let a = run(&[V2Event::Done, V2Event::Done, V2Event::Cancelled, V2Event::Failed]);
    assert_eq!(a[3], V2Action::RemoveStaging);
    assert_eq!(a[4], V2Action::Finish(V2Outcome::Cancelled));
}

#[test]
fn missing_staging_directory_is_no_error() {
    let a = run(&[V2Event::Done, V2Event::Done, V2Event::Done, V2Event::Done, V2Event::Missing]);
    assert_eq!(a[5], V2Action::Finish(V2Outcome::Completed));
}

#[test]
fn failed_cleanup_after_promotion_is_reported() {
    let (mut r, _) = V2Receive::new();
    for _ in 0..4 {
        r.step(V2Event::Done);
    }
    assert_eq!(r.step(V2Event::Failed), V2Action::Finish(V2Outcome::CleanupFailed));
    assert_eq!(r.outcome(), Some(V2Outcome::CleanupFailed));
}

#[test]
fn failed_staging_creation_ends_without_cleanup() {
    let a = run(&[V2Event::Failed]);
    assert_eq!(a[1], V2Action::Finish(V2Outcome::Failed));
}

#[test]
fn signaled_token_overrides_successful_accept() {
    let (mut r, _) = V2Receive::new();
    r.step(V2Event::Done);
    r.step(V2Event::Done);
    assert_eq!(r.step_accept(true, true), V2Action::RemoveStaging);
    assert_eq!(r.step(V2Event::Done), V2Action::Finish(V2Outcome::Cancelled));
}
