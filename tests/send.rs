use wormhole_bridge::send::{SendAction, SendEvent, SendOutcome, SendSession};

#[test]
fn send_runs_mailbox_connect_stream() {
    let (mut s, first) = SendSession::new();
    assert_eq!(first, SendAction::CreateMailbox);
    assert_eq!(s.step(SendEvent::Done), SendAction::ConnectPeer);
    assert_eq!(s.step(SendEvent::Done), SendAction::SendOffer);
    assert_eq!(s.step(SendEvent::Done), SendAction::Finish(SendOutcome::Completed));
}

#[test]
fn send_cancel_mid_transfer_is_cancelled() {
    let (mut s, _) = SendSession::new();
    s.step(SendEvent::Done);
    s.step(SendEvent::Done);
    assert_eq!(s.step(SendEvent::Cancelled), SendAction::Finish(SendOutcome::Cancelled));
}

#[test]
fn send_mailbox_failure_ends_failed() {
    let (mut s, _) = SendSession::new();
    assert_eq!(s.step(SendEvent::Failed), SendAction::Finish(SendOutcome::Failed));
}

#[test]
fn send_signaled_token_overrides_success() {
    let (mut s, _) = SendSession::new();
    s.step(SendEvent::Done);
    s.step(SendEvent::Done);
    assert_eq!(s.step_stream(true, true), SendAction::Finish(SendOutcome::Cancelled));
}
