use wormhole_bridge::cancel::{CancelState, SignalAction, FORCED_EXIT_CODE};

#[test]
fn first_signal_notifies_second_exits() {
    let mut c = CancelState::new();
    assert!(!c.is_signaled());
    assert_eq!(c.signal(), SignalAction::NotifyWaiters);
    assert!(c.is_signaled());
    assert_eq!(c.signal(), SignalAction::ExitProcess);
    assert!(c.is_signaled());
    assert_eq!(FORCED_EXIT_CODE, 130);
}
