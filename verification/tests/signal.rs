use magic_nix_cache::backend::{configured, BackendKind};
use magic_nix_cache::signal::{ShutdownSignal, SignalError};

#[test]
fn signal_yields_its_notifier_once() {
    let mut signal = ShutdownSignal::new(41u32);
    assert!(signal.is_armed());
    assert_eq!(signal.take(), Ok(41));
    assert!(!signal.is_armed());
}

#[test]
fn second_take_reports_that_the_signal_is_gone() {
    let mut signal = ShutdownSignal::new("notifier".to_string());
    assert_eq!(signal.take(), Ok("notifier".to_string()));
    assert_eq!(signal.take(), Err(SignalError::AlreadyTaken));
    assert_eq!(signal.take(), Err(SignalError::AlreadyTaken));
    assert!(!signal.is_armed());
}

#[test]
fn spent_signal_has_nothing_to_give() {
    let mut signal: ShutdownSignal<u8> = ShutdownSignal::spent();
    assert!(!signal.is_armed());
    assert_eq!(signal.take(), Err(SignalError::AlreadyTaken));
}

#[test]
fn backends_come_in_order() {
    assert_eq!(configured(false, false), vec![]);
    assert_eq!(configured(true, false), vec![BackendKind::GitHubActions]);
    assert_eq!(configured(false, true), vec![BackendKind::FlakeHub]);
    assert_eq!(
        configured(true, true),
        vec![BackendKind::GitHubActions, BackendKind::FlakeHub]
    );
}
