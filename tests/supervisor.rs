use istinit::supervisor::ProcessOutcome;

#[test]
fn normal_exit_keeps_code() {
    for n in [0, 1, 9, 255] {
        let o = ProcessOutcome::from_wait_status(Some(n), None);
        assert_eq!(o, Some(ProcessOutcome::Exited(n)));
        assert_eq!(o.unwrap().exit_status(), n as i64);
        assert!(o.unwrap().is_normal_exit());
    }
}

#[test]
fn signal_kill_is_its_own_variant() {
    let killed = ProcessOutcome::from_wait_status(None, Some(9)).unwrap();
    assert_eq!(killed, ProcessOutcome::Signaled(9));
    assert!(!killed.is_normal_exit());
    assert_ne!(killed, ProcessOutcome::Exited(9));
    assert_eq!(killed.exit_status(), 137);
    assert_ne!(killed.exit_status(), ProcessOutcome::Exited(9).exit_status());
}

#[test]
fn code_wins_over_signal() {
    assert_eq!(ProcessOutcome::from_wait_status(Some(3), Some(15)), Some(ProcessOutcome::Exited(3)));
}

#[test]
fn status_with_neither_has_no_outcome() {
    assert_eq!(ProcessOutcome::from_wait_status(None, None), None);
}
