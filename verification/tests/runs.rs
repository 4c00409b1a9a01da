use yukin::runs::ActiveRuns;

#[test]
fn delivers_approval_to_the_matching_run_and_tool_call() {
    let mut runs: ActiveRuns<u32, &str> = ActiveRuns::new();
    runs.wait_for_approval("run-1".into(), "tool-1".into(), "allow-channel");

    assert!(runs.is_waiting_for_approval("run-1", "tool-1"));
    assert_eq!(runs.decide("run-1", "tool-1"), Some("allow-channel"));
    assert!(!runs.is_waiting_for_approval("run-1", "tool-1"));
}

#[test]
fn decisions_reach_only_their_call_and_removal_clears_a_run() {
    let mut runs: ActiveRuns<u32, u32> = ActiveRuns::new();
    runs.register("run-1".into(), 10);
    runs.register("run-2".into(), 20);
    runs.register("run-1".into(), 11);
    assert_eq!(runs.cancel("run-1"), Some(&11));
    assert_eq!(runs.cancel("run-3"), None);

    runs.wait_for_approval("run-1".into(), "a".into(), 1);
    runs.wait_for_approval("run-1".into(), "b".into(), 2);
    runs.wait_for_approval("run-2".into(), "a".into(), 3);
    assert_eq!(runs.decide("run-1", "c"), None);
    assert_eq!(runs.decide("run-2", "a"), Some(3));
    assert!(runs.is_waiting_for_approval("run-1", "a"));
    assert!(!runs.is_waiting_for_approval("run-2", "a"));

    runs.remove("run-1");
    assert!(!runs.is_waiting_for_approval("run-1", "a"));
    assert!(!runs.is_waiting_for_approval("run-1", "b"));
    assert_eq!(runs.cancel("run-1"), None);
    assert_eq!(runs.cancel("run-2"), Some(&20));
}
