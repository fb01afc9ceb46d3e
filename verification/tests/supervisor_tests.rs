use tox_node::supervisor::{first_failure, NodeDecision, TaskOutcome};

#[test]
fn all_running_keeps_the_node_alive() {
    let outcomes = vec![TaskOutcome::Running; 4];
    assert_eq!(first_failure(&outcomes), NodeDecision::KeepRunning);
    assert_eq!(first_failure(&Vec::new()), NodeDecision::KeepRunning);
}

#[test]
fn first_failure_wins_over_later_ones() {
    let outcomes = vec![
        TaskOutcome::Running,
        TaskOutcome::Failed("udp socket closed".into()),
        TaskOutcome::Failed("tcp listener died".into()),
        TaskOutcome::Running,
    ];
    assert_eq!(first_failure(&outcomes), NodeDecision::FailWith(1));
}

#[test]
fn single_failure_anywhere_tears_the_node_down() {
    for i in 0..5 {
        let mut outcomes = vec![TaskOutcome::Running; 5];
        outcomes[i] = TaskOutcome::Failed("boom".into());
        assert_eq!(first_failure(&outcomes), NodeDecision::FailWith(i));
    }
}
