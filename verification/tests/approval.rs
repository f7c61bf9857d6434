use auto_mode::approval::{
    agent_approve_auto_plan, answer_or_denial, new_pending_map, PendingApprovals,
};

#[test]
fn an_answer_takes_the_ticket_of_its_task() {
    let mut pending: PendingApprovals<u32> = new_pending_map();
    assert_eq!(pending.register("a".to_string(), 1), None);
    assert_eq!(pending.register("b".to_string(), 2), None);
    let answer = agent_approve_auto_plan(&mut pending, "a", true).unwrap();
    assert_eq!((answer.ticket, answer.approved), (1, true));
    let answer = agent_approve_auto_plan(&mut pending, "b", false).unwrap();
    assert_eq!((answer.ticket, answer.approved), (2, false));
}

#[test]
fn a_second_answer_finds_nobody() {
    let mut pending: PendingApprovals<u32> = new_pending_map();
    pending.register("run-1".to_string(), 7);
    assert!(agent_approve_auto_plan(&mut pending, "run-1", true).is_ok());
    assert_eq!(
        agent_approve_auto_plan(&mut pending, "run-1", true).unwrap_err(),
        "No pending Auto-mode approval for run_id=run-1 (already resolved or expired)"
    );
}

#[test]
fn a_new_ticket_replaces_the_old_one() {
    let mut pending: PendingApprovals<u32> = new_pending_map();
    pending.register("a".to_string(), 1);
    pending.register("b".to_string(), 2);
    assert_eq!(pending.register("a".to_string(), 3), Some(1));
    assert_eq!(pending.take("a"), Some(3));
    assert_eq!(pending.take("a"), None);
    assert_eq!(pending.take("b"), Some(2));
}

#[test]
fn a_dropped_ticket_denies() {
    assert!(answer_or_denial(Some(true)));
    assert!(!answer_or_denial(Some(false)));
    assert!(!answer_or_denial(None));
}

#[test]
fn a_wait_comes_to_the_answer() {
    for approved in [true, false] {
        let mut pending: PendingApprovals<std::sync::mpsc::Sender<bool>> = new_pending_map();
        let (tx, rx) = std::sync::mpsc::channel();
        let (other_tx, other_rx) = std::sync::mpsc::channel();
        pending.register("run-1".to_string(), tx);
        pending.register("run-2".to_string(), other_tx);
        let answer = agent_approve_auto_plan(&mut pending, "run-1", approved).unwrap();
        answer.ticket.send(answer.approved).unwrap();
        assert_eq!(answer_or_denial(rx.recv().ok()), approved);
        assert!(pending.take("run-1").is_none());
        drop(pending);
        assert!(!answer_or_denial(other_rx.recv().ok()));
    }
}
