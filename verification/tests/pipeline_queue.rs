use project_core::pipeline::{PopOutcome, ProofQueue, SessionOfCycle};

fn session(from_mcycle: u64, to_mcycle: u64) -> SessionOfCycle {
    SessionOfCycle { from_mcycle, to_mcycle }
}

#[test]
fn bound_one_blocks_until_consumer_makes_room() {
    let mut q = ProofQueue::new(1);
    assert!(q.try_push(session(0, 50)));
    // Producing the next chunk must block while the first is unproven.
    assert!(!q.try_push(session(50, 100)));
    assert!(!q.try_push(session(50, 100)));
    // Once the consumer takes the first session, production may resume.
    assert_eq!(q.try_pop(), PopOutcome::Item(session(0, 50)));
    assert!(q.try_push(session(50, 100)));
}

#[test]
fn sessions_leave_in_production_order() {
    let mut q = ProofQueue::new(3);
    assert!(q.try_push(session(0, 10)));
    assert!(q.try_push(session(10, 20)));
    assert!(q.try_push(session(20, 30)));
    assert_eq!(q.try_pop(), PopOutcome::Item(session(0, 10)));
    assert_eq!(q.try_pop(), PopOutcome::Item(session(10, 20)));
    assert_eq!(q.try_pop(), PopOutcome::Item(session(20, 30)));
}

#[test]
fn empty_open_queue_tells_the_consumer_to_wait() {
    let mut q = ProofQueue::new(2);
    assert_eq!(q.try_pop(), PopOutcome::WouldBlock);
}

#[test]
fn closing_lets_the_consumer_drain_then_finish() {
    let mut q = ProofQueue::new(2);
    assert!(q.try_push(session(0, 50)));
    q.close();
    assert_eq!(q.try_pop(), PopOutcome::Item(session(0, 50)));
    assert_eq!(q.try_pop(), PopOutcome::Finished);
    assert_eq!(q.try_pop(), PopOutcome::Finished);
}

#[test]
fn queue_reports_its_length() {
    let mut q = ProofQueue::new(2);
    assert_eq!(q.len(), 0);
    assert!(q.try_push(session(0, 50)));
    assert_eq!(q.len(), 1);
}
