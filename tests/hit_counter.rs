use clipstash::web::hit_counter::{
    CommitOutcome, CommitRun, HitCountMsg, HitCounter, HitStore, LoopAction, Received, StorageOp,
};
use clipstash::ShortCode;

fn code(s: &str) -> ShortCode {
    ShortCode::from(s)
}

fn hit(s: &str, n: u32) -> Received {
    Received::Message(HitCountMsg::Hit(code(s), n))
}

fn batch_of(action: LoopAction) -> Vec<(String, u64)> {
    match action {
        LoopAction::Flush(batch) => {
            let mut out: Vec<(String, u64)> =
                batch.into_iter().map(|(c, n)| (c.into_inner(), n)).collect();
            out.sort();
            out
        }
        _ => panic!("expected a flush"),
    }
}

fn describe(op: Option<StorageOp>) -> String {
    match op {
        Some(StorageOp::Begin) => "begin".to_string(),
        Some(StorageOp::Increment(c, n)) => format!("+{} {}", n, c.as_str()),
        Some(StorageOp::Commit) => "commit".to_string(),
        None => "done".to_string(),
    }
}

/// Runs a commit to its end, answering each request from `replies` in turn.
fn run_commit(batch: Vec<(ShortCode, u64)>, replies: &[bool]) -> (Vec<String>, Option<CommitOutcome>) {
    let mut run = CommitRun::new(batch);
    let mut ops = Vec::new();
    let mut answers = replies.iter();
    loop {
        let op = run.next_op();
        let done = op.is_none();
        ops.push(describe(op));
        if done {
            break;
        }
        run.on_reply(*answers.next().expect("a reply for every request"));
    }
    (ops, run.outcome())
}

#[test]
fn two_hits_then_idle_give_one_increment_of_five() {
    let mut store = HitStore::new();
    assert!(matches!(store.step(hit("abcd123456", 3)), LoopAction::Receive));
    assert!(matches!(store.step(hit("abcd123456", 2)), LoopAction::Receive));
    assert!(matches!(store.step(Received::Empty), LoopAction::IdleThenCommit));
    let action = store.step(Received::Message(HitCountMsg::Commit));
    let LoopAction::Flush(batch) = action else { panic!("expected a flush") };
    assert_eq!(batch.len(), 1);
    assert_eq!(batch[0].0.as_str(), "abcd123456");
    assert_eq!(batch[0].1, 5);
    assert!(store.take_batch().is_empty());

    let (ops, outcome) = run_commit(batch, &[true, true, true]);
    assert_eq!(ops, vec!["begin", "+5 abcd123456", "commit", "done"]);
    assert_eq!(outcome, Some(CommitOutcome::Committed));
}

#[test]
fn hits_for_several_codes_are_summed_per_code() {
    let mut store = HitStore::new();
    for (c, n) in [("a", 1), ("b", 4), ("a", 2), ("c", 0), ("b", 6), ("a", 7)] {
        store.record(code(c), n);
    }
    let batch = batch_of(store.step(Received::Message(HitCountMsg::Commit)));
    assert_eq!(
        batch,
        vec![("a".to_string(), 10), ("b".to_string(), 10), ("c".to_string(), 0)]
    );
}

#[test]
fn large_counts_add_up_beyond_u32() {
    let mut store = HitStore::new();
    store.record(code("big"), u32::MAX);
    store.record(code("big"), u32::MAX);
    let batch = batch_of(store.step(Received::Message(HitCountMsg::Commit)));
    assert_eq!(batch, vec![("big".to_string(), 2 * u32::MAX as u64)]);
}

#[test]
fn hit_after_flush_goes_to_next_batch() {
    let mut store = HitStore::new();
    store.step(hit("x", 1));
    let first = batch_of(store.step(Received::Message(HitCountMsg::Commit)));
    store.step(hit("x", 2));
    store.step(hit("y", 3));
    let second = batch_of(store.step(Received::Message(HitCountMsg::Commit)));
    assert_eq!(first, vec![("x".to_string(), 1)]);
    assert_eq!(second, vec![("x".to_string(), 2), ("y".to_string(), 3)]);
}

#[test]
fn idle_flush_without_hits_touches_nothing() {
    let mut store = HitStore::new();
    assert!(matches!(store.step(Received::Empty), LoopAction::IdleThenCommit));
    let batch = match store.step(Received::Message(HitCountMsg::Commit)) {
        LoopAction::Flush(batch) => batch,
        _ => panic!("expected a flush"),
    };
    assert!(batch.is_empty());
    let (ops, outcome) = run_commit(batch, &[true, true]);
    assert_eq!(ops, vec!["begin", "commit", "done"]);
    assert_eq!(outcome, Some(CommitOutcome::Committed));
}

#[test]
fn store_is_empty_after_flush() {
    let mut store = HitStore::new();
    store.record(code("p"), 1);
    store.record(code("q"), 1);
    assert_eq!(store.take_batch().len(), 2);
    assert!(store.take_batch().is_empty());
}

#[test]
fn failed_increment_does_not_stop_the_others() {
    let batch = vec![(code("a"), 1), (code("b"), 2), (code("c"), 3)];
    let (ops, outcome) = run_commit(batch, &[true, true, false, true, true]);
    assert_eq!(ops, vec!["begin", "+1 a", "+2 b", "+3 c", "commit", "done"]);
    assert_eq!(outcome, Some(CommitOutcome::Committed));
}

#[test]
fn failed_begin_loses_the_batch() {
    let batch = vec![(code("a"), 1)];
    let (ops, outcome) = run_commit(batch, &[false]);
    assert_eq!(ops, vec!["begin", "done"]);
    assert_eq!(outcome, Some(CommitOutcome::BeginFailed));
}

#[test]
fn failed_commit_is_reported() {
    let batch = vec![(code("a"), 1)];
    let (ops, outcome) = run_commit(batch, &[true, true, false]);
    assert_eq!(ops, vec!["begin", "+1 a", "commit", "done"]);
    assert_eq!(outcome, Some(CommitOutcome::CommitFailed));
}

#[test]
fn disconnected_mailbox_stops_the_loop() {
    let mut store = HitStore::new();
    store.record(code("a"), 1);
    assert!(matches!(store.step(Received::Disconnected), LoopAction::Stop));
    assert_eq!(store.take_batch().len(), 1);
}

#[test]
fn hit_posts_to_the_mailbox() {
    let (counter, rx) = HitCounter::new();
    counter.hit(code("abc"), 4);
    match rx.try_recv() {
        Ok(HitCountMsg::Hit(c, n)) => {
            assert_eq!(c.as_str(), "abc");
            assert_eq!(n, 4);
        }
        _ => panic!("expected a hit"),
    }
}

#[test]
fn hit_after_the_loop_is_gone_is_dropped_quietly() {
    let (counter, rx) = HitCounter::new();
    drop(rx);
    counter.hit(code("abc"), 1);
    counter.hit(code("abc"), 1);
}
