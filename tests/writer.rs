use mlflow_client::data::{Metric, RunStatus, Timestamp};
use mlflow_client::writer::{stamp_metrics, WorkerAction, WorkerCycle, WriterState};
use mlflow_client::ClientError;

fn metric(key: &str, value: f64, ts: i64, step: Option<i64>) -> Metric {
    Metric {
        key: key.to_string(),
        value_bits: value.to_bits(),
        timestamp: Timestamp(ts),
        step,
    }
}

fn api_error(code: &str) -> ClientError {
    ClientError::ApiError {
        error_code: code.to_string(),
        message: "boom".to_string(),
    }
}

/// Runs one worker to its end; `fail_batches` says which batches fail.
fn run_worker(
    s: &mut WriterState<u32>,
    fail_batches: &[bool],
    fail_terminal: bool,
) -> (Vec<Vec<Metric>>, Vec<(RunStatus, Option<Timestamp>)>) {
    let mut cycle = WorkerCycle::new();
    let mut batches = Vec::new();
    let mut terminals = Vec::new();
    loop {
        match s.next_action(&mut cycle) {
            WorkerAction::SendBatch(b) => {
                let fail = fail_batches.get(batches.len()).copied().unwrap_or(false);
                batches.push(b);
                cycle.record(if fail { Err(api_error("BATCH")) } else { Ok(()) });
            }
            WorkerAction::UpdateTerminal { status, end_time } => {
                terminals.push((status, end_time));
                cycle.record(if fail_terminal { Err(api_error("UPDATE")) } else { Ok(()) });
            }
            WorkerAction::Exit => break,
        }
    }
    (batches, terminals)
}

#[test]
fn two_losses_then_finish() {
    let mut s: WriterState<u32> = WriterState::new();
    s.enqueue(metric("loss", 0.5, 10, Some(0)));
    assert!(s.ensure_worker(|| 1));
    s.enqueue(metric("loss", 0.4, 11, Some(1)));
    assert!(!s.ensure_worker(|| 2));
    assert!(s.request_end(RunStatus::Finished, Timestamp(12)));
    assert_eq!(s.take_worker(), Some(1));
    let (batches, terminals) = run_worker(&mut s, &[], false);
    assert_eq!(batches.len(), 1);
    let b = &batches[0];
    assert_eq!(b.len(), 2);
    assert_eq!(b[0].key, "loss");
    assert_eq!(f64::from_bits(b[0].value_bits), 0.5);
    assert_eq!(b[0].step, Some(0));
    assert_eq!(f64::from_bits(b[1].value_bits), 0.4);
    assert_eq!(b[1].step, Some(1));
    assert_eq!(terminals, vec![(RunStatus::Finished, Some(Timestamp(12)))]);
    assert!(s.take_error(None).is_ok());
}

#[test]
fn flush_failure_is_reported_once_then_finish_reports_its_own() {
    let mut s: WriterState<u32> = WriterState::new();
    s.enqueue(metric("loss", 0.5, 1, Some(0)));
    s.ensure_worker(|| 1);
    let (batches, terminals) = run_worker(&mut s, &[true], false);
    assert_eq!(batches.len(), 1);
    assert!(terminals.is_empty());
    // the next log call surfaces the flush error
    s.enqueue(metric("loss", 0.4, 2, Some(1)));
    s.ensure_worker(|| 2);
    match s.take_error(None) {
        Err(ClientError::ApiError { error_code, .. }) => assert_eq!(error_code, "BATCH"),
        other => panic!("unexpected {:?}", other),
    }
    assert!(s.take_error(None).is_ok());
    // finish: the terminal update is attempted and its own error comes back
    assert!(s.request_end(RunStatus::Finished, Timestamp(3)));
    let w = s.take_worker();
    assert_eq!(w, Some(2));
    let (batches, terminals) = run_worker(&mut s, &[], true);
    assert_eq!(batches.len(), 1);
    assert_eq!(batches[0][0].step, Some(1));
    assert_eq!(terminals, vec![(RunStatus::Finished, Some(Timestamp(3)))]);
    match s.take_error(None) {
        Err(ClientError::ApiError { error_code, .. }) => assert_eq!(error_code, "UPDATE"),
        other => panic!("unexpected {:?}", other),
    }
}

#[test]
fn thousand_metrics_then_finish() {
    let mut s: WriterState<u32> = WriterState::new();
    for i in 0..1000i64 {
        s.enqueue(metric("m", i as f64, i, Some(i)));
        s.ensure_worker(|| 9);
    }
    s.request_end(RunStatus::Finished, Timestamp(1000));
    s.take_worker();
    let (batches, terminals) = run_worker(&mut s, &[], false);
    let all: Vec<&Metric> = batches.iter().flatten().collect();
    assert_eq!(all.len(), 1000);
    for (i, m) in all.iter().enumerate() {
        assert_eq!(m.step, Some(i as i64));
    }
    for b in &batches {
        let plan = mlflow_client::batch::plan_log_batch(b.len(), 0, 0);
        for c in &plan {
            assert!(c.metrics.end - c.metrics.start <= mlflow_client::batch::LOG_BATCH_MAX_METRICS);
        }
    }
    assert_eq!(terminals.len(), 1);
}

#[test]
fn first_error_wins_within_a_worker() {
    let mut s: WriterState<u32> = WriterState::new();
    s.enqueue(metric("a", 1.0, 1, None));
    s.ensure_worker(|| 1);
    s.request_end(RunStatus::Finished, Timestamp(2));
    s.take_worker();
    let (batches, terminals) = run_worker(&mut s, &[true], true);
    assert_eq!(batches.len(), 1);
    assert_eq!(terminals.len(), 1);
    match s.take_error(None) {
        Err(ClientError::ApiError { error_code, .. }) => assert_eq!(error_code, "BATCH"),
        other => panic!("unexpected {:?}", other),
    }
}

#[test]
fn failed_worker_stops_draining() {
    let mut s: WriterState<u32> = WriterState::new();
    s.enqueue(metric("a", 1.0, 1, None));
    s.ensure_worker(|| 1);
    let mut cycle = WorkerCycle::new();
    assert!(matches!(s.next_action(&mut cycle), WorkerAction::SendBatch(_)));
    cycle.record(Err(api_error("X")));
    s.enqueue(metric("b", 2.0, 2, None));
    assert!(matches!(s.next_action(&mut cycle), WorkerAction::Exit));
    // the metric logged meanwhile waits for the next worker, which runs after the error is seen
    assert!(s.take_error(None).is_err());
    s.ensure_worker(|| 2);
    let (batches, _) = run_worker(&mut s, &[], false);
    assert_eq!(batches.len(), 1);
    assert_eq!(batches[0][0].key, "b");
}

#[test]
fn error_is_taken_once() {
    let mut s: WriterState<u32> = WriterState::new();
    s.enqueue(metric("a", 1.0, 1, None));
    s.ensure_worker(|| 1);
    run_worker(&mut s, &[true], false);
    assert!(s.take_error(None).is_err());
    assert!(s.take_error(None).is_ok());
    assert!(s.take_error(Some(true)).is_ok());
}

#[test]
fn failed_join_reported_before_outstanding_error() {
    let mut s: WriterState<u32> = WriterState::new();
    s.enqueue(metric("a", 1.0, 1, None));
    s.ensure_worker(|| 1);
    run_worker(&mut s, &[true], false);
    assert!(matches!(s.take_error(Some(false)), Err(ClientError::TaskJoinError)));
    assert!(matches!(s.take_error(None), Err(ClientError::ApiError { .. })));
    assert!(s.take_error(None).is_ok());
}

#[test]
fn discard_reports_failed() {
    let mut s: WriterState<u32> = WriterState::new();
    s.enqueue(metric("a", 1.0, 1, None));
    assert!(!s.is_finalized());
    assert!(s.request_end(RunStatus::Failed, Timestamp(5)));
    assert!(s.is_finalized());
    // only the first request counts
    assert!(!s.request_end(RunStatus::Finished, Timestamp(6)));
    s.ensure_worker(|| 3);
    assert_eq!(s.take_worker(), Some(3));
    let (batches, terminals) = run_worker(&mut s, &[], false);
    assert_eq!(batches.len(), 1);
    assert_eq!(terminals, vec![(RunStatus::Failed, Some(Timestamp(5)))]);
}

#[test]
fn finish_end_time_after_metrics() {
    let mut s: WriterState<u32> = WriterState::new();
    s.enqueue(metric("a", 1.0, 100, None));
    s.enqueue(metric("a", 2.0, 150, None));
    s.request_end(RunStatus::Finished, Timestamp(150));
    let (batches, terminals) = run_worker(&mut s, &[], false);
    let (status, end) = terminals[0];
    assert_eq!(status, RunStatus::Finished);
    for m in &batches[0] {
        assert!(m.timestamp <= end.unwrap());
    }
}

#[test]
fn running_worker_with_nothing_to_do_exits() {
    let mut s: WriterState<u32> = WriterState::new();
    s.ensure_worker(|| 4);
    let (batches, terminals) = run_worker(&mut s, &[], false);
    assert!(batches.is_empty());
    assert!(terminals.is_empty());
    assert_eq!(s.take_worker(), None);
    // the slot is free again: a new worker may start
    assert!(s.ensure_worker(|| 5));
}

#[test]
fn reap_only_finished_worker() {
    let mut s: WriterState<u32> = WriterState::new();
    assert_eq!(s.reap_finished(|_| true), None);
    s.ensure_worker(|| 8);
    assert_eq!(s.reap_finished(|_| false), None);
    assert_eq!(s.reap_finished(|h| *h == 8), Some(8));
    assert_eq!(s.take_worker(), None);
}

#[test]
fn enqueue_all_keeps_order() {
    let mut s: WriterState<u32> = WriterState::new();
    s.enqueue(metric("a", 1.0, 1, None));
    s.enqueue_all(vec![metric("b", 2.0, 2, None), metric("c", 3.0, 3, None)]);
    let (batches, _) = run_worker(&mut s, &[], false);
    let keys: Vec<&str> = batches[0].iter().map(|m| m.key.as_str()).collect();
    assert_eq!(keys, vec!["a", "b", "c"]);
}

#[test]
fn stamp_metrics_shares_timestamp_and_step() {
    let entries = vec![("x".to_string(), 1.5f64.to_bits()), ("y".to_string(), 2.5f64.to_bits())];
    let ms = stamp_metrics(&entries, Timestamp(42), Some(7));
    assert_eq!(ms.len(), 2);
    assert_eq!(ms[0].key, "x");
    assert_eq!(f64::from_bits(ms[0].value_bits), 1.5);
    assert_eq!(ms[1].key, "y");
    assert_eq!(f64::from_bits(ms[1].value_bits), 2.5);
    assert!(ms.iter().all(|m| m.timestamp == Timestamp(42) && m.step == Some(7)));
    assert!(stamp_metrics(&Vec::new(), Timestamp(0), None).is_empty());
}
