use mlflow_client::batch::{plan_log_batch, BatchChunk, Span};

fn span(start: usize, end: usize) -> Span {
    Span { start, end }
}

#[test]
fn nothing_to_send() {
    assert!(plan_log_batch(0, 0, 0).is_empty());
}

#[test]
fn everything_fits_one_request() {
    let plan = plan_log_batch(2, 2, 2);
    assert_eq!(
        plan,
        vec![BatchChunk { metrics: span(0, 2), params: span(0, 2), tags: span(0, 2) }]
    );
    let plan = plan_log_batch(1000, 0, 0);
    assert_eq!(plan.len(), 1);
    assert_eq!(plan[0].metrics, span(0, 1000));
}

#[test]
fn oversized_lists_are_split_by_kind() {
    let plan = plan_log_batch(2500, 150, 1);
    let e = span(0, 0);
    assert_eq!(
        plan,
        vec![
            BatchChunk { metrics: span(0, 1000), params: e, tags: e },
            BatchChunk { metrics: span(1000, 2000), params: e, tags: e },
            BatchChunk { metrics: span(2000, 2500), params: e, tags: e },
            BatchChunk { metrics: e, params: span(0, 100), tags: e },
            BatchChunk { metrics: e, params: span(100, 150), tags: e },
            BatchChunk { metrics: e, params: e, tags: span(0, 1) },
        ]
    );
}

#[test]
fn total_over_limit_splits_even_when_each_kind_fits() {
    let plan = plan_log_batch(950, 60, 0);
    let e = span(0, 0);
    assert_eq!(
        plan,
        vec![
            BatchChunk { metrics: span(0, 950), params: e, tags: e },
            BatchChunk { metrics: e, params: span(0, 60), tags: e },
        ]
    );
}

#[test]
fn too_many_params_alone() {
    let plan = plan_log_batch(0, 101, 0);
    assert_eq!(plan.len(), 2);
    assert_eq!(plan[0].params, span(0, 100));
    assert_eq!(plan[1].params, span(100, 101));
}

#[test]
fn every_metric_sent_once_in_order() {
    let n = 3001;
    let plan = plan_log_batch(n, 0, 0);
    let mut next = 0;
    for c in &plan {
        assert_eq!(c.metrics.start, next);
        assert!(c.metrics.end - c.metrics.start <= 1000);
        next = c.metrics.end;
    }
    assert_eq!(next, n);
}
