use ekb_core::chain::StageChain;
use ekb_core::connectors::StreamEvent;
use ekb_core::executor::{
    CancelAtBoundary, Executor, FlowStatus, NeverCancel, RecordOutcome,
};
use ekb_core::plugins::{
    BasicFunction, PassThrough, RejectNull, ScriptedConnector, WrapInArray,
};
use ekb_core::value::Value;

#[test]
fn ordered_stream_yields_outcomes_in_order() {
    let script = vec![
        StreamEvent::Record(Value::Int(1)),
        StreamEvent::Record(Value::Int(2)),
        StreamEvent::Record(Value::Int(3)),
    ];
    let connector = ScriptedConnector::new(script, true, None);
    let mut chain: StageChain<WrapInArray> = StageChain::new();
    chain.add_stage(WrapInArray, Value::Null);
    let mut executor = Executor::new(connector, chain);
    let report = executor.run(&Value::Null, &NeverCancel);
    assert_eq!(report.status, FlowStatus::Completed);
    assert_eq!(report.outcomes.len(), 3);
    assert_eq!(
        report.outcomes[0],
        RecordOutcome::Success(Value::Array(vec![Value::Int(1)]))
    );
    assert_eq!(
        report.outcomes[1],
        RecordOutcome::Success(Value::Array(vec![Value::Int(2)]))
    );
    assert_eq!(
        report.outcomes[2],
        RecordOutcome::Success(Value::Array(vec![Value::Int(3)]))
    );
    assert!(report.error.is_none());
    assert!(report.close_error.is_none());
    assert_eq!(executor.connector.source().close_calls, 1);
}

#[test]
fn bad_record_is_isolated_from_its_neighbours() {
    let script = vec![
        StreamEvent::RecordFailure("bad-json".to_string()),
        StreamEvent::Record(Value::Int(2)),
        StreamEvent::Record(Value::Int(3)),
    ];
    let connector = ScriptedConnector::new(script, true, None);
    let mut chain: StageChain<PassThrough> = StageChain::new();
    chain.add_stage(PassThrough, Value::Null);
    let mut executor = Executor::new(connector, chain);
    let report = executor.run(&Value::Null, &NeverCancel);
    assert_eq!(report.status, FlowStatus::CompletedWithErrors);
    assert_eq!(report.outcomes.len(), 3);
    assert_eq!(
        report.outcomes[0],
        RecordOutcome::Failure {
            stage: None,
            message: "bad-json".to_string()
        }
    );
    assert_eq!(report.outcomes[1], RecordOutcome::Success(Value::Int(2)));
    assert_eq!(report.outcomes[2], RecordOutcome::Success(Value::Int(3)));
    assert_eq!(executor.connector.source().close_calls, 1);
}

#[test]
fn fatal_error_stops_stream_and_still_closes() {
    let script = vec![
        StreamEvent::Record(Value::Int(1)),
        StreamEvent::Fatal("connection lost".to_string()),
        StreamEvent::Record(Value::Int(2)),
    ];
    let connector = ScriptedConnector::new(script, true, None);
    let mut chain: StageChain<PassThrough> = StageChain::new();
    chain.add_stage(PassThrough, Value::Null);
    let mut executor = Executor::new(connector, chain);
    let report = executor.run(&Value::Null, &NeverCancel);
    assert_eq!(report.status, FlowStatus::Failed);
    assert_eq!(report.outcomes.len(), 1);
    assert_eq!(report.outcomes[0], RecordOutcome::Success(Value::Int(1)));
    assert_eq!(report.error, Some("connection lost".to_string()));
    assert_eq!(executor.connector.source().close_calls, 1);
}

#[test]
fn cancellation_between_records_stops_pulling_and_closes() {
    let script = vec![
        StreamEvent::Record(Value::Int(1)),
        StreamEvent::Record(Value::Int(2)),
    ];
    let connector = ScriptedConnector::new(script, true, None);
    let mut chain: StageChain<PassThrough> = StageChain::new();
    chain.add_stage(PassThrough, Value::Null);
    let mut executor = Executor::new(connector, chain);
    let report = executor.run(&Value::Null, &CancelAtBoundary { at: 1 });
    assert_eq!(report.status, FlowStatus::Cancelled);
    assert_eq!(report.outcomes.len(), 1);
    assert_eq!(report.outcomes[0], RecordOutcome::Success(Value::Int(1)));
    assert!(report.error.is_none());
    assert_eq!(executor.connector.source().close_calls, 1);
}

#[test]
fn cancellation_before_first_record_yields_nothing() {
    let script = vec![StreamEvent::Record(Value::Int(1))];
    let connector = ScriptedConnector::new(script, true, None);
    let chain: StageChain<PassThrough> = StageChain::new();
    let mut executor = Executor::new(connector, chain);
    let report = executor.run(&Value::Null, &CancelAtBoundary { at: 0 });
    assert_eq!(report.status, FlowStatus::Cancelled);
    assert!(report.outcomes.is_empty());
    assert_eq!(executor.connector.source().close_calls, 1);
}

#[test]
fn startup_failure_reads_nothing_and_still_closes() {
    let script = vec![StreamEvent::Record(Value::Int(1))];
    let connector = ScriptedConnector::new(script, false, None);
    let chain: StageChain<PassThrough> = StageChain::new();
    let mut executor = Executor::new(connector, chain);
    let report = executor.run(&Value::Null, &NeverCancel);
    assert_eq!(report.status, FlowStatus::Failed);
    assert!(report.outcomes.is_empty());
    assert_eq!(
        report.error,
        Some("scripted connector refuses to connect".to_string())
    );
    assert_eq!(executor.connector.source().close_calls, 1);
}

#[test]
fn stage_rejection_is_reported_with_stage_index() {
    let script = vec![
        StreamEvent::Record(Value::Null),
        StreamEvent::Record(Value::Int(7)),
    ];
    let connector = ScriptedConnector::new(script, true, None);
    let mut chain: StageChain<RejectNull> = StageChain::new();
    chain.add_stage(RejectNull, Value::Null);
    let mut executor = Executor::new(connector, chain);
    let report = executor.run(&Value::Null, &NeverCancel);
    assert_eq!(report.status, FlowStatus::CompletedWithErrors);
    assert_eq!(report.outcomes.len(), 2);
    assert_eq!(
        report.outcomes[0],
        RecordOutcome::Failure {
            stage: Some(0),
            message: "null record".to_string()
        }
    );
    assert_eq!(report.outcomes[1], RecordOutcome::Success(Value::Int(7)));
    assert_eq!(executor.connector.source().close_calls, 1);
}

#[test]
fn empty_stream_completes_clean() {
    let connector = ScriptedConnector::new(Vec::new(), true, None);
    let mut chain: StageChain<BasicFunction> = StageChain::new();
    chain.add_stage(BasicFunction::Pass(PassThrough), Value::Null);
    let mut executor = Executor::new(connector, chain);
    let report = executor.run(&Value::Null, &NeverCancel);
    assert_eq!(report.status, FlowStatus::Completed);
    assert!(report.outcomes.is_empty());
    assert_eq!(executor.connector.source().close_calls, 1);
}

#[test]
fn fatal_error_before_any_record_yields_no_outcomes() {
    let script = vec![StreamEvent::Fatal("source corrupted".to_string())];
    let connector = ScriptedConnector::new(script, true, None);
    let chain: StageChain<PassThrough> = StageChain::new();
    let mut executor = Executor::new(connector, chain);
    let report = executor.run(&Value::Null, &NeverCancel);
    assert_eq!(report.status, FlowStatus::Failed);
    assert!(report.outcomes.is_empty());
    assert_eq!(report.error, Some("source corrupted".to_string()));
    assert_eq!(executor.connector.source().close_calls, 1);
}
