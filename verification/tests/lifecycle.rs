use ekb_core::connectors::{
    ConnectorError, LifecycleState, ManagedConnector, SchemaError, StreamEvent,
};
use ekb_core::plugins::ScriptedConnector;
use ekb_core::value::Value;

#[test]
fn read_before_connect_is_an_invalid_state_error() {
    let connector = ScriptedConnector::new(vec![StreamEvent::Record(Value::Int(1))], true, None);
    let mut managed = ManagedConnector::new(connector);
    assert_eq!(
        managed.read_next(),
        Err(ConnectorError::InvalidState(LifecycleState::Uninitialized))
    );
    assert_eq!(managed.state(), LifecycleState::Uninitialized);
    assert!(managed.connect(&Value::Null).is_ok());
    assert_eq!(
        managed.read_next(),
        Ok(Some(StreamEvent::Record(Value::Int(1))))
    );
}

#[test]
fn double_connect_is_rejected() {
    let connector = ScriptedConnector::new(Vec::new(), true, None);
    let mut managed = ManagedConnector::new(connector);
    assert!(managed.connect(&Value::Null).is_ok());
    assert_eq!(
        managed.connect(&Value::Null),
        Err(ConnectorError::InvalidState(LifecycleState::Connected))
    );
    assert_eq!(managed.state(), LifecycleState::Connected);
}

#[test]
fn exhausted_stream_is_not_restartable() {
    let connector = ScriptedConnector::new(Vec::new(), true, None);
    let mut managed = ManagedConnector::new(connector);
    assert!(managed.connect(&Value::Null).is_ok());
    assert_eq!(managed.read_next(), Ok(None));
    assert_eq!(managed.state(), LifecycleState::Exhausted);
    assert_eq!(
        managed.read_next(),
        Err(ConnectorError::InvalidState(LifecycleState::Exhausted))
    );
}

#[test]
fn fatal_event_forbids_further_reads() {
    let connector = ScriptedConnector::new(
        vec![
            StreamEvent::Fatal("source corrupted".to_string()),
            StreamEvent::Record(Value::Int(1)),
        ],
        true,
        None,
    );
    let mut managed = ManagedConnector::new(connector);
    assert!(managed.connect(&Value::Null).is_ok());
    assert_eq!(
        managed.read_next(),
        Ok(Some(StreamEvent::Fatal("source corrupted".to_string())))
    );
    assert_eq!(managed.state(), LifecycleState::Failed);
    assert_eq!(
        managed.read_next(),
        Err(ConnectorError::InvalidState(LifecycleState::Failed))
    );
}

#[test]
fn close_releases_once_and_is_idempotent() {
    let connector = ScriptedConnector::new(Vec::new(), true, None);
    let mut managed = ManagedConnector::new(connector);
    assert!(managed.connect(&Value::Null).is_ok());
    assert!(managed.close().is_ok());
    assert_eq!(managed.state(), LifecycleState::Closed);
    assert!(managed.close().is_ok());
    assert_eq!(managed.source().close_calls, 1);
}

#[test]
fn close_from_uninitialized_still_releases() {
    let connector = ScriptedConnector::new(Vec::new(), true, None);
    let mut managed = ManagedConnector::new(connector);
    assert!(managed.close().is_ok());
    assert_eq!(managed.state(), LifecycleState::Closed);
    assert_eq!(managed.source().close_calls, 1);
}

#[test]
fn connect_after_close_is_rejected() {
    let connector = ScriptedConnector::new(Vec::new(), true, None);
    let mut managed = ManagedConnector::new(connector);
    assert!(managed.close().is_ok());
    assert_eq!(
        managed.connect(&Value::Null),
        Err(ConnectorError::InvalidState(LifecycleState::Closed))
    );
}

#[test]
fn failed_connect_reports_the_source_message() {
    let connector = ScriptedConnector::new(Vec::new(), false, None);
    let mut managed = ManagedConnector::new(connector);
    assert_eq!(
        managed.connect(&Value::Null),
        Err(ConnectorError::Source(
            "scripted connector refuses to connect".to_string()
        ))
    );
    assert_eq!(managed.state(), LifecycleState::Uninitialized);
}

#[test]
fn schema_is_served_in_every_state_but_closed() {
    let schema = Value::Text("record schema".to_string());
    let connector =
        ScriptedConnector::new(Vec::new(), true, Some(schema));
    let mut managed = ManagedConnector::new(connector);
    assert_eq!(
        managed.schema(),
        Ok(Value::Text("record schema".to_string()))
    );
    assert!(managed.connect(&Value::Null).is_ok());
    assert_eq!(
        managed.schema(),
        Ok(Value::Text("record schema".to_string()))
    );
    assert!(managed.close().is_ok());
    assert_eq!(managed.schema(), Err(SchemaError::ConnectorClosed));
}

#[test]
fn schema_unavailable_is_reported_not_blocking() {
    let connector = ScriptedConnector::new(Vec::new(), true, None);
    let managed = ManagedConnector::new(connector);
    assert_eq!(
        managed.schema(),
        Err(SchemaError::Unavailable("schema unavailable".to_string()))
    );
}
