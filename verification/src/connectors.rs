//! Source connectors: the capability that pulls records from a data source,
//! and the lifecycle state machine that makes its call-order contract
//! explicit.
//!
//! A connector is polymorphic over connect, read, schema and close. Its
//! stream is a lazy, single-pass, pull-based cursor: each advance yields one
//! record, one per-record failure, one fatal stream error, or signals
//! end-of-stream. The [`ManagedConnector`] wrapper owns the lifecycle state,
//! checks it on every call, and rejects illegal transitions deterministically
//! instead of leaving call order as a documentation-only contract.

use vstd::prelude::*;

use crate::value::{Value, ValueModel};

verus! {

broadcast use vstd::std_specs::vec::group_vec_axioms, vstd::seq::group_seq_axioms;

/// One advance of a connector's record stream, short of end-of-stream:
/// a record, an isolated per-record failure, or a fatal stream error after
/// which the source is unusable.
#[derive(PartialEq, Eq, Debug)]
pub enum StreamEvent {
    /// One successfully read record.
    Record(Value),
    /// One record that could not be read or parsed; the stream continues.
    RecordFailure(String),
    /// The source itself has become unusable; the stream is over.
    Fatal(String),
}

/// Model of one stream event.
pub enum EventModel {
    Record(ValueModel),
    RecordFailure(Seq<char>),
    Fatal(Seq<char>),
}

impl View for StreamEvent {
    type V = EventModel;

    open spec fn view(&self) -> EventModel {
        match *self {
            StreamEvent::Record(v) => EventModel::Record(v@),
            StreamEvent::RecordFailure(m) => EventModel::RecordFailure(m@),
            StreamEvent::Fatal(m) => EventModel::Fatal(m@),
        }
    }
}

/// Model of a schema result: the advertised shape, or the message of a
/// connector that cannot determine one.
pub open spec fn schema_model_of(r: Result<Value, String>) -> Result<ValueModel, Seq<char>> {
    match r {
        Ok(v) => Ok(v@),
        Err(m) => Err(m@),
    }
}

/// The capability set of a source connector plugin.
///
/// The spec functions model the behaviour a conforming plugin promises:
/// whether a connection attempt with a given configuration succeeds, the
/// event stream it then serves, the stream still pending, a schema
/// description, and how often its resources have been released. The method
/// contracts tie each call to that model; the pipeline executor is verified
/// against the contracts alone and therefore works with every conforming
/// plugin.
pub trait SourceConnector: Sized {
    /// Whether a connect attempt with this configuration succeeds.
    spec fn connect_ok(&self, config: ValueModel) -> bool;

    /// The event stream served after a successful connect with this
    /// configuration.
    spec fn fresh_events(&self, config: ValueModel) -> Seq<EventModel>;

    /// The events not yet pulled from the current stream.
    spec fn pending(&self) -> Seq<EventModel>;

    /// How many times this connector has released its resources.
    spec fn closes(&self) -> nat;

    /// The schema this connector advertises, or why it cannot.
    spec fn schema_model(&self) -> Result<ValueModel, Seq<char>>;

    /// Establishes the connection to the source using the supplied
    /// configuration, which stays owned by the caller.
    fn connect(&mut self, config: &Value) -> (r: Result<(), String>)
        ensures
            r is Ok <==> old(self).connect_ok(config@),
            r is Ok ==> final(self).pending() == old(self).fresh_events(config@),
            final(self).closes() == old(self).closes(),
    ;

    /// Advances the stream by one event; yields end-of-stream (`None`) when
    /// no event is pending. The stream is single-pass: a pulled event is
    /// gone, and a fresh stream takes a new connect.
    fn read_data(&mut self) -> (r: Option<StreamEvent>)
        ensures
            old(self).pending().len() == 0 ==> r is None && final(self).pending().len() == 0,
            old(self).pending().len() > 0 ==> (r matches Some(e) && e@ == old(self).pending()[0])
                && final(self).pending() == old(self).pending().skip(1),
            final(self).closes() == old(self).closes(),
    ;

    /// Describes the shape of the records this connector produces. Computed
    /// on demand; a connector unable to determine a schema reports why
    /// instead of blocking.
    fn schema(&self) -> (r: Result<Value, String>)
        ensures
            schema_model_of(r) == self.schema_model(),
    ;

    /// Releases all underlying resources.
    fn close(&mut self) -> (r: Result<(), String>)
        ensures
            final(self).closes() == old(self).closes() + 1,
    ;
}

/// Lifecycle state of one source connector instance. The managed wrapper is
/// the sole mutator.
#[derive(Clone, Copy, PartialEq, Eq, Structural, Debug)]
pub enum LifecycleState {
    /// No connect has succeeded yet.
    Uninitialized,
    /// Connected; the stream may be pulled.
    Connected,
    /// The stream reached a clean end-of-stream.
    Exhausted,
    /// Resources are released; nothing but a fresh instance serves again.
    Closed,
    /// The source signalled a fatal stream error.
    Failed,
}

/// Error of a lifecycle-checked connector operation.
#[derive(PartialEq, Eq, Debug)]
pub enum ConnectorError {
    /// The operation is illegal in the current lifecycle state: a
    /// programming or integration error, surfaced immediately and without
    /// corrupting any state.
    InvalidState(LifecycleState),
    /// The connector plugin itself reported a failure.
    Source(String),
}

/// Error of a lifecycle-checked schema request.
#[derive(PartialEq, Eq, Debug)]
pub enum SchemaError {
    /// The connector is already closed; a schema may be requested in every
    /// other state.
    ConnectorClosed,
    /// The connector cannot determine a schema.
    Unavailable(String),
}

/// A source connector together with its explicit lifecycle state.
///
/// Every operation checks the state first and rejects an illegal transition
/// with [`ConnectorError::InvalidState`]; the underlying plugin is only
/// reached from a legal state.
pub struct ManagedConnector<C: SourceConnector> {
    source: C,
    state: LifecycleState,
}

impl<C: SourceConnector> ManagedConnector<C> {
    /// The current lifecycle state.
    pub closed spec fn lifecycle(&self) -> LifecycleState {
        self.state
    }

    /// The underlying connector, as the model its contracts speak of.
    pub closed spec fn src(&self) -> C {
        self.source
    }

    /// The current lifecycle state, for callers outside any proof.
    pub fn state(&self) -> (r: LifecycleState)
        ensures
            r == self.lifecycle(),
    {
        self.state
    }

    /// A read-only view of the underlying connector.
    pub fn source(&self) -> (r: &C)
        ensures
            *r == self.src(),
    {
        &self.source
    }

    /// Takes ownership of a fresh connector; no connect has happened yet.
    pub fn new(source: C) -> (r: Self)
        ensures
            r.lifecycle() == LifecycleState::Uninitialized,
            r.src() == source,
    {
        ManagedConnector { source, state: LifecycleState::Uninitialized }
    }

    /// Connects exactly once: a second attempt before a completed close
    /// fails with an invalid-state error instead of silently reconnecting.
    pub fn connect(&mut self, config: &Value) -> (r: Result<(), ConnectorError>)
        ensures
            final(self).src().closes() == old(self).src().closes(),
            old(self).lifecycle() != LifecycleState::Uninitialized ==> {
                &&& r == Err::<(), ConnectorError>(ConnectorError::InvalidState(
                    old(self).lifecycle()))
                &&& *final(self) == *old(self)
            },
            old(self).lifecycle() == LifecycleState::Uninitialized ==> {
                &&& r is Ok <==> old(self).src().connect_ok(config@)
                &&& old(self).src().connect_ok(config@) ==> {
                    &&& final(self).lifecycle() == LifecycleState::Connected
                    &&& final(self).src().pending() == old(self).src().fresh_events(config@)
                }
                &&& !old(self).src().connect_ok(config@) ==> {
                    &&& final(self).lifecycle() == LifecycleState::Uninitialized
                    &&& r matches Err(ConnectorError::Source(_))
                }
            },
    {
        if !matches!(self.state, LifecycleState::Uninitialized) {
            return Err(ConnectorError::InvalidState(self.state));
        }
        match self.source.connect(config) {
            Ok(()) => {
                self.state = LifecycleState::Connected;
                Ok(())
            },
            Err(m) => Err(ConnectorError::Source(m)),
        }
    }

    /// Pulls the next stream event. Legal only while connected: before a
    /// successful connect, after exhaustion, after a fatal error and after
    /// close the call fails with an invalid-state error and yields no
    /// record. End-of-stream moves to `Exhausted`; a fatal event moves to
    /// `Failed`, and the stream must not be pulled again.
    pub fn read_next(&mut self) -> (r: Result<Option<StreamEvent>, ConnectorError>)
        ensures
            final(self).src().closes() == old(self).src().closes(),
            old(self).lifecycle() != LifecycleState::Connected ==> {
                &&& r == Err::<Option<StreamEvent>, ConnectorError>(
                    ConnectorError::InvalidState(old(self).lifecycle()))
                &&& *final(self) == *old(self)
            },
            old(self).lifecycle() == LifecycleState::Connected ==> {
                &&& old(self).src().pending().len() == 0 ==> {
                    &&& r == Ok::<Option<StreamEvent>, ConnectorError>(None)
                    &&& final(self).lifecycle() == LifecycleState::Exhausted
                }
                &&& old(self).src().pending().len() > 0 ==> {
                    &&& r matches Ok(Some(e)) && e@ == old(self).src().pending()[0]
                    &&& final(self).src().pending() == old(self).src().pending().skip(1)
                    &&& (old(self).src().pending()[0] is Fatal ==> final(self).lifecycle()
                        == LifecycleState::Failed)
                    &&& (!(old(self).src().pending()[0] is Fatal) ==> final(self).lifecycle()
                        == LifecycleState::Connected)
                }
            },
    {
        if !matches!(self.state, LifecycleState::Connected) {
            return Err(ConnectorError::InvalidState(self.state));
        }
        match self.source.read_data() {
            None => {
                self.state = LifecycleState::Exhausted;
                Ok(None)
            },
            Some(event) => {
                if matches!(event, StreamEvent::Fatal(_)) {
                    self.state = LifecycleState::Failed;
                }
                Ok(Some(event))
            },
        }
    }

    /// Requests the schema. Legal in every state but `Closed`; the schema
    /// path is independent of the read path and never affects a stream in
    /// progress.
    pub fn schema(&self) -> (r: Result<Value, SchemaError>)
        ensures
            self.lifecycle() == LifecycleState::Closed ==> r matches Err(
                SchemaError::ConnectorClosed),
            self.lifecycle() != LifecycleState::Closed ==> match self.src().schema_model() {
                Ok(v) => r matches Ok(s) && s@ == v,
                Err(m) => r matches Err(SchemaError::Unavailable(s)) && s@ == m,
            },
    {
        if matches!(self.state, LifecycleState::Closed) {
            return Err(SchemaError::ConnectorClosed);
        }
        match self.source.schema() {
            Ok(v) => Ok(v),
            Err(m) => Err(SchemaError::Unavailable(m)),
        }
    }

    /// Releases the connector's resources and moves to `Closed`, from any
    /// state: a guaranteed-release obligation, not conditional cleanup.
    /// Calling close on an already closed connector is a safe no-op, so the
    /// underlying release runs exactly once.
    pub fn close(&mut self) -> (r: Result<(), ConnectorError>)
        ensures
            final(self).lifecycle() == LifecycleState::Closed,
            old(self).lifecycle() == LifecycleState::Closed ==> {
                &&& r is Ok
                &&& final(self).src() == old(self).src()
            },
            old(self).lifecycle() != LifecycleState::Closed ==> {
                &&& final(self).src().closes() == old(self).src().closes() + 1
                &&& (r is Ok || r matches Err(ConnectorError::Source(_)))
            },
    {
        if matches!(self.state, LifecycleState::Closed) {
            return Ok(());
        }
        self.state = LifecycleState::Closed;
        match self.source.close() {
            Ok(()) => Ok(()),
            Err(m) => Err(ConnectorError::Source(m)),
        }
    }
}

} // verus!
