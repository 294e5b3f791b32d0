//! The pipeline executor: owns one source connector and one stage chain for
//! one flow execution, drives the connector lifecycle, pulls the record
//! stream, applies the chain to each record, and reports per-record outcomes
//! and a flow status.
//!
//! The executor isolates per-record faults (one failed record never ends the
//! stream), stops pulling after a fatal stream error, honours a cooperative
//! cancellation signal checked at each record boundary, and releases the
//! connector exactly once in every case — clean end, startup failure, fatal
//! error or cancellation.

use vstd::pervasive::unreached;
use vstd::prelude::*;

use crate::chain::{apply_stages, ChainOutcome, StageChain};
use crate::connectors::{
    ConnectorError, EventModel, LifecycleState, ManagedConnector, SourceConnector, StreamEvent,
};
use crate::functions::EnrichmentFunction;
use crate::value::{Value, ValueModel};

verus! {

broadcast use vstd::std_specs::vec::group_vec_axioms, vstd::seq::group_seq_axioms;

/// A cooperative cancellation signal, consulted once per record boundary:
/// before the first pull, and between any two pulls. It never preempts a
/// stage mid-record.
pub trait CancelSignal: Sized {
    /// Whether the signal requests cancellation at the given boundary.
    spec fn fires_at(&self, boundary: int) -> bool;

    /// Consults the signal at one record boundary.
    fn is_cancelled(&self, boundary: usize) -> (r: bool)
        ensures
            r == self.fires_at(boundary as int),
    ;
}

/// A signal that never cancels: the flow runs to its natural end.
pub struct NeverCancel;

impl CancelSignal for NeverCancel {
    open spec fn fires_at(&self, boundary: int) -> bool {
        false
    }

    fn is_cancelled(&self, boundary: usize) -> (r: bool) {
        false
    }
}

/// A signal that requests cancellation from the given record boundary on:
/// boundary `0` is before the first pull, boundary `k` is after `k` records
/// have been pulled.
pub struct CancelAtBoundary {
    /// The first boundary at which the signal fires.
    pub at: usize,
}

impl CancelSignal for CancelAtBoundary {
    open spec fn fires_at(&self, boundary: int) -> bool {
        boundary >= self.at as int
    }

    fn is_cancelled(&self, boundary: usize) -> (r: bool) {
        boundary >= self.at
    }
}

/// The reported end of one flow.
#[derive(Clone, Copy, PartialEq, Eq, Structural, Debug)]
pub enum FlowStatus {
    /// Clean end-of-stream with every record enriched.
    Completed,
    /// End-of-stream reached, but at least one record failed.
    CompletedWithErrors,
    /// Startup failed or the stream ended with a fatal error.
    Failed,
    /// The cancellation signal stopped the flow at a record boundary.
    Cancelled,
}

/// The outcome of one record, delivered in stream order.
#[derive(PartialEq, Eq, Debug)]
pub enum RecordOutcome {
    /// The record passed every stage; this is the enriched record.
    Success(Value),
    /// The record failed: at the named stage, or already at the connector
    /// when no stage is named.
    Failure { stage: Option<usize>, message: String },
}

/// Model of one record outcome.
pub enum OutcomeModel {
    Success(ValueModel),
    Failure { stage: Option<int>, message: Seq<char> },
}

impl View for RecordOutcome {
    type V = OutcomeModel;

    open spec fn view(&self) -> OutcomeModel {
        match *self {
            RecordOutcome::Success(v) => OutcomeModel::Success(v@),
            RecordOutcome::Failure { stage, message } => OutcomeModel::Failure {
                stage: match stage {
                    Some(k) => Some(k as int),
                    None => None,
                },
                message: message@,
            },
        }
    }
}

/// The models of a sequence of record outcomes.
pub open spec fn outcomes_model(s: Seq<RecordOutcome>) -> Seq<OutcomeModel> {
    s.map_values(|o: RecordOutcome| o@)
}

/// The outcome the chain's verdict turns into.
pub open spec fn outcome_of_chain(r: Result<ValueModel, (int, Seq<char>)>) -> OutcomeModel {
    match r {
        Ok(v) => OutcomeModel::Success(v),
        Err(e) => OutcomeModel::Failure { stage: Some(e.0), message: e.1 },
    }
}

/// The outcome one stream event turns into: a record runs through the
/// chain; a per-record failure is forwarded without running the chain.
pub open spec fn event_outcome<F: EnrichmentFunction>(
    stages: Seq<(F, ValueModel)>,
    e: EventModel,
) -> OutcomeModel {
    match e {
        EventModel::Record(v) => outcome_of_chain(apply_stages(stages, v)),
        EventModel::RecordFailure(m) => OutcomeModel::Failure { stage: None, message: m },
        EventModel::Fatal(m) => OutcomeModel::Failure { stage: None, message: m },
    }
}

/// The outcomes a flow delivers: one per event, in stream order, until
/// end-of-stream, a fatal event, or the first boundary at which the signal
/// fires. A fatal event delivers no outcome of its own.
pub open spec fn flow_outcomes<F: EnrichmentFunction, S: CancelSignal>(
    events: Seq<EventModel>,
    stages: Seq<(F, ValueModel)>,
    signal: S,
    boundary: int,
) -> Seq<OutcomeModel>
    decreases events.len(),
{
    if signal.fires_at(boundary) {
        Seq::empty()
    } else if events.len() == 0 {
        Seq::empty()
    } else if events[0] is Fatal {
        Seq::empty()
    } else {
        seq![event_outcome(stages, events[0])] + flow_outcomes(
            events.skip(1),
            stages,
            signal,
            boundary + 1,
        )
    }
}

/// How the streaming phase of a flow ends.
pub enum StreamEnd {
    /// Clean end-of-stream.
    Drained,
    /// The connector signalled this fatal stream error.
    Fatal(Seq<char>),
    /// The cancellation signal fired at a record boundary.
    Cancelled,
}

/// How a flow over these events ends, from the given boundary on.
pub open spec fn flow_end<S: CancelSignal>(
    events: Seq<EventModel>,
    signal: S,
    boundary: int,
) -> StreamEnd
    decreases events.len(),
{
    if signal.fires_at(boundary) {
        StreamEnd::Cancelled
    } else if events.len() == 0 {
        StreamEnd::Drained
    } else if events[0] is Fatal {
        StreamEnd::Fatal(events[0]->Fatal_0)
    } else {
        flow_end(events.skip(1), signal, boundary + 1)
    }
}

/// Whether any outcome is a failure.
pub open spec fn has_failure(outs: Seq<OutcomeModel>) -> bool {
    exists|i: int| 0 <= i < outs.len() && outs[i] is Failure
}

/// The status a flow reports for its outcomes and its end: cancellation and
/// fatal errors dominate; a drained stream completed, with errors exactly
/// when a record failed.
pub open spec fn flow_status(outs: Seq<OutcomeModel>, end: StreamEnd) -> FlowStatus {
    match end {
        StreamEnd::Cancelled => FlowStatus::Cancelled,
        StreamEnd::Fatal(m) => FlowStatus::Failed,
        StreamEnd::Drained => if has_failure(outs) {
            FlowStatus::CompletedWithErrors
        } else {
            FlowStatus::Completed
        },
    }
}

/// Everything one flow execution reports: the per-record outcomes in
/// delivery order, the flow status, the startup or fatal stream error if one
/// occurred, and the close error if releasing the connector failed. A close
/// failure is reported but never downgrades the already-determined status.
pub struct FlowReport {
    /// One outcome per record, in stream order.
    pub outcomes: Vec<RecordOutcome>,
    /// The flow's final status.
    pub status: FlowStatus,
    /// The startup failure or fatal stream error, if the status is `Failed`.
    pub error: Option<String>,
    /// The error the connector's close reported, if any.
    pub close_error: Option<String>,
}

/// The pipeline executor for one flow: the sole owner and sole lifecycle
/// mutator of its source connector, plus the stage chain applied to every
/// record.
pub struct Executor<C: SourceConnector, F: EnrichmentFunction> {
    /// The lifecycle-managed source connector of this flow.
    pub connector: ManagedConnector<C>,
    /// The ordered enrichment stages of this flow.
    pub chain: StageChain<F>,
}

impl<C: SourceConnector, F: EnrichmentFunction> Executor<C, F> {
    /// Builds the executor for one flow from a fresh connector instance and
    /// the chain to apply.
    pub fn new(source: C, chain: StageChain<F>) -> (r: Self)
        ensures
            r.connector.lifecycle() == LifecycleState::Uninitialized,
            r.connector.src() == source,
            r.chain == chain,
    {
        Executor { connector: ManagedConnector::new(source), chain }
    }

    /// Runs the flow to its end and reports what happened.
    ///
    /// Connects first; on startup failure nothing is read and the status is
    /// `Failed`. Then each pulled record runs through the chain and yields
    /// one outcome in stream order; a per-record failure from the connector
    /// is forwarded without running the chain; a fatal stream error or a
    /// firing cancellation signal stops further pulls. In every case —
    /// including startup failure — the connector is released exactly once.
    pub fn run<S: CancelSignal>(&mut self, config: &Value, signal: &S) -> (r: FlowReport)
        requires
            old(self).connector.lifecycle() == LifecycleState::Uninitialized,
            old(self).connector.src().connect_ok(config@) ==> old(self)
                .connector
                .src()
                .fresh_events(config@)
                .len() < usize::MAX,
        ensures
            final(self).connector.lifecycle() == LifecycleState::Closed,
            final(self).connector.src().closes() == old(self).connector.src().closes() + 1,
            final(self).chain == old(self).chain,
            !old(self).connector.src().connect_ok(config@) ==> {
                &&& r.status == FlowStatus::Failed
                &&& r.outcomes@.len() == 0
                &&& r.error is Some
            },
            old(self).connector.src().connect_ok(config@) ==> {
                let evs = old(self).connector.src().fresh_events(config@);
                let stages = old(self).chain@;
                &&& outcomes_model(r.outcomes@) == flow_outcomes(evs, stages, *signal, 0)
                &&& r.status == flow_status(
                    flow_outcomes(evs, stages, *signal, 0),
                    flow_end(evs, *signal, 0),
                )
                &&& (flow_end(evs, *signal, 0) matches StreamEnd::Fatal(m) ==> r.error
                    matches Some(e) && e@ == m)
                &&& (!(flow_end(evs, *signal, 0) is Fatal) ==> r.error is None)
            },
    {
        match self.connector.connect(config) {
            Err(e) => {
                let error = match e {
                    ConnectorError::Source(m) => Some(m),
                    ConnectorError::InvalidState(_) => unreached(),
                };
                let close_error = close_for_report(&mut self.connector);
                return FlowReport {
                    outcomes: Vec::new(),
                    status: FlowStatus::Failed,
                    error,
                    close_error,
                };
            },
            Ok(()) => {},
        }
        let (outcomes, status, error) = pump(&mut self.connector, &self.chain, signal);
        let close_error = close_for_report(&mut self.connector);
        FlowReport { outcomes, status, error, close_error }
    }
}

/// Releases the connector and keeps only the message of a failed close for
/// the report.
fn close_for_report<C: SourceConnector>(connector: &mut ManagedConnector<C>) -> (r: Option<
    String,
>)
    requires
        old(connector).lifecycle() != LifecycleState::Closed,
    ensures
        final(connector).lifecycle() == LifecycleState::Closed,
        final(connector).src().closes() == old(connector).src().closes() + 1,
{
    match connector.close() {
        Ok(()) => None,
        Err(ConnectorError::Source(m)) => Some(m),
        Err(ConnectorError::InvalidState(_)) => unreached(),
    }
}

/// The streaming phase: pulls events from a connected connector, applies the
/// chain to each record, and collects the outcomes, the status and the fatal
/// error, if any, exactly as the flow model prescribes.
#[verifier::loop_isolation(false)]
fn pump<C: SourceConnector, F: EnrichmentFunction, S: CancelSignal>(
    connector: &mut ManagedConnector<C>,
    chain: &StageChain<F>,
    signal: &S,
) -> (r: (Vec<RecordOutcome>, FlowStatus, Option<String>))
    requires
        old(connector).lifecycle() == LifecycleState::Connected,
        old(connector).src().pending().len() < usize::MAX,
    ensures
        final(connector).lifecycle() != LifecycleState::Closed,
        final(connector).src().closes() == old(connector).src().closes(),
        ({
            let evs = old(connector).src().pending();
            let stages = chain@;
            &&& outcomes_model(r.0@) == flow_outcomes(evs, stages, *signal, 0)
            &&& r.1 == flow_status(
                flow_outcomes(evs, stages, *signal, 0),
                flow_end(evs, *signal, 0),
            )
            &&& (flow_end(evs, *signal, 0) matches StreamEnd::Fatal(m) ==> r.2 matches Some(e)
                && e@ == m)
            &&& (!(flow_end(evs, *signal, 0) is Fatal) ==> r.2 is None)
        }),
{
    let ghost evs = old(connector).src().pending();
    let ghost stages = chain@;
    let mut outcomes: Vec<RecordOutcome> = Vec::new();
    let mut boundary: usize = 0;
    let mut any_failed: bool = false;
    proof {
        assert(evs.skip(0) =~= evs);
        assert(outcomes_model(outcomes@) + flow_outcomes(evs, stages, *signal, 0) =~= flow_outcomes(
            evs,
            stages,
            *signal,
            0,
        ));
    }
    loop
        invariant
            connector.lifecycle() == LifecycleState::Connected,
            connector.src().closes() == old(connector).src().closes(),
            boundary as int <= evs.len(),
            connector.src().pending() == evs.skip(boundary as int),
            outcomes_model(outcomes@) + flow_outcomes(
                evs.skip(boundary as int),
                stages,
                *signal,
                boundary as int,
            ) == flow_outcomes(evs, stages, *signal, 0),
            flow_end(evs.skip(boundary as int), *signal, boundary as int) == flow_end(
                evs,
                *signal,
                0,
            ),
            any_failed == has_failure(outcomes_model(outcomes@)),
        decreases evs.len() - boundary,
    {
        let ghost rest = evs.skip(boundary as int);
        if signal.is_cancelled(boundary) {
            proof {
                assert(flow_outcomes(rest, stages, *signal, boundary as int)
                    =~= Seq::<OutcomeModel>::empty());
                assert(outcomes_model(outcomes@) + Seq::<OutcomeModel>::empty()
                    =~= outcomes_model(outcomes@));
            }
            return (outcomes, FlowStatus::Cancelled, None);
        }
        match connector.read_next() {
            Ok(Some(event)) => {
                proof {
                    assert(rest.len() > 0);
                    assert(event@ == rest[0]);
                    assert(rest.skip(1) =~= evs.skip(boundary as int + 1));
                }
                match event {
                    StreamEvent::Record(v) => {
                        let ghost old_outs = outcomes@;
                        let outcome = match chain.apply(v) {
                            ChainOutcome::Enriched(w) => RecordOutcome::Success(w),
                            ChainOutcome::Rejected { stage, message } => RecordOutcome::Failure {
                                stage: Some(stage),
                                message,
                            },
                        };
                        proof {
                            assert(outcome@ == event_outcome(stages, rest[0]));
                        }
                        if outcome.is_failure() {
                            any_failed = true;
                        }
                        outcomes.push(outcome);
                        proof {
                            assert(outcomes_model(outcomes@) =~= outcomes_model(old_outs).push(
                                outcomes@.last()@));
                            lemma_has_failure_push(outcomes_model(old_outs), outcomes@.last()@);
                            assert(outcomes_model(old_outs).push(outcomes@.last()@)
                                + flow_outcomes(evs.skip(boundary as int + 1), stages, *signal,
                                    boundary as int + 1) =~= outcomes_model(old_outs) + (seq![
                                event_outcome(stages, rest[0]),
                            ] + flow_outcomes(evs.skip(boundary as int + 1), stages, *signal,
                                boundary as int + 1)));
                        }
                        boundary = boundary + 1;
                    },
                    StreamEvent::RecordFailure(m) => {
                        let ghost old_outs = outcomes@;
                        let outcome = RecordOutcome::Failure { stage: None, message: m };
                        proof {
                            assert(outcome@ == event_outcome(stages, rest[0]));
                        }
                        any_failed = true;
                        outcomes.push(outcome);
                        proof {
                            assert(outcomes_model(outcomes@) =~= outcomes_model(old_outs).push(
                                outcomes@.last()@));
                            lemma_has_failure_push(outcomes_model(old_outs), outcomes@.last()@);
                            assert(outcomes_model(old_outs).push(outcomes@.last()@)
                                + flow_outcomes(evs.skip(boundary as int + 1), stages, *signal,
                                    boundary as int + 1) =~= outcomes_model(old_outs) + (seq![
                                event_outcome(stages, rest[0]),
                            ] + flow_outcomes(evs.skip(boundary as int + 1), stages, *signal,
                                boundary as int + 1)));
                        }
                        boundary = boundary + 1;
                    },
                    StreamEvent::Fatal(m) => {
                        proof {
                            assert(flow_end(rest, *signal, boundary as int) == StreamEnd::Fatal(
                                m@));
                            assert(flow_outcomes(rest, stages, *signal, boundary as int)
                                =~= Seq::<OutcomeModel>::empty());
                            assert(outcomes_model(outcomes@) + Seq::<OutcomeModel>::empty()
                                =~= outcomes_model(outcomes@));
                        }
                        return (outcomes, FlowStatus::Failed, Some(m));
                    },
                }
            },
            Ok(None) => {
                proof {
                    assert(rest.len() == 0);
                    assert(flow_end(rest, *signal, boundary as int) == StreamEnd::Drained);
                    assert(flow_outcomes(rest, stages, *signal, boundary as int)
                        =~= Seq::<OutcomeModel>::empty());
                    assert(outcomes_model(outcomes@) + Seq::<OutcomeModel>::empty()
                        =~= outcomes_model(outcomes@));
                }
                let status = if any_failed {
                    FlowStatus::CompletedWithErrors
                } else {
                    FlowStatus::Completed
                };
                return (outcomes, status, None);
            },
            Err(_) => {
                return unreached();
            },
        }
    }
}

/// Order preservation and fault isolation: in a flow whose events hold no
/// fatal error and whose signal never fires at a reached boundary, every
/// event yields exactly one outcome, in stream order — the outcome at
/// position `i` is the outcome of the event at position `i`, so a failed
/// record neither ends the stream nor disturbs its neighbours — and the
/// stream ends drained.
pub proof fn lemma_flow_outcomes_isolated<F: EnrichmentFunction, S: CancelSignal>(
    events: Seq<EventModel>,
    stages: Seq<(F, ValueModel)>,
    signal: S,
    boundary: int,
)
    requires
        forall|i: int| 0 <= i < events.len() ==> !(#[trigger] events[i] is Fatal),
        forall|b: int| boundary <= b <= boundary + events.len() ==> !(#[trigger] signal.fires_at(
            b)),
    ensures
        flow_outcomes(events, stages, signal, boundary).len() == events.len(),
        forall|i: int| 0 <= i < events.len() ==> #[trigger] flow_outcomes(
            events,
            stages,
            signal,
            boundary,
        )[i] == event_outcome(stages, events[i]),
        flow_end(events, signal, boundary) == StreamEnd::Drained,
    decreases events.len(),
{
    if events.len() == 0 {
        assert(!signal.fires_at(boundary));
    } else {
        assert(!signal.fires_at(boundary));
        assert(!(events[0] is Fatal));
        let tail = events.skip(1);
        assert(forall|i: int| 0 <= i < tail.len() ==> !(#[trigger] tail[i] is Fatal));
        lemma_flow_outcomes_isolated(tail, stages, signal, boundary + 1);
        let outs = flow_outcomes(events, stages, signal, boundary);
        let tail_outs = flow_outcomes(tail, stages, signal, boundary + 1);
        assert(outs == seq![event_outcome(stages, events[0])] + tail_outs);
        assert forall|i: int| 0 <= i < events.len() implies #[trigger] outs[i] == event_outcome(
            stages,
            events[i],
        ) by {
            if i > 0 {
                assert(outs[i] == tail_outs[i - 1]);
                assert(tail[i - 1] == events[i]);
            }
        }
    }
}

impl RecordOutcome {
    /// True exactly when this outcome reports a failure.
    pub fn is_failure(&self) -> (r: bool)
        ensures
            r == (self@ is Failure),
    {
        matches!(self, RecordOutcome::Failure { .. })
    }
}

/// Appending one outcome to a sequence leaves a failure in it exactly when
/// one was already there or the appended outcome is one.
proof fn lemma_has_failure_push(outs: Seq<OutcomeModel>, o: OutcomeModel)
    ensures
        has_failure(outs.push(o)) == (has_failure(outs) || o is Failure),
{
    if has_failure(outs) {
        let i = choose|i: int| 0 <= i < outs.len() && outs[i] is Failure;
        assert(outs.push(o)[i] is Failure);
    } else if o is Failure {
        assert(outs.push(o)[outs.len() as int] is Failure);
    } else {
        if has_failure(outs.push(o)) {
            let i = choose|i: int| 0 <= i < outs.push(o).len() && outs.push(o)[i] is Failure;
            if i < outs.len() {
                assert(outs[i] is Failure);
            }
        }
    }
}

} // verus!
