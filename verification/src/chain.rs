//! The stage chain: deterministic, ordered application of enrichment
//! functions to one record.
//!
//! Stages run in declared order; the output of stage `i` is the input of
//! stage `i + 1`. If a stage rejects the record the chain short-circuits:
//! later stages do not run, and the record is reported as failed at that
//! stage, with the stage index and the message for diagnostics. The chain
//! holds no mutable state between records; each record's traversal is
//! independent.

use vstd::prelude::*;

use crate::functions::EnrichmentFunction;
use crate::value::{Value, ValueModel};

verus! {

broadcast use vstd::std_specs::vec::group_vec_axioms, vstd::seq::group_seq_axioms;

/// One stage: an enrichment function together with its configuration.
pub struct Stage<F: EnrichmentFunction> {
    /// The enrichment function this stage runs.
    pub func: F,
    /// The configuration handed to the function for every record.
    pub config: Value,
}

/// An ordered sequence of enrichment stages, immutable once a flow starts.
pub struct StageChain<F: EnrichmentFunction> {
    stages: Vec<Stage<F>>,
}

/// What the chain makes of one record: the fully enriched record, or the
/// index and message of the stage that rejected it.
#[derive(PartialEq, Eq, Debug)]
pub enum ChainOutcome {
    /// Every stage succeeded; this is the transformed record.
    Enriched(Value),
    /// The stage at this index rejected the record with this message;
    /// later stages did not run.
    Rejected { stage: usize, message: String },
}

impl View for ChainOutcome {
    type V = Result<ValueModel, (int, Seq<char>)>;

    open spec fn view(&self) -> Result<ValueModel, (int, Seq<char>)> {
        match *self {
            ChainOutcome::Enriched(v) => Ok(v@),
            ChainOutcome::Rejected { stage, message } => Err((stage as int, message@)),
        }
    }
}

/// The chain's defining equation: stages applied in order to the record,
/// each feeding the next, stopping at the first rejection, whose stage index
/// is reported relative to the whole sequence.
pub open spec fn apply_stages<F: EnrichmentFunction>(
    stages: Seq<(F, ValueModel)>,
    record: ValueModel,
) -> Result<ValueModel, (int, Seq<char>)>
    decreases stages.len(),
{
    if stages.len() == 0 {
        Ok(record)
    } else {
        match stages[0].0.model(record, stages[0].1) {
            Ok(v) => offset_rejection(apply_stages(stages.skip(1), v), 1),
            Err(m) => Err((0, m)),
        }
    }
}

/// Shifts the stage index of a rejection by `k`; leaves a success alone.
pub open spec fn offset_rejection(
    r: Result<ValueModel, (int, Seq<char>)>,
    k: int,
) -> Result<ValueModel, (int, Seq<char>)> {
    match r {
        Ok(v) => Ok(v),
        Err(e) => Err((e.0 + k, e.1)),
    }
}

impl<F: EnrichmentFunction> View for StageChain<F> {
    type V = Seq<(F, ValueModel)>;

    closed spec fn view(&self) -> Seq<(F, ValueModel)> {
        self.stages@.map_values(|s: Stage<F>| (s.func, s.config@))
    }
}

impl<F: EnrichmentFunction> StageChain<F> {
    /// An empty chain: every record passes through unchanged.
    pub fn new() -> (r: Self)
        ensures
            r@.len() == 0,
    {
        StageChain { stages: Vec::new() }
    }

    /// Appends one stage to the end of the chain.
    pub fn add_stage(&mut self, func: F, config: Value)
        ensures
            final(self)@ == old(self)@.push((func, config@)),
    {
        let ghost old_view = self@;
        self.stages.push(Stage { func, config });
        proof {
            assert(self@ =~= old_view.push((self.stages@.last().func,
                self.stages@.last().config@)));
        }
    }

    /// The number of stages.
    pub fn stage_count(&self) -> (r: usize)
        ensures
            r == self@.len(),
    {
        self.stages.len()
    }

    /// Runs the record through every stage in order, short-circuiting at the
    /// first rejection: the result is exactly the chain's defining equation.
    #[verifier::loop_isolation(false)]
    pub fn apply(&self, record: Value) -> (r: ChainOutcome)
        ensures
            r@ == apply_stages(self@, record@),
    {
        let ghost full_record = record@;
        let mut current = record;
        let mut i: usize = 0;
        proof {
            assert(self@.skip(0) =~= self@);
            match apply_stages(self@, full_record) {
                Ok(v) => {},
                Err(e) => {
                    assert((e.0 + 0, e.1) =~= e);
                },
            }
        }
        while i < self.stages.len()
            invariant
                i <= self.stages.len(),
                self@.len() == self.stages@.len(),
                apply_stages(self@, full_record) == offset_rejection(
                    apply_stages(self@.skip(i as int), current@), i as int),
            decreases self.stages.len() - i,
        {
            proof {
                assert(self@.skip(i as int)[0] == self@[i as int]);
                assert(self@.skip(i as int).skip(1) =~= self@.skip(i as int + 1));
            }
            let stage = &self.stages[i];
            proof {
                assert(self@[i as int] == (self.stages@[i as int].func,
                    self.stages@[i as int].config@));
            }
            let ghost cur = current@;
            match stage.func.process(current, &stage.config) {
                Ok(next) => {
                    proof {
                        assert(apply_stages(self@.skip(i as int), cur) == offset_rejection(
                            apply_stages(self@.skip(i as int + 1), next@), 1));
                    }
                    current = next;
                },
                Err(message) => {
                    proof {
                        assert(apply_stages(self@.skip(i as int), cur)
                            == Err::<ValueModel, (int, Seq<char>)>((0, message@)));
                    }
                    return ChainOutcome::Rejected { stage: i, message };
                },
            }
            i = i + 1;
        }
        proof {
            assert(self@.skip(i as int).len() == 0);
        }
        ChainOutcome::Enriched(current)
    }
}

/// A rejection always names a stage of the chain: its index lies within the
/// sequence of stages.
pub proof fn lemma_rejection_stage_in_range<F: EnrichmentFunction>(
    stages: Seq<(F, ValueModel)>,
    record: ValueModel,
)
    requires
        apply_stages(stages, record) is Err,
    ensures
        0 <= apply_stages(stages, record)->Err_0.0 < stages.len(),
    decreases stages.len(),
{
    if stages.len() > 0 {
        match stages[0].0.model(record, stages[0].1) {
            Ok(v) => {
                lemma_rejection_stage_in_range(stages.skip(1), v);
            },
            Err(m) => {},
        }
    }
}

/// The short-circuit law: when a chain rejects a record at stage `k`, the
/// stages after `k` do not run, so any chain that agrees with it on stages
/// `0..=k` makes the same outcome of that record — whatever stands after
/// stage `k` in either chain.
pub proof fn lemma_chain_short_circuit<F: EnrichmentFunction>(
    a: Seq<(F, ValueModel)>,
    b: Seq<(F, ValueModel)>,
    record: ValueModel,
    k: int,
)
    requires
        apply_stages(a, record) matches Err(e) && e.0 == k,
        0 <= k < a.len(),
        k < b.len(),
        forall|i: int| 0 <= i <= k ==> a[i] == b[i],
    ensures
        apply_stages(b, record) == apply_stages(a, record),
    decreases k,
{
    assert(a[0] == b[0]);
    assert(b.len() > 0);
    match a[0].0.model(record, a[0].1) {
        Ok(v) => {
            assert(apply_stages(a, record) == offset_rejection(
                apply_stages(a.skip(1), v), 1));
            assert(apply_stages(a.skip(1), v) matches Err(e) && e.0 == k - 1);
            lemma_rejection_stage_in_range(a.skip(1), v);
            assert(forall|i: int| 0 <= i <= k - 1 ==> a.skip(1)[i] == b.skip(1)[i]);
            lemma_chain_short_circuit(a.skip(1), b.skip(1), v, k - 1);
        },
        Err(m) => {
            assert(apply_stages(a, record) == Err::<ValueModel, (int, Seq<char>)>((0, m)));
            assert(k == 0);
        },
    }
}

} // verus!
