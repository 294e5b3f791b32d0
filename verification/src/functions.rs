//! Enrichment functions: the capability that transforms one record at a
//! time.
//!
//! An enrichment function is pure with respect to cross-record state: its
//! result is a function of the record and the stage configuration alone, so
//! records may be processed independently without affecting each other's
//! correctness. A failure return rejects this record at this stage; it says
//! nothing about neighbouring records.

use vstd::prelude::*;

use crate::value::{Value, ValueModel};

verus! {

/// Model of a process result: the transformed record, or the message this
/// stage rejects the record with.
pub open spec fn process_model_of(r: Result<Value, String>) -> Result<ValueModel, Seq<char>> {
    match r {
        Ok(v) => Ok(v@),
        Err(m) => Err(m@),
    }
}

/// The capability set of an enrichment function plugin.
///
/// The spec function models the transform; the method contract ties every
/// call to it. Taking `&self` keeps a conforming plugin from mutating state
/// across records, and the model makes the per-record purity the stage-chain
/// contract relies on explicit.
pub trait EnrichmentFunction: Sized {
    /// The transform this function computes: the enriched record, or the
    /// rejection message, as a function of the record and the configuration
    /// alone.
    spec fn model(&self, data: ValueModel, config: ValueModel) -> Result<ValueModel, Seq<char>>;

    /// Processes a single record under the given stage configuration and
    /// returns the transformed record, or the message it is rejected with.
    fn process(&self, data: Value, config: &Value) -> (r: Result<Value, String>)
        ensures
            process_model_of(r) == self.model(data@, config@),
    ;
}

} // verus!
