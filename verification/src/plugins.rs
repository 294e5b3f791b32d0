//! Ready-made plugins: an in-memory scripted connector and a handful of
//! enrichment functions.
//!
//! They serve two purposes: they exercise the executor end to end without an
//! external system, and they show what a conforming plugin looks like — each
//! one is verified against the capability contracts it implements.

use vstd::prelude::*;

use crate::connectors::{EventModel, SourceConnector, StreamEvent};
use crate::functions::EnrichmentFunction;
use crate::value::{object_lookup, Value, ValueModel};

verus! {

broadcast use vstd::std_specs::vec::group_vec_axioms, vstd::seq::group_seq_axioms;

/// The models of a sequence of stream events.
pub open spec fn events_model(s: Seq<StreamEvent>) -> Seq<EventModel> {
    s.map_values(|e: StreamEvent| e@)
}

/// A connector that serves a fixed script of stream events from memory: the
/// simplest conforming source, and the one the crate's own tests drive the
/// executor with.
pub struct ScriptedConnector {
    script: Vec<StreamEvent>,
    accept_connect: bool,
    schema: Option<Value>,
    close_count: Ghost<nat>,
    /// How many times close has run, saturating: an observable counterpart
    /// of the resource-release count for unverified callers.
    pub close_calls: u64,
}

impl ScriptedConnector {
    /// A connector that will serve exactly this script once connected,
    /// accept or refuse the connect as told, and advertise the given schema
    /// if one is given.
    pub fn new(script: Vec<StreamEvent>, accept_connect: bool, schema: Option<Value>) -> (r:
        Self)
        ensures
            r.pending() == events_model(script@),
            forall|cfg: ValueModel| #[trigger] r.connect_ok(cfg) == accept_connect,
            forall|cfg: ValueModel| #[trigger] r.fresh_events(cfg) == events_model(script@),
            r.closes() == 0,
            r.schema_model() == (match schema {
                Some(v) => Ok::<ValueModel, Seq<char>>(v@),
                None => Err::<ValueModel, Seq<char>>("schema unavailable"@),
            }),
    {
        ScriptedConnector {
            script,
            accept_connect,
            schema,
            close_count: Ghost(0),
            close_calls: 0,
        }
    }
}

impl SourceConnector for ScriptedConnector {
    closed spec fn connect_ok(&self, config: ValueModel) -> bool {
        self.accept_connect
    }

    closed spec fn fresh_events(&self, config: ValueModel) -> Seq<EventModel> {
        events_model(self.script@)
    }

    closed spec fn pending(&self) -> Seq<EventModel> {
        events_model(self.script@)
    }

    closed spec fn closes(&self) -> nat {
        self.close_count@
    }

    closed spec fn schema_model(&self) -> Result<ValueModel, Seq<char>> {
        match self.schema {
            Some(v) => Ok(v@),
            None => Err("schema unavailable"@),
        }
    }

    fn connect(&mut self, config: &Value) -> (r: Result<(), String>) {
        if self.accept_connect {
            Ok(())
        } else {
            Err("scripted connector refuses to connect".to_owned())
        }
    }

    fn read_data(&mut self) -> (r: Option<StreamEvent>) {
        if self.script.len() == 0 {
            None
        } else {
            let event = self.script.remove(0);
            proof {
                assert(events_model(self.script@) =~= events_model(old(self).script@).skip(1));
            }
            Some(event)
        }
    }

    fn schema(&self) -> (r: Result<Value, String>) {
        match &self.schema {
            Some(v) => Ok(v.deep_copy()),
            None => Err("schema unavailable".to_owned()),
        }
    }

    fn close(&mut self) -> (r: Result<(), String>) {
        proof {
            self.close_count@ = self.close_count@ + 1;
        }
        if self.close_calls < u64::MAX {
            self.close_calls = self.close_calls + 1;
        }
        Ok(())
    }
}

/// An enrichment function that hands every record through unchanged.
pub struct PassThrough;

impl EnrichmentFunction for PassThrough {
    open spec fn model(&self, data: ValueModel, config: ValueModel) -> Result<
        ValueModel,
        Seq<char>,
    > {
        Ok(data)
    }

    fn process(&self, data: Value, config: &Value) -> (r: Result<Value, String>) {
        Ok(data)
    }
}

/// An enrichment function that wraps every record in a one-element array.
pub struct WrapInArray;

impl EnrichmentFunction for WrapInArray {
    open spec fn model(&self, data: ValueModel, config: ValueModel) -> Result<
        ValueModel,
        Seq<char>,
    > {
        Ok(ValueModel::Array(seq![data]))
    }

    fn process(&self, data: Value, config: &Value) -> (r: Result<Value, String>) {
        let ghost data_model = data@;
        let mut items: Vec<Value> = Vec::new();
        items.push(data);
        let wrapped = Value::Array(items);
        proof {
            assert(crate::value::array_model(items) =~= seq![data_model]);
        }
        Ok(wrapped)
    }
}

/// An enrichment function that replaces every record with its own
/// configuration value.
pub struct ReplaceWithConfig;

impl EnrichmentFunction for ReplaceWithConfig {
    open spec fn model(&self, data: ValueModel, config: ValueModel) -> Result<
        ValueModel,
        Seq<char>,
    > {
        Ok(config)
    }

    fn process(&self, data: Value, config: &Value) -> (r: Result<Value, String>) {
        Ok(config.deep_copy())
    }
}

/// An enrichment function that rejects every record with its fixed message.
pub struct RejectAll {
    /// The message every rejection carries.
    pub message: String,
}

impl EnrichmentFunction for RejectAll {
    open spec fn model(&self, data: ValueModel, config: ValueModel) -> Result<
        ValueModel,
        Seq<char>,
    > {
        Err(self.message@)
    }

    fn process(&self, data: Value, config: &Value) -> (r: Result<Value, String>) {
        Err(self.message.clone())
    }
}

/// An enrichment function that rejects null records and passes every other
/// record through unchanged.
pub struct RejectNull;

impl EnrichmentFunction for RejectNull {
    open spec fn model(&self, data: ValueModel, config: ValueModel) -> Result<
        ValueModel,
        Seq<char>,
    > {
        if data is Null {
            Err("null record"@)
        } else {
            Ok(data)
        }
    }

    fn process(&self, data: Value, config: &Value) -> (r: Result<Value, String>) {
        if data.is_null() {
            Err("null record".to_owned())
        } else {
            Ok(data)
        }
    }
}

/// An enrichment function that projects each object record onto one of its
/// fields: the record becomes the value its named field maps to. A record
/// without that field, or one that is no object, is rejected.
pub struct SelectField {
    /// The key of the field the record is replaced with.
    pub key: String,
}

impl EnrichmentFunction for SelectField {
    open spec fn model(&self, data: ValueModel, config: ValueModel) -> Result<
        ValueModel,
        Seq<char>,
    > {
        match data {
            ValueModel::Object(entries) => match object_lookup(entries, self.key@) {
                Some(v) => Ok(v),
                None => Err("field not present"@),
            },
            _ => Err("record is not an object"@),
        }
    }

    fn process(&self, data: Value, config: &Value) -> (r: Result<Value, String>) {
        if !(matches!(data, Value::Object(_))) {
            return Err("record is not an object".to_owned());
        }
        match data.object_get(&self.key) {
            Some(v) => Ok(v.deep_copy()),
            None => Err("field not present".to_owned()),
        }
    }
}

/// One of the ready-made enrichment functions, as a single type: chains are
/// homogeneous in their function type, so a chain that mixes the built-in
/// transforms holds them as variants of this enum and dispatches per record.
pub enum BasicFunction {
    /// Hands the record through unchanged.
    Pass(PassThrough),
    /// Wraps the record in a one-element array.
    Wrap(WrapInArray),
    /// Replaces the record with the stage configuration.
    Replace(ReplaceWithConfig),
    /// Rejects every record with a fixed message.
    RejectAll(RejectAll),
    /// Rejects null records, passes the rest through.
    RejectNull(RejectNull),
    /// Projects an object record onto one named field.
    Select(SelectField),
}

impl EnrichmentFunction for BasicFunction {
    open spec fn model(&self, data: ValueModel, config: ValueModel) -> Result<
        ValueModel,
        Seq<char>,
    > {
        match self {
            BasicFunction::Pass(f) => f.model(data, config),
            BasicFunction::Wrap(f) => f.model(data, config),
            BasicFunction::Replace(f) => f.model(data, config),
            BasicFunction::RejectAll(f) => f.model(data, config),
            BasicFunction::RejectNull(f) => f.model(data, config),
            BasicFunction::Select(f) => f.model(data, config),
        }
    }

    fn process(&self, data: Value, config: &Value) -> (r: Result<Value, String>) {
        match self {
            BasicFunction::Pass(f) => f.process(data, config),
            BasicFunction::Wrap(f) => f.process(data, config),
            BasicFunction::Replace(f) => f.process(data, config),
            BasicFunction::RejectAll(f) => f.process(data, config),
            BasicFunction::RejectNull(f) => f.process(data, config),
            BasicFunction::Select(f) => f.process(data, config),
        }
    }
}

} // verus!
