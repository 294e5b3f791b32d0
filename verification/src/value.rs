//! The structured value: the universal payload and configuration
//! representation that flows from connectors through enrichment stages.
//!
//! A value is a closed tagged-union tree: null, boolean, integer, text, an
//! ordered sequence of values, or a mapping from text keys to values. Values
//! are immutable once constructed; components share them by moving them or by
//! handing out a deep copy.

use vstd::prelude::*;

verus! {

broadcast use vstd::std_specs::vec::group_vec_axioms, vstd::seq::group_seq_axioms;

/// Mathematical model of a structured value, used by every contract in the
/// crate. Arrays become sequences of models and objects become sequences of
/// key/model pairs in insertion order.
#[verifier::ext_equal]
pub enum ValueModel {
    Null,
    Bool(bool),
    Int(int),
    Text(Seq<char>),
    Array(Seq<ValueModel>),
    Object(Seq<(Seq<char>, ValueModel)>),
}

/// A structured data value: one record, one configuration payload, or one
/// schema description.
#[derive(PartialEq, Eq, Debug)]
pub enum Value {
    Null,
    Bool(bool),
    Int(i64),
    Text(String),
    Array(Vec<Value>),
    Object(Vec<(String, Value)>),
}

/// The model of a structured value: the same tree with text as character
/// sequences and machine integers widened to mathematical integers.
pub open spec fn value_model(v: Value) -> ValueModel
    decreases v,
{
    match v {
        Value::Null => ValueModel::Null,
        Value::Bool(b) => ValueModel::Bool(b),
        Value::Int(i) => ValueModel::Int(i as int),
        Value::Text(s) => ValueModel::Text(s@),
        Value::Array(items) => ValueModel::Array(array_model(items)),
        Value::Object(entries) => ValueModel::Object(object_model(entries)),
    }
}

/// The models of the elements of an array, in order.
pub open spec fn array_model(items: Vec<Value>) -> Seq<ValueModel>
    decreases items,
{
    Seq::new(
        items.len() as nat,
        |i: int|
            if 0 <= i < items.len() {
                value_model(items[i])
            } else {
                ValueModel::Null
            },
    )
}

/// The models of the entries of an object, in insertion order.
pub open spec fn object_model(entries: Vec<(String, Value)>) -> Seq<(Seq<char>, ValueModel)>
    decreases entries,
{
    Seq::new(
        entries.len() as nat,
        |i: int|
            if 0 <= i < entries.len() {
                entry_model(entries[i])
            } else {
                (Seq::empty(), ValueModel::Null)
            },
    )
}

/// The model of one object entry: its key as a character sequence and the
/// model of its value.
pub open spec fn entry_model(entry: (String, Value)) -> (Seq<char>, ValueModel)
    decreases entry,
{
    (entry.0@, value_model(entry.1))
}

/// The value at the first entry with this key, searching in insertion
/// order; which entry wins matters only when keys repeat.
pub open spec fn object_lookup(
    entries: Seq<(Seq<char>, ValueModel)>,
    key: Seq<char>,
) -> Option<ValueModel>
    decreases entries.len(),
{
    if entries.len() == 0 {
        None
    } else if entries[0].0 == key {
        Some(entries[0].1)
    } else {
        object_lookup(entries.skip(1), key)
    }
}

impl View for Value {
    type V = ValueModel;

    open spec fn view(&self) -> ValueModel {
        value_model(*self)
    }
}

impl Value {
    /// True exactly when this value is the null value.
    pub fn is_null(&self) -> (r: bool)
        ensures
            r == (self@ is Null),
    {
        matches!(self, Value::Null)
    }

    /// The value this object maps the key to: the first entry with this
    /// key, in insertion order. `None` where no entry matches, or where this
    /// value is not an object.
    #[verifier::loop_isolation(false)]
    pub fn object_get(&self, key: &String) -> (r: Option<&Value>)
        ensures
            match r {
                Some(v) => self@ matches ValueModel::Object(entries)
                    && object_lookup(entries, key@) == Some(v@),
                None => !(self@ is Object) || object_lookup(self@->Object_0, key@)
                    is None,
            },
    {
        match self {
            Value::Object(entries) => {
                let ghost all = crate::value::object_model(*entries);
                let mut i: usize = 0;
                proof {
                    assert(all.skip(0) =~= all);
                }
                while i < entries.len()
                    invariant
                        i <= entries.len(),
                        object_lookup(all, key@) == object_lookup(
                            all.skip(i as int),
                            key@,
                        ),
                    decreases entries.len() - i,
                {
                    proof {
                        assert(all.skip(i as int)[0] == entry_model(entries[i as int]));
                        assert(all.skip(i as int).skip(1) =~= all.skip(i as int + 1));
                    }
                    if entries[i].0 == *key {
                        proof {
                            assert(object_lookup(all, key@) == Some(
                                entry_model(entries[i as int]).1));
                        }
                        return Some(&entries[i].1);
                    }
                    i = i + 1;
                }
                proof {
                    assert(all.skip(i as int).len() == 0);
                }
                None
            },
            _ => None,
        }
    }

    /// A deep copy: an independently owned value with the same model.
    ///
    /// Configuration values are shared read-only across stages; a plugin that
    /// wants its own logically-owned copy of a payload takes one here.
    pub fn deep_copy(&self) -> (r: Value)
        ensures
            r@ == self@,
        decreases *self,
    {
        match self {
            Value::Null => Value::Null,
            Value::Bool(b) => Value::Bool(*b),
            Value::Int(i) => Value::Int(*i),
            Value::Text(s) => Value::Text(s.clone()),
            Value::Array(items) => {
                let copied = copy_items(items);
                proof {
                    assert(value_model(Value::Array(copied)) =~= value_model(*self));
                }
                Value::Array(copied)
            },
            Value::Object(entries) => {
                let copied = copy_entries(entries);
                proof {
                    assert(value_model(Value::Object(copied)) =~= value_model(*self));
                }
                Value::Object(copied)
            },
        }
    }
}

/// Deep-copies every element of an array, preserving order and models.
fn copy_items(items: &Vec<Value>) -> (r: Vec<Value>)
    ensures
        array_model(r) =~= array_model(*items),
    decreases *items,
{
    let mut out: Vec<Value> = Vec::new();
    let mut i: usize = 0;
    while i < items.len()
        invariant
            i <= items.len(),
            out@.len() == i as int,
            forall|j: int| 0 <= j < i as int ==> value_model(out[j]) == value_model(items[j]),
        decreases items.len() - i,
    {
        out.push(items[i].deep_copy());
        i = i + 1;
    }
    out
}

/// Deep-copies every entry of an object, preserving order, keys and models.
fn copy_entries(entries: &Vec<(String, Value)>) -> (r: Vec<(String, Value)>)
    ensures
        object_model(r) =~= object_model(*entries),
    decreases *entries,
{
    let mut out: Vec<(String, Value)> = Vec::new();
    let mut i: usize = 0;
    while i < entries.len()
        invariant
            i <= entries.len(),
            out@.len() == i as int,
            forall|j: int| 0 <= j < i as int ==> entry_model(out[j]) == entry_model(entries[j]),
        decreases entries.len() - i,
    {
        let entry = &entries[i];
        out.push((entry.0.clone(), entry.1.deep_copy()));
        i = i + 1;
    }
    out
}

} // verus!
