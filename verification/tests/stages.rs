use ekb_core::chain::{ChainOutcome, StageChain};
use ekb_core::plugins::{
    BasicFunction, PassThrough, RejectAll, RejectNull, ReplaceWithConfig, WrapInArray,
};
use ekb_core::value::Value;

#[test]
fn empty_chain_passes_the_record_through() {
    let chain: StageChain<PassThrough> = StageChain::new();
    assert_eq!(
        chain.apply(Value::Int(7)),
        ChainOutcome::Enriched(Value::Int(7))
    );
}

#[test]
fn stages_run_in_declared_order() {
    let mut chain: StageChain<BasicFunction> = StageChain::new();
    chain.add_stage(BasicFunction::Wrap(WrapInArray), Value::Null);
    chain.add_stage(
        BasicFunction::Replace(ReplaceWithConfig),
        Value::Text("from config".to_string()),
    );
    chain.add_stage(BasicFunction::Wrap(WrapInArray), Value::Null);
    assert_eq!(chain.stage_count(), 3);
    assert_eq!(
        chain.apply(Value::Int(5)),
        ChainOutcome::Enriched(Value::Array(vec![Value::Text(
            "from config".to_string()
        )]))
    );
}

#[test]
fn double_wrap_nests_the_record() {
    let mut chain: StageChain<WrapInArray> = StageChain::new();
    chain.add_stage(WrapInArray, Value::Null);
    chain.add_stage(WrapInArray, Value::Null);
    assert_eq!(
        chain.apply(Value::Bool(true)),
        ChainOutcome::Enriched(Value::Array(vec![Value::Array(vec![Value::Bool(
            true
        )])]))
    );
}

#[test]
fn failing_stage_short_circuits_later_stages() {
    let mut chain: StageChain<BasicFunction> = StageChain::new();
    chain.add_stage(BasicFunction::Pass(PassThrough), Value::Null);
    chain.add_stage(
        BasicFunction::RejectAll(RejectAll {
            message: "first refusal".to_string(),
        }),
        Value::Null,
    );
    chain.add_stage(
        BasicFunction::RejectAll(RejectAll {
            message: "second refusal".to_string(),
        }),
        Value::Null,
    );
    assert_eq!(
        chain.apply(Value::Int(1)),
        ChainOutcome::Rejected {
            stage: 1,
            message: "first refusal".to_string()
        }
    );
}

#[test]
fn rejection_carries_stage_index_and_message() {
    let mut chain: StageChain<RejectNull> = StageChain::new();
    chain.add_stage(RejectNull, Value::Null);
    assert_eq!(
        chain.apply(Value::Null),
        ChainOutcome::Rejected {
            stage: 0,
            message: "null record".to_string()
        }
    );
    assert_eq!(
        chain.apply(Value::Int(3)),
        ChainOutcome::Enriched(Value::Int(3))
    );
}

#[test]
fn chain_output_of_one_stage_feeds_the_next() {
    let mut chain: StageChain<BasicFunction> = StageChain::new();
    chain.add_stage(BasicFunction::Wrap(WrapInArray), Value::Null);
    chain.add_stage(BasicFunction::RejectNull(RejectNull), Value::Null);
    assert_eq!(
        chain.apply(Value::Null),
        ChainOutcome::Enriched(Value::Array(vec![Value::Null]))
    );
}

#[test]
fn select_field_projects_an_object_record() {
    let mut chain: StageChain<ekb_core::plugins::SelectField> = StageChain::new();
    chain.add_stage(
        ekb_core::plugins::SelectField {
            key: "name".to_string(),
        },
        Value::Null,
    );
    let record = Value::Object(vec![
        ("id".to_string(), Value::Int(7)),
        ("name".to_string(), Value::Text("ada".to_string())),
    ]);
    assert_eq!(
        chain.apply(record),
        ChainOutcome::Enriched(Value::Text("ada".to_string()))
    );
}

#[test]
fn select_field_rejects_missing_field_and_non_objects() {
    let mut chain: StageChain<ekb_core::plugins::SelectField> = StageChain::new();
    chain.add_stage(
        ekb_core::plugins::SelectField {
            key: "name".to_string(),
        },
        Value::Null,
    );
    assert_eq!(
        chain.apply(Value::Object(vec![("id".to_string(), Value::Int(7))])),
        ChainOutcome::Rejected {
            stage: 0,
            message: "field not present".to_string()
        }
    );
    assert_eq!(
        chain.apply(Value::Int(3)),
        ChainOutcome::Rejected {
            stage: 0,
            message: "record is not an object".to_string()
        }
    );
}
