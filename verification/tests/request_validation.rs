use easy_experiments::errors::CustomError;
use easy_experiments::json::{JsonKind, JsonValue};
use easy_experiments::models::evaluate::EvaluateRequest;
use easy_experiments::models::experiment::{
    Constraint, ConstraintOperator, Distribution, Segment, Variant,
};
use easy_experiments::models::request::{
    validate_constraint_value_shape, validate_description, validate_key,
    validate_primary_metric, validate_segments, validate_variants, MAX_CONSTRAINT_PROPERTY_LENGTH,
    MAX_DESCRIPTION_LENGTH, MAX_KEY_LENGTH, MAX_PRIMARY_METRIC_LENGTH, MAX_VARIANTS,
    MAX_VARIANT_CONFIG_BYTES, MAX_VARIANT_KEY_LENGTH,
};
use easy_experiments::validation::Validate;
use serde_json::Value;

fn kind_of(v: &Value) -> JsonKind {
    match v {
        Value::Null => JsonKind::Null,
        Value::Bool(_) => JsonKind::Bool,
        Value::Number(_) => JsonKind::Number,
        Value::String(_) => JsonKind::String,
        Value::Array(_) => JsonKind::Array,
        Value::Object(_) => JsonKind::Object,
    }
}

/// The library's view of a JSON document.
fn json(text: &str) -> JsonValue {
    let v: Value = serde_json::from_str(text).unwrap();
    let items = match &v {
        Value::Array(a) => a.iter().map(kind_of).collect(),
        _ => Vec::new(),
    };
    JsonValue { kind: kind_of(&v), items, encoded: v.to_string() }
}

fn assert_validation_err(result: Result<(), CustomError>, needle: &str) {
    match result {
        Err(CustomError::ValidationError(msg)) => assert!(
            msg.contains(needle),
            "expected validation error containing {needle:?}, got {msg:?}"
        ),
        other => panic!("expected ValidationError({needle:?}), got {other:?}"),
    }
}

fn variant(key: &str, is_control: bool) -> Variant {
    Variant { key: key.into(), is_control, config: json("{}") }
}

fn distribution(key: &str, percent: u32) -> Distribution {
    Distribution { variant_key: key.into(), percent }
}

fn simple_segment() -> Segment {
    Segment {
        priority: 0,
        rollout_percent: 100,
        constraints: vec![],
        distributions: vec![distribution("control", 50), distribution("treatment", 50)],
    }
}

fn simple_variants() -> Vec<Variant> {
    vec![variant("control", true), variant("treatment", false)]
}

// ---- validate_key ----

#[test]
fn validate_key_ok() {
    assert!(validate_key("abc").is_ok());
}

#[test]
fn validate_key_rejects_empty_whitespace_and_overlong() {
    assert_validation_err(validate_key(""), "empty");
    assert_validation_err(validate_key(" abc"), "whitespace");
    assert_validation_err(validate_key("abc "), "whitespace");
    let too_long = "a".repeat(MAX_KEY_LENGTH + 1);
    assert_validation_err(validate_key(&too_long), "Key length");
    assert!(validate_key(&"a".repeat(MAX_KEY_LENGTH)).is_ok());
}

// ---- validate_primary_metric ----

#[test]
fn validate_primary_metric_ok_and_errors() {
    assert!(validate_primary_metric("clicks").is_ok());
    assert_validation_err(validate_primary_metric(""), "empty");
    assert_validation_err(validate_primary_metric(" clicks"), "whitespace");
    assert_validation_err(
        validate_primary_metric(&"m".repeat(MAX_PRIMARY_METRIC_LENGTH + 1)),
        "Primary metric length",
    );
}

// ---- validate_description ----

#[test]
fn validate_description_none_is_ok() {
    assert!(validate_description(None).is_ok());
}

#[test]
fn validate_description_errors() {
    assert_validation_err(validate_description(Some("")), "empty");
    assert_validation_err(validate_description(Some(" x")), "whitespace");
    assert_validation_err(validate_description(Some("x ")), "whitespace");
    let too_long = "d".repeat(MAX_DESCRIPTION_LENGTH + 1);
    assert_validation_err(validate_description(Some(&too_long)), "Description length");
    assert!(validate_description(Some("ok")).is_ok());
}

// ---- validate_variants ----

#[test]
fn validate_variants_happy_path() {
    assert!(validate_variants(&simple_variants()).is_ok());
}

#[test]
fn validate_variants_requires_non_empty() {
    assert_validation_err(validate_variants(&[]), "empty");
}

#[test]
fn validate_variants_requires_exactly_one_control() {
    // zero controls
    let v = vec![variant("a", false), variant("b", false)];
    assert_validation_err(validate_variants(&v), "Exactly one");
    // two controls
    let v = vec![variant("a", true), variant("b", true)];
    assert_validation_err(validate_variants(&v), "Exactly one");
}

#[test]
fn validate_variants_rejects_duplicate_keys() {
    let v = vec![variant("dup", true), variant("dup", false)];
    assert_validation_err(validate_variants(&v), "Duplicate variant key");
}

#[test]
fn validate_variants_rejects_bad_key_shape() {
    let v = vec![variant("", true), variant("b", false)];
    assert_validation_err(validate_variants(&v), "empty");
    let v = vec![variant(" a", true), variant("b", false)];
    assert_validation_err(validate_variants(&v), "whitespace");
    let long = "k".repeat(MAX_VARIANT_KEY_LENGTH + 1);
    let v = vec![variant(&long, true), variant("b", false)];
    assert_validation_err(validate_variants(&v), "Variant key length");
}

#[test]
fn validate_variants_rejects_too_many() {
    let mut v: Vec<Variant> = (0..=MAX_VARIANTS).map(|i| variant(&format!("v{i}"), false)).collect();
    v[0].is_control = true;
    assert_validation_err(validate_variants(&v), "at most");
}

#[test]
fn validate_variants_rejects_oversized_config() {
    let mut v = simple_variants();
    let blob = serde_json::to_string(&Value::String("x".repeat(MAX_VARIANT_CONFIG_BYTES))).unwrap();
    v[0].config = json(&format!("{{\"blob\": {blob}}}"));
    assert_validation_err(validate_variants(&v), "config size");
}

// ---- validate_segments ----

#[test]
fn validate_segments_happy_path() {
    let variants = simple_variants();
    assert!(validate_segments(&[simple_segment()], &variants).is_ok());
}

#[test]
fn validate_segments_requires_non_empty() {
    let variants = simple_variants();
    assert_validation_err(validate_segments(&[], &variants), "at least one segment");
}

#[test]
fn validate_segments_distributions_must_sum_to_100() {
    let variants = simple_variants();
    let seg = Segment {
        priority: 0,
        rollout_percent: 100,
        constraints: vec![],
        distributions: vec![distribution("control", 50), distribution("treatment", 40)],
    };
    assert_validation_err(validate_segments(&[seg], &variants), "sum to 100");
}

#[test]
fn validate_segments_rejects_unknown_variant_reference() {
    let variants = simple_variants();
    let seg = Segment {
        priority: 0,
        rollout_percent: 100,
        constraints: vec![],
        distributions: vec![distribution("ghost", 100)],
    };
    assert_validation_err(validate_segments(&[seg], &variants), "unknown variant");
}

#[test]
fn validate_segments_rejects_duplicate_distribution_keys() {
    let variants = simple_variants();
    let seg = Segment {
        priority: 0,
        rollout_percent: 100,
        constraints: vec![],
        distributions: vec![distribution("control", 50), distribution("control", 50)],
    };
    assert_validation_err(validate_segments(&[seg], &variants), "Duplicate distribution");
}

#[test]
fn validate_segments_rejects_duplicate_priorities() {
    let variants = simple_variants();
    let segs = vec![simple_segment(), simple_segment()]; // both priority 0
    assert_validation_err(validate_segments(&segs, &variants), "Duplicate segment priority");
}

#[test]
fn validate_segments_rejects_negative_priority_and_bad_rollout() {
    let variants = simple_variants();
    let seg = Segment { priority: -1, ..simple_segment() };
    assert_validation_err(validate_segments(&[seg], &variants), "non-negative");

    let seg = Segment { rollout_percent: 101, ..simple_segment() };
    assert_validation_err(validate_segments(&[seg], &variants), "between 0 and 100");
}

#[test]
fn validate_segments_rejects_bad_distribution_percent() {
    let variants = simple_variants();
    let seg = Segment {
        priority: 0,
        rollout_percent: 100,
        constraints: vec![],
        distributions: vec![distribution("control", 101)],
    };
    assert_validation_err(validate_segments(&[seg], &variants), "between 0 and 100");
}

#[test]
fn validate_segments_validates_constraint_property_shape() {
    let variants = simple_variants();
    let seg = Segment {
        priority: 0,
        rollout_percent: 100,
        constraints: vec![Constraint {
            property: "".into(),
            operator: ConstraintOperator::Eq,
            value: json("\"x\""),
        }],
        distributions: vec![distribution("control", 50), distribution("treatment", 50)],
    };
    assert_validation_err(validate_segments(&[seg], &variants), "property must not be empty");

    let seg = Segment {
        priority: 0,
        rollout_percent: 100,
        constraints: vec![Constraint {
            property: "p".repeat(MAX_CONSTRAINT_PROPERTY_LENGTH + 1),
            operator: ConstraintOperator::Eq,
            value: json("\"x\""),
        }],
        distributions: vec![distribution("control", 50), distribution("treatment", 50)],
    };
    assert_validation_err(validate_segments(&[seg], &variants), "property length");
}

// ---- validate_constraint_value_shape ----

#[test]
fn constraint_eq_neq_accepts_primitives_rejects_compound() {
    for op in [ConstraintOperator::Eq, ConstraintOperator::Neq] {
        assert!(validate_constraint_value_shape(op, &json("\"s\"")).is_ok());
        assert!(validate_constraint_value_shape(op, &json("1")).is_ok());
        assert!(validate_constraint_value_shape(op, &json("true")).is_ok());
        assert_validation_err(
            validate_constraint_value_shape(op, &json("[1, 2]")),
            "string, number, or boolean",
        );
        assert_validation_err(
            validate_constraint_value_shape(op, &json("{\"a\": 1}")),
            "string, number, or boolean",
        );
        assert_validation_err(
            validate_constraint_value_shape(op, &json("null")),
            "string, number, or boolean",
        );
    }
}

#[test]
fn constraint_numeric_ops_require_number() {
    for op in [
        ConstraintOperator::Gt,
        ConstraintOperator::Gte,
        ConstraintOperator::Lt,
        ConstraintOperator::Lte,
    ] {
        assert!(validate_constraint_value_shape(op, &json("1")).is_ok());
        assert!(validate_constraint_value_shape(op, &json("1.5")).is_ok());
        assert_validation_err(validate_constraint_value_shape(op, &json("\"1\"")), "must be a number");
        assert_validation_err(validate_constraint_value_shape(op, &json("true")), "must be a number");
    }
}

#[test]
fn constraint_in_notin_require_non_empty_primitive_array() {
    for op in [ConstraintOperator::In, ConstraintOperator::NotIn] {
        assert!(validate_constraint_value_shape(op, &json("[1, \"a\", true]")).is_ok());
        assert_validation_err(validate_constraint_value_shape(op, &json("\"a\"")), "must be an array");
        assert_validation_err(validate_constraint_value_shape(op, &json("[]")), "non-empty array");
        assert_validation_err(
            validate_constraint_value_shape(op, &json("[1, {\"x\": 1}]")),
            "array elements must be",
        );
        assert_validation_err(
            validate_constraint_value_shape(op, &json("[1, null]")),
            "array elements must be",
        );
    }
}

// ---- EvaluateRequest::validate ----

fn evaluate_request(properties: JsonValue) -> EvaluateRequest {
    EvaluateRequest { experiment_key: "exp".into(), entity_id: "user-1".into(), properties }
}

#[test]
fn evaluate_evaluate_request_accepts_null_or_object_properties() {
    assert!(evaluate_request(json("null")).validate().is_ok());
    assert!(evaluate_request(json("{}")).validate().is_ok());
    assert!(evaluate_request(json("{\"country\": \"US\", \"tier\": 1}")).validate().is_ok());
}

#[test]
fn evaluate_evaluate_request_rejects_non_object_properties() {
    for v in ["\"foo\"", "42", "true", "[1, 2]"] {
        assert_validation_err(evaluate_request(json(v)).validate(), "Properties must be a JSON object");
    }
}

#[test]
fn request_evaluate_request_accepts_null_or_object_properties() {
    assert!(evaluate_request(json("null")).validate().is_ok());
    assert!(evaluate_request(json("{}")).validate().is_ok());
    assert!(evaluate_request(json("{\"country\": \"US\", \"tier\": 1}")).validate().is_ok());
}

#[test]
fn request_evaluate_request_rejects_non_object_properties() {
    for v in ["\"foo\"", "42", "true", "[1, 2]"] {
        assert_validation_err(evaluate_request(json(v)).validate(), "Properties must be a JSON object");
    }
}
