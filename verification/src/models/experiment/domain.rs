use vstd::prelude::*;
use crate::json::{JsonKind, JsonValue};

verus! {

/// One arm of an experiment.
#[derive(Clone, Debug)]
pub struct Variant {
    pub key: String,
    pub is_control: bool,
    pub config: JsonValue,
}

/// The config a variant gets when none is given: the empty object.
pub fn default_config() -> (r: JsonValue)
    ensures
        r.kind == JsonKind::Object,
        r.items@.len() == 0,
        r.encoded@ == "{}"@,
{
    JsonValue { kind: JsonKind::Object, items: Vec::new(), encoded: String::from_str("{}") }
}

/// A targeting rule: entities that match all constraints are rolled out to
/// `rollout_percent` percent and split among variants by `distributions`.
#[derive(Clone, Debug)]
pub struct Segment {
    pub priority: i32,
    pub rollout_percent: u32,
    pub constraints: Vec<Constraint>,
    pub distributions: Vec<Distribution>,
}

#[derive(Clone, Copy, Debug, PartialEq, Eq, Structural)]
pub enum ConstraintOperator {
    Eq,
    Neq,
    Gt,
    Gte,
    Lt,
    Lte,
    In,
    NotIn,
}

/// A condition on one property of the evaluated entity.
#[derive(Clone, Debug)]
pub struct Constraint {
    pub property: String,
    pub operator: ConstraintOperator,
    pub value: JsonValue,
}

/// The share of a segment's traffic that goes to one variant.
#[derive(Clone, Debug)]
pub struct Distribution {
    pub variant_key: String,
    pub percent: u32,
}

} // verus!
