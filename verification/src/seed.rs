//! The experiments that the load-test seeding tool creates.
use vstd::prelude::*;
use crate::json::{JsonKind, JsonValue};
use crate::models::experiment::request::create_experiment_error;
use crate::models::experiment::{
    Constraint, ConstraintOperator, CreateExperimentRequest, Distribution, Segment, Variant,
};
use crate::models::request::{
    constraint_error, constraint_value_shape_error, distribution_error_at, distributions_error,
    first_constraint_error, first_distribution_error, first_variant_error, control_count,
    percent_sum, segment_error_at, segments_error, first_segment_error, variant_error_at,
    variants_error,
};
use crate::text::{
    is_printable_ascii, is_visible_ascii, lemma_printable_ascii_len, lemma_trim_unchanged,
    lemma_visible_ascii,
};

verus! {

/// A JSON value with the given kind, item kinds and encoding.
pub open spec fn json_is(v: JsonValue, kind: JsonKind, items: Seq<JsonKind>, encoded: Seq<char>) -> bool {
    v.kind == kind && v.items@ == items && v.encoded@ == encoded
}

/// The arms of every seeded experiment: a disabled control first, then a
/// treatment with the config `treatment_config`.
pub open spec fn two_arms(vs: Seq<Variant>, treatment_config: Seq<char>) -> bool {
    &&& vs.len() == 2
    &&& vs[0].key@ == "control"@ && vs[0].is_control
    &&& json_is(vs[0].config, JsonKind::Object, Seq::empty(), "{\"enabled\":false}"@)
    &&& vs[1].key@ == "treatment"@ && !vs[1].is_control
    &&& json_is(vs[1].config, JsonKind::Object, Seq::empty(), treatment_config)
}

/// A segment's split: `control` percent to the control, `treatment`
/// percent to the treatment.
pub open spec fn split_is(ds: Seq<Distribution>, control: u32, treatment: u32) -> bool {
    &&& ds.len() == 2
    &&& ds[0].variant_key@ == "control"@ && ds[0].percent == control
    &&& ds[1].variant_key@ == "treatment"@ && ds[1].percent == treatment
}

/// A segment with the given priority, rollout, split and number of
/// constraints.
pub open spec fn segment_is(s: Segment, priority: i32, rollout: u32, control: u32, treatment: u32, constraints: nat) -> bool {
    &&& s.priority == priority
    &&& s.rollout_percent == rollout
    &&& split_is(s.distributions@, control, treatment)
    &&& s.constraints@.len() == constraints
}

/// A constraint on `property` with the given operator and value.
pub open spec fn constraint_is(
    c: Constraint,
    property: Seq<char>,
    operator: ConstraintOperator,
    kind: JsonKind,
    items: Seq<JsonKind>,
    encoded: Seq<char>,
) -> bool {
    c.property@ == property && c.operator == operator && json_is(c.value, kind, items, encoded)
}

/// A seeded experiment's key, description, metric and arms.
pub open spec fn seeded(
    e: CreateExperimentRequest,
    key: Seq<char>,
    description: Seq<char>,
    primary_metric: Seq<char>,
    treatment_config: Seq<char>,
) -> bool {
    &&& e.key@ == key
    &&& e.description matches Some(d) && d@ == description
    &&& e.primary_metric@ == primary_metric
    &&& two_arms(e.variants@, treatment_config)
}

// ---------------------------------------------------------------------------
// Why the seeded experiments pass validation.
// ---------------------------------------------------------------------------
proof fn lemma_two_arms_valid(vs: Seq<Variant>, tc: Seq<char>)
    requires
        two_arms(vs, tc),
        is_printable_ascii(tc),
        tc.len() <= 4096,
    ensures
        variants_error(vs) is None,
{
    reveal_strlit("control");
    reveal_strlit("treatment");
    reveal_strlit("{\"enabled\":false}");
    let c = "control"@;
    let t = "treatment"@;
    let f = "{\"enabled\":false}"@;
    assert(is_visible_ascii(c));
    assert(is_visible_ascii(t));
    assert(is_printable_ascii(f));
    lemma_visible_ascii(c);
    lemma_visible_ascii(t);
    lemma_printable_ascii_len(f);
    lemma_printable_ascii_len(tc);
    assert(c != t) by {
        assert(c.len() != t.len());
    }
    assert(variant_error_at(vs, 0) is None);
    assert(variant_error_at(vs, 1) is None);
    reveal_with_fuel(first_variant_error, 3);
    reveal_with_fuel(control_count, 3);
    assert(vs.drop_last().drop_last().len() == 0);
    assert(control_count(vs) == 1);
}

proof fn lemma_split_valid(ds: Seq<Distribution>, vs: Seq<Variant>, tc: Seq<char>, a: u32, b: u32)
    requires
        split_is(ds, a, b),
        two_arms(vs, tc),
        a + b == 100,
    ensures
        distributions_error(ds, vs) is None,
{
    reveal_strlit("control");
    reveal_strlit("treatment");
    assert("control"@ != "treatment"@) by {
        assert("control"@.len() != "treatment"@.len());
    }
    assert(vs[0].key@ == ds[0].variant_key@);
    assert(vs[1].key@ == ds[1].variant_key@);
    assert(distribution_error_at(ds, vs, 0) is None);
    assert(distribution_error_at(ds, vs, 1) is None);
    reveal_with_fuel(first_distribution_error, 3);
    reveal_with_fuel(percent_sum, 3);
    assert(ds.drop_last().drop_last().len() == 0);
}

/// What a segment needs besides its priority: a rollout, at most one valid
/// constraint and a valid split.
proof fn lemma_segment_rest_valid(s: Segment, vs: Seq<Variant>, tc: Seq<char>, a: u32, b: u32)
    requires
        s.rollout_percent <= 100,
        s.constraints@.len() <= 1,
        s.constraints@.len() == 1 ==> constraint_error(s.constraints@[0]) is None,
        split_is(s.distributions@, a, b),
        a + b == 100,
        two_arms(vs, tc),
    ensures
        first_constraint_error(s.constraints@, s.constraints@.len() as int) is None,
        distributions_error(s.distributions@, vs) is None,
{
    reveal_with_fuel(first_constraint_error, 2);
    lemma_split_valid(s.distributions@, vs, tc, a, b);
}

proof fn lemma_constraint_valid(c: Constraint)
    requires
        is_visible_ascii(c.property@),
        0 < c.property@.len() <= 256,
        is_printable_ascii(c.value.encoded@),
        c.value.encoded@.len() <= 1024,
        constraint_value_shape_error(c.operator, c.value) is None,
    ensures
        constraint_error(c) is None,
{
    lemma_visible_ascii(c.property@);
    lemma_printable_ascii_len(c.value.encoded@);
}

proof fn lemma_request_valid(e: CreateExperimentRequest, tc: Seq<char>)
    requires
        0 < e.key@.len() <= 256,
        is_visible_ascii(e.key@),
        e.description matches Some(d) && 0 < d@.len() <= 4096 && is_printable_ascii(d@) && 0x21
            <= d@[0] as u32 && 0x21 <= d@.last() as u32,
        0 < e.primary_metric@.len() <= 256,
        is_visible_ascii(e.primary_metric@),
        two_arms(e.variants@, tc),
        is_printable_ascii(tc),
        tc.len() <= 4096,
        segments_error(e.segments@, e.variants@) is None,
    ensures
        create_experiment_error(e) is None,
{
    lemma_visible_ascii(e.key@);
    lemma_visible_ascii(e.primary_metric@);
    let d = e.description.unwrap()@;
    lemma_printable_ascii_len(d);
    lemma_trim_unchanged(d);
    lemma_two_arms_valid(e.variants@, tc);
}

// ---------------------------------------------------------------------------
// Construction.
// ---------------------------------------------------------------------------
fn json_object(encoded: &str) -> (r: JsonValue)
    ensures
        json_is(r, JsonKind::Object, Seq::empty(), encoded@),
{
    JsonValue { kind: JsonKind::Object, items: Vec::new(), encoded: String::from_str(encoded) }
}

fn split(control_percent: u32, treatment_percent: u32) -> (r: Vec<Distribution>)
    ensures
        split_is(r@, control_percent, treatment_percent),
{
    let mut v = Vec::new();
    v.push(Distribution { variant_key: String::from_str("control"), percent: control_percent });
    v.push(Distribution { variant_key: String::from_str("treatment"), percent: treatment_percent });
    v
}

fn one_segment(rollout_percent: u32, constraints: Vec<Constraint>, distributions: Vec<Distribution>) -> (r: Vec<Segment>)
    ensures
        r@.len() == 1,
        r@[0].priority == 0,
        r@[0].rollout_percent == rollout_percent,
        r@[0].constraints == constraints,
        r@[0].distributions == distributions,
{
    let mut v = Vec::new();
    v.push(Segment { priority: 0, rollout_percent, constraints, distributions });
    v
}

/// A seeded experiment: the given key, description and metric, a disabled
/// control and a treatment with `treatment_config`, and the given segments.
fn experiment(
    key: &str,
    description: &str,
    primary_metric: &str,
    treatment_config: &str,
    segments: Vec<Segment>,
) -> (r: CreateExperimentRequest)
    ensures
        seeded(r, key@, description@, primary_metric@, treatment_config@),
        r.segments == segments,
{
    let mut variants = Vec::new();
    variants.push(
        Variant { key: String::from_str("control"), is_control: true, config: json_object("{\"enabled\":false}") },
    );
    variants.push(
        Variant { key: String::from_str("treatment"), is_control: false, config: json_object(treatment_config) },
    );
    CreateExperimentRequest {
        key: String::from_str(key),
        description: Some(String::from_str(description)),
        primary_metric: String::from_str(primary_metric),
        segments,
        variants,
    }
}

fn checkout_flow() -> (r: CreateExperimentRequest)
    ensures
        create_experiment_error(r) is None,
        seeded(r, "lt-checkout-flow"@, "Loadtest: checkout flow"@, "conversion_rate"@, "{\"enabled\":true}"@),
        r.segments@.len() == 1,
        segment_is(r.segments@[0], 0, 100, 50, 50, 0),
{
    let e = experiment(
        "lt-checkout-flow",
        "Loadtest: checkout flow",
        "conversion_rate",
        "{\"enabled\":true}",
        one_segment(100, Vec::new(), split(50, 50)),
    );
    proof {
        reveal_strlit("lt-checkout-flow");
        reveal_strlit("Loadtest: checkout flow");
        reveal_strlit("conversion_rate");
        reveal_strlit("{\"enabled\":true}");
        let tc = "{\"enabled\":true}"@;
        lemma_segment_rest_valid(e.segments@[0], e.variants@, tc, 50, 50);
        reveal_with_fuel(first_segment_error, 2);
        assert(segment_error_at(e.segments@, e.variants@, 0) is None);
        lemma_request_valid(e, tc);
    }
    e
}

fn pricing_test() -> (r: CreateExperimentRequest)
    ensures
        create_experiment_error(r) is None,
        seeded(r, "lt-pricing-test"@, "Loadtest: pricing test"@, "conversion_rate"@, "{\"discount\":0.1}"@),
        r.segments@.len() == 1,
        segment_is(r.segments@[0], 0, 50, 50, 50, 0),
{
    let e = experiment(
        "lt-pricing-test",
        "Loadtest: pricing test",
        "conversion_rate",
        "{\"discount\":0.1}",
        one_segment(50, Vec::new(), split(50, 50)),
    );
    proof {
        reveal_strlit("lt-pricing-test");
        reveal_strlit("Loadtest: pricing test");
        reveal_strlit("conversion_rate");
        reveal_strlit("{\"discount\":0.1}");
        let tc = "{\"discount\":0.1}"@;
        lemma_segment_rest_valid(e.segments@[0], e.variants@, tc, 50, 50);
        reveal_with_fuel(first_segment_error, 2);
        assert(segment_error_at(e.segments@, e.variants@, 0) is None);
        lemma_request_valid(e, tc);
    }
    e
}

fn onboarding_v2() -> (r: CreateExperimentRequest)
    ensures
        create_experiment_error(r) is None,
        seeded(r, "lt-onboarding-v2"@, "Loadtest: onboarding v2"@, "activation_rate"@, "{\"variant\":\"v2\"}"@),
        r.segments@.len() == 1,
        segment_is(r.segments@[0], 0, 100, 50, 50, 1),
        constraint_is(
            r.segments@[0].constraints@[0],
            "country"@,
            ConstraintOperator::In,
            JsonKind::Array,
            seq![JsonKind::String, JsonKind::String, JsonKind::String],
            "[\"US\",\"CA\",\"GB\"]"@,
        ),
{
    let mut countries = Vec::new();
    countries.push(JsonKind::String);
    countries.push(JsonKind::String);
    countries.push(JsonKind::String);
    let in_countries = Constraint {
        property: String::from_str("country"),
        operator: ConstraintOperator::In,
        value: JsonValue {
            kind: JsonKind::Array,
            items: countries,
            encoded: String::from_str("[\"US\",\"CA\",\"GB\"]"),
        },
    };
    proof {
        reveal_strlit("country");
        reveal_strlit("[\"US\",\"CA\",\"GB\"]");
        assert(in_countries.value.items@ =~= seq![JsonKind::String, JsonKind::String, JsonKind::String]);
        assert(forall|i: int|
            0 <= i < in_countries.value.items@.len() ==> (#[trigger] in_countries.value.items@[i]).is_primitive());
        lemma_constraint_valid(in_countries);
    }
    let mut constraints = Vec::new();
    constraints.push(in_countries);
    let e = experiment(
        "lt-onboarding-v2",
        "Loadtest: onboarding v2",
        "activation_rate",
        "{\"variant\":\"v2\"}",
        one_segment(100, constraints, split(50, 50)),
    );
    proof {
        reveal_strlit("lt-onboarding-v2");
        reveal_strlit("Loadtest: onboarding v2");
        reveal_strlit("activation_rate");
        reveal_strlit("{\"variant\":\"v2\"}");
        let tc = "{\"variant\":\"v2\"}"@;
        lemma_segment_rest_valid(e.segments@[0], e.variants@, tc, 50, 50);
        reveal_with_fuel(first_segment_error, 2);
        assert(segment_error_at(e.segments@, e.variants@, 0) is None);
        lemma_request_valid(e, tc);
    }
    e
}

fn search_rank() -> (r: CreateExperimentRequest)
    ensures
        create_experiment_error(r) is None,
        seeded(r, "lt-search-rank"@, "Loadtest: search rank"@, "click_through"@, "{\"algo\":\"v3\"}"@),
        r.segments@.len() == 2,
        segment_is(r.segments@[0], 0, 100, 30, 70, 1),
        constraint_is(
            r.segments@[0].constraints@[0],
            "tier"@,
            ConstraintOperator::Gte,
            JsonKind::Number,
            Seq::empty(),
            "2"@,
        ),
        segment_is(r.segments@[1], 1, 100, 50, 50, 0),
{
    let tier = Constraint {
        property: String::from_str("tier"),
        operator: ConstraintOperator::Gte,
        value: JsonValue { kind: JsonKind::Number, items: Vec::new(), encoded: String::from_str("2") },
    };
    proof {
        reveal_strlit("tier");
        reveal_strlit("2");
        lemma_constraint_valid(tier);
    }
    let mut tier_constraints = Vec::new();
    tier_constraints.push(tier);
    let mut segments = Vec::new();
    segments.push(
        Segment { priority: 0, rollout_percent: 100, constraints: tier_constraints, distributions: split(30, 70) },
    );
    segments.push(
        Segment { priority: 1, rollout_percent: 100, constraints: Vec::new(), distributions: split(50, 50) },
    );
    let e = experiment(
        "lt-search-rank",
        "Loadtest: search rank",
        "click_through",
        "{\"algo\":\"v3\"}",
        segments,
    );
    proof {
        reveal_strlit("lt-search-rank");
        reveal_strlit("Loadtest: search rank");
        reveal_strlit("click_through");
        reveal_strlit("{\"algo\":\"v3\"}");
        let tc = "{\"algo\":\"v3\"}"@;
        lemma_segment_rest_valid(e.segments@[0], e.variants@, tc, 30, 70);
        lemma_segment_rest_valid(e.segments@[1], e.variants@, tc, 50, 50);
        reveal_with_fuel(first_segment_error, 3);
        assert(segment_error_at(e.segments@, e.variants@, 0) is None);
        assert(segment_error_at(e.segments@, e.variants@, 1) is None);
        lemma_request_valid(e, tc);
    }
    e
}

fn homepage_hero() -> (r: CreateExperimentRequest)
    ensures
        create_experiment_error(r) is None,
        seeded(r, "lt-homepage-hero"@, "Loadtest: homepage hero"@, "engagement"@, "{\"layout\":\"hero-b\"}"@),
        r.segments@.len() == 1,
        segment_is(r.segments@[0], 0, 25, 50, 50, 1),
        constraint_is(
            r.segments@[0].constraints@[0],
            "country"@,
            ConstraintOperator::Eq,
            JsonKind::String,
            Seq::empty(),
            "\"US\""@,
        ),
{
    let us = Constraint {
        property: String::from_str("country"),
        operator: ConstraintOperator::Eq,
        value: JsonValue { kind: JsonKind::String, items: Vec::new(), encoded: String::from_str("\"US\"") },
    };
    proof {
        reveal_strlit("country");
        reveal_strlit("\"US\"");
        lemma_constraint_valid(us);
    }
    let mut us_constraints = Vec::new();
    us_constraints.push(us);
    let e = experiment(
        "lt-homepage-hero",
        "Loadtest: homepage hero",
        "engagement",
        "{\"layout\":\"hero-b\"}",
        one_segment(25, us_constraints, split(50, 50)),
    );
    proof {
        reveal_strlit("lt-homepage-hero");
        reveal_strlit("Loadtest: homepage hero");
        reveal_strlit("engagement");
        reveal_strlit("{\"layout\":\"hero-b\"}");
        let tc = "{\"layout\":\"hero-b\"}"@;
        lemma_segment_rest_valid(e.segments@[0], e.variants@, tc, 50, 50);
        reveal_with_fuel(first_segment_error, 2);
        assert(segment_error_at(e.segments@, e.variants@, 0) is None);
        lemma_request_valid(e, tc);
    }
    e
}

/// Five experiments over a control and a treatment variant, each of which
/// passes validation: an even split, a half rollout, a country constraint,
/// two prioritised segments with a tier constraint, and a quarter rollout to
/// one country.
pub fn loadtest_experiments() -> (r: Vec<CreateExperimentRequest>)
    ensures
        r@.len() == 5,
        forall|i: int| 0 <= i < 5 ==> create_experiment_error(#[trigger] r@[i]) is None,
        seeded(r@[0], "lt-checkout-flow"@, "Loadtest: checkout flow"@, "conversion_rate"@, "{\"enabled\":true}"@),
        r@[0].segments@.len() == 1,
        segment_is(r@[0].segments@[0], 0, 100, 50, 50, 0),
        seeded(r@[1], "lt-pricing-test"@, "Loadtest: pricing test"@, "conversion_rate"@, "{\"discount\":0.1}"@),
        r@[1].segments@.len() == 1,
        segment_is(r@[1].segments@[0], 0, 50, 50, 50, 0),
        seeded(r@[2], "lt-onboarding-v2"@, "Loadtest: onboarding v2"@, "activation_rate"@, "{\"variant\":\"v2\"}"@),
        r@[2].segments@.len() == 1,
        segment_is(r@[2].segments@[0], 0, 100, 50, 50, 1),
        constraint_is(
            r@[2].segments@[0].constraints@[0],
            "country"@,
            ConstraintOperator::In,
            JsonKind::Array,
            seq![JsonKind::String, JsonKind::String, JsonKind::String],
            "[\"US\",\"CA\",\"GB\"]"@,
        ),
        seeded(r@[3], "lt-search-rank"@, "Loadtest: search rank"@, "click_through"@, "{\"algo\":\"v3\"}"@),
        r@[3].segments@.len() == 2,
        segment_is(r@[3].segments@[0], 0, 100, 30, 70, 1),
        constraint_is(
            r@[3].segments@[0].constraints@[0],
            "tier"@,
            ConstraintOperator::Gte,
            JsonKind::Number,
            Seq::empty(),
            "2"@,
        ),
        segment_is(r@[3].segments@[1], 1, 100, 50, 50, 0),
        seeded(r@[4], "lt-homepage-hero"@, "Loadtest: homepage hero"@, "engagement"@, "{\"layout\":\"hero-b\"}"@),
        r@[4].segments@.len() == 1,
        segment_is(r@[4].segments@[0], 0, 25, 50, 50, 1),
        constraint_is(
            r@[4].segments@[0].constraints@[0],
            "country"@,
            ConstraintOperator::Eq,
            JsonKind::String,
            Seq::empty(),
            "\"US\""@,
        ),
{
    let mut out = Vec::new();
    out.push(checkout_flow());
    out.push(pricing_test());
    out.push(onboarding_v2());
    out.push(search_rank());
    out.push(homepage_hero());
    out
}

} // verus!
