//! Validation of experiment definitions and of the identifiers that clients
//! send.
use vstd::prelude::*;
use crate::errors::{check_result, validation_error, CustomError};
use crate::json::{JsonKind, JsonValue};
use crate::models::experiment::{
    Constraint, ConstraintOperator, Distribution, Segment, Variant,
};
use crate::text::{
    byte_len_exceeds, concat3, contains_unsafe_char, decimal, decimal_string, differs_from_trimmed,
    has_unsafe_char, trim, utf8_len,
};

verus! {

pub const MAX_KEY_LENGTH: usize = 256;

pub const MAX_DESCRIPTION_LENGTH: usize = 4096;

pub const MAX_PRIMARY_METRIC_LENGTH: usize = 256;

pub const MAX_VARIANT_KEY_LENGTH: usize = 256;

pub const MAX_VARIANT_CONFIG_BYTES: usize = 4096;

pub const MAX_CONSTRAINT_PROPERTY_LENGTH: usize = 256;

pub const MAX_CONSTRAINT_VALUE_BYTES: usize = 1024;

pub const MAX_VARIANTS: usize = 64;

pub const MAX_SEGMENTS: usize = 64;

pub const MAX_DISTRIBUTIONS_PER_SEGMENT: usize = 64;

pub const MAX_CONSTRAINTS_PER_SEGMENT: usize = 64;

pub const MAX_ENTITY_ID_LENGTH: usize = 256;

pub const MAX_IDEMPOTENCY_KEY_LENGTH: usize = 256;

// ---------------------------------------------------------------------------
// What each check rejects, and with which message.
// ---------------------------------------------------------------------------
/// The rejection of an identifier that holds whitespace or a control
/// character.
pub open spec fn safe_identifier_error(field: Seq<char>, value: Seq<char>) -> Option<Seq<char>> {
    if has_unsafe_char(value) {
        Some(field + " must not contain whitespace or control characters"@)
    } else {
        None
    }
}

/// Rules for an experiment key.
pub open spec fn key_error(key: Seq<char>) -> Option<Seq<char>> {
    if key.len() == 0 {
        Some("Key should not be empty"@)
    } else if utf8_len(key) > MAX_KEY_LENGTH {
        Some("Key length should be less than 256 bytes"@)
    } else {
        safe_identifier_error("Key"@, key)
    }
}

/// Rules for an `Idempotency-Key` header value.
pub open spec fn idempotency_key_error(key: Seq<char>) -> Option<Seq<char>> {
    if key.len() == 0 {
        Some("Idempotency-Key header must not be empty"@)
    } else if utf8_len(key) > MAX_IDEMPOTENCY_KEY_LENGTH {
        Some("Idempotency-Key length should be less than 256 bytes"@)
    } else {
        safe_identifier_error("Idempotency-Key"@, key)
    }
}

/// Rules for the primary metric name.
pub open spec fn primary_metric_error(metric: Seq<char>) -> Option<Seq<char>> {
    if metric.len() == 0 {
        Some("Primary metric should not be empty"@)
    } else if utf8_len(metric) > MAX_PRIMARY_METRIC_LENGTH {
        Some("Primary metric length should be less than 256 bytes"@)
    } else {
        safe_identifier_error("Primary metric"@, metric)
    }
}

/// Rules for an optional description.
pub open spec fn description_error(description: Option<Seq<char>>) -> Option<Seq<char>> {
    match description {
        None => None,
        Some(d) => if d.len() == 0 {
            Some("Description should not be empty; omit the field or send null to clear it"@)
        } else if trim(d) != d {
            Some("Description must not have leading or trailing whitespace"@)
        } else if utf8_len(d) > MAX_DESCRIPTION_LENGTH {
            Some("Description length should be less than 4096 bytes"@)
        } else {
            None
        },
    }
}

/// The checks on the `i`-th variant, which see the variants before it.
pub open spec fn variant_error_at(vs: Seq<Variant>, i: int) -> Option<Seq<char>> {
    let key = vs[i].key@;
    if key.len() == 0 {
        Some("Variant key should not be empty"@)
    } else if utf8_len(key) > MAX_VARIANT_KEY_LENGTH {
        Some("Variant key length should be less than 256 bytes"@)
    } else if has_unsafe_char(key) {
        safe_identifier_error("Variant key"@, key)
    } else if exists|j: int| 0 <= j < i && #[trigger] vs[j].key@ == key {
        Some("Duplicate variant key '"@ + key + "'"@)
    } else if utf8_len(vs[i].config.encoded@) > MAX_VARIANT_CONFIG_BYTES {
        Some("Variant config size should be less than 4096 bytes"@)
    } else {
        None
    }
}

/// The first failing check among the first `n` variants.
pub open spec fn first_variant_error(vs: Seq<Variant>, n: int) -> Option<Seq<char>>
    decreases n,
{
    if n <= 0 {
        None
    } else {
        match first_variant_error(vs, n - 1) {
            Some(e) => Some(e),
            None => variant_error_at(vs, n - 1),
        }
    }
}

/// Number of variants marked as control.
pub open spec fn control_count(vs: Seq<Variant>) -> nat
    decreases vs.len(),
{
    if vs.len() == 0 {
        0
    } else {
        control_count(vs.drop_last()) + if vs.last().is_control {
            1nat
        } else {
            0nat
        }
    }
}

/// Rules for the variant list.
pub open spec fn variants_error(vs: Seq<Variant>) -> Option<Seq<char>> {
    if vs.len() == 0 {
        Some("Variants should not be empty"@)
    } else if vs.len() > MAX_VARIANTS {
        Some("Must have at most 64 variants"@)
    } else {
        match first_variant_error(vs, vs.len() as int) {
            Some(e) => Some(e),
            None => if control_count(vs) != 1 {
                Some("Exactly one variant must be marked as control"@)
            } else {
                None
            },
        }
    }
}

/// Rules for a constraint's value given its operator.
pub open spec fn constraint_value_shape_error(op: ConstraintOperator, value: JsonValue) -> Option<
    Seq<char>,
> {
    match op {
        ConstraintOperator::Eq | ConstraintOperator::Neq => if value.kind.is_primitive() {
            None
        } else {
            Some("EQ/NEQ constraint value must be a string, number, or boolean"@)
        },
        ConstraintOperator::Gt
        | ConstraintOperator::Gte
        | ConstraintOperator::Lt
        | ConstraintOperator::Lte => if value.kind == JsonKind::Number {
            None
        } else {
            Some("GT/GTE/LT/LTE constraint value must be a number"@)
        },
        ConstraintOperator::In | ConstraintOperator::NotIn => if value.kind != JsonKind::Array {
            Some("IN/NOT_IN constraint value must be an array"@)
        } else if value.items@.len() == 0 {
            Some("IN/NOT_IN constraint value must be a non-empty array"@)
        } else if forall|i: int|
            0 <= i < value.items@.len() ==> (#[trigger] value.items@[i]).is_primitive() {
            None
        } else {
            Some(
                "IN/NOT_IN constraint value array elements must be strings, numbers, or booleans"@,
            )
        },
    }
}

/// Rules for one constraint.
pub open spec fn constraint_error(c: Constraint) -> Option<Seq<char>> {
    let p = c.property@;
    if p.len() == 0 {
        Some("Constraint property must not be empty"@)
    } else if utf8_len(p) > MAX_CONSTRAINT_PROPERTY_LENGTH {
        Some("Constraint property length should be less than 256 bytes"@)
    } else if has_unsafe_char(p) {
        safe_identifier_error("Constraint property"@, p)
    } else if utf8_len(c.value.encoded@) > MAX_CONSTRAINT_VALUE_BYTES {
        Some("Constraint value length should be less than 1024 bytes"@)
    } else {
        constraint_value_shape_error(c.operator, c.value)
    }
}

/// The first failing constraint among the first `n`.
pub open spec fn first_constraint_error(cs: Seq<Constraint>, n: int) -> Option<Seq<char>>
    decreases n,
{
    if n <= 0 {
        None
    } else {
        match first_constraint_error(cs, n - 1) {
            Some(e) => Some(e),
            None => constraint_error(cs[n - 1]),
        }
    }
}

/// Whether some variant has the key `key`.
pub open spec fn has_variant_key(vs: Seq<Variant>, key: Seq<char>) -> bool {
    exists|j: int| 0 <= j < vs.len() && #[trigger] vs[j].key@ == key
}

/// The checks on the `k`-th distribution of a segment, which see the
/// distributions before it.
pub open spec fn distribution_error_at(ds: Seq<Distribution>, vs: Seq<Variant>, k: int) -> Option<
    Seq<char>,
> {
    let key = ds[k].variant_key@;
    if ds[k].percent > 100 {
        Some("Distribution percent must be between 0 and 100"@)
    } else if !has_variant_key(vs, key) {
        Some("Distribution references unknown variant key '"@ + key + "'"@)
    } else if exists|j: int| 0 <= j < k && #[trigger] ds[j].variant_key@ == key {
        Some("Duplicate distribution for variant key '"@ + key + "' in segment"@)
    } else {
        None
    }
}

/// The first failing distribution among the first `n`.
pub open spec fn first_distribution_error(ds: Seq<Distribution>, vs: Seq<Variant>, n: int) -> Option<
    Seq<char>,
>
    decreases n,
{
    if n <= 0 {
        None
    } else {
        match first_distribution_error(ds, vs, n - 1) {
            Some(e) => Some(e),
            None => distribution_error_at(ds, vs, n - 1),
        }
    }
}

/// Sum of the percentages of the distributions.
pub open spec fn percent_sum(ds: Seq<Distribution>) -> nat
    decreases ds.len(),
{
    if ds.len() == 0 {
        0
    } else {
        percent_sum(ds.drop_last()) + ds.last().percent as nat
    }
}

/// Rules for a segment's distributions.
pub open spec fn distributions_error(ds: Seq<Distribution>, vs: Seq<Variant>) -> Option<Seq<char>> {
    if ds.len() == 0 {
        Some("Segment must have at least one distribution"@)
    } else if ds.len() > MAX_DISTRIBUTIONS_PER_SEGMENT {
        Some("Segment must have at most 64 distributions"@)
    } else {
        match first_distribution_error(ds, vs, ds.len() as int) {
            Some(e) => Some(e),
            None => if percent_sum(ds) != 100 {
                Some("Distribution percentages must sum to 100"@)
            } else {
                None
            },
        }
    }
}

/// The checks on the `i`-th segment, which see the segments before it.
pub open spec fn segment_error_at(ss: Seq<Segment>, vs: Seq<Variant>, i: int) -> Option<Seq<char>> {
    let s = ss[i];
    if s.priority < 0 {
        Some("Segment priority must be non-negative"@)
    } else if exists|j: int| 0 <= j < i && #[trigger] ss[j].priority == s.priority {
        Some("Duplicate segment priority '"@ + decimal(s.priority as nat) + "'"@)
    } else if s.rollout_percent > 100 {
        Some("Segment rollout_percent must be between 0 and 100"@)
    } else if s.constraints@.len() > MAX_CONSTRAINTS_PER_SEGMENT {
        Some("Segment must have at most 64 constraints"@)
    } else {
        match first_constraint_error(s.constraints@, s.constraints@.len() as int) {
            Some(e) => Some(e),
            None => distributions_error(s.distributions@, vs),
        }
    }
}

/// The first failing segment among the first `n`.
pub open spec fn first_segment_error(ss: Seq<Segment>, vs: Seq<Variant>, n: int) -> Option<
    Seq<char>,
>
    decreases n,
{
    if n <= 0 {
        None
    } else {
        match first_segment_error(ss, vs, n - 1) {
            Some(e) => Some(e),
            None => segment_error_at(ss, vs, n - 1),
        }
    }
}

/// Rules for the segment list, given the experiment's variants.
pub open spec fn segments_error(ss: Seq<Segment>, vs: Seq<Variant>) -> Option<Seq<char>> {
    if ss.len() == 0 {
        Some("Must have at least one segment"@)
    } else if ss.len() > MAX_SEGMENTS {
        Some("Must have at most 64 segments"@)
    } else {
        first_segment_error(ss, vs, ss.len() as int)
    }
}

/// Rules for the editable state of an experiment, checked in this order:
/// description, primary metric, variants, segments.
pub open spec fn experiment_state_error(
    description: Option<Seq<char>>,
    primary_metric: Seq<char>,
    vs: Seq<Variant>,
    ss: Seq<Segment>,
) -> Option<Seq<char>> {
    if description_error(description) is Some {
        description_error(description)
    } else if primary_metric_error(primary_metric) is Some {
        primary_metric_error(primary_metric)
    } else if variants_error(vs) is Some {
        variants_error(vs)
    } else {
        segments_error(ss, vs)
    }
}

/// The view of an optional string slice.
pub open spec fn opt_view(o: Option<&str>) -> Option<Seq<char>> {
    match o {
        Some(s) => Some(s@),
        None => None,
    }
}

proof fn lemma_first_variant_error_stable(vs: Seq<Variant>, k: int, m: int)
    requires
        0 <= k <= m,
        first_variant_error(vs, k) is Some,
    ensures
        first_variant_error(vs, m) == first_variant_error(vs, k),
    decreases m - k,
{
    if k < m {
        lemma_first_variant_error_stable(vs, k, m - 1);
    }
}

proof fn lemma_first_constraint_error_stable(cs: Seq<Constraint>, k: int, m: int)
    requires
        0 <= k <= m,
        first_constraint_error(cs, k) is Some,
    ensures
        first_constraint_error(cs, m) == first_constraint_error(cs, k),
    decreases m - k,
{
    if k < m {
        lemma_first_constraint_error_stable(cs, k, m - 1);
    }
}

proof fn lemma_first_distribution_error_stable(
    ds: Seq<Distribution>,
    vs: Seq<Variant>,
    k: int,
    m: int,
)
    requires
        0 <= k <= m,
        first_distribution_error(ds, vs, k) is Some,
    ensures
        first_distribution_error(ds, vs, m) == first_distribution_error(ds, vs, k),
    decreases m - k,
{
    if k < m {
        lemma_first_distribution_error_stable(ds, vs, k, m - 1);
    }
}

proof fn lemma_first_segment_error_stable(ss: Seq<Segment>, vs: Seq<Variant>, k: int, m: int)
    requires
        0 <= k <= m,
        first_segment_error(ss, vs, k) is Some,
    ensures
        first_segment_error(ss, vs, m) == first_segment_error(ss, vs, k),
    decreases m - k,
{
    if k < m {
        lemma_first_segment_error_stable(ss, vs, k, m - 1);
    }
}

// ---------------------------------------------------------------------------
// The checks.
// ---------------------------------------------------------------------------
/// Rejects identifiers that hold whitespace or control characters, which
/// would otherwise end up in error messages, the database and the logs.
pub fn validate_safe_identifier(field: &str, value: &str) -> (r: Result<(), CustomError>)
    ensures
        check_result(r, safe_identifier_error(field@, value@)),
{
    if contains_unsafe_char(value) {
        let mut msg = String::from_str(field);
        msg.append(" must not contain whitespace or control characters");
        return Err(CustomError::ValidationError(msg));
    }
    Ok(())
}

pub fn validate_key(key: &str) -> (r: Result<(), CustomError>)
    ensures
        check_result(r, key_error(key@)),
{
    if key.unicode_len() == 0 {
        return Err(validation_error("Key should not be empty"));
    }
    if byte_len_exceeds(key, MAX_KEY_LENGTH) {
        return Err(validation_error("Key length should be less than 256 bytes"));
    }
    validate_safe_identifier("Key", key)
}

pub fn validate_idempotency_key(key: &str) -> (r: Result<(), CustomError>)
    ensures
        check_result(r, idempotency_key_error(key@)),
{
    if key.unicode_len() == 0 {
        return Err(validation_error("Idempotency-Key header must not be empty"));
    }
    if byte_len_exceeds(key, MAX_IDEMPOTENCY_KEY_LENGTH) {
        return Err(validation_error("Idempotency-Key length should be less than 256 bytes"));
    }
    validate_safe_identifier("Idempotency-Key", key)
}

pub fn validate_primary_metric(primary_metric: &str) -> (r: Result<(), CustomError>)
    ensures
        check_result(r, primary_metric_error(primary_metric@)),
{
    if primary_metric.unicode_len() == 0 {
        return Err(validation_error("Primary metric should not be empty"));
    }
    if byte_len_exceeds(primary_metric, MAX_PRIMARY_METRIC_LENGTH) {
        return Err(validation_error("Primary metric length should be less than 256 bytes"));
    }
    validate_safe_identifier("Primary metric", primary_metric)
}

pub fn validate_description(description: Option<&str>) -> (r: Result<(), CustomError>)
    ensures
        check_result(r, description_error(opt_view(description))),
{
    if let Some(desc) = description {
        if desc.unicode_len() == 0 {
            return Err(
                validation_error(
                    "Description should not be empty; omit the field or send null to clear it",
                ),
            );
        }
        if differs_from_trimmed(desc) {
            return Err(
                validation_error("Description must not have leading or trailing whitespace"),
            );
        }
        if byte_len_exceeds(desc, MAX_DESCRIPTION_LENGTH) {
            return Err(validation_error("Description length should be less than 4096 bytes"));
        }
    }
    Ok(())
}

proof fn lemma_control_count_take_step(vs: Seq<Variant>, i: int)
    requires
        0 <= i < vs.len(),
    ensures
        control_count(vs.take(i + 1)) == control_count(vs.take(i)) + if vs[i].is_control {
            1nat
        } else {
            0nat
        },
{
    assert(vs.take(i + 1).drop_last() =~= vs.take(i));
}

/// The checks on `variants[i]`.
fn check_variant_at(variants: &[Variant], i: usize) -> (r: Result<(), CustomError>)
    requires
        i < variants@.len(),
    ensures
        check_result(r, variant_error_at(variants@, i as int)),
{
    let key = variants[i].key.as_str();
    if key.unicode_len() == 0 {
        return Err(validation_error("Variant key should not be empty"));
    }
    if byte_len_exceeds(key, MAX_VARIANT_KEY_LENGTH) {
        return Err(validation_error("Variant key length should be less than 256 bytes"));
    }
    let safe = validate_safe_identifier("Variant key", key);
    if safe.is_err() {
        return safe;
    }
    let mut j: usize = 0;
    while j < i
        invariant
            i < variants@.len(),
            j <= i,
            key@ == variants@[i as int].key@,
            key@.len() != 0,
            utf8_len(key@) <= MAX_VARIANT_KEY_LENGTH,
            !has_unsafe_char(key@),
            forall|k: int| 0 <= k < j ==> #[trigger] variants@[k].key@ != key@,
        decreases i - j,
    {
        if variants[j].key == variants[i].key {
            assert(variants@[j as int].key@ == key@);
            return Err(
                CustomError::ValidationError(concat3("Duplicate variant key '", key, "'")),
            );
        }
        j = j + 1;
    }
    if byte_len_exceeds(variants[i].config.encoded.as_str(), MAX_VARIANT_CONFIG_BYTES) {
        return Err(validation_error("Variant config size should be less than 4096 bytes"));
    }
    Ok(())
}

pub fn validate_variants(variants: &[Variant]) -> (r: Result<(), CustomError>)
    ensures
        check_result(r, variants_error(variants@)),
{
    let n = variants.len();
    if n == 0 {
        return Err(validation_error("Variants should not be empty"));
    }
    if n > MAX_VARIANTS {
        return Err(validation_error("Must have at most 64 variants"));
    }
    let mut control: usize = 0;
    let mut i: usize = 0;
    while i < n
        invariant
            n == variants@.len(),
            n <= MAX_VARIANTS,
            i <= n,
            first_variant_error(variants@, i as int) is None,
            control == control_count(variants@.take(i as int)),
            control <= i,
        decreases n - i,
    {
        let item = check_variant_at(variants, i);
        if item.is_err() {
            proof {
                lemma_first_variant_error_stable(variants@, i + 1, n as int);
            }
            return item;
        }
        proof {
            lemma_control_count_take_step(variants@, i as int);
        }
        if variants[i].is_control {
            control = control + 1;
        }
        i = i + 1;
    }
    assert(variants@.take(n as int) =~= variants@);
    if control != 1 {
        return Err(validation_error("Exactly one variant must be marked as control"));
    }
    Ok(())
}

/// Checks that a constraint's value has the shape its operator needs.
pub fn validate_constraint_value_shape(operator: ConstraintOperator, value: &JsonValue) -> (r:
    Result<(), CustomError>)
    ensures
        check_result(r, constraint_value_shape_error(operator, *value)),
{
    match operator {
        ConstraintOperator::Eq | ConstraintOperator::Neq => {
            if value.kind.primitive() {
                Ok(())
            } else {
                Err(
                    validation_error(
                        "EQ/NEQ constraint value must be a string, number, or boolean",
                    ),
                )
            }
        },
        ConstraintOperator::Gt
        | ConstraintOperator::Gte
        | ConstraintOperator::Lt
        | ConstraintOperator::Lte => {
            if value.kind == JsonKind::Number {
                Ok(())
            } else {
                Err(validation_error("GT/GTE/LT/LTE constraint value must be a number"))
            }
        },
        ConstraintOperator::In | ConstraintOperator::NotIn => {
            if value.kind != JsonKind::Array {
                return Err(validation_error("IN/NOT_IN constraint value must be an array"));
            }
            let n = value.items.len();
            if n == 0 {
                return Err(validation_error("IN/NOT_IN constraint value must be a non-empty array"));
            }
            let mut i: usize = 0;
            while i < n
                invariant
                    n == value.items@.len(),
                    n > 0,
                    value.kind == JsonKind::Array,
                    operator == ConstraintOperator::In || operator == ConstraintOperator::NotIn,
                    i <= n,
                    forall|k: int| 0 <= k < i ==> (#[trigger] value.items@[k]).is_primitive(),
                decreases n - i,
            {
                if !value.items[i].primitive() {
                    assert(!value.items@[i as int].is_primitive());
                    return Err(
                        validation_error(
                            "IN/NOT_IN constraint value array elements must be strings, numbers, or booleans",
                        ),
                    );
                }
                i = i + 1;
            }
            Ok(())
        },
    }
}

fn check_constraint(c: &Constraint) -> (r: Result<(), CustomError>)
    ensures
        check_result(r, constraint_error(*c)),
{
    let p = c.property.as_str();
    if p.unicode_len() == 0 {
        return Err(validation_error("Constraint property must not be empty"));
    }
    if byte_len_exceeds(p, MAX_CONSTRAINT_PROPERTY_LENGTH) {
        return Err(validation_error("Constraint property length should be less than 256 bytes"));
    }
    let safe = validate_safe_identifier("Constraint property", p);
    if safe.is_err() {
        return safe;
    }
    if byte_len_exceeds(c.value.encoded.as_str(), MAX_CONSTRAINT_VALUE_BYTES) {
        return Err(validation_error("Constraint value length should be less than 1024 bytes"));
    }
    validate_constraint_value_shape(c.operator, &c.value)
}

fn check_constraints(cs: &Vec<Constraint>) -> (r: Result<(), CustomError>)
    ensures
        check_result(r, first_constraint_error(cs@, cs@.len() as int)),
{
    let n = cs.len();
    let mut i: usize = 0;
    while i < n
        invariant
            n == cs@.len(),
            i <= n,
            first_constraint_error(cs@, i as int) is None,
        decreases n - i,
    {
        let item = check_constraint(&cs[i]);
        if item.is_err() {
            proof {
                lemma_first_constraint_error_stable(cs@, i + 1, n as int);
            }
            return item;
        }
        i = i + 1;
    }
    Ok(())
}

/// Whether some variant has the key `key`.
fn variant_key_exists(variants: &[Variant], key: &String) -> (r: bool)
    ensures
        r == has_variant_key(variants@, key@),
{
    let n = variants.len();
    let mut j: usize = 0;
    while j < n
        invariant
            n == variants@.len(),
            j <= n,
            forall|k: int| 0 <= k < j ==> #[trigger] variants@[k].key@ != key@,
        decreases n - j,
    {
        if variants[j].key == *key {
            assert(variants@[j as int].key@ == key@);
            return true;
        }
        j = j + 1;
    }
    false
}

fn check_distribution_at(ds: &Vec<Distribution>, variants: &[Variant], k: usize) -> (r: Result<
    (),
    CustomError,
>)
    requires
        k < ds@.len(),
    ensures
        check_result(r, distribution_error_at(ds@, variants@, k as int)),
{
    if ds[k].percent > 100 {
        return Err(validation_error("Distribution percent must be between 0 and 100"));
    }
    let key = ds[k].variant_key.as_str();
    if !variant_key_exists(variants, &ds[k].variant_key) {
        return Err(
            CustomError::ValidationError(
                concat3("Distribution references unknown variant key '", key, "'"),
            ),
        );
    }
    let mut j: usize = 0;
    while j < k
        invariant
            k < ds@.len(),
            j <= k,
            key@ == ds@[k as int].variant_key@,
            ds@[k as int].percent <= 100,
            has_variant_key(variants@, key@),
            forall|m: int| 0 <= m < j ==> #[trigger] ds@[m].variant_key@ != key@,
        decreases k - j,
    {
        if ds[j].variant_key == ds[k].variant_key {
            assert(ds@[j as int].variant_key@ == key@);
            return Err(
                CustomError::ValidationError(
                    concat3("Duplicate distribution for variant key '", key, "' in segment"),
                ),
            );
        }
        j = j + 1;
    }
    Ok(())
}

proof fn lemma_percent_sum_take_step(ds: Seq<Distribution>, i: int)
    requires
        0 <= i < ds.len(),
    ensures
        percent_sum(ds.take(i + 1)) == percent_sum(ds.take(i)) + ds[i].percent,
{
    assert(ds.take(i + 1).drop_last() =~= ds.take(i));
}

fn check_distributions(ds: &Vec<Distribution>, variants: &[Variant]) -> (r: Result<
    (),
    CustomError,
>)
    ensures
        check_result(r, distributions_error(ds@, variants@)),
{
    let n = ds.len();
    if n == 0 {
        return Err(validation_error("Segment must have at least one distribution"));
    }
    if n > MAX_DISTRIBUTIONS_PER_SEGMENT {
        return Err(validation_error("Segment must have at most 64 distributions"));
    }
    let mut total: u32 = 0;
    let mut k: usize = 0;
    while k < n
        invariant
            n == ds@.len(),
            n <= MAX_DISTRIBUTIONS_PER_SEGMENT,
            k <= n,
            first_distribution_error(ds@, variants@, k as int) is None,
            total == percent_sum(ds@.take(k as int)),
            total <= 100 * k,
        decreases n - k,
    {
        let item = check_distribution_at(ds, variants, k);
        if item.is_err() {
            proof {
                lemma_first_distribution_error_stable(ds@, variants@, k + 1, n as int);
            }
            return item;
        }
        proof {
            lemma_percent_sum_take_step(ds@, k as int);
        }
        total = total + ds[k].percent;
        k = k + 1;
    }
    assert(ds@.take(n as int) =~= ds@);
    if total != 100 {
        return Err(validation_error("Distribution percentages must sum to 100"));
    }
    Ok(())
}

fn check_segment_at(segments: &[Segment], variants: &[Variant], i: usize) -> (r: Result<
    (),
    CustomError,
>)
    requires
        i < segments@.len(),
    ensures
        check_result(r, segment_error_at(segments@, variants@, i as int)),
{
    let segment = &segments[i];
    if segment.priority < 0 {
        return Err(validation_error("Segment priority must be non-negative"));
    }
    let mut j: usize = 0;
    while j < i
        invariant
            i < segments@.len(),
            j <= i,
            *segment == segments@[i as int],
            segment.priority >= 0,
            forall|k: int| 0 <= k < j ==> #[trigger] segments@[k].priority != segment.priority,
        decreases i - j,
    {
        if segments[j].priority == segment.priority {
            assert(segments@[j as int].priority == segment.priority);
            let digits = decimal_string(segment.priority as u64);
            assert((segment.priority as u64) as nat == segment.priority as nat);
            return Err(
                CustomError::ValidationError(
                    concat3("Duplicate segment priority '", digits.as_str(), "'"),
                ),
            );
        }
        j = j + 1;
    }
    if segment.rollout_percent > 100 {
        return Err(validation_error("Segment rollout_percent must be between 0 and 100"));
    }
    if segment.constraints.len() > MAX_CONSTRAINTS_PER_SEGMENT {
        return Err(validation_error("Segment must have at most 64 constraints"));
    }
    let cs = check_constraints(&segment.constraints);
    if cs.is_err() {
        return cs;
    }
    check_distributions(&segment.distributions, variants)
}

pub fn validate_segments(segments: &[Segment], variants: &[Variant]) -> (r: Result<
    (),
    CustomError,
>)
    ensures
        check_result(r, segments_error(segments@, variants@)),
{
    let n = segments.len();
    if n == 0 {
        return Err(validation_error("Must have at least one segment"));
    }
    if n > MAX_SEGMENTS {
        return Err(validation_error("Must have at most 64 segments"));
    }
    let mut i: usize = 0;
    while i < n
        invariant
            n == segments@.len(),
            0 < n <= MAX_SEGMENTS,
            i <= n,
            first_segment_error(segments@, variants@, i as int) is None,
        decreases n - i,
    {
        let item = check_segment_at(segments, variants, i);
        if item.is_err() {
            proof {
                lemma_first_segment_error_stable(segments@, variants@, i + 1, n as int);
            }
            return item;
        }
        i = i + 1;
    }
    Ok(())
}

/// Checks description, primary metric, variants and segments, in this order.
pub fn validate_experiment_state(
    description: Option<&str>,
    primary_metric: &str,
    variants: &[Variant],
    segments: &[Segment],
) -> (r: Result<(), CustomError>)
    ensures
        check_result(
            r,
            experiment_state_error(opt_view(description), primary_metric@, variants@, segments@),
        ),
{
    let d = validate_description(description);
    if d.is_err() {
        return d;
    }
    let m = validate_primary_metric(primary_metric);
    if m.is_err() {
        return m;
    }
    let v = validate_variants(variants);
    if v.is_err() {
        return v;
    }
    validate_segments(segments, variants)
}

proof fn lemma_no_variant_error(vs: Seq<Variant>, n: int)
    requires
        first_variant_error(vs, n) is None,
    ensures
        forall|i: int| 0 <= i < n ==> (#[trigger] variant_error_at(vs, i)) is None,
    decreases n,
{
    if n > 0 {
        lemma_no_variant_error(vs, n - 1);
    }
}

proof fn lemma_no_distribution_error(ds: Seq<Distribution>, vs: Seq<Variant>, n: int)
    requires
        first_distribution_error(ds, vs, n) is None,
    ensures
        forall|k: int| 0 <= k < n ==> (#[trigger] distribution_error_at(ds, vs, k)) is None,
    decreases n,
{
    if n > 0 {
        lemma_no_distribution_error(ds, vs, n - 1);
    }
}

proof fn lemma_no_segment_error(ss: Seq<Segment>, vs: Seq<Variant>, n: int)
    requires
        first_segment_error(ss, vs, n) is None,
    ensures
        forall|i: int| 0 <= i < n ==> (#[trigger] segment_error_at(ss, vs, i)) is None,
    decreases n,
{
    if n > 0 {
        lemma_no_segment_error(ss, vs, n - 1);
    }
}

/// An experiment definition that passes validation has what assignment
/// relies on: exactly one control variant, distinct variant keys, distinct
/// non-negative segment priorities, rollouts within 0..=100, and in every
/// segment distributions that name known variants, each at most once, and
/// whose percentages add up to exactly 100.
pub proof fn law_accepted_experiment_is_well_formed(
    description: Option<Seq<char>>,
    primary_metric: Seq<char>,
    vs: Seq<Variant>,
    ss: Seq<Segment>,
)
    requires
        experiment_state_error(description, primary_metric, vs, ss) is None,
    ensures
        control_count(vs) == 1,
        forall|i: int, j: int|
            0 <= i < vs.len() && 0 <= j < vs.len() && i != j ==> #[trigger] vs[i].key@
                != #[trigger] vs[j].key@,
        ss.len() > 0,
        forall|i: int, j: int|
            0 <= i < ss.len() && 0 <= j < ss.len() && i != j ==> #[trigger] ss[i].priority
                != #[trigger] ss[j].priority,
        forall|i: int|
            0 <= i < ss.len() ==> 0 <= (#[trigger] ss[i]).priority && ss[i].rollout_percent <= 100
                && percent_sum(ss[i].distributions@) == 100,
        forall|i: int, k: int|
            0 <= i < ss.len() && 0 <= k < ss[i].distributions@.len() ==> has_variant_key(
                vs,
                #[trigger] ss[i].distributions@[k].variant_key@,
            ),
        forall|i: int, k: int, m: int|
            0 <= i < ss.len() && 0 <= k < ss[i].distributions@.len() && 0 <= m
                < ss[i].distributions@.len() && k != m ==> #[trigger] ss[i].distributions@[k].variant_key@
                != #[trigger] ss[i].distributions@[m].variant_key@,
{
    lemma_no_variant_error(vs, vs.len() as int);
    lemma_no_segment_error(ss, vs, ss.len() as int);
    assert forall|i: int, j: int|
        0 <= i < vs.len() && 0 <= j < vs.len() && i != j implies #[trigger] vs[i].key@
        != #[trigger] vs[j].key@ by {
        if i < j {
            assert(variant_error_at(vs, j) is None);
        } else {
            assert(variant_error_at(vs, i) is None);
        }
    }
    assert forall|i: int, j: int|
        0 <= i < ss.len() && 0 <= j < ss.len() && i != j implies #[trigger] ss[i].priority
        != #[trigger] ss[j].priority by {
        if i < j {
            assert(segment_error_at(ss, vs, j) is None);
        } else {
            assert(segment_error_at(ss, vs, i) is None);
        }
    }
    assert forall|i: int| 0 <= i < ss.len() implies 0 <= (#[trigger] ss[i]).priority
        && ss[i].rollout_percent <= 100 && percent_sum(ss[i].distributions@) == 100 by {
        assert(segment_error_at(ss, vs, i) is None);
    }
    assert forall|i: int, k: int|
        0 <= i < ss.len() && 0 <= k < ss[i].distributions@.len() implies has_variant_key(
        vs,
        #[trigger] ss[i].distributions@[k].variant_key@,
    ) by {
        assert(segment_error_at(ss, vs, i) is None);
        let ds = ss[i].distributions@;
        lemma_no_distribution_error(ds, vs, ds.len() as int);
        assert(distribution_error_at(ds, vs, k) is None);
    }
    assert forall|i: int, k: int, m: int|
        0 <= i < ss.len() && 0 <= k < ss[i].distributions@.len() && 0 <= m
            < ss[i].distributions@.len() && k != m implies #[trigger] ss[i].distributions@[k].variant_key@
        != #[trigger] ss[i].distributions@[m].variant_key@ by {
        assert(segment_error_at(ss, vs, i) is None);
        let ds = ss[i].distributions@;
        lemma_no_distribution_error(ds, vs, ds.len() as int);
        if k < m {
            assert(distribution_error_at(ds, vs, m) is None);
        } else {
            assert(distribution_error_at(ds, vs, k) is None);
        }
    }
}

} // verus!

pub use crate::models::api_key::CreateApiKeyRequest;
pub use crate::models::auth::GoogleLoginRequest;
pub use crate::models::evaluate::EvaluateRequest;
pub use crate::models::experiment::request::{CreateExperimentRequest, UpdateExperimentRequest};
