//! The experiment lifecycle: which stored experiments each operation may
//! change, how it changes them, and what it answers.
//!
//! Each operation is a function from the stored row (as far as the decision
//! needs it) and the current time to the outcome and the row afterwards. The
//! storage layer reads the row, applies the function and writes the result.
use vstd::prelude::*;
use crate::models::experiment::{ExperimentStatus, Segment, Variant};

verus! {

/// The part of a stored experiment that lifecycle decisions read and write.
#[derive(Clone, Copy, Debug, PartialEq, Eq, Structural)]
pub struct ExperimentState {
    pub status: ExperimentStatus,
    pub started_at: Option<i64>,
    pub stopped_at: Option<i64>,
    pub updated_at: i64,
}

pub enum CreateExperimentOutcome {
    Created(String),
    KeyConflict,
}

#[derive(Clone, Copy, Debug, PartialEq, Eq, Structural)]
pub enum StartExperimentOutcome {
    Started,
    NotFound,
    NotInDraft(ExperimentStatus),
}

#[derive(Clone, Copy, Debug, PartialEq, Eq, Structural)]
pub enum StopExperimentOutcome {
    Stopped,
    NotFound,
    NotRunning(ExperimentStatus),
}

#[derive(Clone, Copy, Debug, PartialEq, Eq, Structural)]
pub enum DeleteExperimentOutcome {
    Deleted,
    NotFound,
    NotDeletable(ExperimentStatus),
}

#[derive(Clone, Copy, Debug, PartialEq, Eq, Structural)]
pub enum UpdateExperimentOutcome {
    Updated,
    NotFound,
    StatusConflict(ExperimentStatus),
    VersionConflict,
}

/// The fields an update request sets. `None` leaves a field alone; for the
/// description, `Some(None)` clears it.
pub struct UpdateExperimentFields<'a> {
    pub description: Option<Option<&'a str>>,
    pub primary_metric: Option<&'a str>,
    pub variants: Option<&'a [Variant]>,
    pub segments: Option<&'a [Segment]>,
}

impl<'a> UpdateExperimentFields<'a> {
    /// No field is set.
    pub open spec fn spec_is_empty(&self) -> bool {
        self.description is None && self.primary_metric is None && self.variants is None
            && self.segments is None
    }

    /// The update touches the experiment's definition (metric, variants or
    /// segments), which only drafts may change.
    pub open spec fn spec_is_structural(&self) -> bool {
        self.primary_metric is Some || self.variants is Some || self.segments is Some
    }

    pub fn is_empty(&self) -> (r: bool)
        ensures
            r == self.spec_is_empty(),
    {
        self.description.is_none() && self.primary_metric.is_none() && self.variants.is_none()
            && self.segments.is_none()
    }

    pub fn is_structural(&self) -> (r: bool)
        ensures
            r == self.spec_is_structural(),
    {
        self.primary_metric.is_some() || self.variants.is_some() || self.segments.is_some()
    }

    /// The update that sets nothing.
    pub fn empty() -> (r: Self)
        ensures
            r.spec_is_empty(),
    {
        UpdateExperimentFields {
            description: None,
            primary_metric: None,
            variants: None,
            segments: None,
        }
    }
}

/// A freshly created experiment: a draft that has never run.
pub open spec fn spec_initial_state(now: i64) -> ExperimentState {
    ExperimentState { status: ExperimentStatus::Draft, started_at: None, stopped_at: None, updated_at: now }
}

/// Starting: a draft becomes running, with `started_at` set to now.
pub open spec fn spec_start(current: Option<ExperimentState>, now: i64) -> (
    StartExperimentOutcome,
    Option<ExperimentState>,
) {
    match current {
        None => (StartExperimentOutcome::NotFound, current),
        Some(s) => if s.status == ExperimentStatus::Draft {
            (
                StartExperimentOutcome::Started,
                Some(
                    ExperimentState {
                        status: ExperimentStatus::Running,
                        started_at: Some(now),
                        stopped_at: s.stopped_at,
                        updated_at: now,
                    },
                ),
            )
        } else if s.status == ExperimentStatus::Deleted {
            (StartExperimentOutcome::NotFound, current)
        } else {
            (StartExperimentOutcome::NotInDraft(s.status), current)
        },
    }
}

/// Stopping: a running experiment becomes stopped, with `stopped_at` set to
/// now.
pub open spec fn spec_stop(current: Option<ExperimentState>, now: i64) -> (
    StopExperimentOutcome,
    Option<ExperimentState>,
) {
    match current {
        None => (StopExperimentOutcome::NotFound, current),
        Some(s) => if s.status == ExperimentStatus::Running {
            (
                StopExperimentOutcome::Stopped,
                Some(
                    ExperimentState {
                        status: ExperimentStatus::Stopped,
                        started_at: s.started_at,
                        stopped_at: Some(now),
                        updated_at: now,
                    },
                ),
            )
        } else if s.status == ExperimentStatus::Deleted {
            (StopExperimentOutcome::NotFound, current)
        } else {
            (StopExperimentOutcome::NotRunning(s.status), current)
        },
    }
}

/// Deleting: drafts and stopped experiments are marked deleted; running ones
/// must be stopped first.
pub open spec fn spec_delete(current: Option<ExperimentState>, now: i64) -> (
    DeleteExperimentOutcome,
    Option<ExperimentState>,
) {
    match current {
        None => (DeleteExperimentOutcome::NotFound, current),
        Some(s) => if s.status == ExperimentStatus::Draft || s.status == ExperimentStatus::Stopped {
            (
                DeleteExperimentOutcome::Deleted,
                Some(
                    ExperimentState {
                        status: ExperimentStatus::Deleted,
                        started_at: s.started_at,
                        stopped_at: s.stopped_at,
                        updated_at: now,
                    },
                ),
            )
        } else if s.status == ExperimentStatus::Deleted {
            (DeleteExperimentOutcome::NotFound, current)
        } else {
            (DeleteExperimentOutcome::NotDeletable(s.status), current)
        },
    }
}

/// Whether an update may be written to the stored experiment: it exists and
/// is not deleted, a structural update only touches a draft, and an expected
/// version (`If-Match`) equals the stored `updated_at`.
pub open spec fn update_applies(structural: bool, expected: Option<i64>, s: ExperimentState) -> bool {
    &&& s.status != ExperimentStatus::Deleted
    &&& structural ==> s.status == ExperimentStatus::Draft
    &&& expected matches Some(e) ==> s.updated_at == e
}

/// Updating. An update that sets nothing and expects no version succeeds
/// without looking at the experiment; otherwise it is written when it
/// applies, and refused with the first reason that stops it.
pub open spec fn spec_update(
    empty: bool,
    structural: bool,
    expected: Option<i64>,
    current: Option<ExperimentState>,
    now: i64,
) -> (UpdateExperimentOutcome, Option<ExperimentState>) {
    if empty && expected is None {
        (UpdateExperimentOutcome::Updated, current)
    } else {
        match current {
            None => (UpdateExperimentOutcome::NotFound, current),
            Some(s) => if s.status == ExperimentStatus::Deleted {
                (UpdateExperimentOutcome::NotFound, current)
            } else if update_applies(structural, expected, s) {
                (
                    UpdateExperimentOutcome::Updated,
                    Some(
                        ExperimentState {
                            status: s.status,
                            started_at: s.started_at,
                            stopped_at: s.stopped_at,
                            updated_at: now,
                        },
                    ),
                )
            } else if expected matches Some(e) && s.updated_at != e {
                (UpdateExperimentOutcome::VersionConflict, current)
            } else {
                (UpdateExperimentOutcome::StatusConflict(s.status), current)
            },
        }
    }
}

/// Keys are unique among a company's live experiments: an insert that wrote
/// nothing met an existing key.
pub fn create_experiment_outcome(rows_affected: u64, experiment_id: String) -> (r:
    CreateExperimentOutcome)
    ensures
        rows_affected == 0 ==> r is KeyConflict,
        rows_affected != 0 ==> r == CreateExperimentOutcome::Created(experiment_id),
{
    if rows_affected == 0 {
        CreateExperimentOutcome::KeyConflict
    } else {
        CreateExperimentOutcome::Created(experiment_id)
    }
}

/// The state of a newly created experiment.
pub fn initial_state(now: i64) -> (r: ExperimentState)
    ensures
        r == spec_initial_state(now),
{
    ExperimentState { status: ExperimentStatus::Draft, started_at: None, stopped_at: None, updated_at: now }
}

pub fn start_transition(current: Option<ExperimentState>, now: i64) -> (r: (
    StartExperimentOutcome,
    Option<ExperimentState>,
))
    ensures
        r == spec_start(current, now),
{
    match current {
        None => (StartExperimentOutcome::NotFound, current),
        Some(s) => match s.status {
            ExperimentStatus::Draft => (
                StartExperimentOutcome::Started,
                Some(
                    ExperimentState {
                        status: ExperimentStatus::Running,
                        started_at: Some(now),
                        stopped_at: s.stopped_at,
                        updated_at: now,
                    },
                ),
            ),
            ExperimentStatus::Deleted => (StartExperimentOutcome::NotFound, current),
            other => (StartExperimentOutcome::NotInDraft(other), current),
        },
    }
}

pub fn stop_transition(current: Option<ExperimentState>, now: i64) -> (r: (
    StopExperimentOutcome,
    Option<ExperimentState>,
))
    ensures
        r == spec_stop(current, now),
{
    match current {
        None => (StopExperimentOutcome::NotFound, current),
        Some(s) => match s.status {
            ExperimentStatus::Running => (
                StopExperimentOutcome::Stopped,
                Some(
                    ExperimentState {
                        status: ExperimentStatus::Stopped,
                        started_at: s.started_at,
                        stopped_at: Some(now),
                        updated_at: now,
                    },
                ),
            ),
            ExperimentStatus::Deleted => (StopExperimentOutcome::NotFound, current),
            other => (StopExperimentOutcome::NotRunning(other), current),
        },
    }
}

pub fn delete_transition(current: Option<ExperimentState>, now: i64) -> (r: (
    DeleteExperimentOutcome,
    Option<ExperimentState>,
))
    ensures
        r == spec_delete(current, now),
{
    match current {
        None => (DeleteExperimentOutcome::NotFound, current),
        Some(s) => match s.status {
            ExperimentStatus::Draft | ExperimentStatus::Stopped => (
                DeleteExperimentOutcome::Deleted,
                Some(
                    ExperimentState {
                        status: ExperimentStatus::Deleted,
                        started_at: s.started_at,
                        stopped_at: s.stopped_at,
                        updated_at: now,
                    },
                ),
            ),
            ExperimentStatus::Deleted => (DeleteExperimentOutcome::NotFound, current),
            other => (DeleteExperimentOutcome::NotDeletable(other), current),
        },
    }
}

pub fn update_transition(
    fields: &UpdateExperimentFields,
    expected_updated_at: Option<i64>,
    current: Option<ExperimentState>,
    now: i64,
) -> (r: (UpdateExperimentOutcome, Option<ExperimentState>))
    ensures
        r == spec_update(
            fields.spec_is_empty(),
            fields.spec_is_structural(),
            expected_updated_at,
            current,
            now,
        ),
{
    if fields.is_empty() && expected_updated_at.is_none() {
        return (UpdateExperimentOutcome::Updated, current);
    }
    let structural = fields.is_structural();
    match current {
        None => (UpdateExperimentOutcome::NotFound, current),
        Some(s) => {
            if s.status == ExperimentStatus::Deleted {
                return (UpdateExperimentOutcome::NotFound, current);
            }
            let version_ok = match expected_updated_at {
                Some(e) => s.updated_at == e,
                None => true,
            };
            let status_ok = !structural || s.status == ExperimentStatus::Draft;
            if version_ok && status_ok {
                (
                    UpdateExperimentOutcome::Updated,
                    Some(
                        ExperimentState {
                            status: s.status,
                            started_at: s.started_at,
                            stopped_at: s.stopped_at,
                            updated_at: now,
                        },
                    ),
                )
            } else if !version_ok {
                (UpdateExperimentOutcome::VersionConflict, current)
            } else {
                (UpdateExperimentOutcome::StatusConflict(s.status), current)
            }
        },
    }
}

/// The editable columns of a stored experiment; `variants` and `segments`
/// hold JSON text.
pub struct ExperimentDefinition {
    pub description: Option<String>,
    pub primary_metric: String,
    pub variants: String,
    pub segments: String,
}

/// The definition an accepted update writes: each field the update sets
/// replaces the stored one (`Some(None)` clears the description), every
/// other field is kept. `variants_json` and `segments_json` are the JSON
/// encodings of the update's variants and segments, when it sets them.
pub fn apply_update(
    current: ExperimentDefinition,
    fields: &UpdateExperimentFields,
    variants_json: Option<String>,
    segments_json: Option<String>,
) -> (r: ExperimentDefinition)
    ensures
        match fields.description {
            None => r.description == current.description,
            Some(None) => r.description is None,
            Some(Some(d)) => r.description matches Some(x) && x@ == d@,
        },
        match fields.primary_metric {
            None => r.primary_metric == current.primary_metric,
            Some(m) => r.primary_metric@ == m@,
        },
        match variants_json {
            None => r.variants == current.variants,
            Some(j) => r.variants == j,
        },
        match segments_json {
            None => r.segments == current.segments,
            Some(j) => r.segments == j,
        },
{
    let description = match fields.description {
        None => current.description,
        Some(None) => None,
        Some(Some(d)) => Some(d.to_owned()),
    };
    let primary_metric = match fields.primary_metric {
        None => current.primary_metric,
        Some(m) => m.to_owned(),
    };
    let variants = match variants_json {
        None => current.variants,
        Some(j) => j,
    };
    let segments = match segments_json {
        None => current.segments,
        Some(j) => j,
    };
    ExperimentDefinition { description, primary_metric, variants, segments }
}

// ---------------------------------------------------------------------------
// Laws of the lifecycle.
// ---------------------------------------------------------------------------
/// Position of a status along the lifecycle.
pub open spec fn status_rank(s: ExperimentStatus) -> int {
    match s {
        ExperimentStatus::Draft => 0,
        ExperimentStatus::Running => 1,
        ExperimentStatus::Stopped => 2,
        ExperimentStatus::Deleted => 3,
    }
}

/// `after` is `before` or a later point of the same experiment's lifecycle.
pub open spec fn moves_forward(before: Option<ExperimentState>, after: Option<ExperimentState>) -> bool {
    match (before, after) {
        (None, None) => true,
        (Some(b), Some(a)) => status_rank(b.status) <= status_rank(a.status),
        _ => false,
    }
}

/// The timestamps agree with the status: a draft has neither started nor
/// stopped, a running experiment has started, a stopped one has started and
/// stopped.
pub open spec fn timestamps_consistent(s: ExperimentState) -> bool {
    match s.status {
        ExperimentStatus::Draft => s.started_at is None && s.stopped_at is None,
        ExperimentStatus::Running => s.started_at is Some && s.stopped_at is None,
        ExperimentStatus::Stopped => s.started_at is Some && s.stopped_at is Some,
        ExperimentStatus::Deleted => true,
    }
}

pub open spec fn opt_consistent(s: Option<ExperimentState>) -> bool {
    match s {
        Some(x) => timestamps_consistent(x),
        None => true,
    }
}

/// No operation moves an experiment back in its lifecycle
/// (draft, running, stopped, deleted), creates one, or removes its row.
pub proof fn law_lifecycle_moves_forward(
    current: Option<ExperimentState>,
    now: i64,
    empty: bool,
    structural: bool,
    expected: Option<i64>,
)
    ensures
        moves_forward(current, spec_start(current, now).1),
        moves_forward(current, spec_stop(current, now).1),
        moves_forward(current, spec_delete(current, now).1),
        moves_forward(current, spec_update(empty, structural, expected, current, now).1),
{
}

/// A deleted experiment is gone for good: every operation answers "not
/// found" (or, for an update that sets nothing and expects no version,
/// succeeds without looking) and leaves it as it is.
pub proof fn law_deleted_is_final(
    s: ExperimentState,
    now: i64,
    empty: bool,
    structural: bool,
    expected: Option<i64>,
)
    requires
        s.status == ExperimentStatus::Deleted,
    ensures
        spec_start(Some(s), now) == (StartExperimentOutcome::NotFound, Some(s)),
        spec_stop(Some(s), now) == (StopExperimentOutcome::NotFound, Some(s)),
        spec_delete(Some(s), now) == (DeleteExperimentOutcome::NotFound, Some(s)),
        spec_update(empty, structural, expected, Some(s), now).1 == Some(s),
        !(empty && expected is None) ==> spec_update(empty, structural, expected, Some(s), now).0
            == UpdateExperimentOutcome::NotFound,
{
}

/// A refused operation changes nothing.
pub proof fn law_refusal_changes_nothing(
    current: Option<ExperimentState>,
    now: i64,
    empty: bool,
    structural: bool,
    expected: Option<i64>,
)
    ensures
        spec_start(current, now).0 != StartExperimentOutcome::Started ==> spec_start(
            current,
            now,
        ).1 == current,
        spec_stop(current, now).0 != StopExperimentOutcome::Stopped ==> spec_stop(current, now).1
            == current,
        spec_delete(current, now).0 != DeleteExperimentOutcome::Deleted ==> spec_delete(
            current,
            now,
        ).1 == current,
        spec_update(empty, structural, expected, current, now).0
            != UpdateExperimentOutcome::Updated ==> spec_update(
            empty,
            structural,
            expected,
            current,
            now,
        ).1 == current,
{
}

/// Only a draft starts, only a running experiment stops, only a draft or a
/// stopped experiment is deleted.
pub proof fn law_transitions_need_the_right_status(current: Option<ExperimentState>, now: i64)
    ensures
        spec_start(current, now).0 == StartExperimentOutcome::Started <==> (current matches Some(
            s,
        ) && s.status == ExperimentStatus::Draft),
        spec_stop(current, now).0 == StopExperimentOutcome::Stopped <==> (current matches Some(s)
            && s.status == ExperimentStatus::Running),
        spec_delete(current, now).0 == DeleteExperimentOutcome::Deleted <==> (current matches Some(
            s,
        ) && (s.status == ExperimentStatus::Draft || s.status == ExperimentStatus::Stopped)),
{
}

/// An update that changes the metric, variants or segments is only ever
/// written to a draft.
pub proof fn law_structural_updates_only_touch_drafts(
    current: Option<ExperimentState>,
    now: i64,
    empty: bool,
    expected: Option<i64>,
)
    ensures
        spec_update(empty, true, expected, current, now).1 != current ==> (current matches Some(s)
            && s.status == ExperimentStatus::Draft),
{
}

/// An update sent with a stale version (`If-Match` differs from the stored
/// `updated_at`) is refused with a version conflict and changes nothing.
pub proof fn law_stale_version_is_refused(
    s: ExperimentState,
    now: i64,
    empty: bool,
    structural: bool,
    expected: i64,
)
    requires
        s.status != ExperimentStatus::Deleted,
        s.updated_at != expected,
    ensures
        spec_update(empty, structural, Some(expected), Some(s), now) == (
            UpdateExperimentOutcome::VersionConflict,
            Some(s),
        ),
{
}

/// Every operation keeps the timestamps consistent with the status, and a
/// new experiment starts out consistent; so every stored experiment that
/// only these operations touched is consistent.
pub proof fn law_timestamps_stay_consistent(
    current: Option<ExperimentState>,
    now: i64,
    empty: bool,
    structural: bool,
    expected: Option<i64>,
)
    requires
        opt_consistent(current),
    ensures
        timestamps_consistent(spec_initial_state(now)),
        opt_consistent(spec_start(current, now).1),
        opt_consistent(spec_stop(current, now).1),
        opt_consistent(spec_delete(current, now).1),
        opt_consistent(spec_update(empty, structural, expected, current, now).1),
{
}

} // verus!
