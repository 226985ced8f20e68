use vstd::prelude::*;
use crate::errors::{check_result, validation_error, CustomError};
use crate::text::{byte_len_exceeds, utf8_len};
use crate::validation::Validate;

verus! {

pub const MAX_ENTITY_ID_LENGTH: usize = 256;

pub const MAX_METRIC_NAME_LENGTH: usize = 256;

pub const MAX_IDEMPOTENCY_KEY_LENGTH: usize = 128;

pub const MAX_TRACK_EVENTS_PER_REQUEST: usize = 100;

/// One metric event reported by a client. Of the reported value the rules
/// read whether it is a finite number: `value_finite` is `None` when no value
/// was sent (a count event), `Some(true)` for a finite number and
/// `Some(false)` for an infinite or NaN one.
pub struct TrackEvent {
    pub entity_id: String,
    pub metric_name: String,
    pub value_finite: Option<bool>,
    pub ts: Option<i64>,
    pub idempotency_key: Option<String>,
}

pub struct TrackRequest {
    pub events: Vec<TrackEvent>,
}

/// How many events the pipeline took, and how many it dropped as repeats
/// of an idempotency key.
#[derive(Clone, Copy, Debug, PartialEq, Eq, Structural)]
pub struct TrackResponse {
    pub accepted: usize,
    pub deduped: usize,
}

/// Rules for one event.
pub open spec fn track_event_error(e: TrackEvent) -> Option<Seq<char>> {
    if e.entity_id@.len() == 0 {
        Some("entityId must not be empty"@)
    } else if utf8_len(e.entity_id@) > MAX_ENTITY_ID_LENGTH {
        Some("entityId length should be less than 256 bytes"@)
    } else if e.metric_name@.len() == 0 {
        Some("metricName must not be empty"@)
    } else if utf8_len(e.metric_name@) > MAX_METRIC_NAME_LENGTH {
        Some("metricName length should be less than 256 bytes"@)
    } else if e.value_finite == Some(false) {
        Some("value must be a finite number"@)
    } else {
        match e.idempotency_key {
            Some(k) => if k@.len() == 0 {
                Some("idempotencyKey must not be empty when provided"@)
            } else if utf8_len(k@) > MAX_IDEMPOTENCY_KEY_LENGTH {
                Some("idempotencyKey length should be less than 128 bytes"@)
            } else {
                None
            },
            None => None,
        }
    }
}

/// The first failing event among the first `n`.
pub open spec fn first_track_event_error(es: Seq<TrackEvent>, n: int) -> Option<Seq<char>>
    decreases n,
{
    if n <= 0 {
        None
    } else {
        match first_track_event_error(es, n - 1) {
            Some(e) => Some(e),
            None => track_event_error(es[n - 1]),
        }
    }
}

/// Rules for a batch: between 1 and 100 events, each valid.
pub open spec fn track_request_error(es: Seq<TrackEvent>) -> Option<Seq<char>> {
    if es.len() == 0 {
        Some("events must not be empty"@)
    } else if es.len() > MAX_TRACK_EVENTS_PER_REQUEST {
        Some("events must contain at most 100 entries"@)
    } else {
        first_track_event_error(es, es.len() as int)
    }
}

proof fn lemma_first_track_event_error_stable(es: Seq<TrackEvent>, k: int, m: int)
    requires
        0 <= k <= m,
        first_track_event_error(es, k) is Some,
    ensures
        first_track_event_error(es, m) == first_track_event_error(es, k),
    decreases m - k,
{
    if k < m {
        lemma_first_track_event_error_stable(es, k, m - 1);
    }
}

fn check_track_event(e: &TrackEvent) -> (r: Result<(), CustomError>)
    ensures
        check_result(r, track_event_error(*e)),
{
    if e.entity_id.as_str().unicode_len() == 0 {
        return Err(validation_error("entityId must not be empty"));
    }
    if byte_len_exceeds(e.entity_id.as_str(), MAX_ENTITY_ID_LENGTH) {
        return Err(validation_error("entityId length should be less than 256 bytes"));
    }
    if e.metric_name.as_str().unicode_len() == 0 {
        return Err(validation_error("metricName must not be empty"));
    }
    if byte_len_exceeds(e.metric_name.as_str(), MAX_METRIC_NAME_LENGTH) {
        return Err(validation_error("metricName length should be less than 256 bytes"));
    }
    if let Some(finite) = e.value_finite {
        if !finite {
            return Err(validation_error("value must be a finite number"));
        }
    }
    if let Some(key) = &e.idempotency_key {
        if key.as_str().unicode_len() == 0 {
            return Err(validation_error("idempotencyKey must not be empty when provided"));
        }
        if byte_len_exceeds(key.as_str(), MAX_IDEMPOTENCY_KEY_LENGTH) {
            return Err(validation_error("idempotencyKey length should be less than 128 bytes"));
        }
    }
    Ok(())
}

impl Validate for TrackRequest {
    fn validate(&self) -> (r: Result<(), CustomError>)
        ensures
            check_result(r, track_request_error(self.events@)),
    {
        let n = self.events.len();
        if n == 0 {
            return Err(validation_error("events must not be empty"));
        }
        if n > MAX_TRACK_EVENTS_PER_REQUEST {
            return Err(validation_error("events must contain at most 100 entries"));
        }
        let mut i: usize = 0;
        while i < n
            invariant
                n == self.events@.len(),
                0 < n <= MAX_TRACK_EVENTS_PER_REQUEST,
                i <= n,
                first_track_event_error(self.events@, i as int) is None,
            decreases n - i,
        {
            let item = check_track_event(&self.events[i]);
            if item.is_err() {
                proof {
                    lemma_first_track_event_error_stable(self.events@, i + 1, n as int);
                }
                return item;
            }
            i = i + 1;
        }
        Ok(())
    }
}

/// What the metric sink did with one event.
#[derive(Clone, Copy, Debug, PartialEq, Eq, Structural)]
pub enum RecordOutcome {
    Accepted,
    Deduped,
    Dropped,
}

/// Number of outcomes equal to `o`.
pub open spec fn count_outcome(os: Seq<RecordOutcome>, o: RecordOutcome) -> nat
    decreases os.len(),
{
    if os.len() == 0 {
        0
    } else {
        count_outcome(os.drop_last(), o) + if os.last() == o {
            1nat
        } else {
            0nat
        }
    }
}

/// The response to a batch: accepted and deduplicated events are counted;
/// events the sink dropped for lack of room are not reported.
pub fn tally_outcomes(outcomes: &Vec<RecordOutcome>) -> (r: TrackResponse)
    ensures
        r.accepted == count_outcome(outcomes@, RecordOutcome::Accepted),
        r.deduped == count_outcome(outcomes@, RecordOutcome::Deduped),
{
    let n = outcomes.len();
    let mut accepted: usize = 0;
    let mut deduped: usize = 0;
    let mut i: usize = 0;
    while i < n
        invariant
            n == outcomes@.len(),
            i <= n,
            accepted == count_outcome(outcomes@.take(i as int), RecordOutcome::Accepted),
            deduped == count_outcome(outcomes@.take(i as int), RecordOutcome::Deduped),
            accepted + deduped <= i,
        decreases n - i,
    {
        proof {
            assert(outcomes@.take(i + 1).drop_last() =~= outcomes@.take(i as int));
        }
        match outcomes[i] {
            RecordOutcome::Accepted => accepted = accepted + 1,
            RecordOutcome::Deduped => deduped = deduped + 1,
            RecordOutcome::Dropped => {},
        }
        i = i + 1;
    }
    assert(outcomes@.take(n as int) =~= outcomes@);
    TrackResponse { accepted, deduped }
}

/// The time an event is recorded at: the client's timestamp when it sent
/// one, otherwise the server's clock.
pub fn event_time(ts: Option<i64>, now_ms: i64) -> (r: i64)
    ensures
        r == match ts {
            Some(t) => t,
            None => now_ms,
        },
{
    match ts {
        Some(t) => t,
        None => now_ms,
    }
}

} // verus!
