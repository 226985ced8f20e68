use easy_experiments::analytics::{
    after_receive, next_writer_action, EventSink, ExposureEvent, NoopEventSink, ReceiveResult,
    WriterAction, WriterConfig, WriterStep,
};
use easy_experiments::config::{
    numeric_setting, parse_cors_origins, parse_unsigned, AuthProviders, Config, ConfigError,
};
use easy_experiments::enums::experiment_status::ExperimentStatus as LegacyStatus;
use easy_experiments::errors::{CustomError, ErrorResponse, LogLevel};
use easy_experiments::json::{JsonKind, JsonValue};
use easy_experiments::models::analytics::Granularity;
use easy_experiments::models::api_key::CreateApiKeyRequest;
use easy_experiments::models::auth::{
    AcceptInviteRequest, AuthenticatedUser, PasswordLoginRequest, UserRole, UserRow,
};
use easy_experiments::models::experiment::{
    default_config, CachedExperiment, CreateExperimentRequest, Distribution, ExperimentRow,
    ExperimentStatus, Segment, UpdateExperimentRequest, Variant,
};
use easy_experiments::models::experiment::response::ExperimentResponse;
use easy_experiments::models::track::{
    event_time, tally_outcomes, RecordOutcome, TrackEvent, TrackRequest,
};
use easy_experiments::models::user::{InviteUserRequest, UserListItem, UserStatus};
use easy_experiments::repository::db::experiments::{
    apply_update, delete_transition, ExperimentDefinition, initial_state, start_transition, stop_transition, update_transition,
    DeleteExperimentOutcome, ExperimentState, StartExperimentOutcome, StopExperimentOutcome,
    UpdateExperimentFields, UpdateExperimentOutcome,
};
use easy_experiments::repository::db::{
    create_api_key_outcome, google_admin_row, pending_user_row, CreateApiKeyOutcome,
    PendingUserInvite,
};
use easy_experiments::routes::auth::{check_accept_invite, check_password_login, validate_token};
use easy_experiments::routes::config_js::{config_js_body, PublicConfig};
use easy_experiments::routes::experiments::parse_if_match;
use easy_experiments::routes::users::{
    build_invite_url, invite_token_ttl, require_admin, urlencoding, PasswordAuthEnabled,
};
use easy_experiments::text::{
    byte_len_exceeds, decimal_string, differs_from_trimmed, is_control, is_whitespace, parse_i64,
    trimmed,
};
use easy_experiments::validation::Validate;

fn validation_message(r: Result<(), CustomError>) -> String {
    match r {
        Err(CustomError::ValidationError(m)) => m,
        other => panic!("expected a validation error, got {other:?}"),
    }
}

// ---- character classes and strings ----

#[test]
fn char_classes_agree_with_std() {
    for u in 0..0x110000u32 {
        if let Some(c) = char::from_u32(u) {
            assert_eq!(is_control(c), c.is_control(), "is_control({u:#x})");
            assert_eq!(is_whitespace(c), c.is_whitespace(), "is_whitespace({u:#x})");
        }
    }
}

#[test]
fn trimming_agrees_with_std() {
    for s in ["", " ", "abc", "  abc ", "\u{3000}x\u{2028}", "\t\n", "a b", "\u{85}z"] {
        assert_eq!(trimmed(s), s.trim());
        assert_eq!(differs_from_trimmed(s), s != s.trim());
    }
}

#[test]
fn byte_lengths_agree_with_std() {
    for s in ["", "abc", "é", "日本語", "🦀x", "a\u{7FF}\u{800}\u{FFFF}\u{10000}"] {
        for limit in 0..12usize {
            assert_eq!(byte_len_exceeds(s, limit), s.len() > limit, "{s:?} {limit}");
        }
    }
}

#[test]
fn decimal_strings() {
    assert_eq!(decimal_string(0), "0");
    assert_eq!(decimal_string(12345), "12345");
    assert_eq!(decimal_string(u64::MAX), u64::MAX.to_string());
}

#[test]
fn parse_i64_agrees_with_std() {
    for s in [
        "", "+", "-", "0", "-0", "+5", "42", "00012", "12a", " 1", "1 ", "--1",
        "9223372036854775807", "9223372036854775808", "-9223372036854775808",
        "-9223372036854775809", "99999999999999999999999",
    ] {
        assert_eq!(parse_i64(s), s.parse::<i64>().ok(), "{s:?}");
    }
}

#[test]
fn i64_display_then_parse_round_trips() {
    for n in [0i64, 7, -7, 1_700_000_000_000, i64::MAX, i64::MIN] {
        assert_eq!(parse_i64(&n.to_string()), Some(n));
        assert_eq!(parse_if_match(Some(&format!("\"{n}\""))).unwrap(), Some(n));
    }
}

// ---- If-Match ----

#[test]
fn if_match_header_values() {
    assert_eq!(parse_if_match(None).unwrap(), None);
    assert_eq!(parse_if_match(Some(" \"123\" ")).unwrap(), Some(123));
    assert_eq!(parse_if_match(Some("\"\"12\"\"")).unwrap(), Some(12));
    assert_eq!(parse_if_match(Some("-5")).unwrap(), Some(-5));
    match parse_if_match(Some("abc")) {
        Err(CustomError::ValidationError(m)) => {
            assert_eq!(m, "If-Match must be the experiment's updatedAt timestamp")
        }
        _ => panic!("expected a validation error"),
    }
}

// ---- invite links ----

#[test]
fn urlencoding_escapes_reserved_characters() {
    assert_eq!(urlencoding("abcXYZ019-_.~"), "abcXYZ019-_.~");
    assert_eq!(urlencoding("a b"), "a%20b");
    assert_eq!(urlencoding("\n"), "%0A");
    assert_eq!(urlencoding("é"), "%E9");
    assert_eq!(urlencoding("€"), "%20AC");
    assert_eq!(urlencoding("a/b?c=d"), "a%2Fb%3Fc%3Dd");
}

#[test]
fn invite_urls() {
    assert_eq!(
        build_invite_url("https://x.io//", "tok en").as_deref(),
        Some("https://x.io/accept-invite?token=tok%20en")
    );
    assert_eq!(
        build_invite_url("https://x.io", "abc").as_deref(),
        Some("https://x.io/accept-invite?token=abc")
    );
    assert_eq!(build_invite_url("///", "t"), None);
    assert_eq!(build_invite_url("", "t"), None);
}

#[test]
fn invite_decisions() {
    let admin = AuthenticatedUser {
        user_id: "u".into(),
        company_id: "c".into(),
        email: "a@b.c".into(),
        role: UserRole::Admin,
    };
    let member = AuthenticatedUser { role: UserRole::Member, ..admin.clone() };
    assert!(require_admin(&admin).is_ok());
    match require_admin(&member) {
        Err(CustomError::ForbiddenError(m)) => assert_eq!(m, "Only admins can invite members"),
        _ => panic!("expected forbidden"),
    }
    assert_eq!(invite_token_ttl(&PasswordAuthEnabled(true), 7), Some(7));
    assert_eq!(invite_token_ttl(&PasswordAuthEnabled(false), 7), None);
}

// ---- config.js and error bodies ----

#[test]
fn config_js_bodies() {
    assert_eq!(
        config_js_body(&PublicConfig::default()),
        "window.__APP_CONFIG = {\"googleClientId\":\"\"};\n"
    );
    assert_eq!(
        config_js_body(&PublicConfig { google_client_id: Some("  abc.apps ".into()) }),
        "window.__APP_CONFIG = {\"googleClientId\":\"abc.apps\"};\n"
    );
    assert_eq!(
        config_js_body(&PublicConfig { google_client_id: Some("a\"b</script>".into()) }),
        "window.__APP_CONFIG = {\"googleClientId\":\"a\\\"b</script>\"};\n"
    );
}

#[test]
fn error_body_matches_pretty_json() {
    for msg in ["plain", "with \"quotes\" and \\ and \n and \u{1}", "é"] {
        let mut map = serde_json::Map::new();
        map.insert("message".into(), serde_json::Value::String(msg.into()));
        let expected = serde_json::to_string_pretty(&serde_json::Value::Object(map)).unwrap();
        assert_eq!(ErrorResponse::to_json(msg), expected);
    }
    assert_eq!(ErrorResponse::to_json("a\"b"), "{\n  \"message\": \"a\\\"b\"\n}");
}

#[test]
fn error_status_kind_and_log_level() {
    let cases = [
        (CustomError::SerializeError("m".into()), 400, "SerializeError", LogLevel::Warn),
        (CustomError::ValidationError("m".into()), 422, "ValidationError", LogLevel::Quiet),
        (CustomError::InternalError("m".into()), 500, "InternalError", LogLevel::Error),
        (CustomError::UnauthorizedError("m".into()), 401, "UnauthorizedError", LogLevel::Warn),
        (CustomError::ForbiddenError("m".into()), 403, "ForbiddenError", LogLevel::Warn),
        (CustomError::NotFoundError("m".into()), 404, "NotFoundError", LogLevel::Quiet),
        (CustomError::ConflictError("m".into()), 409, "ConflictError", LogLevel::Quiet),
        (
            CustomError::PreconditionFailedError("m".into()),
            412,
            "PreconditionFailedError",
            LogLevel::Quiet,
        ),
    ];
    for (err, code, kind, level) in cases {
        assert_eq!(err.status_code(), code);
        assert_eq!(err.kind(), kind);
        assert_eq!(err.log_level(), level);
        assert_eq!(err.message(), "m");
        assert_eq!(err.response_body(), "{\n  \"message\": \"m\"\n}");
    }
}

// ---- experiment lifecycle ----

fn state(status: ExperimentStatus) -> ExperimentState {
    ExperimentState { status, started_at: None, stopped_at: None, updated_at: 10 }
}

#[test]
fn lifecycle_start_stop_delete() {
    let draft = initial_state(5);
    assert_eq!(draft.status, ExperimentStatus::Draft);
    let (o, s) = start_transition(Some(draft), 20);
    assert_eq!(o, StartExperimentOutcome::Started);
    let running = s.unwrap();
    assert_eq!(running.status, ExperimentStatus::Running);
    assert_eq!(running.started_at, Some(20));
    assert_eq!(running.updated_at, 20);

    // a running experiment cannot be deleted or started again
    assert_eq!(
        delete_transition(Some(running), 25),
        (DeleteExperimentOutcome::NotDeletable(ExperimentStatus::Running), Some(running))
    );
    assert_eq!(
        start_transition(Some(running), 25),
        (StartExperimentOutcome::NotInDraft(ExperimentStatus::Running), Some(running))
    );

    let (o, s) = stop_transition(Some(running), 30);
    assert_eq!(o, StopExperimentOutcome::Stopped);
    let stopped = s.unwrap();
    assert_eq!(stopped.status, ExperimentStatus::Stopped);
    assert_eq!(stopped.started_at, Some(20));
    assert_eq!(stopped.stopped_at, Some(30));

    let (o, s) = delete_transition(Some(stopped), 40);
    assert_eq!(o, DeleteExperimentOutcome::Deleted);
    let deleted = s.unwrap();
    assert_eq!(deleted.status, ExperimentStatus::Deleted);
    assert_eq!(deleted.updated_at, 40);
}

#[test]
fn deleted_experiments_are_not_found() {
    let deleted = state(ExperimentStatus::Deleted);
    assert_eq!(start_transition(Some(deleted), 1), (StartExperimentOutcome::NotFound, Some(deleted)));
    assert_eq!(stop_transition(Some(deleted), 1), (StopExperimentOutcome::NotFound, Some(deleted)));
    assert_eq!(delete_transition(Some(deleted), 1), (DeleteExperimentOutcome::NotFound, Some(deleted)));
    let fields = UpdateExperimentFields { primary_metric: Some("m"), ..UpdateExperimentFields::empty() };
    assert_eq!(
        update_transition(&fields, None, Some(deleted), 1),
        (UpdateExperimentOutcome::NotFound, Some(deleted))
    );
    assert_eq!(start_transition(None, 1), (StartExperimentOutcome::NotFound, None));
}

#[test]
fn updates_respect_status_and_version() {
    let structural = UpdateExperimentFields { primary_metric: Some("m"), ..UpdateExperimentFields::empty() };
    let description = UpdateExperimentFields { description: Some(None), ..UpdateExperimentFields::empty() };
    let empty = UpdateExperimentFields::empty();
    assert!(empty.is_empty() && !empty.is_structural());
    assert!(structural.is_structural() && !description.is_structural());

    let draft = state(ExperimentStatus::Draft);
    let running = state(ExperimentStatus::Running);
    let (o, s) = update_transition(&structural, None, Some(draft), 50);
    assert_eq!(o, UpdateExperimentOutcome::Updated);
    assert_eq!(s.unwrap().updated_at, 50);
    assert_eq!(
        update_transition(&structural, None, Some(running), 50),
        (UpdateExperimentOutcome::StatusConflict(ExperimentStatus::Running), Some(running))
    );
    let (o, s) = update_transition(&description, None, Some(running), 50);
    assert_eq!(o, UpdateExperimentOutcome::Updated);
    assert_eq!(s.unwrap().status, ExperimentStatus::Running);
    // stale version
    assert_eq!(
        update_transition(&description, Some(9), Some(draft), 50),
        (UpdateExperimentOutcome::VersionConflict, Some(draft))
    );
    assert_eq!(
        update_transition(&structural, Some(9), Some(running), 50),
        (UpdateExperimentOutcome::VersionConflict, Some(running))
    );
    // matching version
    assert_eq!(update_transition(&description, Some(10), Some(draft), 50).0, UpdateExperimentOutcome::Updated);
    // nothing to do
    assert_eq!(update_transition(&empty, None, None, 50), (UpdateExperimentOutcome::Updated, None));
    assert_eq!(update_transition(&empty, Some(10), None, 50), (UpdateExperimentOutcome::NotFound, None));
}

// ---- exposure writer ----

#[test]
fn writer_decisions() {
    let cfg = WriterConfig { batch_capacity: 10, flush_interval_ms: 1000 };
    assert_eq!(next_writer_action(10, 0, &cfg), WriterAction::Flush);
    assert_eq!(next_writer_action(3, 1000, &cfg), WriterAction::Flush);
    assert_eq!(next_writer_action(0, 5000, &cfg), WriterAction::Receive { timeout_ms: 0, want: 10 });
    assert_eq!(next_writer_action(3, 400, &cfg), WriterAction::Receive { timeout_ms: 600, want: 7 });
    assert_eq!(after_receive(ReceiveResult::Closed, 2), WriterStep::FlushAndExit);
    assert_eq!(after_receive(ReceiveResult::Closed, 0), WriterStep::Exit);
    assert_eq!(after_receive(ReceiveResult::Received(3), 3), WriterStep::Continue);
    assert_eq!(after_receive(ReceiveResult::TimedOut, 3), WriterStep::Continue);
    // a receive never asks for more than the batch can hold
    for buffered in 0..10 {
        if let WriterAction::Receive { want, .. } = next_writer_action(buffered, 0, &cfg) {
            assert!(want >= 1 && buffered + want <= 10);
        }
    }
}

#[test]
fn exposure_events_and_noop_sink() {
    let id = uuid::Uuid::new_v4();
    let e = ExposureEvent::new(id, 7, "c".into(), "e".into(), Some("v".into()), "u".into());
    assert_eq!(e.event_id, id);
    assert_eq!(e.schema_version, 1);
    assert_eq!(e.ts_ms, 7);
    assert_eq!(e.variant_key.as_deref(), Some("v"));
    let f = ExposureEvent::new(uuid::Uuid::new_v4(), 7, "c".into(), "e".into(), None, "u".into());
    assert_ne!(e.event_id, f.event_id);
    let sink = NoopEventSink;
    sink.record_exposure(f);
    assert_eq!(sink.dropped(), 0);
}

// ---- tracking ----

fn track_event(entity: &str, metric: &str) -> TrackEvent {
    TrackEvent {
        entity_id: entity.into(),
        metric_name: metric.into(),
        value_finite: None,
        ts: None,
        idempotency_key: None,
    }
}

#[test]
fn track_request_validation() {
    assert!(TrackRequest { events: vec![track_event("u", "m")] }.validate().is_ok());
    let cases: Vec<(Vec<TrackEvent>, &str)> = vec![
        (vec![], "events must not be empty"),
        ((0..101).map(|_| track_event("u", "m")).collect(), "events must contain at most 100 entries"),
        (vec![track_event("", "m")], "entityId must not be empty"),
        (vec![track_event(&"e".repeat(257), "m")], "entityId length should be less than 256 bytes"),
        (vec![track_event("u", "")], "metricName must not be empty"),
        (vec![track_event("u", &"m".repeat(257))], "metricName length should be less than 256 bytes"),
        (
            vec![TrackEvent { value_finite: Some(false), ..track_event("u", "m") }],
            "value must be a finite number",
        ),
        (
            vec![TrackEvent { idempotency_key: Some(String::new()), ..track_event("u", "m") }],
            "idempotencyKey must not be empty when provided",
        ),
        (
            vec![track_event("u", "m"), TrackEvent { idempotency_key: Some("k".repeat(129)), ..track_event("u", "m") }],
            "idempotencyKey length should be less than 128 bytes",
        ),
    ];
    for (events, msg) in cases {
        assert_eq!(validation_message(TrackRequest { events }.validate()), msg);
    }
    let ok = TrackEvent { value_finite: Some(true), idempotency_key: Some("k".repeat(128)), ..track_event("u", "m") };
    assert!(TrackRequest { events: vec![ok] }.validate().is_ok());
}

#[test]
fn track_tally_and_time() {
    let r = tally_outcomes(&vec![
        RecordOutcome::Accepted,
        RecordOutcome::Deduped,
        RecordOutcome::Dropped,
        RecordOutcome::Accepted,
    ]);
    assert_eq!((r.accepted, r.deduped), (2, 1));
    assert_eq!(event_time(Some(5), 9), 5);
    assert_eq!(event_time(None, 9), 9);
}

// ---- users and API keys ----

#[test]
fn invite_email_validation() {
    for ok in ["a@b.c", "  a@b.c  ", "first.last@sub.example.org"] {
        assert!(InviteUserRequest { email: ok.into() }.validate().is_ok(), "{ok}");
    }
    let cases = [
        ("", "email should not be empty"),
        ("   ", "email should not be empty"),
        ("ab.c", "email must contain exactly one '@'"),
        ("a@@b.c", "email must contain exactly one '@'"),
        ("@b.c", "email is not valid"),
        ("a@", "email is not valid"),
        ("a@bc", "email is not valid"),
    ];
    for (email, msg) in cases {
        assert_eq!(validation_message(InviteUserRequest { email: email.into() }.validate()), msg);
    }
    let long = format!("{}@b.c", "a".repeat(253));
    assert_eq!(
        validation_message(InviteUserRequest { email: long }.validate()),
        "email length should be less than 256 bytes"
    );
}

#[test]
fn api_key_name_validation() {
    assert!(CreateApiKeyRequest { name: "ci key".into() }.validate().is_ok());
    assert_eq!(validation_message(CreateApiKeyRequest { name: "".into() }.validate()), "API key name should not be empty");
    assert_eq!(
        validation_message(CreateApiKeyRequest { name: " x".into() }.validate()),
        "API key name must not have leading or trailing whitespace"
    );
    assert_eq!(
        validation_message(CreateApiKeyRequest { name: "n".repeat(129) }.validate()),
        "API key name length should be less than 128 bytes"
    );
    assert!(CreateApiKeyRequest { name: "n".repeat(128) }.validate().is_ok());
    match create_api_key_outcome(0, "id".into(), 1) {
        CreateApiKeyOutcome::NameConflict => {}
        _ => panic!("expected a conflict"),
    }
    match create_api_key_outcome(1, "id".into(), 1) {
        CreateApiKeyOutcome::Created { api_key_id, created_at } => {
            assert_eq!((api_key_id.as_str(), created_at), ("id", 1))
        }
        _ => panic!("expected a created key"),
    }
}

fn user_row(google_sub: Option<&str>) -> UserRow {
    UserRow {
        user_id: "u".into(),
        company_id: "c".into(),
        email: "a@b.c".into(),
        name: None,
        picture_url: None,
        google_sub: google_sub.map(String::from),
        password_hash: None,
        invite_token_hash: None,
        invite_token_expires_at: None,
        role: UserRole::Member,
        created_at: 1,
        updated_at: 1,
    }
}

#[test]
fn user_rows_and_list_items() {
    assert_eq!(UserListItem::from(user_row(Some("g"))).status, UserStatus::Active);
    assert_eq!(UserListItem::from(user_row(None)).status, UserStatus::Pending);
    let admin = google_admin_row("u".into(), "c".into(), "a@b.c", Some("Ann"), None, "sub", 9);
    assert_eq!(admin.role, UserRole::Admin);
    assert_eq!(admin.google_sub.as_deref(), Some("sub"));
    assert_eq!(admin.name.as_deref(), Some("Ann"));
    let invite = Some(PendingUserInvite { invite_token_hash: "h", invite_token_expires_at: 77 });
    let pending = pending_user_row("u".into(), "c", "x@y.z", &invite, 3);
    assert_eq!(pending.role, UserRole::Member);
    assert_eq!(pending.invite_token_hash.as_deref(), Some("h"));
    assert_eq!(pending.invite_token_expires_at, Some(77));
    assert!(UserRole::Admin.is_admin() && !UserRole::Member.is_admin());
}

#[test]
fn auth_prechecks() {
    assert!(check_accept_invite(&AcceptInviteRequest { token: "t".into(), password: "p".into() }).is_ok());
    assert!(matches!(
        check_accept_invite(&AcceptInviteRequest { token: "  ".into(), password: "p".into() }),
        Err(CustomError::ValidationError(m)) if m == "token is required"
    ));
    assert!(check_password_login(&PasswordLoginRequest { email: "a".into(), password: "p".into() }).is_ok());
    assert!(matches!(
        check_password_login(&PasswordLoginRequest { email: " ".into(), password: "p".into() }),
        Err(CustomError::UnauthorizedError(m)) if m == "invalid email or password"
    ));
    assert!(matches!(
        check_password_login(&PasswordLoginRequest { email: "a".into(), password: "".into() }),
        Err(CustomError::UnauthorizedError(_))
    ));
    assert_eq!(validate_token(&"k".to_string(), "k".into()).unwrap().message, "Token is valid");
    assert!(matches!(
        validate_token(&"k".to_string(), "x".into()),
        Err(CustomError::ForbiddenError(m)) if m == "Invalid token"
    ));
}

// ---- statuses, config and small helpers ----

#[test]
fn legacy_status_names() {
    assert_eq!(LegacyStatus::from_string("ACTIVE".into()), LegacyStatus::Active);
    assert_eq!(LegacyStatus::from_string("Paused".into()), LegacyStatus::Paused);
    assert_eq!(LegacyStatus::from_string("completed".into()), LegacyStatus::Completed);
    assert_eq!(LegacyStatus::from_string("nonsense".into()), LegacyStatus::Draft);
    for s in [LegacyStatus::Draft, LegacyStatus::Active, LegacyStatus::Paused, LegacyStatus::Completed] {
        assert_eq!(LegacyStatus::from_string(s.as_str().to_string()), s);
    }
    assert_eq!(ExperimentStatus::Running.as_str(), "running");
}

fn config(sqlite_url: &str, google: Option<&str>) -> Config {
    Config {
        application_port: 1,
        jwt_secret: None,
        google_client_id: google.map(String::from),
        google_jwks_url: String::new(),
        admin_email: None,
        admin_password: None,
        admin_company_name: String::new(),
        invite_token_ttl_days: 7,
        app_base_url: String::new(),
        sqlite_url: sqlite_url.into(),
        duckdb_path: String::new(),
        event_queue_capacity: 1,
        event_batch_capacity: 1,
        event_flush_interval_ms: 1,
        exposure_dedup_capacity: 1,
        exposure_dedup_ttl_secs: 1,
        metric_queue_capacity: 1,
        metric_batch_capacity: 1,
        metric_flush_interval_ms: 1,
        metric_idempotency_capacity: 1,
        metric_idempotency_ttl_secs: 1,
        analytics_pool_size: 1,
        analytics_cache_capacity: 1,
        analytics_cache_ttl_secs: 1,
        cors_allowed_origins: None,
        ui_dist_path: None,
    }
}

#[test]
fn config_decisions() {
    assert_eq!(config("sqlite://data/x.db", None).sqlite_filepath(), "data/x.db");
    assert_eq!(config("x.db", None).sqlite_filepath(), "x.db");
    assert_eq!(config("sqlite:/x.db", None).sqlite_filepath(), "sqlite:/x.db");
    assert_eq!(config("", Some("id")).auth_provider_set(), AuthProviders { google: true, password: false });
    assert_eq!(config("", Some("  ")).auth_provider_set(), AuthProviders { google: false, password: true });
    assert_eq!(config("", None).auth_provider_set(), AuthProviders { google: false, password: true });
    assert_eq!(AuthProviders::default(), AuthProviders { google: false, password: false });
    assert_eq!(ConfigError("bad port".into()).describe(), "config error: bad port");
    assert_eq!(Granularity::Hour.bucket_ms(), 3_600_000);
    assert_eq!(Granularity::Day.bucket_ms(), 86_400_000);
}

// ---- stored experiments ----

fn variant(key: &str, config: &str) -> Variant {
    Variant {
        key: key.into(),
        is_control: key == "control",
        config: JsonValue { kind: JsonKind::Object, items: vec![], encoded: config.into() },
    }
}

fn segment(priority: i32, rollout: u32) -> Segment {
    Segment {
        priority,
        rollout_percent: rollout,
        constraints: vec![],
        distributions: vec![Distribution { variant_key: "control".into(), percent: 100 }],
    }
}

#[test]
fn cached_experiments_sort_segments_and_map_configs() {
    let c = CachedExperiment::from_parts(
        "e".into(),
        vec![variant("control", "{\"a\":1}"), variant("treatment", "{}"), variant("control", "{\"a\":2}")],
        vec![segment(3, 1), segment(1, 2), segment(3, 3), segment(0, 4)],
    );
    let order: Vec<(i32, u32)> = c.segments.iter().map(|s| (s.priority, s.rollout_percent)).collect();
    assert_eq!(order, vec![(0, 4), (1, 2), (3, 1), (3, 3)]);
    assert_eq!(c.variant_configs.len(), 2);
    let control = c.variant_configs.iter().find(|(k, _)| k == "control").unwrap();
    assert_eq!(control.1.encoded, "{\"a\":2}");
    assert_eq!(default_config().encoded, "{}");
}

fn row() -> ExperimentRow {
    ExperimentRow {
        experiment_id: "e".into(),
        key: "k".into(),
        description: None,
        status: ExperimentStatus::Draft,
        primary_metric: "m".into(),
        variants: "[]".into(),
        segments: "[]".into(),
        started_at: None,
        stopped_at: None,
        created_at: 1,
        updated_at: 2,
        company_id: "c".into(),
    }
}

#[test]
fn experiment_responses_from_rows() {
    let ok = ExperimentResponse::from_row(row(), Ok(vec![]), Ok(vec![])).ok().unwrap();
    assert_eq!((ok.key.as_str(), ok.updated_at), ("k", 2));
    match ExperimentResponse::from_row(row(), Err("bad".into()), Err("worse".into())) {
        Err(CustomError::InternalError(m)) => assert_eq!(m, "Failed to parse stored variants: bad"),
        _ => panic!("expected an internal error"),
    }
    match ExperimentResponse::from_row(row(), Ok(vec![]), Err("worse".into())) {
        Err(CustomError::InternalError(m)) => assert_eq!(m, "Failed to parse stored segments: worse"),
        _ => panic!("expected an internal error"),
    }
}

#[test]
fn experiment_requests() {
    let req = CreateExperimentRequest {
        key: "checkout".into(),
        description: Some("New checkout".into()),
        primary_metric: "purchases".into(),
        segments: vec![segment(0, 100)],
        variants: vec![variant("control", "{}"), variant("treatment", "{}")],
    };
    assert!(req.validate().is_ok());
    let bad_key = CreateExperimentRequest { key: "check out".into(), ..req };
    assert_eq!(validation_message(bad_key.validate()), "Key must not contain whitespace or control characters");
    let empty = UpdateExperimentRequest { description: None, primary_metric: None, segments: None, variants: None };
    assert_eq!(
        validation_message(empty.validate()),
        "Request body must include at least one field to update"
    );
    let clear = UpdateExperimentRequest { description: Some(None), primary_metric: None, segments: None, variants: None };
    assert!(clear.validate().is_ok());
}

#[test]
fn cors_origins_agree_with_split_trim_filter() {
    assert!(parse_cors_origins(None).is_empty());
    for raw in ["", ",", "https://a.io", " https://a.io , ,https://b.io ", "a,,b,", "\u{3000}x\u{3000}"] {
        let expected: Vec<String> = raw
            .split(',')
            .map(|s| s.trim())
            .filter(|s| !s.is_empty())
            .map(|s| s.to_string())
            .collect();
        assert_eq!(parse_cors_origins(Some(raw)), expected, "{raw:?}");
    }
}

#[test]
fn seeded_experiments_are_valid() {
    let experiments = easy_experiments::seed::loadtest_experiments();
    assert_eq!(experiments.len(), 5);
    for e in &experiments {
        assert!(e.validate().is_ok(), "{}", e.key);
    }
}

fn percent_decode(t: &str) -> String {
    let chars: Vec<char> = t.chars().collect();
    let mut out = String::new();
    let mut i: usize = 0;
    while i < chars.len() {
        if chars[i] == '%' && i + 2 < chars.len() {
            let code = u32::from_str_radix(&chars[i + 1..i + 3].iter().collect::<String>(), 16).unwrap();
            out.push(char::from_u32(code).unwrap());
            i += 3;
        } else {
            out.push(chars[i]);
            i += 1;
        }
    }
    out
}

#[test]
fn url_encoding_round_trips_ascii() {
    assert_eq!(urlencoding("a b/c"), "a%20b%2Fc");
    for s in ["a b/c", "", "%", "100%25 sure", "\u{0}\u{7f}~!*'()", "k=v&x=y#frag"] {
        assert_eq!(percent_decode(&urlencoding(s)), s, "{s:?}");
    }
    let token = "AbC-_09xyz";
    assert_eq!(urlencoding(token), token);
}

#[test]
fn accepted_update_writes_only_the_fields_it_sets() {
    let stored = || ExperimentDefinition {
        description: Some("old".to_string()),
        primary_metric: "clicks".to_string(),
        variants: "[v]".to_string(),
        segments: "[s]".to_string(),
    };
    let nothing = UpdateExperimentFields::empty();
    let d = apply_update(stored(), &nothing, None, None);
    assert_eq!(d.description.as_deref(), Some("old"));
    assert_eq!(d.primary_metric, "clicks");
    assert_eq!((d.variants.as_str(), d.segments.as_str()), ("[v]", "[s]"));

    let clear = UpdateExperimentFields { description: Some(None), ..UpdateExperimentFields::empty() };
    assert_eq!(apply_update(stored(), &clear, None, None).description, None);

    let set = UpdateExperimentFields {
        description: Some(Some("new")),
        primary_metric: Some("signups"),
        ..UpdateExperimentFields::empty()
    };
    let d = apply_update(stored(), &set, Some("[w]".to_string()), None);
    assert_eq!(d.description.as_deref(), Some("new"));
    assert_eq!(d.primary_metric, "signups");
    assert_eq!((d.variants.as_str(), d.segments.as_str()), ("[w]", "[s]"));
}

#[test]
fn seeded_search_rank_has_ordered_priorities_and_split() {
    let experiments = easy_experiments::seed::loadtest_experiments();
    let keys: Vec<&str> = experiments.iter().map(|e| e.key.as_str()).collect();
    assert_eq!(keys, ["lt-checkout-flow", "lt-pricing-test", "lt-onboarding-v2", "lt-search-rank", "lt-homepage-hero"]);
    let priorities: Vec<i32> = experiments[3].segments.iter().map(|s| s.priority).collect();
    assert_eq!(priorities, [0, 1]);
    let split: Vec<u32> = experiments[3].segments[0].distributions.iter().map(|d| d.percent).collect();
    assert_eq!(split, [30, 70]);
}

#[test]
fn unsigned_settings_parse_as_std_does() {
    let inputs = [
        "", "+", "-", "0", "+7", "-7", "007", "65535", "65536", "99999x", "1x", "x1", " 1", "1 ",
        "18446744073709551615", "18446744073709551616", "184467440737095516150", "٣",
    ];
    for s in inputs {
        let want16 = s.parse::<u16>().map(u64::from).map_err(|e| e.to_string());
        let got16 = parse_unsigned(s, u64::from(u16::MAX)).map_err(|e| e.message().to_string());
        assert_eq!(got16, want16, "u16 {s:?}");
        let want64 = s.parse::<u64>().map_err(|e| e.to_string());
        let got64 = parse_unsigned(s, u64::MAX).map_err(|e| e.message().to_string());
        assert_eq!(got64, want64, "u64 {s:?}");
    }
}

#[test]
fn numeric_settings_default_or_report_the_key() {
    assert_eq!(numeric_setting("PORT", None, 18200, 65535).unwrap(), 18200);
    assert_eq!(numeric_setting("PORT", Some("8080"), 18200, 65535).unwrap(), 8080);
    let err: ConfigError = numeric_setting("PORT", Some("http"), 18200, 65535).unwrap_err();
    assert_eq!(err.0, "PORT: invalid digit found in string");
    assert_eq!(err.describe(), "config error: PORT: invalid digit found in string");
    let big = numeric_setting("PORT", Some("70000"), 18200, 65535).unwrap_err();
    assert_eq!(big.0, "PORT: number too large to fit in target type");
    let empty = numeric_setting("PORT", Some(""), 18200, 65535).unwrap_err();
    assert_eq!(empty.0, "PORT: cannot parse integer from empty string");
}
