use trainplan::auth::auth_header;
use trainplan::config::AppConfig;
use trainplan::dates::{add_days, next_day, PlainDate};
use trainplan::errors::CoreError;
use trainplan::models::{PlanRequest, UploadRequest, UploadResult, PlanResponse,
    default_category, default_type, resolved_weeks};
use trainplan::plan::{build_plan_prompts, chat_completions_url, extract_completion_content,
    extract_workouts, plan_from_response};
use trainplan::sync::{athlete_id_from_lookup, athlete_lookup_url, classify_upload_response,
    events_bulk_url, resolve_athlete_step, upload_outcome, upload_step, AthleteResolution,
    UploadStep};
use trainplan::text::{i64_to_string, u64_to_string};

fn base_config() -> AppConfig {
    AppConfig {
        openai_api_key: "model-key".to_string(),
        openai_base_url: "https://api.openai.com/v1".to_string(),
        openai_model: "gpt-4o-mini".to_string(),
        intervals_api_key: None,
        default_athlete_id: None,
    }
}

fn request(weeks: Option<u8>, start_date: Option<PlainDate>) -> PlanRequest {
    PlanRequest { start_date, weeks }
}

fn date(year: u32, month: u8, day: u8) -> PlainDate {
    PlainDate { year, month, day }
}

// Window arithmetic: the end lies exactly 7 * weeks days after the start.

#[test]
fn window_end_four_weeks() {
    let p = build_plan_prompts(&request(Some(4), Some(date(2024, 1, 1))), date(2030, 6, 15));
    assert_eq!(p.start, date(2024, 1, 1));
    assert_eq!(p.end, date(2024, 1, 29));
}

#[test]
fn window_end_crosses_leap_february() {
    let p = build_plan_prompts(&request(Some(1), Some(date(2024, 2, 23))), date(2030, 6, 15));
    assert_eq!(p.end, date(2024, 3, 1));
}

#[test]
fn window_end_longest_request() {
    let p = build_plan_prompts(&request(Some(255), Some(date(2024, 1, 1))), date(2030, 6, 15));
    assert_eq!(p.end, date(2028, 11, 20));
}

#[test]
fn absent_start_date_defaults_to_today() {
    let p = build_plan_prompts(&request(Some(2), None), date(2026, 10, 11));
    assert_eq!(p.start, date(2026, 10, 11));
    assert_eq!(p.end, date(2026, 10, 25));
}

// Week-count resolution: default 16, zero clamped up to one.

#[test]
fn weeks_zero_treated_as_one() {
    assert_eq!(resolved_weeks(Some(0)), 1);
    assert_eq!(resolved_weeks(Some(1)), 1);
}

#[test]
fn weeks_default_is_sixteen() {
    assert_eq!(resolved_weeks(None), 16);
    assert_eq!(resolved_weeks(Some(5)), 5);
}

// Prompt construction embeds the resolved window.

#[test]
fn user_prompt_exact_text() {
    let p = build_plan_prompts(&request(Some(4), Some(date(2024, 1, 1))), date(2030, 6, 15));
    assert_eq!(
        p.user_prompt,
        "Return workouts scheduled from 2024-01-01. Use ISO timestamp with local time at 06:00."
    );
}

#[test]
fn system_prompt_embeds_weeks_and_window() {
    let p = build_plan_prompts(&request(Some(4), Some(date(2024, 1, 1))), date(2030, 6, 15));
    assert!(p.system_prompt.starts_with("You are a running coach.\nProduce a 4-week"));
    assert!(p.system_prompt.ends_with(
        "The first day is 2024-01-01 and the window ends by 2024-01-29."
    ));
}

#[test]
fn chat_url_appends_endpoint() {
    assert_eq!(
        chat_completions_url("https://api.openai.com/v1"),
        "https://api.openai.com/v1/chat/completions"
    );
}

#[test]
fn chat_url_trims_trailing_slashes() {
    assert_eq!(
        chat_completions_url("https://example.test/v1///"),
        "https://example.test/v1/chat/completions"
    );
}

// Completion extraction and shape normalization.

#[test]
fn bare_array_used_as_is_order_preserved() {
    let content = "[\
        {\"week\":1,\"day_of_week\":1,\"name\":\"Easy Run\",\"description\":\"a\",\"start_date_local\":\"2024-01-01T06:00:00\"},\
        {\"week\":1,\"day_of_week\":3,\"name\":\"Tempo\",\"description\":\"b\",\"start_date_local\":\"2024-01-03T06:00:00\"}]";
    let ws = extract_workouts(content).unwrap();
    assert_eq!(ws.len(), 2);
    assert_eq!(ws[0].name, "Easy Run");
    assert_eq!(ws[1].name, "Tempo");
    assert_eq!(ws[1].day_of_week, 3);
}

#[test]
fn workouts_key_extracted() {
    let content = "{\"workouts\":[{\"week\":2,\"day_of_week\":5,\"name\":\"Long Run\",\"description\":\"d\",\"start_date_local\":\"2024-01-12T06:00:00\"}]}";
    let ws = extract_workouts(content).unwrap();
    assert_eq!(ws.len(), 1);
    assert_eq!(ws[0].week, 2);
    assert_eq!(ws[0].name, "Long Run");
}

#[test]
fn plan_key_extracted() {
    let content = "{\"plan\":[{\"week\":3,\"day_of_week\":2,\"name\":\"Hills\",\"description\":\"h\",\"start_date_local\":\"2024-01-16T06:00:00\"}]}";
    let ws = extract_workouts(content).unwrap();
    assert_eq!(ws.len(), 1);
    assert_eq!(ws[0].week, 3);
}

#[test]
fn workouts_key_wins_over_plan_key() {
    let content = "{\"plan\":[],\"workouts\":[{\"week\":9,\"day_of_week\":1,\"name\":\"W\",\"description\":\"\",\"start_date_local\":\"t\"}]}";
    let ws = extract_workouts(content).unwrap();
    assert_eq!(ws.len(), 1);
    assert_eq!(ws[0].week, 9);
}

#[test]
fn object_without_either_key_yields_empty_list() {
    let ws = extract_workouts("{\"something\":1}").unwrap();
    assert!(ws.is_empty());
}

#[test]
fn non_array_non_object_yields_empty_list() {
    assert!(extract_workouts("42").unwrap().is_empty());
    assert!(extract_workouts("\"text\"").unwrap().is_empty());
    assert!(extract_workouts("null").unwrap().is_empty());
}

#[test]
fn type_and_category_defaults_applied() {
    let content = "[{\"week\":1,\"day_of_week\":1,\"name\":\"n\",\"description\":\"d\",\"start_date_local\":\"t\"}]";
    let ws = extract_workouts(content).unwrap();
    assert_eq!(ws[0].workout_type, "Run");
    assert_eq!(ws[0].category, "WORKOUT");
    assert_eq!(default_type(), "Run");
    assert_eq!(default_category(), "WORKOUT");
}

#[test]
fn explicit_type_and_category_kept() {
    let content = "[{\"week\":1,\"day_of_week\":1,\"name\":\"n\",\"description\":\"d\",\"type\":\"Ride\",\"category\":\"NOTE\",\"start_date_local\":\"t\"}]";
    let ws = extract_workouts(content).unwrap();
    assert_eq!(ws[0].workout_type, "Ride");
    assert_eq!(ws[0].category, "NOTE");
}

#[test]
fn invalid_json_is_parse_error() {
    let e = extract_workouts("not json at all").unwrap_err();
    assert!(matches!(e, CoreError::ParseError(_)));
    assert!(e.message().contains("invalid JSON in model response"));
}

#[test]
fn non_array_selection_is_schema_error() {
    let e = extract_workouts("{\"workouts\":5}").unwrap_err();
    assert!(matches!(e, CoreError::SchemaError(_)));
}

#[test]
fn element_missing_required_field_is_schema_error() {
    let e = extract_workouts("[{\"week\":1,\"day_of_week\":1,\"description\":\"d\",\"start_date_local\":\"t\"}]")
        .unwrap_err();
    assert!(matches!(e, CoreError::SchemaError(_)));
}

#[test]
fn week_out_of_range_is_schema_error() {
    let e = extract_workouts("[{\"week\":-1,\"day_of_week\":1,\"name\":\"n\",\"description\":\"d\",\"start_date_local\":\"t\"}]")
        .unwrap_err();
    assert!(matches!(e, CoreError::SchemaError(_)));
    let e = extract_workouts("[{\"week\":1,\"day_of_week\":300,\"name\":\"n\",\"description\":\"d\",\"start_date_local\":\"t\"}]")
        .unwrap_err();
    assert!(matches!(e, CoreError::SchemaError(_)));
}

#[test]
fn missing_completion_content_is_parse_error() {
    let e = plan_from_response("{\"choices\":[]}").unwrap_err();
    assert!(matches!(e, CoreError::ParseError(_)));
    let e = plan_from_response("{}").unwrap_err();
    assert!(matches!(e, CoreError::ParseError(_)));
}

#[test]
fn completion_content_extracted_from_first_choice() {
    let body = "{\"choices\":[{\"message\":{\"content\":\"[1,2]\"}}]}";
    assert_eq!(extract_completion_content(body).unwrap(), "[1,2]");
}

#[test]
fn end_to_end_stub_model_response() {
    let content = "[{\\\"week\\\":1,\\\"day_of_week\\\":1,\\\"name\\\":\\\"Easy Run\\\",\\\"description\\\":\\\"...\\\",\\\"start_date_local\\\":\\\"2024-01-01T06:00:00\\\"}]";
    let body = format!("{{\"choices\":[{{\"message\":{{\"content\":\"{}\"}}}}]}}", content);
    let req = request(Some(4), None);
    let prompts = build_plan_prompts(&req, date(2024, 1, 1));
    assert_eq!(prompts.weeks, 4);
    let ws = plan_from_response(&body).unwrap();
    assert_eq!(ws.len(), 1);
    assert_eq!(ws[0].name, "Easy Run");
    assert_eq!(ws[0].workout_type, "Run");
    assert_eq!(ws[0].category, "WORKOUT");
    let resp = PlanResponse { workouts: ws };
    assert_eq!(resp.workouts.len(), 1);
}

// Athlete resolution.

#[test]
fn default_athlete_short_circuits_lookup() {
    let mut cfg = base_config();
    cfg.default_athlete_id = Some("i77".to_string());
    cfg.intervals_api_key = Some("k".to_string());
    match resolve_athlete_step(&cfg).unwrap() {
        AthleteResolution::UseConfigured(id) => assert_eq!(id, "i77"),
        AthleteResolution::Lookup { .. } => panic!("lookup must not be reached"),
    }
}

#[test]
fn lookup_used_when_only_credential_present() {
    let mut cfg = base_config();
    cfg.intervals_api_key = Some("k".to_string());
    match resolve_athlete_step(&cfg).unwrap() {
        AthleteResolution::Lookup { auth } => assert_eq!(auth, "Basic QVBJX0tFWTpr"),
        AthleteResolution::UseConfigured(_) => panic!("no default is configured"),
    }
}

#[test]
fn neither_default_nor_credential_is_config_error() {
    let e = resolve_athlete_step(&base_config()).unwrap_err();
    assert!(matches!(e, CoreError::ConfigError(_)));
}

#[test]
fn lookup_endpoint_url() {
    assert_eq!(athlete_lookup_url(), "https://intervals.icu/api/v1/athlete/0");
}

#[test]
fn athlete_id_read_from_lookup_body() {
    assert_eq!(athlete_id_from_lookup(200, "{\"id\":42}").unwrap(), "42");
    assert_eq!(athlete_id_from_lookup(204, "{\"id\":-7}").unwrap(), "-7");
}

#[test]
fn athlete_id_missing_or_wrong_shape_fails() {
    let e = athlete_id_from_lookup(200, "{}").unwrap_err();
    assert!(matches!(e, CoreError::UpstreamError { status: 200, .. }));
    let e = athlete_id_from_lookup(200, "{\"id\":\"x\"}").unwrap_err();
    assert!(matches!(e, CoreError::UpstreamError { .. }));
}

#[test]
fn athlete_lookup_non_success_status_fails() {
    let e = athlete_id_from_lookup(401, "{\"id\":42}").unwrap_err();
    match e {
        CoreError::UpstreamError { status, message } => {
            assert_eq!(status, 401);
            assert!(message.contains("Could not resolve athlete id"));
        }
        _ => panic!("expected an upstream failure"),
    }
}

#[test]
fn athlete_lookup_unreadable_body_fails() {
    let e = athlete_id_from_lookup(200, "....").unwrap_err();
    assert!(matches!(e, CoreError::TransportError(_)));
}

// Upload decisions and outcome classification.

#[test]
fn upload_requires_platform_credential() {
    let req = UploadRequest { workouts: Vec::new(), athlete_id: Some("a1".to_string()) };
    let e = upload_step(&base_config(), &req.athlete_id).unwrap_err();
    assert!(matches!(e, CoreError::ConfigError(_)));
}

#[test]
fn upload_override_wins_over_default() {
    let mut cfg = base_config();
    cfg.intervals_api_key = Some("k".to_string());
    cfg.default_athlete_id = Some("d1".to_string());
    match upload_step(&cfg, &Some("o1".to_string())).unwrap() {
        UploadStep::Submit { athlete_id, auth } => {
            assert_eq!(athlete_id, "o1");
            assert_eq!(auth, "Basic QVBJX0tFWTpr");
        }
        UploadStep::Resolve { .. } => panic!("athlete is known"),
    }
}

#[test]
fn upload_falls_back_to_configured_default() {
    let mut cfg = base_config();
    cfg.intervals_api_key = Some("k".to_string());
    cfg.default_athlete_id = Some("d1".to_string());
    match upload_step(&cfg, &None).unwrap() {
        UploadStep::Submit { athlete_id, .. } => assert_eq!(athlete_id, "d1"),
        UploadStep::Resolve { .. } => panic!("a default is configured"),
    }
}

#[test]
fn upload_resolves_when_nothing_known() {
    let mut cfg = base_config();
    cfg.intervals_api_key = Some("k".to_string());
    assert!(matches!(upload_step(&cfg, &None).unwrap(), UploadStep::Resolve { .. }));
}

#[test]
fn events_url_embeds_athlete() {
    assert_eq!(
        events_bulk_url("42"),
        "https://intervals.icu/api/v1/athlete/42/events/bulk"
    );
}

#[test]
fn upload_success_statuses() {
    assert!(classify_upload_response(200, "").is_ok());
    assert!(classify_upload_response(201, "created").is_ok());
    let r: UploadResult = upload_outcome(200, "");
    assert_eq!(r.status, "ok");
    assert!(r.message.is_none());
    let r = upload_outcome(201, "");
    assert_eq!(r.status, "ok");
}

#[test]
fn upload_forbidden_carries_status_and_body() {
    let e = classify_upload_response(403, "forbidden").unwrap_err();
    match e {
        CoreError::UpstreamError { status, message } => {
            assert_eq!(status, 403);
            assert_eq!(message, "upload failed (403): forbidden");
        }
        _ => panic!("expected an upstream failure"),
    }
    let r = upload_outcome(403, "forbidden");
    assert_eq!(r.status, "error");
    let m = r.message.unwrap();
    assert!(m.contains("403"));
    assert!(m.contains("forbidden"));
}

// Auth Codec.

#[test]
fn auth_header_deterministic() {
    let a = auth_header("same-credential");
    let b = auth_header("same-credential");
    assert_eq!(a, b);
}

#[test]
fn auth_header_expected_encoding() {
    assert_eq!(auth_header("secret"), "Basic QVBJX0tFWTpzZWNyZXQ=");
}

// Decimal rendering.

#[test]
fn decimal_renderings() {
    assert_eq!(u64_to_string(0), "0");
    assert_eq!(u64_to_string(1203), "1203");
    assert_eq!(i64_to_string(-7), "-7");
    assert_eq!(i64_to_string(i64::MIN), "-9223372036854775808");
    assert_eq!(i64_to_string(42), "42");
}

#[test]
fn error_message_accessor() {
    let e = CoreError::ConfigError("missing".to_string());
    assert_eq!(e.message(), "missing");
    let e = CoreError::UpstreamError { status: 500, message: "boom".to_string() };
    assert_eq!(e.message(), "boom");
}

// Calendar primitives.

#[test]
fn date_validity() {
    assert!(date(2024, 2, 29).is_valid());
    assert!(!date(2023, 2, 29).is_valid());
    assert!(!date(2024, 13, 1).is_valid());
    assert!(!date(0, 1, 1).is_valid());
    assert!(!date(2024, 4, 31).is_valid());
    assert!(date(1900, 2, 28).is_valid());
    assert!(!date(1900, 2, 29).is_valid());
    assert!(date(2000, 2, 29).is_valid());
}

#[test]
fn day_stepping_over_month_and_year_ends() {
    assert_eq!(next_day(date(2024, 2, 28)), date(2024, 2, 29));
    assert_eq!(next_day(date(2023, 2, 28)), date(2023, 3, 1));
    assert_eq!(next_day(date(2023, 12, 31)), date(2024, 1, 1));
    assert_eq!(add_days(date(2023, 2, 28), 1), date(2023, 3, 1));
    assert_eq!(add_days(date(2024, 1, 1), 366), date(2025, 1, 1));
}
