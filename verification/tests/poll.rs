use usage_monitor::api::{check_status, parse_failure, prepare_usage_request, UsageRequest};
use usage_monitor::auto_refresh::{FetchOutput, FetchResult};
use usage_monitor::error::AppError;
use usage_monitor::notifications::Notification;
use usage_monitor::poll::{conclude_fetch, conclude_fetch_at, plan_poll, PollEvent, PollPlan};
use usage_monitor::types::{
    AutoRefreshConfig, NotificationSettings, NotificationState, UsageData, UsageErrorEvent,
    UsagePeriod, UsageUpdateEvent, Utilization,
};

const NOW_MS: i64 = 1704067200000; // 2024-01-01 00:00:00 UTC
const API: &str = "https://service.example/api";
const APP: &str = "Usage Monitor";

fn pct(percent: f64) -> Utilization {
    Utilization::from_thousandths((percent * 1000.0).round() as u32)
}

fn usage(five_hour: f64) -> UsageData {
    UsageData {
        five_hour: Some(UsagePeriod { utilization: pct(five_hour), resets_at: None }),
        seven_day: None,
        seven_day_sonnet: None,
        seven_day_opus: None,
    }
}

fn config_with(org_id: Option<&str>, token: Option<&str>) -> AutoRefreshConfig {
    AutoRefreshConfig {
        organization_id: org_id.map(|s| s.to_string()),
        session_token: token.map(|s| s.to_string()),
        enabled: true,
        interval_minutes: 5,
        hourly_refresh_enabled: false,
    }
}

#[test]
fn request_is_built_from_valid_credentials() {
    assert_eq!(
        prepare_usage_request(API, "my-org-123", "tok.en+/="),
        Ok(UsageRequest {
            url: "https://service.example/api/organizations/my-org-123/usage".to_string(),
            cookie: "sessionKey=tok.en+/=".to_string(),
        })
    );
    assert_eq!(
        prepare_usage_request("", "o", "t").unwrap().url,
        "/organizations/o/usage"
    );
}

#[test]
fn request_is_refused_for_invalid_credentials_org_id_first() {
    assert_eq!(
        prepare_usage_request(API, "", "token"),
        Err(AppError::MissingConfig("organization_id".to_string()))
    );
    assert_eq!(
        prepare_usage_request(API, "org/1", "bad token"),
        Err(AppError::MissingConfig("invalid organization_id format".to_string()))
    );
    assert_eq!(prepare_usage_request(API, "org-1", "bad token"), Err(AppError::InvalidToken));
    assert_eq!(prepare_usage_request(API, "org-1", ""), Err(AppError::InvalidToken));
}

#[test]
fn status_is_read_as_the_service_means_it() {
    assert_eq!(check_status(200), Ok(()));
    assert_eq!(check_status(401), Err(AppError::InvalidToken));
    assert_eq!(check_status(429), Err(AppError::RateLimited));
    assert_eq!(check_status(500), Err(AppError::Server("HTTP 500".to_string())));
    assert_eq!(check_status(404), Err(AppError::Server("HTTP 404".to_string())));
    assert_eq!(check_status(0), Err(AppError::Server("HTTP 0".to_string())));
    assert_eq!(check_status(201), Err(AppError::Server("HTTP 201".to_string())));
    assert_eq!(check_status(u16::MAX), Err(AppError::Server("HTTP 65535".to_string())));
}

#[test]
fn parse_failure_quotes_the_parser() {
    assert_eq!(
        parse_failure("expected value at line 1 column 1"),
        AppError::Server("Failed to parse response: expected value at line 1 column 1".to_string())
    );
    assert_eq!(parse_failure(""), AppError::Server("Failed to parse response: ".to_string()));
}

#[test]
fn error_messages_are_fit_for_display() {
    assert_eq!(
        AppError::Http("connection reset".to_string()).message(),
        "HTTP request failed: connection reset"
    );
    assert_eq!(AppError::InvalidToken.message(), "Invalid session token");
    assert_eq!(AppError::RateLimited.message(), "Rate limited");
    assert_eq!(AppError::Server("HTTP 503".to_string()).message(), "Server error: HTTP 503");
    assert_eq!(
        AppError::MissingConfig("organization_id".to_string()).message(),
        "Missing configuration: organization_id"
    );
    assert_eq!(
        AppError::Storage("locked".to_string()).message(),
        "Storage error: locked"
    );
}

#[test]
fn only_a_rate_limit_is_a_rate_limit() {
    assert!(AppError::RateLimited.is_rate_limited());
    assert!(!AppError::InvalidToken.is_rate_limited());
    assert!(!AppError::Http(String::new()).is_rate_limited());
    assert!(!AppError::Server("Rate limited".to_string()).is_rate_limited());
    assert!(!AppError::MissingConfig(String::new()).is_rate_limited());
    assert!(!AppError::Storage(String::new()).is_rate_limited());
}

#[test]
fn poll_is_skipped_without_credentials() {
    let skipped =
        PollPlan::Skip(FetchOutput { result: FetchResult::NoCredentials, next_refresh_at: None });
    assert_eq!(plan_poll(&config_with(None, None), API), skipped);
    assert_eq!(plan_poll(&config_with(Some("org"), None), API), skipped);
    assert_eq!(plan_poll(&config_with(None, Some("token")), API), skipped);
}

#[test]
fn poll_is_sent_with_valid_credentials() {
    assert_eq!(
        plan_poll(&config_with(Some("org-1"), Some("token")), API),
        PollPlan::Send(UsageRequest {
            url: "https://service.example/api/organizations/org-1/usage".to_string(),
            cookie: "sessionKey=token".to_string(),
        })
    );
}

#[test]
fn poll_fails_with_invalid_credentials() {
    assert_eq!(
        plan_poll(&config_with(Some("org 1"), Some("token")), API),
        PollPlan::Fail(AppError::MissingConfig("invalid organization_id format".to_string()))
    );
    assert_eq!(
        plan_poll(&config_with(Some("org-1"), Some("to ken")), API),
        PollPlan::Fail(AppError::InvalidToken)
    );
}

#[test]
fn success_is_reported_with_tooltip_notifications_and_next_instant() {
    let settings = NotificationSettings::default();
    let state = NotificationState { five_hour_last: pct(70.0), ..Default::default() };
    let report =
        conclude_fetch_at(Ok(usage(85.0)), true, 5, None, APP, &settings, &state, NOW_MS);
    assert_eq!(
        report.output,
        FetchOutput { result: FetchResult::Success, next_refresh_at: Some(NOW_MS + 300_000) }
    );
    assert_eq!(
        report.event,
        PollEvent::UsageUpdated(UsageUpdateEvent {
            usage: usage(85.0),
            next_refresh_at: Some(NOW_MS + 300_000),
        })
    );
    assert_eq!(report.tooltip, Some("Usage Monitor\n5h: 85%".to_string()));
    assert_eq!(
        report.notifications,
        vec![Notification {
            title: "5 Hour Usage Alert".to_string(),
            body: "Usage crossed 80% threshold (85% used)".to_string(),
        }]
    );
    assert_eq!(report.notification_state.five_hour_last, pct(85.0));
    assert_eq!(report.notification_state.fired_thresholds, vec!["five_hour:80".to_string()]);
}

#[test]
fn success_rearms_before_it_judges() {
    let settings = NotificationSettings::default();
    let state = NotificationState {
        five_hour_last: pct(95.0),
        fired_thresholds: vec!["five_hour:80".to_string(), "seven_day:80".to_string()],
        ..Default::default()
    };
    let report =
        conclude_fetch_at(Ok(usage(10.0)), true, 5, None, APP, &settings, &state, NOW_MS);
    assert!(report.notifications.is_empty());
    assert_eq!(report.notification_state.five_hour_last, pct(10.0));
    assert_eq!(report.notification_state.fired_thresholds, vec!["seven_day:80".to_string()]);
}

#[test]
fn rate_limit_is_reported_as_such_and_leaves_the_state() {
    let settings = NotificationSettings::default();
    let state = NotificationState {
        five_hour_last: pct(70.0),
        fired_thresholds: vec!["five_hour:80".to_string()],
        ..Default::default()
    };
    let report = conclude_fetch_at(
        Err(AppError::RateLimited),
        true,
        5,
        Some(120),
        APP,
        &settings,
        &state,
        NOW_MS,
    );
    // The next instant is worked out after a failure too.
    assert_eq!(
        report.output,
        FetchOutput { result: FetchResult::RateLimited, next_refresh_at: Some(NOW_MS + 120_000) }
    );
    assert_eq!(
        report.event,
        PollEvent::UsageError(UsageErrorEvent {
            error: "Rate limited".to_string(),
        })
    );
    assert_eq!(report.tooltip, None);
    assert!(report.notifications.is_empty());
    assert_eq!(report.notification_state, state);
}

#[test]
fn other_failures_are_other_errors() {
    let settings = NotificationSettings::default();
    let state = NotificationState::default();
    for error in [
        AppError::Http("timed out".to_string()),
        AppError::InvalidToken,
        AppError::Server("HTTP 500".to_string()),
        AppError::MissingConfig("organization_id".to_string()),
        AppError::Storage("locked".to_string()),
    ] {
        let words = error.message();
        let report = conclude_fetch_at(Err(error), true, 5, None, APP, &settings, &state, NOW_MS);
        assert_eq!(report.output.result, FetchResult::OtherError);
        assert_eq!(report.output.next_refresh_at, Some(NOW_MS + 300_000));
        assert_eq!(report.event, PollEvent::UsageError(UsageErrorEvent { error: words }));
    }
}

#[test]
fn nothing_is_due_when_polling_is_switched_off() {
    let settings = NotificationSettings::default();
    let state = NotificationState::default();
    let report =
        conclude_fetch_at(Ok(usage(10.0)), false, 5, Some(60), APP, &settings, &state, NOW_MS);
    assert_eq!(report.output.next_refresh_at, None);
    assert_eq!(
        report.event,
        PollEvent::UsageUpdated(UsageUpdateEvent { usage: usage(10.0), next_refresh_at: None })
    );
}

#[test]
fn conclusion_at_the_present_moment_announces_the_interval() {
    let settings = NotificationSettings::default();
    let state = NotificationState::default();
    let config = config_with(Some("org-1"), Some("token"));
    let before = chrono::Utc::now().timestamp_millis();
    let report = conclude_fetch(Ok(usage(10.0)), &config, 5, APP, &settings, &state);
    let after = chrono::Utc::now().timestamp_millis();
    let next = report.output.next_refresh_at.unwrap();
    assert!(before + 300_000 <= next && next <= after + 300_000);
    assert_eq!(report.output.result, FetchResult::Success);
}

#[test]
fn conclusion_at_the_present_moment_heeds_the_hourly_poll() {
    let settings = NotificationSettings::default();
    let state = NotificationState::default();
    let mut config = config_with(Some("org-1"), Some("token"));
    config.hourly_refresh_enabled = true;
    // With an interval of two hours the hourly poll always comes first.
    let before = chrono::Utc::now().timestamp_millis();
    let report = conclude_fetch(Err(AppError::RateLimited), &config, 120, APP, &settings, &state);
    let after = chrono::Utc::now().timestamp_millis();
    let next = report.output.next_refresh_at.unwrap();
    assert!(before + 6_000 <= next && next <= after + 3_660_000);
    // It lands after the full hour, by five seconds to a minute.
    let into_hour = next.rem_euclid(3_600_000);
    assert!(into_hour >= 5_000 && into_hour < 62_000, "{}", into_hour);
    assert_eq!(report.output.result, FetchResult::RateLimited);
}
