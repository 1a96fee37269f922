//! One poll from start to finish, but for the sending: whether to poll at
//! all, what to send, and what follows from the answer.

use vstd::prelude::*;
use crate::api::{prepare_usage_request, session_cookie, usage_url, UsageRequest};
use crate::auto_refresh::{
    calculate_hourly_refresh_delay, calculate_next_refresh_at, next_refresh_at,
    next_refresh_fits, FetchOutput, FetchResult, HOURLY_REFRESH_INITIAL_GAP_SECS,
    HOURLY_REFRESH_JITTER_MAX_SECS, SECS_PER_HOUR,
};
use crate::clock::{now_millis, MAX_CLOCK_MILLIS};
use crate::error::AppError;
use crate::notifications::{
    copy_state, notification_views, notifications_processed, process_notifications_at,
    reset_notification_state_if_needed, state_reset, Notification, NotificationStateView,
};
use crate::tray::{tooltip_text, tray_tooltip};
use crate::types::{
    AutoRefreshConfig, NotificationSettings, NotificationState, UsageData, UsageErrorEvent,
    UsageUpdateEvent,
};
use crate::validation::{org_id_problem, org_id_valid, session_token_valid};

verus! {

/// How a poll starts.
#[derive(Debug, Clone, PartialEq, Eq)]
pub enum PollPlan {
    /// There are no credentials: nothing is sent, and this is the poll's
    /// outcome.
    Skip(FetchOutput),
    /// Send this.
    Send(UsageRequest),
    /// The credentials do not pass their checks: nothing is sent, and the
    /// poll ends with this error.
    Fail(AppError),
}

/// Decides how a poll starts from the credentials that are set. `api_base`
/// is the address of the service's API.
pub fn plan_poll(config: &AutoRefreshConfig, api_base: &str) -> (plan: PollPlan)
    ensures
        !config.has_credentials() <==> plan is Skip,
        plan matches PollPlan::Skip(output) ==> output.result == FetchResult::NoCredentials
            && output.next_refresh_at is None,
        config.has_credentials() ==> (plan is Send <==> org_id_valid(config.organization_id->0@)
            && session_token_valid(config.session_token->0@)),
        plan matches PollPlan::Send(request) ==> request.url@ == usage_url(
            api_base@,
            config.organization_id->0@,
        ) && request.cookie@ == session_cookie(config.session_token->0@),
        plan matches PollPlan::Fail(error) ==> (if org_id_valid(config.organization_id->0@) {
            error == AppError::InvalidToken
        } else {
            error matches AppError::MissingConfig(detail) && org_id_problem(
                config.organization_id->0@,
            ) == Some(detail@)
        }),
{
    match (&config.organization_id, &config.session_token) {
        (Some(org_id), Some(session_token)) => {
            match prepare_usage_request(api_base, org_id.as_str(), session_token.as_str()) {
                Ok(request) => PollPlan::Send(request),
                Err(error) => PollPlan::Fail(error),
            }
        },
        _ => PollPlan::Skip(
            FetchOutput { result: FetchResult::NoCredentials, next_refresh_at: None },
        ),
    }
}

/// What listeners are told after a poll.
#[derive(Debug, Clone, PartialEq, Eq)]
pub enum PollEvent {
    UsageUpdated(UsageUpdateEvent),
    UsageError(UsageErrorEvent),
}

/// All that follows from the answer to a poll.
#[derive(Debug, Clone, PartialEq, Eq)]
pub struct PollReport {
    /// How the poll ended and when the next one is due. The loop sleeps
    /// until that same instant.
    pub output: FetchOutput,
    /// What to tell listeners.
    pub event: PollEvent,
    /// The new tooltip of the tray icon, after a poll that succeeded.
    pub tooltip: Option<String>,
    /// What to tell the user.
    pub notifications: Vec<Notification>,
    /// The notification state to keep.
    pub notification_state: NotificationState,
}

/// How a poll ended, as far as the backoff is concerned: only a rate limit
/// counts as one.
pub open spec fn fetch_result_of(fetched: Result<UsageData, AppError>) -> FetchResult {
    match fetched {
        Ok(_) => FetchResult::Success,
        Err(error) => if error.is_rate_limited() {
            FetchResult::RateLimited
        } else {
            FetchResult::OtherError
        },
    }
}

/// An instant, or none, as a mathematical integer.
pub open spec fn instant(at: Option<i64>) -> Option<int> {
    match at {
        Some(at) => Some(at as int),
        None => None,
    }
}

/// Whether `report` is what follows from the answer `fetched` at `now_ms`.
///
/// The next poll is due as the schedule says, after success and failure
/// alike, and listeners are told that same instant. After success the
/// state is first re-armed for the quantities that were reset and the
/// reading is then judged against it. After failure the state stays and the
/// user is told nothing; listeners get the error's words.
pub open spec fn poll_concluded(
    report: PollReport,
    fetched: Result<UsageData, AppError>,
    enabled: bool,
    interval_minutes: u32,
    hourly_delay_secs: Option<u64>,
    app_name: Seq<char>,
    settings: NotificationSettings,
    state: NotificationStateView,
    now_ms: i64,
) -> bool {
    &&& report.output.result == fetch_result_of(fetched)
    &&& instant(report.output.next_refresh_at) == next_refresh_at(
        enabled,
        interval_minutes,
        now_ms,
        hourly_delay_secs,
    )
    &&& match fetched {
        Ok(usage) => {
            &&& report.event == PollEvent::UsageUpdated(
                UsageUpdateEvent { usage, next_refresh_at: report.output.next_refresh_at },
            )
            &&& report.tooltip matches Some(text) && text@ == tooltip_text(app_name, Some(&usage))
            &&& (report.notification_state@, notification_views(report.notifications@))
                == notifications_processed(usage, settings, state_reset(usage, state), now_ms)
        },
        Err(error) => {
            &&& report.event matches PollEvent::UsageError(event) && event.error@
                == error.message_text()
            &&& report.tooltip is None
            &&& report.notification_state@ == state
            &&& report.notifications@.len() == 0
        },
    }
}

/// Works out all that follows from the answer to a poll, at the instant
/// `now_ms` and with the hourly poll `hourly_delay_secs` away, if there is
/// one. `app_name` heads the tooltip.
pub fn conclude_fetch_at(
    fetched: Result<UsageData, AppError>,
    enabled: bool,
    interval_minutes: u32,
    hourly_delay_secs: Option<u64>,
    app_name: &str,
    settings: &NotificationSettings,
    state: &NotificationState,
    now_ms: i64,
) -> (report: PollReport)
    requires
        enabled ==> next_refresh_fits(interval_minutes, now_ms, hourly_delay_secs),
    ensures
        poll_concluded(
            report,
            fetched,
            enabled,
            interval_minutes,
            hourly_delay_secs,
            app_name@,
            *settings,
            state@,
            now_ms,
        ),
{
    let next = calculate_next_refresh_at(enabled, interval_minutes, now_ms, hourly_delay_secs);
    match fetched {
        Ok(usage) => {
            let tooltip = tray_tooltip(app_name, Some(&usage));
            let rearmed = reset_notification_state_if_needed(&usage, state);
            let outcome = process_notifications_at(&usage, settings, &rearmed, now_ms);
            PollReport {
                output: FetchOutput { result: FetchResult::Success, next_refresh_at: next },
                event: PollEvent::UsageUpdated(UsageUpdateEvent { usage, next_refresh_at: next }),
                tooltip: Some(tooltip),
                notifications: outcome.notifications,
                notification_state: outcome.state,
            }
        },
        Err(error) => {
            let result = if error.is_rate_limited() {
                FetchResult::RateLimited
            } else {
                FetchResult::OtherError
            };
            PollReport {
                output: FetchOutput { result, next_refresh_at: next },
                event: PollEvent::UsageError(UsageErrorEvent { error: error.message() }),
                tooltip: None,
                notifications: Vec::new(),
                notification_state: copy_state(state),
            }
        },
    }
}

/// Whether `hourly_delay_secs` can be the delay until the hourly poll: none
/// where that poll is switched off, else more than the gap after the full
/// hour and no more than an hour, the gap and the largest jitter.
pub open spec fn hourly_delay_in_range(hourly_delay_secs: Option<u64>, enabled: bool) -> bool {
    match hourly_delay_secs {
        Some(delay) => enabled && HOURLY_REFRESH_INITIAL_GAP_SECS < delay <= SECS_PER_HOUR
            + HOURLY_REFRESH_INITIAL_GAP_SECS + HOURLY_REFRESH_JITTER_MAX_SECS,
        None => !enabled,
    }
}

/// Works out all that follows from the answer to a poll at the present
/// moment.
///
/// Reads the clock once and draws the jitter of the hourly poll, so the
/// report is that of [`conclude_fetch_at`] for some instant and some hourly
/// delay within its range.
pub fn conclude_fetch(
    fetched: Result<UsageData, AppError>,
    config: &AutoRefreshConfig,
    interval_minutes: u32,
    app_name: &str,
    settings: &NotificationSettings,
    state: &NotificationState,
) -> (report: PollReport)
    ensures
        exists|now_ms: i64, hourly_delay_secs: Option<u64>|
            hourly_delay_in_range(hourly_delay_secs, config.hourly_refresh_enabled) && 0
                <= now_ms <= MAX_CLOCK_MILLIS && #[trigger] poll_concluded(
                report,
                fetched,
                config.enabled,
                interval_minutes,
                hourly_delay_secs,
                app_name@,
                *settings,
                state@,
                now_ms,
            ),
{
    let now_ms = now_millis();
    let hourly_delay_secs = calculate_hourly_refresh_delay(config.hourly_refresh_enabled);
    conclude_fetch_at(
        fetched,
        config.enabled,
        interval_minutes,
        hourly_delay_secs,
        app_name,
        settings,
        state,
        now_ms,
    )
}

} // verus!
