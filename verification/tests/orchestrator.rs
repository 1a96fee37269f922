use usage_monitor::auto_refresh::{calculate_next_refresh_at, FetchOutput, FetchResult};
use usage_monitor::orchestrator::{RefreshAction, RefreshEvent, RefreshPhase, RefreshState};

const NOW_MS: i64 = 1704067200000; // 2024-01-01 00:00:00 UTC

fn finished(result: FetchResult, next_refresh_at: Option<i64>) -> RefreshEvent {
    RefreshEvent::PollFinished(FetchOutput { result, next_refresh_at })
}

#[test]
fn new_state_is_idle_without_backoff() {
    let state = RefreshState::new();
    assert_eq!(state.phase(), RefreshPhase::Idle);
    assert_eq!(state.backoff_secs(), 0);
    assert!(!state.restart_pending());
}

#[test]
fn start_polls_when_enabled_with_credentials() {
    let (state, action) = RefreshState::start(true, true);
    assert_eq!(state.phase(), RefreshPhase::Polling);
    assert_eq!(action, RefreshAction::Poll);
    assert_eq!(state.backoff_secs(), 0);
}

#[test]
fn start_idles_when_disabled_or_without_credentials() {
    for (enabled, has_credentials) in [(false, true), (true, false), (false, false)] {
        let (state, action) = RefreshState::start(enabled, has_credentials);
        assert_eq!(state.phase(), RefreshPhase::Idle);
        assert_eq!(action, RefreshAction::AwaitRestart);
        assert_eq!(state.backoff_secs(), 0);
    }
}

#[test]
fn three_rate_limits_wait_for_the_backoff_not_the_interval() {
    // Enabled, every five minutes, no hourly poll.
    let interval_minutes = 5;
    let (mut state, mut action) = RefreshState::start(true, true);
    let mut now = NOW_MS;
    let mut backoffs = Vec::new();
    let mut waits = Vec::new();
    for _ in 0..3 {
        assert_eq!(action, RefreshAction::Poll);
        let next = calculate_next_refresh_at(true, interval_minutes, now, None);
        assert_eq!(next, Some(now + 300_000));
        let (after_poll, sleep) = state.on_event(
            finished(FetchResult::RateLimited, next),
            true,
            true,
            interval_minutes,
            now,
        );
        assert_eq!(after_poll.phase(), RefreshPhase::Waiting);
        backoffs.push(after_poll.backoff_secs());
        match sleep {
            RefreshAction::Sleep(millis) => {
                waits.push(millis);
                now += millis as i64;
            }
            other => panic!("expected a sleep, got {:?}", other),
        }
        let (after_sleep, poll) =
            after_poll.on_event(RefreshEvent::TimerElapsed, true, true, interval_minutes, now);
        state = after_sleep;
        action = poll;
    }
    assert_eq!(backoffs, vec![30, 60, 120]);
    assert_eq!(waits, vec![30_000, 60_000, 120_000]);
    assert_eq!(state.phase(), RefreshPhase::Polling);
    assert_eq!(state.backoff_secs(), 120);
}

#[test]
fn success_waits_until_the_announced_instant() {
    let (state, _) = RefreshState::start(true, true);
    let (state, action) = state.on_event(
        finished(FetchResult::Success, Some(NOW_MS + 65_000)),
        true,
        true,
        5,
        NOW_MS + 1_000,
    );
    assert_eq!(state.phase(), RefreshPhase::Waiting);
    assert_eq!(state.backoff_secs(), 0);
    assert_eq!(action, RefreshAction::Sleep(64_000));
}

#[test]
fn success_clears_the_backoff() {
    let (state, _) = RefreshState::start(true, true);
    let (state, _) = state.on_event(finished(FetchResult::RateLimited, None), true, true, 5, NOW_MS);
    let (state, _) = state.on_event(RefreshEvent::TimerElapsed, true, true, 5, NOW_MS);
    assert_eq!(state.backoff_secs(), 30);
    let (state, action) =
        state.on_event(finished(FetchResult::Success, None), true, true, 5, NOW_MS);
    assert_eq!(state.backoff_secs(), 0);
    // No instant announced: the interval.
    assert_eq!(action, RefreshAction::Sleep(300_000));
}

#[test]
fn other_errors_keep_the_backoff_and_still_sleep() {
    let (state, _) = RefreshState::start(true, true);
    let (state, _) = state.on_event(finished(FetchResult::RateLimited, None), true, true, 5, NOW_MS);
    let (state, _) = state.on_event(RefreshEvent::TimerElapsed, true, true, 5, NOW_MS);
    let (state, action) = state.on_event(
        finished(FetchResult::OtherError, Some(NOW_MS + 300_000)),
        true,
        true,
        5,
        NOW_MS,
    );
    assert_eq!(state.phase(), RefreshPhase::Waiting);
    assert_eq!(state.backoff_secs(), 30);
    assert_eq!(action, RefreshAction::Sleep(30_000));

    let (fresh, _) = RefreshState::start(true, true);
    let (fresh, action) = fresh.on_event(
        finished(FetchResult::OtherError, Some(NOW_MS + 300_000)),
        true,
        true,
        5,
        NOW_MS,
    );
    assert_eq!(fresh.backoff_secs(), 0);
    assert_eq!(action, RefreshAction::Sleep(300_000));
}

#[test]
fn backoff_caps_at_five_minutes() {
    let (mut state, _) = RefreshState::start(true, true);
    let mut seen = Vec::new();
    for _ in 0..7 {
        let (waiting, sleep) =
            state.on_event(finished(FetchResult::RateLimited, None), true, true, 5, NOW_MS);
        seen.push(waiting.backoff_secs());
        assert_eq!(sleep, RefreshAction::Sleep(waiting.backoff_secs() * 1000));
        let (polling, _) = waiting.on_event(RefreshEvent::TimerElapsed, true, true, 5, NOW_MS);
        state = polling;
    }
    assert_eq!(seen, vec![30, 60, 120, 240, 300, 300, 300]);
}

#[test]
fn restart_signal_cuts_the_sleep_short_and_clears_the_backoff() {
    let (state, _) = RefreshState::start(true, true);
    let (state, _) = state.on_event(finished(FetchResult::RateLimited, None), true, true, 5, NOW_MS);
    assert_eq!(state.phase(), RefreshPhase::Waiting);
    assert_eq!(state.backoff_secs(), 30);
    let (state, action) = state.on_event(RefreshEvent::RestartSignal, true, true, 5, NOW_MS);
    assert_eq!(state.phase(), RefreshPhase::Polling);
    assert_eq!(state.backoff_secs(), 0);
    assert_eq!(action, RefreshAction::Poll);
}

#[test]
fn restart_signal_during_a_poll_is_kept_until_the_poll_is_back() {
    let (state, _) = RefreshState::start(true, true);
    let (state, action) = state.on_event(RefreshEvent::RestartSignal, true, true, 5, NOW_MS);
    assert_eq!(state.phase(), RefreshPhase::Polling);
    assert!(state.restart_pending());
    assert_eq!(action, RefreshAction::Proceed);
    // Several signals count as one.
    let (state, action) = state.on_event(RefreshEvent::RestartSignal, true, true, 5, NOW_MS);
    assert!(state.restart_pending());
    assert_eq!(action, RefreshAction::Proceed);
    // The poll comes back rate limited; the signal wins over the backoff.
    let (state, action) =
        state.on_event(finished(FetchResult::RateLimited, None), true, true, 5, NOW_MS);
    assert_eq!(state.phase(), RefreshPhase::Polling);
    assert!(!state.restart_pending());
    assert_eq!(state.backoff_secs(), 0);
    assert_eq!(action, RefreshAction::Poll);
}

#[test]
fn pending_restart_leads_to_idle_when_polling_was_switched_off() {
    let (state, _) = RefreshState::start(true, true);
    let (state, _) = state.on_event(RefreshEvent::RestartSignal, false, true, 5, NOW_MS);
    let (state, action) =
        state.on_event(finished(FetchResult::Success, None), false, true, 5, NOW_MS);
    assert_eq!(state.phase(), RefreshPhase::Idle);
    assert_eq!(action, RefreshAction::AwaitRestart);
}

#[test]
fn switching_off_leads_to_idle_and_clears_the_backoff() {
    let (state, _) = RefreshState::start(true, true);
    let (waiting, _) =
        state.on_event(finished(FetchResult::RateLimited, None), true, true, 5, NOW_MS);
    assert_eq!(waiting.backoff_secs(), 30);
    // By a restart signal, with polling switched off.
    let (idle, action) = waiting.on_event(RefreshEvent::RestartSignal, false, true, 5, NOW_MS);
    assert_eq!(idle.phase(), RefreshPhase::Idle);
    assert_eq!(idle.backoff_secs(), 0);
    assert_eq!(action, RefreshAction::AwaitRestart);
    // By the end of the sleep, with the credentials gone.
    let (idle, action) = waiting.on_event(RefreshEvent::TimerElapsed, true, false, 5, NOW_MS);
    assert_eq!(idle.phase(), RefreshPhase::Idle);
    assert_eq!(idle.backoff_secs(), 0);
    assert_eq!(action, RefreshAction::AwaitRestart);
}

#[test]
fn idle_wakes_on_restart_signal_once_enabled_with_credentials() {
    let (idle, _) = RefreshState::start(false, false);
    let (still_idle, action) = idle.on_event(RefreshEvent::RestartSignal, true, false, 5, NOW_MS);
    assert_eq!(still_idle.phase(), RefreshPhase::Idle);
    assert_eq!(action, RefreshAction::AwaitRestart);
    let (polling, action) = still_idle.on_event(RefreshEvent::RestartSignal, true, true, 5, NOW_MS);
    assert_eq!(polling.phase(), RefreshPhase::Polling);
    assert_eq!(action, RefreshAction::Poll);
}

#[test]
fn end_of_sleep_keeps_the_backoff() {
    let (state, _) = RefreshState::start(true, true);
    let (state, _) = state.on_event(finished(FetchResult::RateLimited, None), true, true, 5, NOW_MS);
    let (state, action) = state.on_event(RefreshEvent::TimerElapsed, true, true, 5, NOW_MS);
    assert_eq!(state.phase(), RefreshPhase::Polling);
    assert_eq!(state.backoff_secs(), 30);
    assert_eq!(action, RefreshAction::Poll);
}

#[test]
fn events_out_of_turn_change_nothing() {
    let idle = RefreshState::new();
    let (after, action) = idle.on_event(RefreshEvent::TimerElapsed, true, true, 5, NOW_MS);
    assert_eq!(after, idle);
    assert_eq!(action, RefreshAction::Proceed);
    let (after, action) =
        idle.on_event(finished(FetchResult::RateLimited, None), true, true, 5, NOW_MS);
    assert_eq!(after, idle);
    assert_eq!(action, RefreshAction::Proceed);

    let (polling, _) = RefreshState::start(true, true);
    let (after, action) = polling.on_event(RefreshEvent::TimerElapsed, true, true, 5, NOW_MS);
    assert_eq!(after, polling);
    assert_eq!(action, RefreshAction::Proceed);

    let (waiting, _) =
        polling.on_event(finished(FetchResult::Success, None), true, true, 5, NOW_MS);
    let (after, action) =
        waiting.on_event(finished(FetchResult::RateLimited, None), true, true, 5, NOW_MS);
    assert_eq!(after, waiting);
    assert_eq!(action, RefreshAction::Proceed);
}

#[test]
fn a_poll_without_credentials_keeps_the_backoff_and_sleeps_the_interval() {
    let (state, _) = RefreshState::start(true, true);
    let (state, action) =
        state.on_event(finished(FetchResult::NoCredentials, None), true, true, 7, NOW_MS);
    assert_eq!(state.phase(), RefreshPhase::Waiting);
    assert_eq!(state.backoff_secs(), 0);
    assert_eq!(action, RefreshAction::Sleep(420_000));
}
