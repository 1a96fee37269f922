//! The polling loop as a state machine.
//!
//! The loop itself waits on a timer, on the network and on a restart
//! signal, which is not the library's business. What it decides at each
//! turn is: [`RefreshState::on_event`] takes the state and what happened and
//! gives the next state and what to do next.

use vstd::prelude::*;
use crate::auto_refresh::{
    calculate_next_backoff, calculate_wait_millis, next_backoff, should_refresh, wait_millis,
    FetchOutput, MAX_BACKOFF_SECS,
};

verus! {

/// Where the polling loop stands.
#[derive(Debug, Clone, Copy, PartialEq, Eq, Structural)]
pub enum RefreshPhase {
    /// Switched off or without credentials: waits for a restart signal only.
    Idle,
    /// A poll is under way.
    Polling,
    /// Sleeps until the next poll, or until a restart signal.
    Waiting,
}

/// What happened.
#[derive(Debug, Clone, Copy, PartialEq, Eq)]
pub enum RefreshEvent {
    /// Settings or credentials changed, or the user asked for a poll.
    /// Several signals in a row count as one.
    RestartSignal,
    /// The sleep ran its course.
    TimerElapsed,
    /// The poll came back.
    PollFinished(FetchOutput),
}

/// What to do next.
#[derive(Debug, Clone, Copy, PartialEq, Eq)]
pub enum RefreshAction {
    /// Wait for a restart signal.
    AwaitRestart,
    /// Start a poll.
    Poll,
    /// Sleep for so many milliseconds, or until a restart signal.
    Sleep(u64),
    /// Go on with what is under way.
    Proceed,
}

/// The loop's state as plain values.
pub struct RefreshStateView {
    pub phase: RefreshPhase,
    /// The active backoff in seconds, 0 for none.
    pub backoff_secs: u64,
    /// Whether a restart signal came in while the poll was under way.
    pub restart_pending: bool,
}

impl RefreshStateView {
    /// What holds of every state that the loop reaches: the backoff is
    /// within its cap and inactive while idle, and a restart is pending only
    /// during a poll.
    pub open spec fn well_formed(self) -> bool {
        &&& self.backoff_secs <= MAX_BACKOFF_SECS
        &&& self.phase is Idle ==> self.backoff_secs == 0
        &&& self.restart_pending ==> self.phase is Polling
    }
}

/// The start of a cycle: a poll where the loop is to run, else idling with
/// the backoff cleared.
pub open spec fn cycle_entered(backoff_secs: u64, enabled: bool, has_credentials: bool) -> (
    RefreshStateView,
    RefreshAction,
) {
    if should_refresh(enabled, has_credentials) {
        (
            RefreshStateView { phase: RefreshPhase::Polling, backoff_secs, restart_pending: false },
            RefreshAction::Poll,
        )
    } else {
        (
            RefreshStateView {
                phase: RefreshPhase::Idle,
                backoff_secs: 0,
                restart_pending: false,
            },
            RefreshAction::AwaitRestart,
        )
    }
}

/// The next state and what to do, from the state and what happened.
///
/// - A restart signal cuts idling and sleeping short, clears the backoff
///   and starts a cycle. During a poll it is kept for when the poll is
///   back.
/// - The end of the sleep starts a cycle with the backoff as it is.
/// - A poll that comes back sets the backoff by how it ended. Then the
///   loop sleeps, unless a restart signal is pending: that one clears the
///   backoff and starts a cycle at once.
/// - Anything else is out of turn and changes nothing.
pub open spec fn transition(
    state: RefreshStateView,
    event: RefreshEvent,
    enabled: bool,
    has_credentials: bool,
    interval_minutes: u32,
    now_ms: i64,
) -> (RefreshStateView, RefreshAction) {
    match event {
        RefreshEvent::RestartSignal => match state.phase {
            RefreshPhase::Polling => (
                RefreshStateView { restart_pending: true, ..state },
                RefreshAction::Proceed,
            ),
            _ => cycle_entered(0, enabled, has_credentials),
        },
        RefreshEvent::TimerElapsed => match state.phase {
            RefreshPhase::Waiting => cycle_entered(state.backoff_secs, enabled, has_credentials),
            _ => (state, RefreshAction::Proceed),
        },
        RefreshEvent::PollFinished(output) => match state.phase {
            RefreshPhase::Polling => if state.restart_pending {
                cycle_entered(0, enabled, has_credentials)
            } else {
                let backoff_secs = next_backoff(state.backoff_secs as nat, output.result) as u64;
                (
                    RefreshStateView {
                        phase: RefreshPhase::Waiting,
                        backoff_secs,
                        restart_pending: false,
                    },
                    RefreshAction::Sleep(
                        wait_millis(
                            backoff_secs,
                            output.next_refresh_at,
                            now_ms,
                            interval_minutes,
                        ) as u64,
                    ),
                )
            },
            _ => (state, RefreshAction::Proceed),
        },
    }
}

/// Every transition leads from a well-formed state to a well-formed state.
pub proof fn lemma_transition_keeps_well_formed(
    state: RefreshStateView,
    event: RefreshEvent,
    enabled: bool,
    has_credentials: bool,
    interval_minutes: u32,
    now_ms: i64,
)
    requires
        state.well_formed(),
    ensures
        transition(state, event, enabled, has_credentials, interval_minutes, now_ms).0.well_formed(),
{
}

/// A poll that comes back is always followed by a sleep, however it ended,
/// unless a restart signal came in meanwhile. While a backoff is active the
/// sleep lasts as long as the backoff, whatever the interval and whatever
/// instant the poll announced.
pub proof fn lemma_poll_is_followed_by_sleep(
    state: RefreshStateView,
    output: FetchOutput,
    enabled: bool,
    has_credentials: bool,
    interval_minutes: u32,
    now_ms: i64,
)
    requires
        state.well_formed(),
        state.phase is Polling,
        !state.restart_pending,
    ensures
        ({
            let (next, action) = transition(
                state,
                RefreshEvent::PollFinished(output),
                enabled,
                has_credentials,
                interval_minutes,
                now_ms,
            );
            &&& next.phase is Waiting
            &&& next.backoff_secs == next_backoff(state.backoff_secs as nat, output.result)
            &&& action is Sleep
            &&& next.backoff_secs > 0 ==> action == RefreshAction::Sleep(
                (next.backoff_secs * 1000) as u64,
            )
        }),
{
}

/// Once the loop is switched off or has lost its credentials, the next
/// restart signal or end of sleep takes it to idling with the backoff
/// cleared; and once it is switched on with credentials, the next restart
/// signal takes it from idling to a poll.
pub proof fn lemma_configuration_decides_idling(
    state: RefreshStateView,
    enabled: bool,
    has_credentials: bool,
    interval_minutes: u32,
    now_ms: i64,
)
    requires
        state.well_formed(),
    ensures
        ({
            let on_signal = transition(
                state,
                RefreshEvent::RestartSignal,
                enabled,
                has_credentials,
                interval_minutes,
                now_ms,
            );
            let on_timer = transition(
                state,
                RefreshEvent::TimerElapsed,
                enabled,
                has_credentials,
                interval_minutes,
                now_ms,
            );
            &&& !(state.phase is Polling) && !should_refresh(enabled, has_credentials)
                ==> on_signal.0.phase is Idle && on_signal.0.backoff_secs == 0 && on_signal.1
                == RefreshAction::AwaitRestart
            &&& state.phase is Waiting && !should_refresh(enabled, has_credentials)
                ==> on_timer.0.phase is Idle && on_timer.0.backoff_secs == 0
            &&& !(state.phase is Polling) && should_refresh(enabled, has_credentials)
                ==> on_signal.0.phase is Polling && on_signal.0.backoff_secs == 0 && on_signal.1
                == RefreshAction::Poll
            &&& state.phase is Waiting && should_refresh(enabled, has_credentials)
                ==> on_timer.0.phase is Polling && on_timer.0.backoff_secs == state.backoff_secs
        }),
{
}

/// The state of the polling loop.
#[derive(Debug, Clone, Copy, PartialEq, Eq)]
pub struct RefreshState {
    phase: RefreshPhase,
    backoff_secs: u64,
    restart_pending: bool,
}

impl View for RefreshState {
    type V = RefreshStateView;

    closed spec fn view(&self) -> RefreshStateView {
        RefreshStateView {
            phase: self.phase,
            backoff_secs: self.backoff_secs,
            restart_pending: self.restart_pending,
        }
    }
}

impl RefreshState {
    #[verifier::type_invariant]
    spec fn well_formed(self) -> bool {
        self@.well_formed()
    }

    /// The state before the loop has started: idle, no backoff.
    pub fn new() -> (state: Self)
        ensures
            state@ == (RefreshStateView {
                phase: RefreshPhase::Idle,
                backoff_secs: 0,
                restart_pending: false,
            }),
    {
        RefreshState { phase: RefreshPhase::Idle, backoff_secs: 0, restart_pending: false }
    }

    /// Where the loop stands.
    pub fn phase(&self) -> (phase: RefreshPhase)
        ensures
            phase == self@.phase,
    {
        self.phase
    }

    /// The active backoff in seconds, 0 for none.
    pub fn backoff_secs(&self) -> (backoff_secs: u64)
        ensures
            backoff_secs == self@.backoff_secs,
            backoff_secs <= MAX_BACKOFF_SECS,
    {
        proof {
            use_type_invariant(self);
        }
        self.backoff_secs
    }

    /// Whether a restart signal came in while the poll was under way.
    pub fn restart_pending(&self) -> (pending: bool)
        ensures
            pending == self@.restart_pending,
    {
        self.restart_pending
    }

    fn enter_cycle(backoff_secs: u64, enabled: bool, has_credentials: bool) -> (next: (
        Self,
        RefreshAction,
    ))
        requires
            backoff_secs <= MAX_BACKOFF_SECS,
        ensures
            (next.0@, next.1) == cycle_entered(backoff_secs, enabled, has_credentials),
    {
        if should_refresh(enabled, has_credentials) {
            (
                RefreshState { phase: RefreshPhase::Polling, backoff_secs, restart_pending: false },
                RefreshAction::Poll,
            )
        } else {
            (
                RefreshState { phase: RefreshPhase::Idle, backoff_secs: 0, restart_pending: false },
                RefreshAction::AwaitRestart,
            )
        }
    }

    /// Starts the loop: the first cycle, from the settings as they are.
    pub fn start(enabled: bool, has_credentials: bool) -> (next: (Self, RefreshAction))
        ensures
            (next.0@, next.1) == cycle_entered(0, enabled, has_credentials),
            next.0@.well_formed(),
    {
        Self::enter_cycle(0, enabled, has_credentials)
    }

    /// Takes one turn of the loop: the next state and what to do, from what
    /// happened.
    ///
    /// `enabled`, `has_credentials` and `interval_minutes` are the settings
    /// as they are now, `now_ms` is the current time in milliseconds since
    /// the Unix epoch.
    pub fn on_event(
        self,
        event: RefreshEvent,
        enabled: bool,
        has_credentials: bool,
        interval_minutes: u32,
        now_ms: i64,
    ) -> (next: (Self, RefreshAction))
        ensures
            (next.0@, next.1) == transition(
                self@,
                event,
                enabled,
                has_credentials,
                interval_minutes,
                now_ms,
            ),
            self@.well_formed(),
            next.0@.well_formed(),
    {
        proof {
            use_type_invariant(self);
        }
        match event {
            RefreshEvent::RestartSignal => match self.phase {
                RefreshPhase::Polling => (
                    RefreshState {
                        phase: self.phase,
                        backoff_secs: self.backoff_secs,
                        restart_pending: true,
                    },
                    RefreshAction::Proceed,
                ),
                _ => Self::enter_cycle(0, enabled, has_credentials),
            },
            RefreshEvent::TimerElapsed => match self.phase {
                RefreshPhase::Waiting => Self::enter_cycle(
                    self.backoff_secs,
                    enabled,
                    has_credentials,
                ),
                _ => (self, RefreshAction::Proceed),
            },
            RefreshEvent::PollFinished(output) => match self.phase {
                RefreshPhase::Polling => {
                    if self.restart_pending {
                        Self::enter_cycle(0, enabled, has_credentials)
                    } else {
                        let backoff_secs = calculate_next_backoff(self.backoff_secs, output.result);
                        let wait = calculate_wait_millis(
                            backoff_secs,
                            output.next_refresh_at,
                            now_ms,
                            interval_minutes,
                        );
                        (
                            RefreshState {
                                phase: RefreshPhase::Waiting,
                                backoff_secs,
                                restart_pending: false,
                            },
                            RefreshAction::Sleep(wait),
                        )
                    }
                },
                _ => (self, RefreshAction::Proceed),
            },
        }
    }
}

} // verus!
