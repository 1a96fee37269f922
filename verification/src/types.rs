//! The data that the scheduling and notification decisions work on.

use vstd::prelude::*;

verus! {

/// How many units of [`Utilization`] make one percent.
pub const UNITS_PER_PERCENT: u32 = 1000;

/// A share of a quota that is used up, in thousandths of a percent.
///
/// 100 % is `100_000`. Readings above 100 % are kept as they are.
#[derive(Debug, Clone, Copy, PartialEq, Eq, Structural, Hash)]
pub struct Utilization {
    pub thousandths: u32,
}

impl Utilization {
    /// No usage at all.
    pub fn zero() -> (u: Self)
        ensures
            u.thousandths == 0,
    {
        Utilization { thousandths: 0 }
    }

    /// A whole number of percent.
    pub fn from_percent(percent: u16) -> (u: Self)
        ensures
            u.thousandths == percent * UNITS_PER_PERCENT,
    {
        let p: u32 = percent as u32;
        Utilization { thousandths: p * UNITS_PER_PERCENT }
    }

    /// A number of thousandths of a percent.
    pub fn from_thousandths(thousandths: u32) -> (u: Self)
        ensures
            u.thousandths == thousandths,
    {
        Utilization { thousandths }
    }

    /// The whole percent that are reached, fractions dropped.
    pub open spec fn spec_whole_percent(self) -> u32 {
        self.thousandths / UNITS_PER_PERCENT
    }

    /// The whole percent that are reached, fractions dropped.
    #[verifier::when_used_as_spec(spec_whole_percent)]
    pub fn whole_percent(self) -> (p: u32)
        ensures
            p == self.spec_whole_percent(),
    {
        self.thousandths / UNITS_PER_PERCENT
    }

    /// The nearest whole percent; a reading halfway between two goes to the
    /// even one.
    pub open spec fn spec_rounded_percent(self) -> u32 {
        let whole = self.thousandths / UNITS_PER_PERCENT;
        let rest = self.thousandths % UNITS_PER_PERCENT;
        if rest * 2 > UNITS_PER_PERCENT || (rest * 2 == UNITS_PER_PERCENT && whole % 2 == 1) {
            (whole + 1) as u32
        } else {
            whole
        }
    }

    /// The nearest whole percent; a reading halfway between two goes to the
    /// even one.
    #[verifier::when_used_as_spec(spec_rounded_percent)]
    pub fn rounded_percent(self) -> (p: u32)
        ensures
            p == self.spec_rounded_percent(),
    {
        let whole: u32 = self.thousandths / UNITS_PER_PERCENT;
        let rest: u32 = self.thousandths % UNITS_PER_PERCENT;
        if rest * 2 > UNITS_PER_PERCENT || (rest * 2 == UNITS_PER_PERCENT && whole % 2 == 1) {
            whole + 1
        } else {
            whole
        }
    }
}

/// One metered quantity as the service reports it.
#[derive(Debug, Clone, PartialEq, Eq)]
pub struct UsagePeriod {
    pub utilization: Utilization,
    /// When the quantity starts over, as an RFC 3339 timestamp.
    pub resets_at: Option<String>,
}

/// One reading of all metered quantities. A quantity that the service left
/// out is `None`.
#[derive(Debug, Clone, PartialEq, Eq)]
pub struct UsageData {
    pub five_hour: Option<UsagePeriod>,
    pub seven_day: Option<UsagePeriod>,
    pub seven_day_sonnet: Option<UsagePeriod>,
    pub seven_day_opus: Option<UsagePeriod>,
}

/// What the user has set up.
#[derive(Debug, Clone, PartialEq, Eq)]
pub struct Settings {
    pub organization_id: Option<String>,
    pub session_token: Option<String>,
    pub refresh_interval_minutes: u32,
}

impl Default for Settings {
    fn default() -> (settings: Self)
        ensures
            settings.organization_id is None,
            settings.session_token is None,
            settings.refresh_interval_minutes == 5,
    {
        Settings { organization_id: None, session_token: None, refresh_interval_minutes: 5 }
    }
}

/// The settings of a fresh installation: no credentials, a poll every five
/// minutes.
pub fn get_default_settings() -> (settings: Settings)
    ensures
        settings.organization_id is None,
        settings.session_token is None,
        settings.refresh_interval_minutes == 5,
{
    Settings::default()
}

/// When to notify about one metered quantity.
#[derive(Debug, Clone, PartialEq, Eq)]
pub struct NotificationRule {
    /// Notify each time usage enters a new band of `interval_percent`.
    pub interval_enabled: bool,
    /// Width of a band in percent; 0 switches the bands off.
    pub interval_percent: u32,
    /// Notify once for each entry of `thresholds` that usage reaches.
    pub threshold_enabled: bool,
    /// Percentages to notify at.
    pub thresholds: Vec<u32>,
    /// Notify when the reset is near.
    pub time_remaining_enabled: bool,
    /// Minutes before the reset to notify at.
    pub time_remaining_minutes: Vec<u32>,
}

impl Default for NotificationRule {
    fn default() -> (rule: Self)
        ensures
            !rule.interval_enabled,
            rule.interval_percent == 10,
            rule.threshold_enabled,
            rule.thresholds@ == seq![80u32, 90u32],
            !rule.time_remaining_enabled,
            rule.time_remaining_minutes@ == seq![30u32, 60u32],
    {
        let mut thresholds: Vec<u32> = Vec::new();
        thresholds.push(80);
        thresholds.push(90);
        let mut time_remaining_minutes: Vec<u32> = Vec::new();
        time_remaining_minutes.push(30);
        time_remaining_minutes.push(60);
        proof {
            assert(thresholds@ =~= seq![80u32, 90u32]);
            assert(time_remaining_minutes@ =~= seq![30u32, 60u32]);
        }
        NotificationRule {
            interval_enabled: false,
            interval_percent: 10,
            threshold_enabled: true,
            thresholds,
            time_remaining_enabled: false,
            time_remaining_minutes,
        }
    }
}

/// The notification rules of all metered quantities.
#[derive(Debug, Clone, PartialEq, Eq)]
pub struct NotificationSettings {
    /// Master switch: when off, nothing is evaluated.
    pub enabled: bool,
    pub five_hour: NotificationRule,
    pub seven_day: NotificationRule,
    pub seven_day_sonnet: NotificationRule,
    pub seven_day_opus: NotificationRule,
}

impl Default for NotificationSettings {
    fn default() -> (settings: Self)
        ensures
            settings.enabled,
            !settings.five_hour.interval_enabled,
            !settings.seven_day.interval_enabled,
            !settings.seven_day_sonnet.interval_enabled,
            !settings.seven_day_opus.interval_enabled,
    {
        NotificationSettings {
            enabled: true,
            five_hour: NotificationRule::default(),
            seven_day: NotificationRule::default(),
            seven_day_sonnet: NotificationRule::default(),
            seven_day_opus: NotificationRule::default(),
        }
    }
}

/// What has been notified so far, kept so that nothing is notified twice.
#[derive(Debug, Clone, PartialEq, Eq)]
pub struct NotificationState {
    pub five_hour_last: Utilization,
    pub seven_day_last: Utilization,
    pub seven_day_sonnet_last: Utilization,
    pub seven_day_opus_last: Utilization,
    /// Markers `"<quantity>:<percent>"` of the thresholds that have fired.
    pub fired_thresholds: Vec<String>,
    /// Markers `"<quantity>:time:<minutes>"` of the reset warnings that have
    /// fired.
    pub fired_time_remaining: Vec<String>,
}

impl Default for NotificationState {
    fn default() -> (state: Self)
        ensures
            state.five_hour_last.thousandths == 0,
            state.seven_day_last.thousandths == 0,
            state.seven_day_sonnet_last.thousandths == 0,
            state.seven_day_opus_last.thousandths == 0,
            state.fired_thresholds@.len() == 0,
            state.fired_time_remaining@.len() == 0,
    {
        NotificationState {
            five_hour_last: Utilization::zero(),
            seven_day_last: Utilization::zero(),
            seven_day_sonnet_last: Utilization::zero(),
            seven_day_opus_last: Utilization::zero(),
            fired_thresholds: Vec::new(),
            fired_time_remaining: Vec::new(),
        }
    }
}

/// The settings that drive the polling loop.
#[derive(Debug, Clone, PartialEq, Eq)]
pub struct AutoRefreshConfig {
    pub organization_id: Option<String>,
    pub session_token: Option<String>,
    pub enabled: bool,
    pub interval_minutes: u32,
    /// Also wake shortly after each full hour.
    pub hourly_refresh_enabled: bool,
}

impl Default for AutoRefreshConfig {
    fn default() -> (config: Self)
        ensures
            config.organization_id is None,
            config.session_token is None,
            config.enabled,
            config.interval_minutes == 5,
            !config.hourly_refresh_enabled,
    {
        AutoRefreshConfig {
            organization_id: None,
            session_token: None,
            enabled: true,
            interval_minutes: 5,
            hourly_refresh_enabled: false,
        }
    }
}

impl AutoRefreshConfig {
    /// Whether both credentials are present.
    pub open spec fn spec_has_credentials(&self) -> bool {
        self.organization_id is Some && self.session_token is Some
    }

    /// Whether both credentials are present.
    #[verifier::when_used_as_spec(spec_has_credentials)]
    pub fn has_credentials(&self) -> (present: bool)
        ensures
            present == self.spec_has_credentials(),
    {
        self.organization_id.is_some() && self.session_token.is_some()
    }
}

/// Told to listeners after a poll that succeeded.
#[derive(Debug, Clone, PartialEq, Eq)]
pub struct UsageUpdateEvent {
    pub usage: UsageData,
    /// When the next poll is due, in milliseconds since the Unix epoch.
    pub next_refresh_at: Option<i64>,
}

/// Told to listeners after a poll that failed.
#[derive(Debug, Clone, PartialEq, Eq)]
pub struct UsageErrorEvent {
    pub error: String,
}

} // verus!
