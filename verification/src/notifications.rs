//! Which notifications a usage reading calls for, and what is remembered so
//! that none is sent twice.
//!
//! Each metered quantity is judged on its own by up to three checks: usage
//! entered a new band, usage reached a configured threshold, the reset is
//! near. A threshold and a reset warning fire once each; a marker in the
//! state records that they did.

use vstd::prelude::*;
use vstd::string::*;
use crate::clock::{now_millis, parse_rfc3339_millis, rfc3339_millis, MAX_CLOCK_MILLIS};
use crate::text::{
    contains_text, copy_texts, decimal, retain_without_prefix, str_eq, texts, u32_to_decimal,
    without_prefix,
};
use crate::types::{
    NotificationRule, NotificationSettings, NotificationState, UsageData, UsagePeriod,
    Utilization, UNITS_PER_PERCENT,
};

verus! {

/// Name of the five-hour quantity in markers.
pub const FIVE_HOUR: &'static str = "five_hour";

/// Name of the seven-day quantity in markers.
pub const SEVEN_DAY: &'static str = "seven_day";

/// Name of the seven-day Sonnet quantity in markers.
pub const SEVEN_DAY_SONNET: &'static str = "seven_day_sonnet";

/// Name of the seven-day Opus quantity in markers.
pub const SEVEN_DAY_OPUS: &'static str = "seven_day_opus";

/// A drop of more than this many percent between two readings is taken for a
/// reset of the quantity. A rule of thumb, not a fact of the service.
pub const RESET_DROP_PERCENT: u32 = 20;

/// Whether `usage_type` names one of the four metered quantities.
pub open spec fn is_quantity(usage_type: Seq<char>) -> bool {
    usage_type == FIVE_HOUR@ || usage_type == SEVEN_DAY@ || usage_type == SEVEN_DAY_SONNET@
        || usage_type == SEVEN_DAY_OPUS@
}

/// How a quantity is called in a notification's title.
pub open spec fn label(usage_type: Seq<char>) -> Seq<char> {
    if usage_type == FIVE_HOUR@ {
        "5 Hour"@
    } else if usage_type == SEVEN_DAY@ {
        "7 Day"@
    } else if usage_type == SEVEN_DAY_SONNET@ {
        "Sonnet (7 Day)"@
    } else if usage_type == SEVEN_DAY_OPUS@ {
        "Opus (7 Day)"@
    } else {
        "Unknown"@
    }
}

/// How a quantity is called in a notification's title; `"Unknown"` for a
/// name that is none of the four.
pub fn get_label(usage_type: &str) -> (text: &'static str)
    ensures
        text@ == label(usage_type@),
{
    if str_eq(usage_type, FIVE_HOUR) {
        "5 Hour"
    } else if str_eq(usage_type, SEVEN_DAY) {
        "7 Day"
    } else if str_eq(usage_type, SEVEN_DAY_SONNET) {
        "Sonnet (7 Day)"
    } else if str_eq(usage_type, SEVEN_DAY_OPUS) {
        "Opus (7 Day)"
    } else {
        "Unknown"
    }
}

/// The lower edge of the band of width `interval_percent` that `utilization`
/// lies in, in percent.
pub open spec fn interval_level(utilization: Utilization, interval_percent: u32) -> nat
    recommends
        interval_percent > 0,
{
    (utilization.thousandths as nat / (interval_percent as nat * UNITS_PER_PERCENT as nat))
        * interval_percent as nat
}

/// The band that usage has newly entered, if any: the level of `current`
/// where it lies above the level of `last` and above zero.
pub open spec fn interval_crossed(
    current: Utilization,
    last: Utilization,
    interval_percent: u32,
) -> Option<u32> {
    if interval_percent == 0 {
        None
    } else {
        let current_level = interval_level(current, interval_percent);
        let last_level = interval_level(last, interval_percent);
        if current_level > last_level && current_level > 0 {
            Some(current_level as u32)
        } else {
            None
        }
    }
}

/// A band's lower edge is no more than the whole percent of the reading, so
/// it can be written as `u32`.
pub proof fn lemma_interval_level_bound(utilization: Utilization, interval_percent: u32)
    requires
        interval_percent > 0,
    ensures
        interval_level(utilization, interval_percent) <= utilization.thousandths
            / UNITS_PER_PERCENT,
        interval_level(utilization, interval_percent) <= u32::MAX,
{
    let u = utilization.thousandths as nat;
    let p = interval_percent as nat;
    let q = u / (p * 1000);
    assert(q * p <= u / 1000) by (nonlinear_arith)
        requires
            p > 0,
            q == u / (p * 1000),
    ;
}

/// The interval check: the band that usage has newly entered since
/// `last_notified`, or `None`. With several bands crossed at once only the
/// one reached is reported.
pub fn check_interval_notification(
    current_utilization: Utilization,
    last_notified: Utilization,
    interval_percent: u32,
) -> (level: Option<u32>)
    ensures
        level == interval_crossed(current_utilization, last_notified, interval_percent),
{
    if interval_percent == 0 {
        return None;
    }
    proof {
        lemma_interval_level_bound(current_utilization, interval_percent);
        lemma_interval_level_bound(last_notified, interval_percent);
    }
    let width: u64 = interval_percent as u64 * UNITS_PER_PERCENT as u64;
    let current_level: u64 = (current_utilization.thousandths as u64 / width)
        * interval_percent as u64;
    let last_level: u64 = (last_notified.thousandths as u64 / width) * interval_percent as u64;
    if current_level > last_level && current_level > 0 {
        Some(current_level as u32)
    } else {
        None
    }
}

/// The marker of a threshold that has fired: `"<quantity>:<percent>"`.
pub open spec fn threshold_marker(usage_type: Seq<char>, threshold: u32) -> Seq<char> {
    usage_type + ":"@ + decimal(threshold as nat)
}

/// Writes the marker of a threshold.
pub fn threshold_key(usage_type: &str, threshold: u32) -> (key: String)
    ensures
        key@ == threshold_marker(usage_type@, threshold),
{
    let mut key = String::from_str(usage_type);
    key.append(":");
    let digits = u32_to_decimal(threshold);
    key.append(digits.as_str());
    key
}

/// Whether `threshold` is to be notified: usage has reached it, had not
/// reached it at the last reading, and its marker is not among `fired`.
pub open spec fn threshold_due(
    current: Utilization,
    last: Utilization,
    threshold: u32,
    fired: Seq<Seq<char>>,
    usage_type: Seq<char>,
) -> bool {
    &&& current.thousandths >= threshold * UNITS_PER_PERCENT
    &&& last.thousandths < threshold * UNITS_PER_PERCENT
    &&& !fired.contains(threshold_marker(usage_type, threshold))
}

fn threshold_is_due(
    current: Utilization,
    last: Utilization,
    threshold: u32,
    fired: &[String],
    usage_type: &str,
) -> (due: bool)
    ensures
        due == threshold_due(current, last, threshold, texts(fired@), usage_type@),
{
    let edge: u64 = threshold as u64 * UNITS_PER_PERCENT as u64;
    if current.thousandths as u64 >= edge && (last.thousandths as u64) < edge {
        let key = threshold_key(usage_type, threshold);
        !contains_text(fired, key.as_str())
    } else {
        false
    }
}

/// The threshold to notify: the smallest of `thresholds` that is due, or
/// `None` where none is.
pub open spec fn threshold_to_fire(
    current: Utilization,
    last: Utilization,
    thresholds: Seq<u32>,
    fired: Seq<Seq<char>>,
    usage_type: Seq<char>,
) -> Option<u32>
    decreases thresholds.len(),
{
    if thresholds.len() == 0 {
        None
    } else {
        let among_earlier = threshold_to_fire(
            current,
            last,
            thresholds.drop_last(),
            fired,
            usage_type,
        );
        let threshold = thresholds.last();
        if threshold_due(current, last, threshold, fired, usage_type) && (among_earlier is None
            || threshold < among_earlier->0) {
            Some(threshold)
        } else {
            among_earlier
        }
    }
}

/// What [`threshold_to_fire`] picks is one of the thresholds, is due, and no
/// due threshold is smaller; it picks none only where none is due.
pub proof fn lemma_threshold_to_fire_is_least_due(
    current: Utilization,
    last: Utilization,
    thresholds: Seq<u32>,
    fired: Seq<Seq<char>>,
    usage_type: Seq<char>,
)
    ensures
        match threshold_to_fire(current, last, thresholds, fired, usage_type) {
            Some(picked) => {
                &&& thresholds.contains(picked)
                &&& threshold_due(current, last, picked, fired, usage_type)
                &&& forall|i: int|
                    0 <= i < thresholds.len() && threshold_due(
                        current,
                        last,
                        #[trigger] thresholds[i],
                        fired,
                        usage_type,
                    ) ==> picked <= thresholds[i]
            },
            None => forall|i: int|
                0 <= i < thresholds.len() ==> !threshold_due(
                    current,
                    last,
                    #[trigger] thresholds[i],
                    fired,
                    usage_type,
                ),
        },
    decreases thresholds.len(),
{
    if thresholds.len() > 0 {
        let earlier = thresholds.drop_last();
        lemma_threshold_to_fire_is_least_due(current, last, earlier, fired, usage_type);
        let among_earlier = threshold_to_fire(current, last, earlier, fired, usage_type);
        assert forall|i: int| 0 <= i < earlier.len() implies earlier[i] == thresholds[i] by {}
        if among_earlier is Some {
            let picked = among_earlier->0;
            let at = choose|i: int| 0 <= i < earlier.len() && earlier[i] == picked;
            assert(thresholds[at] == picked);
        }
        assert(thresholds[thresholds.len() - 1] == thresholds.last());
    }
}

/// The threshold check: the smallest configured threshold that usage has
/// reached since `last_notified` and whose marker is not in
/// `fired_thresholds`. One threshold at most, also where several were
/// passed at once.
pub fn check_threshold_notification(
    current_utilization: Utilization,
    last_notified: Utilization,
    thresholds: &[u32],
    fired_thresholds: &[String],
    usage_type: &str,
) -> (threshold: Option<u32>)
    ensures
        threshold == threshold_to_fire(
            current_utilization,
            last_notified,
            thresholds@,
            texts(fired_thresholds@),
            usage_type@,
        ),
{
    let mut picked: Option<u32> = None;
    let mut i: usize = 0;
    assert(thresholds@.take(0) =~= Seq::<u32>::empty());
    while i < thresholds.len()
        invariant
            i <= thresholds@.len(),
            picked == threshold_to_fire(
                current_utilization,
                last_notified,
                thresholds@.take(i as int),
                texts(fired_thresholds@),
                usage_type@,
            ),
        decreases thresholds@.len() - i,
    {
        let threshold = thresholds[i];
        proof {
            assert(thresholds@.take(i + 1).drop_last() =~= thresholds@.take(i as int));
            assert(thresholds@.take(i + 1).last() == threshold);
        }
        let smaller = match picked {
            None => true,
            Some(so_far) => threshold < so_far,
        };
        if smaller && threshold_is_due(
            current_utilization,
            last_notified,
            threshold,
            fired_thresholds,
            usage_type,
        ) {
            picked = Some(threshold);
        }
        i += 1;
    }
    assert(thresholds@.take(thresholds@.len() as int) =~= thresholds@);
    picked
}

/// The marker of a reset warning that has fired:
/// `"<quantity>:time:<minutes>"`.
pub open spec fn time_marker(usage_type: Seq<char>, minutes: u32) -> Seq<char> {
    usage_type + ":time:"@ + decimal(minutes as nat)
}

/// Writes the marker of a reset warning.
pub fn time_key(usage_type: &str, minutes: u32) -> (key: String)
    ensures
        key@ == time_marker(usage_type@, minutes),
{
    let mut key = String::from_str(usage_type);
    key.append(":time:");
    let digits = u32_to_decimal(minutes);
    key.append(digits.as_str());
    key
}

/// Whole minutes from `now_ms` to `reset_ms`, or `None` where less than a
/// whole second is left or the reset is past.
pub open spec fn minutes_until(reset_ms: i64, now_ms: i64) -> Option<int> {
    if reset_ms - now_ms < 1000 {
        None
    } else {
        Some((reset_ms - now_ms) / 60_000)
    }
}

/// Whether the warning `minutes` before the reset is to be notified: no more
/// than that is left, and its marker is not among `fired`.
pub open spec fn time_due(
    minutes_left: int,
    minutes: u32,
    fired: Seq<Seq<char>>,
    usage_type: Seq<char>,
) -> bool {
    &&& minutes_left <= minutes
    &&& !fired.contains(time_marker(usage_type, minutes))
}

fn time_is_due(minutes_left: i128, minutes: u32, fired: &[String], usage_type: &str) -> (due:
    bool)
    ensures
        due == time_due(minutes_left as int, minutes, texts(fired@), usage_type@),
{
    if minutes_left <= minutes as i128 {
        let key = time_key(usage_type, minutes);
        !contains_text(fired, key.as_str())
    } else {
        false
    }
}

/// The reset warning to notify with `minutes_left` to go: the largest of
/// `thresholds` that is due, or `None` where none is.
pub open spec fn time_threshold_to_fire(
    minutes_left: int,
    thresholds: Seq<u32>,
    fired: Seq<Seq<char>>,
    usage_type: Seq<char>,
) -> Option<u32>
    decreases thresholds.len(),
{
    if thresholds.len() == 0 {
        None
    } else {
        let among_earlier = time_threshold_to_fire(
            minutes_left,
            thresholds.drop_last(),
            fired,
            usage_type,
        );
        let minutes = thresholds.last();
        if time_due(minutes_left, minutes, fired, usage_type) && (among_earlier is None
            || minutes > among_earlier->0) {
            Some(minutes)
        } else {
            among_earlier
        }
    }
}

/// What [`time_threshold_to_fire`] picks is one of the thresholds, is due,
/// and no due threshold is larger; it picks none only where none is due.
pub proof fn lemma_time_threshold_to_fire_is_greatest_due(
    minutes_left: int,
    thresholds: Seq<u32>,
    fired: Seq<Seq<char>>,
    usage_type: Seq<char>,
)
    ensures
        match time_threshold_to_fire(minutes_left, thresholds, fired, usage_type) {
            Some(picked) => {
                &&& thresholds.contains(picked)
                &&& time_due(minutes_left, picked, fired, usage_type)
                &&& forall|i: int|
                    0 <= i < thresholds.len() && time_due(
                        minutes_left,
                        #[trigger] thresholds[i],
                        fired,
                        usage_type,
                    ) ==> picked >= thresholds[i]
            },
            None => forall|i: int|
                0 <= i < thresholds.len() ==> !time_due(
                    minutes_left,
                    #[trigger] thresholds[i],
                    fired,
                    usage_type,
                ),
        },
    decreases thresholds.len(),
{
    if thresholds.len() > 0 {
        let earlier = thresholds.drop_last();
        lemma_time_threshold_to_fire_is_greatest_due(minutes_left, earlier, fired, usage_type);
        let among_earlier = time_threshold_to_fire(minutes_left, earlier, fired, usage_type);
        assert forall|i: int| 0 <= i < earlier.len() implies earlier[i] == thresholds[i] by {}
        if among_earlier is Some {
            let picked = among_earlier->0;
            let at = choose|i: int| 0 <= i < earlier.len() && earlier[i] == picked;
            assert(thresholds[at] == picked);
        }
        assert(thresholds[thresholds.len() - 1] == thresholds.last());
    }
}

/// The reset warning to notify at `now_ms` for a quantity that resets at
/// `reset_ms`: none without a reset instant or once it is past, else the
/// largest threshold that is due.
pub open spec fn time_remaining_to_fire(
    reset_ms: Option<i64>,
    now_ms: i64,
    thresholds: Seq<u32>,
    fired: Seq<Seq<char>>,
    usage_type: Seq<char>,
) -> Option<u32> {
    match reset_ms {
        Some(reset) => match minutes_until(reset, now_ms) {
            Some(minutes_left) => time_threshold_to_fire(
                minutes_left,
                thresholds,
                fired,
                usage_type,
            ),
            None => None,
        },
        None => None,
    }
}

/// The time-remaining check at a given instant: the largest configured
/// number of minutes that the time to the reset has come down to and whose
/// marker is not in `fired_time_remaining`.
///
/// Both instants are milliseconds since the Unix epoch.
pub fn check_time_remaining_notification_at(
    reset_ms: Option<i64>,
    now_ms: i64,
    time_thresholds_minutes: &[u32],
    fired_time_remaining: &[String],
    usage_type: &str,
) -> (minutes: Option<u32>)
    ensures
        minutes == time_remaining_to_fire(
            reset_ms,
            now_ms,
            time_thresholds_minutes@,
            texts(fired_time_remaining@),
            usage_type@,
        ),
{
    let reset = match reset_ms {
        Some(reset) => reset,
        None => {
            return None;
        },
    };
    let left_ms: i128 = reset as i128 - now_ms as i128;
    if left_ms < 1000 {
        return None;
    }
    let minutes_left: i128 = left_ms / 60_000;
    let mut picked: Option<u32> = None;
    let mut i: usize = 0;
    assert(time_thresholds_minutes@.take(0) =~= Seq::<u32>::empty());
    while i < time_thresholds_minutes.len()
        invariant
            i <= time_thresholds_minutes@.len(),
            picked == time_threshold_to_fire(
                minutes_left as int,
                time_thresholds_minutes@.take(i as int),
                texts(fired_time_remaining@),
                usage_type@,
            ),
        decreases time_thresholds_minutes@.len() - i,
    {
        let minutes = time_thresholds_minutes[i];
        proof {
            assert(time_thresholds_minutes@.take(i + 1).drop_last()
                =~= time_thresholds_minutes@.take(i as int));
            assert(time_thresholds_minutes@.take(i + 1).last() == minutes);
        }
        let larger = match picked {
            None => true,
            Some(so_far) => minutes > so_far,
        };
        if larger && time_is_due(minutes_left, minutes, fired_time_remaining, usage_type) {
            picked = Some(minutes);
        }
        i += 1;
    }
    assert(time_thresholds_minutes@.take(time_thresholds_minutes@.len() as int)
        =~= time_thresholds_minutes@);
    picked
}

/// The reset instant that a reading names, if it names one that can be read.
pub open spec fn reset_instant(resets_at: Option<&String>) -> Option<i64> {
    match resets_at {
        Some(text) => rfc3339_millis(text@),
        None => None,
    }
}

/// Reads the reset instant of a reading.
pub fn parse_reset_instant(resets_at: Option<&String>) -> (reset_ms: Option<i64>)
    ensures
        reset_ms == reset_instant(resets_at),
{
    match resets_at {
        Some(text) => parse_rfc3339_millis(text.as_str()),
        None => None,
    }
}

/// The time-remaining check at the present moment.
///
/// Reads the clock, so the result is that of
/// [`check_time_remaining_notification_at`] for some instant.
pub fn check_time_remaining_notification(
    resets_at: Option<&String>,
    time_thresholds_minutes: &[u32],
    fired_time_remaining: &[String],
    usage_type: &str,
) -> (minutes: Option<u32>)
    ensures
        exists|now_ms: i64|
            0 <= now_ms <= MAX_CLOCK_MILLIS && minutes == #[trigger] time_remaining_to_fire(
                reset_instant(resets_at),
                now_ms,
                time_thresholds_minutes@,
                texts(fired_time_remaining@),
                usage_type@,
            ),
        reset_instant(resets_at) is None ==> minutes is None,
{
    let reset_ms = parse_reset_instant(resets_at);
    let now_ms = now_millis();
    check_time_remaining_notification_at(
        reset_ms,
        now_ms,
        time_thresholds_minutes,
        fired_time_remaining,
        usage_type,
    )
}

/// A span of minutes in words: `"45m"`, `"2h"`, `"1h 30m"`.
pub open spec fn time_remaining_text(minutes: u32) -> Seq<char> {
    if minutes >= 60 {
        if minutes % 60 > 0 {
            decimal((minutes / 60) as nat) + "h "@ + decimal((minutes % 60) as nat) + "m"@
        } else {
            decimal((minutes / 60) as nat) + "h"@
        }
    } else {
        decimal(minutes as nat) + "m"@
    }
}

/// Writes a span of minutes in words: hours and minutes from an hour on,
/// the minutes left out where they are zero.
pub fn format_time_remaining(minutes: u32) -> (text: String)
    ensures
        text@ == time_remaining_text(minutes),
{
    if minutes >= 60 {
        let hours = minutes / 60;
        let mins = minutes % 60;
        let mut text = u32_to_decimal(hours);
        if mins > 0 {
            text.append("h ");
            let rest = u32_to_decimal(mins);
            text.append(rest.as_str());
            text.append("m");
        } else {
            text.append("h");
        }
        text
    } else {
        let mut text = u32_to_decimal(minutes);
        text.append("m");
        text
    }
}

/// A notification state as plain values: the last reading of each quantity
/// and the markers, each as its characters.
pub struct NotificationStateView {
    pub five_hour_last: Utilization,
    pub seven_day_last: Utilization,
    pub seven_day_sonnet_last: Utilization,
    pub seven_day_opus_last: Utilization,
    pub fired_thresholds: Seq<Seq<char>>,
    pub fired_time_remaining: Seq<Seq<char>>,
}

impl View for NotificationState {
    type V = NotificationStateView;

    open spec fn view(&self) -> NotificationStateView {
        NotificationStateView {
            five_hour_last: self.five_hour_last,
            seven_day_last: self.seven_day_last,
            seven_day_sonnet_last: self.seven_day_sonnet_last,
            seven_day_opus_last: self.seven_day_opus_last,
            fired_thresholds: texts(self.fired_thresholds@),
            fired_time_remaining: texts(self.fired_time_remaining@),
        }
    }
}

impl NotificationStateView {
    /// The last reading of the quantity called `usage_type`; zero for a name
    /// that is none of the four.
    pub open spec fn last(self, usage_type: Seq<char>) -> Utilization {
        if usage_type == FIVE_HOUR@ {
            self.five_hour_last
        } else if usage_type == SEVEN_DAY@ {
            self.seven_day_last
        } else if usage_type == SEVEN_DAY_SONNET@ {
            self.seven_day_sonnet_last
        } else if usage_type == SEVEN_DAY_OPUS@ {
            self.seven_day_opus_last
        } else {
            Utilization { thousandths: 0 }
        }
    }

    /// This state with `value` as the last reading of the quantity called
    /// `usage_type`; unchanged for a name that is none of the four.
    pub open spec fn with_last(self, usage_type: Seq<char>, value: Utilization) -> Self {
        if usage_type == FIVE_HOUR@ {
            NotificationStateView { five_hour_last: value, ..self }
        } else if usage_type == SEVEN_DAY@ {
            NotificationStateView { seven_day_last: value, ..self }
        } else if usage_type == SEVEN_DAY_SONNET@ {
            NotificationStateView { seven_day_sonnet_last: value, ..self }
        } else if usage_type == SEVEN_DAY_OPUS@ {
            NotificationStateView { seven_day_opus_last: value, ..self }
        } else {
            self
        }
    }
}

/// The reading at which the quantity called `usage_type` was last judged;
/// zero for a name that is none of the four.
pub fn get_last_notified(state: &NotificationState, usage_type: &str) -> (last: Utilization)
    ensures
        last == state@.last(usage_type@),
{
    if str_eq(usage_type, FIVE_HOUR) {
        state.five_hour_last
    } else if str_eq(usage_type, SEVEN_DAY) {
        state.seven_day_last
    } else if str_eq(usage_type, SEVEN_DAY_SONNET) {
        state.seven_day_sonnet_last
    } else if str_eq(usage_type, SEVEN_DAY_OPUS) {
        state.seven_day_opus_last
    } else {
        Utilization::zero()
    }
}

/// Sets the reading at which the quantity called `usage_type` was last
/// judged; does nothing for a name that is none of the four.
pub fn set_last_notified(state: &mut NotificationState, usage_type: &str, value: Utilization)
    ensures
        final(state)@ == old(state)@.with_last(usage_type@, value),
{
    if str_eq(usage_type, FIVE_HOUR) {
        state.five_hour_last = value;
    } else if str_eq(usage_type, SEVEN_DAY) {
        state.seven_day_last = value;
    } else if str_eq(usage_type, SEVEN_DAY_SONNET) {
        state.seven_day_sonnet_last = value;
    } else if str_eq(usage_type, SEVEN_DAY_OPUS) {
        state.seven_day_opus_last = value;
    }
}

/// What the three checks found for one quantity in one cycle.
#[derive(Debug, Clone, Copy, PartialEq, Eq)]
pub struct FiredChecks {
    /// The band that usage entered.
    pub interval: Option<u32>,
    /// The threshold that usage reached.
    pub threshold: Option<u32>,
    /// The number of minutes that the time to the reset came down to.
    pub time_remaining: Option<u32>,
}

impl FiredChecks {
    /// Whether any check fired.
    pub open spec fn spec_any(&self) -> bool {
        self.interval is Some || self.threshold is Some || self.time_remaining is Some
    }

    /// Whether any check fired.
    #[verifier::when_used_as_spec(spec_any)]
    pub fn any(&self) -> (fired: bool)
        ensures
            fired == self.spec_any(),
    {
        self.interval.is_some() || self.threshold.is_some() || self.time_remaining.is_some()
    }
}

/// The reset instant that a quantity's reading names, if it names one that
/// can be read.
pub open spec fn period_reset_instant(period: UsagePeriod) -> Option<i64> {
    match period.resets_at {
        Some(text) => rfc3339_millis(text@),
        None => None,
    }
}

/// What the checks that `rule` switches on find for the reading `period` of
/// the quantity called `usage_type`, judged against `state` at `now_ms`.
pub open spec fn checks_fired(
    usage_type: Seq<char>,
    period: UsagePeriod,
    rule: NotificationRule,
    state: NotificationStateView,
    now_ms: i64,
) -> FiredChecks {
    FiredChecks {
        interval: if rule.interval_enabled {
            interval_crossed(period.utilization, state.last(usage_type), rule.interval_percent)
        } else {
            None
        },
        threshold: if rule.threshold_enabled {
            threshold_to_fire(
                period.utilization,
                state.last(usage_type),
                rule.thresholds@,
                state.fired_thresholds,
                usage_type,
            )
        } else {
            None
        },
        time_remaining: if rule.time_remaining_enabled {
            time_remaining_to_fire(
                period_reset_instant(period),
                now_ms,
                rule.time_remaining_minutes@,
                state.fired_time_remaining,
                usage_type,
            )
        } else {
            None
        },
    }
}

/// Runs the checks that `rule` switches on for one quantity.
pub fn evaluate_rule(
    usage_type: &str,
    period: &UsagePeriod,
    rule: &NotificationRule,
    state: &NotificationState,
    now_ms: i64,
) -> (fired: FiredChecks)
    ensures
        fired == checks_fired(usage_type@, *period, *rule, state@, now_ms),
{
    let current = period.utilization;
    let last = get_last_notified(state, usage_type);
    let interval = if rule.interval_enabled {
        check_interval_notification(current, last, rule.interval_percent)
    } else {
        None
    };
    let threshold = if rule.threshold_enabled {
        check_threshold_notification(
            current,
            last,
            rule.thresholds.as_slice(),
            state.fired_thresholds.as_slice(),
            usage_type,
        )
    } else {
        None
    };
    let time_remaining = if rule.time_remaining_enabled {
        let reset_ms = parse_reset_instant(period.resets_at.as_ref());
        check_time_remaining_notification_at(
            reset_ms,
            now_ms,
            rule.time_remaining_minutes.as_slice(),
            state.fired_time_remaining.as_slice(),
            usage_type,
        )
    } else {
        None
    };
    FiredChecks { interval, threshold, time_remaining }
}

/// What the user is told.
#[derive(Debug, Clone, PartialEq, Eq)]
pub struct Notification {
    pub title: String,
    pub body: String,
}

/// A notification as plain values.
pub struct NotificationView {
    pub title: Seq<char>,
    pub body: Seq<char>,
}

impl View for Notification {
    type V = NotificationView;

    open spec fn view(&self) -> NotificationView {
        NotificationView { title: self.title@, body: self.body@ }
    }
}

/// What a list of notifications holds.
pub open spec fn notification_views(list: Seq<Notification>) -> Seq<NotificationView> {
    Seq::new(list.len(), |i: int| list[i]@)
}

/// `reasons` with one more reason, set off by `" and "` from what is there.
pub open spec fn with_reason(reasons: Seq<char>, reason: Seq<char>) -> Seq<char> {
    if reasons.len() == 0 {
        reason
    } else {
        reasons + " and "@ + reason
    }
}

/// The words for a band that usage entered.
pub open spec fn interval_reason(level: u32) -> Seq<char> {
    "reached "@ + decimal(level as nat) + "%"@
}

/// The words for a threshold that usage reached.
pub open spec fn threshold_reason(threshold: u32) -> Seq<char> {
    "crossed "@ + decimal(threshold as nat) + "% threshold"@
}

/// The words for a reset that is near.
pub open spec fn time_reason(minutes: u32) -> Seq<char> {
    "resets in < "@ + time_remaining_text(minutes)
}

/// The reasons of all checks that fired, in the order band, threshold, reset,
/// joined by `" and "`.
pub open spec fn reasons_text(fired: FiredChecks) -> Seq<char> {
    let interval = match fired.interval {
        Some(level) => interval_reason(level),
        None => Seq::<char>::empty(),
    };
    let threshold = match fired.threshold {
        Some(threshold) => with_reason(interval, threshold_reason(threshold)),
        None => interval,
    };
    match fired.time_remaining {
        Some(minutes) => with_reason(threshold, time_reason(minutes)),
        None => threshold,
    }
}

/// The one notification for all that fired for a quantity in a cycle.
pub open spec fn alert(usage_type: Seq<char>, fired: FiredChecks, current: Utilization)
    -> NotificationView {
    NotificationView {
        title: label(usage_type) + " Usage Alert"@,
        body: "Usage "@ + reasons_text(fired) + " ("@ + decimal(current.rounded_percent() as nat)
            + "% used)"@,
    }
}

fn append_reason(reasons: &mut String, reason: &str)
    ensures
        final(reasons)@ == with_reason(old(reasons)@, reason@),
{
    if reasons.as_str().is_empty() {
        reasons.append(reason);
        assert(reasons@ =~= reason@);
    } else {
        reasons.append(" and ");
        reasons.append(reason);
    }
}

/// Words the one notification for all that fired for a quantity.
pub fn build_alert(usage_type: &str, fired: &FiredChecks, current: Utilization) -> (notification:
    Notification)
    ensures
        notification@ == alert(usage_type@, *fired, current),
{
    let mut reasons = String::new();
    if let Some(level) = fired.interval {
        let mut reason = String::from_str("reached ");
        reason.append(u32_to_decimal(level).as_str());
        reason.append("%");
        append_reason(&mut reasons, reason.as_str());
    }
    if let Some(threshold) = fired.threshold {
        let mut reason = String::from_str("crossed ");
        reason.append(u32_to_decimal(threshold).as_str());
        reason.append("% threshold");
        append_reason(&mut reasons, reason.as_str());
    }
    if let Some(minutes) = fired.time_remaining {
        let mut reason = String::from_str("resets in < ");
        reason.append(format_time_remaining(minutes).as_str());
        append_reason(&mut reasons, reason.as_str());
    }
    let mut title = String::from_str(get_label(usage_type));
    title.append(" Usage Alert");
    let mut body = String::from_str("Usage ");
    body.append(reasons.as_str());
    body.append(" (");
    body.append(u32_to_decimal(current.rounded_percent()).as_str());
    body.append("% used)");
    Notification { title, body }
}

/// The state after a quantity was judged: the markers of what fired are
/// added at the end, and the reading becomes the quantity's last.
pub open spec fn recorded(
    state: NotificationStateView,
    usage_type: Seq<char>,
    fired: FiredChecks,
    current: Utilization,
) -> NotificationStateView {
    NotificationStateView {
        fired_thresholds: match fired.threshold {
            Some(threshold) => state.fired_thresholds.push(
                threshold_marker(usage_type, threshold),
            ),
            None => state.fired_thresholds,
        },
        fired_time_remaining: match fired.time_remaining {
            Some(minutes) => state.fired_time_remaining.push(time_marker(usage_type, minutes)),
            None => state.fired_time_remaining,
        },
        ..state
    }.with_last(usage_type, current)
}

/// State and notifications after the quantity called `usage_type` was
/// judged, from what they were before. A quantity without a reading changes
/// nothing.
pub open spec fn quantity_processed(
    usage_type: Seq<char>,
    period: Option<UsagePeriod>,
    rule: NotificationRule,
    before: (NotificationStateView, Seq<NotificationView>),
    now_ms: i64,
) -> (NotificationStateView, Seq<NotificationView>) {
    match period {
        Some(period) => {
            let fired = checks_fired(usage_type, period, rule, before.0, now_ms);
            (
                recorded(before.0, usage_type, fired, period.utilization),
                if fired.any() {
                    before.1.push(alert(usage_type, fired, period.utilization))
                } else {
                    before.1
                },
            )
        },
        None => before,
    }
}

/// State and notifications after a whole reading was judged at `now_ms`:
/// the four quantities in turn, each against the state that the one before
/// left. With notifications switched off nothing changes.
pub open spec fn notifications_processed(
    usage: UsageData,
    settings: NotificationSettings,
    state: NotificationStateView,
    now_ms: i64,
) -> (NotificationStateView, Seq<NotificationView>) {
    if !settings.enabled {
        (state, Seq::<NotificationView>::empty())
    } else {
        let start = (state, Seq::<NotificationView>::empty());
        let first = quantity_processed(
            FIVE_HOUR@,
            usage.five_hour,
            settings.five_hour,
            start,
            now_ms,
        );
        let second = quantity_processed(
            SEVEN_DAY@,
            usage.seven_day,
            settings.seven_day,
            first,
            now_ms,
        );
        let third = quantity_processed(
            SEVEN_DAY_SONNET@,
            usage.seven_day_sonnet,
            settings.seven_day_sonnet,
            second,
            now_ms,
        );
        quantity_processed(
            SEVEN_DAY_OPUS@,
            usage.seven_day_opus,
            settings.seven_day_opus,
            third,
            now_ms,
        )
    }
}

fn process_quantity(
    usage_type: &str,
    period: &Option<UsagePeriod>,
    rule: &NotificationRule,
    state: &mut NotificationState,
    notifications: &mut Vec<Notification>,
    now_ms: i64,
)
    ensures
        (final(state)@, notification_views(final(notifications)@)) == quantity_processed(
            usage_type@,
            *period,
            *rule,
            (old(state)@, notification_views(old(notifications)@)),
            now_ms,
        ),
{
    let period = match period {
        Some(period) => period,
        None => {
            return ;
        },
    };
    let ghost before = state@;
    let ghost alerts_before = notification_views(notifications@);
    let current = period.utilization;
    let fired = evaluate_rule(usage_type, period, rule, state, now_ms);
    if let Some(threshold) = fired.threshold {
        let key = threshold_key(usage_type, threshold);
        state.fired_thresholds.push(key);
        assert(texts(state.fired_thresholds@) =~= before.fired_thresholds.push(
            threshold_marker(usage_type@, threshold),
        ));
    }
    if let Some(minutes) = fired.time_remaining {
        let key = time_key(usage_type, minutes);
        state.fired_time_remaining.push(key);
        assert(texts(state.fired_time_remaining@) =~= before.fired_time_remaining.push(
            time_marker(usage_type@, minutes),
        ));
    }
    if fired.any() {
        let notification = build_alert(usage_type, &fired, current);
        notifications.push(notification);
        assert(notification_views(notifications@) =~= alerts_before.push(
            alert(usage_type@, fired, current),
        ));
    }
    set_last_notified(state, usage_type, current);
}

/// A copy of `state`.
pub fn copy_state(state: &NotificationState) -> (copy: NotificationState)
    ensures
        copy@ == state@,
{
    NotificationState {
        five_hour_last: state.five_hour_last,
        seven_day_last: state.seven_day_last,
        seven_day_sonnet_last: state.seven_day_sonnet_last,
        seven_day_opus_last: state.seven_day_opus_last,
        fired_thresholds: copy_texts(state.fired_thresholds.as_slice()),
        fired_time_remaining: copy_texts(state.fired_time_remaining.as_slice()),
    }
}

/// What judging a reading came to: the state to keep and the notifications
/// to deliver, in the order of the quantities.
#[derive(Debug, Clone, PartialEq, Eq)]
pub struct NotificationOutcome {
    pub state: NotificationState,
    pub notifications: Vec<Notification>,
}

/// Judges a reading at the instant `now_ms` (milliseconds since the Unix
/// epoch): decides the notifications to deliver and the state to keep.
///
/// Each quantity that has a reading gets at most one notification, which
/// names all checks that fired for it. Its reading becomes its last,
/// whether or not anything fired.
#[verifier::rlimit(50)]
pub fn process_notifications_at(
    usage: &UsageData,
    settings: &NotificationSettings,
    state: &NotificationState,
    now_ms: i64,
) -> (outcome: NotificationOutcome)
    ensures
        (outcome.state@, notification_views(outcome.notifications@)) == notifications_processed(
            *usage,
            *settings,
            state@,
            now_ms,
        ),
{
    let mut new_state = copy_state(state);
    let mut notifications: Vec<Notification> = Vec::new();
    assert(notification_views(notifications@) =~= Seq::<NotificationView>::empty());
    if !settings.enabled {
        return NotificationOutcome { state: new_state, notifications };
    }
    process_quantity(
        FIVE_HOUR,
        &usage.five_hour,
        &settings.five_hour,
        &mut new_state,
        &mut notifications,
        now_ms,
    );
    process_quantity(
        SEVEN_DAY,
        &usage.seven_day,
        &settings.seven_day,
        &mut new_state,
        &mut notifications,
        now_ms,
    );
    process_quantity(
        SEVEN_DAY_SONNET,
        &usage.seven_day_sonnet,
        &settings.seven_day_sonnet,
        &mut new_state,
        &mut notifications,
        now_ms,
    );
    process_quantity(
        SEVEN_DAY_OPUS,
        &usage.seven_day_opus,
        &settings.seven_day_opus,
        &mut new_state,
        &mut notifications,
        now_ms,
    );
    NotificationOutcome { state: new_state, notifications }
}

/// Judges a reading at the present moment.
///
/// Reads the clock, so the outcome is that of [`process_notifications_at`]
/// for some instant. With every reset warning switched off the instant
/// plays no part.
pub fn process_notifications(
    usage: &UsageData,
    settings: &NotificationSettings,
    state: &NotificationState,
) -> (outcome: NotificationOutcome)
    ensures
        exists|now_ms: i64|
            0 <= now_ms <= MAX_CLOCK_MILLIS && (
                outcome.state@,
                notification_views(outcome.notifications@),
            ) == #[trigger] notifications_processed(*usage, *settings, state@, now_ms),
{
    let now_ms = now_millis();
    process_notifications_at(usage, settings, state, now_ms)
}

/// Whether a reading lies so far below the last one that the quantity must
/// have started over: by more than [`RESET_DROP_PERCENT`].
pub open spec fn is_reset(last: Utilization, current: Utilization) -> bool {
    last.thousandths - current.thousandths > RESET_DROP_PERCENT * UNITS_PER_PERCENT
}

/// What every threshold marker of a quantity begins with.
pub open spec fn threshold_prefix(usage_type: Seq<char>) -> Seq<char> {
    usage_type + ":"@
}

/// What every reset-warning marker of a quantity begins with.
pub open spec fn time_prefix(usage_type: Seq<char>) -> Seq<char> {
    usage_type + ":time:"@
}

/// The state after the quantity called `usage_type` was looked at for a
/// reset. After a reset its last reading is zero and its markers are gone;
/// all else stays.
pub open spec fn quantity_reset(
    usage_type: Seq<char>,
    period: Option<UsagePeriod>,
    state: NotificationStateView,
) -> NotificationStateView {
    match period {
        Some(period) => if is_reset(state.last(usage_type), period.utilization) {
            NotificationStateView {
                fired_thresholds: without_prefix(
                    state.fired_thresholds,
                    threshold_prefix(usage_type),
                ),
                fired_time_remaining: without_prefix(
                    state.fired_time_remaining,
                    time_prefix(usage_type),
                ),
                ..state
            }.with_last(usage_type, Utilization { thousandths: 0 })
        } else {
            state
        },
        None => state,
    }
}

/// The state after all four quantities were looked at for a reset.
pub open spec fn state_reset(usage: UsageData, state: NotificationStateView)
    -> NotificationStateView {
    let first = quantity_reset(FIVE_HOUR@, usage.five_hour, state);
    let second = quantity_reset(SEVEN_DAY@, usage.seven_day, first);
    let third = quantity_reset(SEVEN_DAY_SONNET@, usage.seven_day_sonnet, second);
    quantity_reset(SEVEN_DAY_OPUS@, usage.seven_day_opus, third)
}

fn reset_quantity(usage_type: &str, period: &Option<UsagePeriod>, state: &mut NotificationState)
    ensures
        final(state)@ == quantity_reset(usage_type@, *period, old(state)@),
{
    let period = match period {
        Some(period) => period,
        None => {
            return ;
        },
    };
    let last = get_last_notified(state, usage_type);
    let drop_limit: u64 = RESET_DROP_PERCENT as u64 * UNITS_PER_PERCENT as u64;
    if last.thousandths as u64 > period.utilization.thousandths as u64 + drop_limit {
        let mut prefix = String::from_str(usage_type);
        prefix.append(":");
        let kept = retain_without_prefix(state.fired_thresholds.as_slice(), prefix.as_str());
        state.fired_thresholds = kept;
        let mut prefix = String::from_str(usage_type);
        prefix.append(":time:");
        let kept = retain_without_prefix(state.fired_time_remaining.as_slice(), prefix.as_str());
        state.fired_time_remaining = kept;
        set_last_notified(state, usage_type, Utilization::zero());
    }
}

/// Re-arms the checks of each quantity that has started over.
///
/// A quantity whose reading lies more than [`RESET_DROP_PERCENT`] percent
/// below its last one is taken to have been reset: its last reading becomes
/// zero and its markers are dropped, so that its thresholds and reset
/// warnings can fire again. Runs before the reading is judged.
pub fn reset_notification_state_if_needed(usage: &UsageData, state: &NotificationState) -> (new_state:
    NotificationState)
    ensures
        new_state@ == state_reset(*usage, state@),
{
    let mut new_state = copy_state(state);
    reset_quantity(FIVE_HOUR, &usage.five_hour, &mut new_state);
    reset_quantity(SEVEN_DAY, &usage.seven_day, &mut new_state);
    reset_quantity(SEVEN_DAY_SONNET, &usage.seven_day_sonnet, &mut new_state);
    reset_quantity(SEVEN_DAY_OPUS, &usage.seven_day_opus, &mut new_state);
    new_state
}

} // verus!
