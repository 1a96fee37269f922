//! What holds of the notification decisions whatever the reading: a second
//! look at the same reading is quiet, markers stay until a reset, and a
//! reset touches one quantity only.

use vstd::prelude::*;
use crate::notifications::{
    checks_fired, is_quantity, is_reset, lemma_threshold_to_fire_is_least_due,
    lemma_time_threshold_to_fire_is_greatest_due, minutes_until, notifications_processed,
    period_reset_instant, quantity_processed, quantity_reset, recorded, threshold_marker,
    threshold_prefix, time_due, time_marker, time_prefix, time_threshold_to_fire, FiredChecks,
    NotificationStateView, NotificationView, FIVE_HOUR, SEVEN_DAY, SEVEN_DAY_OPUS,
    SEVEN_DAY_SONNET,
};
use crate::text::{decimal, without_prefix};
use crate::types::{NotificationRule, NotificationSettings, UsageData, UsagePeriod, Utilization};

verus! {

/// No two of the four quantities share a name.
pub proof fn lemma_quantity_names_differ()
    ensures
        FIVE_HOUR@ != SEVEN_DAY@,
        FIVE_HOUR@ != SEVEN_DAY_SONNET@,
        FIVE_HOUR@ != SEVEN_DAY_OPUS@,
        SEVEN_DAY@ != SEVEN_DAY_SONNET@,
        SEVEN_DAY@ != SEVEN_DAY_OPUS@,
        SEVEN_DAY_SONNET@ != SEVEN_DAY_OPUS@,
{
    reveal_strlit("five_hour");
    reveal_strlit("seven_day");
    reveal_strlit("seven_day_sonnet");
    reveal_strlit("seven_day_opus");
    assert(FIVE_HOUR@[0] == 'f');
    assert(SEVEN_DAY@[0] == 's');
    assert(SEVEN_DAY@.len() == 9);
    assert(SEVEN_DAY_SONNET@.len() == 16);
    assert(SEVEN_DAY_OPUS@.len() == 14);
}

/// Once a quantity was judged, its reading is its last one, whether or not
/// anything fired, and the last readings of the other quantities are as
/// they were.
pub proof fn lemma_reading_becomes_last(
    state: NotificationStateView,
    usage_type: Seq<char>,
    fired: FiredChecks,
    current: Utilization,
    other: Seq<char>,
)
    requires
        is_quantity(usage_type),
        other != usage_type,
    ensures
        recorded(state, usage_type, fired, current).last(usage_type) == current,
        recorded(state, usage_type, fired, current).last(other) == state.last(other),
{
    lemma_quantity_names_differ();
}

/// Judging a quantity takes no marker away: what was there stays in front,
/// and at most one marker of each kind is added behind.
pub proof fn lemma_judging_keeps_markers(
    state: NotificationStateView,
    usage_type: Seq<char>,
    fired: FiredChecks,
    current: Utilization,
)
    ensures
        state.fired_thresholds.is_prefix_of(
            recorded(state, usage_type, fired, current).fired_thresholds,
        ),
        state.fired_time_remaining.is_prefix_of(
            recorded(state, usage_type, fired, current).fired_time_remaining,
        ),
        recorded(state, usage_type, fired, current).fired_thresholds.len()
            <= state.fired_thresholds.len() + 1,
        recorded(state, usage_type, fired, current).fired_time_remaining.len()
            <= state.fired_time_remaining.len() + 1,
{
    let after = recorded(state, usage_type, fired, current);
    assert(after.fired_thresholds.subrange(0, state.fired_thresholds.len() as int)
        =~= state.fired_thresholds);
    assert(after.fired_time_remaining.subrange(0, state.fired_time_remaining.len() as int)
        =~= state.fired_time_remaining);
}

/// A marker is added once at most: where no marker stood twice before a
/// quantity was judged, none does after.
pub proof fn lemma_judging_adds_no_marker_twice(
    usage_type: Seq<char>,
    period: UsagePeriod,
    rule: NotificationRule,
    state: NotificationStateView,
    now_ms: i64,
)
    requires
        state.fired_thresholds.no_duplicates(),
        state.fired_time_remaining.no_duplicates(),
    ensures
        ({
            let fired = checks_fired(usage_type, period, rule, state, now_ms);
            let after = recorded(state, usage_type, fired, period.utilization);
            after.fired_thresholds.no_duplicates() && after.fired_time_remaining.no_duplicates()
        }),
{
    let fired = checks_fired(usage_type, period, rule, state, now_ms);
    let last = state.last(usage_type);
    if rule.threshold_enabled {
        lemma_threshold_to_fire_is_least_due(
            period.utilization,
            last,
            rule.thresholds@,
            state.fired_thresholds,
            usage_type,
        );
    }
    if rule.time_remaining_enabled {
        if period_reset_instant(period) is Some {
            let reset = period_reset_instant(period)->0;
            if minutes_until(reset, now_ms) is Some {
                let minutes_left = minutes_until(reset, now_ms)->0;
                lemma_time_threshold_to_fire_is_greatest_due(
                    minutes_left,
                    rule.time_remaining_minutes@,
                    state.fired_time_remaining,
                    usage_type,
                );
            }
        }
    }
}

/// Judging the same reading a second time, against the state that the first
/// time left, finds no band and no threshold. It finds a reset warning only
/// where the first time found one, and then a smaller one.
pub proof fn lemma_second_look_is_quiet(
    usage_type: Seq<char>,
    period: UsagePeriod,
    rule: NotificationRule,
    state: NotificationStateView,
    now_ms: i64,
)
    requires
        is_quantity(usage_type),
    ensures
        ({
            let fired = checks_fired(usage_type, period, rule, state, now_ms);
            let after = recorded(state, usage_type, fired, period.utilization);
            let again = checks_fired(usage_type, period, rule, after, now_ms);
            &&& again.interval is None
            &&& again.threshold is None
            &&& again.time_remaining is Some ==> fired.time_remaining is Some
                && again.time_remaining->0 < fired.time_remaining->0
        }),
{
    let current = period.utilization;
    let fired = checks_fired(usage_type, period, rule, state, now_ms);
    let after = recorded(state, usage_type, fired, current);
    lemma_quantity_names_differ();
    assert(after.last(usage_type) == current);
    if rule.threshold_enabled {
        lemma_threshold_to_fire_is_least_due(
            current,
            current,
            rule.thresholds@,
            after.fired_thresholds,
            usage_type,
        );
    }
    if rule.time_remaining_enabled {
        if period_reset_instant(period) is Some {
            let reset = period_reset_instant(period)->0;
            if minutes_until(reset, now_ms) is Some {
                let minutes_left = minutes_until(reset, now_ms)->0;
                let thresholds = rule.time_remaining_minutes@;
                lemma_time_threshold_to_fire_is_greatest_due(
                    minutes_left,
                    thresholds,
                    state.fired_time_remaining,
                    usage_type,
                );
                lemma_time_threshold_to_fire_is_greatest_due(
                    minutes_left,
                    thresholds,
                    after.fired_time_remaining,
                    usage_type,
                );
                let again = time_threshold_to_fire(
                    minutes_left,
                    thresholds,
                    after.fired_time_remaining,
                    usage_type,
                );
                if again is Some {
                    let second = again->0;
                    let at = choose|i: int| 0 <= i < thresholds.len() && thresholds[i] == second;
                    let marker = time_marker(usage_type, second);
                    if state.fired_time_remaining.contains(marker) {
                        let k = choose|k: int|
                            0 <= k < state.fired_time_remaining.len()
                                && state.fired_time_remaining[k] == marker;
                        assert(after.fired_time_remaining[k] == marker);
                    }
                    assert(time_due(
                        minutes_left,
                        thresholds[at],
                        state.fired_time_remaining,
                        usage_type,
                    ));
                    let first = fired.time_remaining->0;
                    assert(after.fired_time_remaining.last() == time_marker(usage_type, first));
                    assert(after.fired_time_remaining.contains(time_marker(usage_type, first)));
                }
            }
        }
    }
}

/// Judging a quantity whose reading is already its last one changes
/// nothing and notifies nothing, its reset warnings being switched off.
pub proof fn lemma_settled_quantity_is_quiet(
    usage_type: Seq<char>,
    period: UsagePeriod,
    rule: NotificationRule,
    before: (NotificationStateView, Seq<NotificationView>),
    now_ms: i64,
)
    requires
        is_quantity(usage_type),
        before.0.last(usage_type) == period.utilization,
        !rule.time_remaining_enabled,
    ensures
        quantity_processed(usage_type, Some(period), rule, before, now_ms) == before,
{
    let current = period.utilization;
    if rule.threshold_enabled {
        lemma_threshold_to_fire_is_least_due(
            current,
            current,
            rule.thresholds@,
            before.0.fired_thresholds,
            usage_type,
        );
    }
    let fired = checks_fired(usage_type, period, rule, before.0, now_ms);
    assert(!fired.any());
    let after = recorded(before.0, usage_type, fired, current);
    assert(after == before.0);
}

/// What one quantity's step does to the last readings and the markers.
proof fn lemma_step(
    usage_type: Seq<char>,
    period: Option<UsagePeriod>,
    rule: NotificationRule,
    before: (NotificationStateView, Seq<NotificationView>),
    now_ms: i64,
    other: Seq<char>,
)
    requires
        is_quantity(usage_type),
        other != usage_type,
    ensures
        ({
            let after = quantity_processed(usage_type, period, rule, before, now_ms);
            &&& after.0.last(other) == before.0.last(other)
            &&& period is Some ==> after.0.last(usage_type) == period->0.utilization
            &&& before.0.fired_thresholds.is_prefix_of(after.0.fired_thresholds)
            &&& before.0.fired_time_remaining.is_prefix_of(after.0.fired_time_remaining)
            &&& before.0.fired_thresholds.no_duplicates()
                ==> after.0.fired_thresholds.no_duplicates()
            &&& before.0.fired_time_remaining.no_duplicates()
                ==> after.0.fired_time_remaining.no_duplicates()
        }),
{
    lemma_quantity_names_differ();
    if period is Some {
        let p = period->0;
        let fired = checks_fired(usage_type, p, rule, before.0, now_ms);
        lemma_reading_becomes_last(before.0, usage_type, fired, p.utilization, other);
        lemma_judging_keeps_markers(before.0, usage_type, fired, p.utilization);
        let last = before.0.last(usage_type);
        if rule.threshold_enabled {
            lemma_threshold_to_fire_is_least_due(
                p.utilization,
                last,
                rule.thresholds@,
                before.0.fired_thresholds,
                usage_type,
            );
        }
        if rule.time_remaining_enabled {
            if period_reset_instant(p) is Some {
                let reset = period_reset_instant(p)->0;
                if minutes_until(reset, now_ms) is Some {
                    lemma_time_threshold_to_fire_is_greatest_due(
                        minutes_until(reset, now_ms)->0,
                        rule.time_remaining_minutes@,
                        before.0.fired_time_remaining,
                        usage_type,
                    );
                }
            }
        }
    }
}

/// Judging a reading takes no marker away: the markers that were there
/// stay in front, in their order.
pub proof fn lemma_processing_keeps_markers(
    usage: UsageData,
    settings: NotificationSettings,
    state: NotificationStateView,
    now_ms: i64,
)
    ensures
        state.fired_thresholds.is_prefix_of(
            notifications_processed(usage, settings, state, now_ms).0.fired_thresholds,
        ),
        state.fired_time_remaining.is_prefix_of(
            notifications_processed(usage, settings, state, now_ms).0.fired_time_remaining,
        ),
{
    lemma_quantity_names_differ();
    let start = (state, Seq::<NotificationView>::empty());
    let first = quantity_processed(FIVE_HOUR@, usage.five_hour, settings.five_hour, start, now_ms);
    let second = quantity_processed(SEVEN_DAY@, usage.seven_day, settings.seven_day, first, now_ms);
    let third = quantity_processed(
        SEVEN_DAY_SONNET@,
        usage.seven_day_sonnet,
        settings.seven_day_sonnet,
        second,
        now_ms,
    );
    lemma_step(FIVE_HOUR@, usage.five_hour, settings.five_hour, start, now_ms, SEVEN_DAY@);
    lemma_step(SEVEN_DAY@, usage.seven_day, settings.seven_day, first, now_ms, FIVE_HOUR@);
    lemma_step(
        SEVEN_DAY_SONNET@,
        usage.seven_day_sonnet,
        settings.seven_day_sonnet,
        second,
        now_ms,
        FIVE_HOUR@,
    );
    lemma_step(
        SEVEN_DAY_OPUS@,
        usage.seven_day_opus,
        settings.seven_day_opus,
        third,
        now_ms,
        FIVE_HOUR@,
    );
}

/// Judging a reading adds each marker once at most: where no marker stood
/// twice before, none does after.
pub proof fn lemma_processing_adds_no_marker_twice(
    usage: UsageData,
    settings: NotificationSettings,
    state: NotificationStateView,
    now_ms: i64,
)
    requires
        state.fired_thresholds.no_duplicates(),
        state.fired_time_remaining.no_duplicates(),
    ensures
        notifications_processed(usage, settings, state, now_ms).0.fired_thresholds.no_duplicates(),
        notifications_processed(
            usage,
            settings,
            state,
            now_ms,
        ).0.fired_time_remaining.no_duplicates(),
{
    lemma_quantity_names_differ();
    let start = (state, Seq::<NotificationView>::empty());
    let first = quantity_processed(FIVE_HOUR@, usage.five_hour, settings.five_hour, start, now_ms);
    let second = quantity_processed(SEVEN_DAY@, usage.seven_day, settings.seven_day, first, now_ms);
    let third = quantity_processed(
        SEVEN_DAY_SONNET@,
        usage.seven_day_sonnet,
        settings.seven_day_sonnet,
        second,
        now_ms,
    );
    lemma_step(FIVE_HOUR@, usage.five_hour, settings.five_hour, start, now_ms, SEVEN_DAY@);
    lemma_step(SEVEN_DAY@, usage.seven_day, settings.seven_day, first, now_ms, FIVE_HOUR@);
    lemma_step(
        SEVEN_DAY_SONNET@,
        usage.seven_day_sonnet,
        settings.seven_day_sonnet,
        second,
        now_ms,
        FIVE_HOUR@,
    );
    lemma_step(
        SEVEN_DAY_OPUS@,
        usage.seven_day_opus,
        settings.seven_day_opus,
        third,
        now_ms,
        FIVE_HOUR@,
    );
}

/// Judging the same reading twice notifies nothing the second time and
/// leaves the state as the first time left it, the reset warnings being
/// switched off.
pub proof fn lemma_repeated_processing_is_quiet(
    usage: UsageData,
    settings: NotificationSettings,
    state: NotificationStateView,
    now_ms: i64,
)
    requires
        !settings.five_hour.time_remaining_enabled,
        !settings.seven_day.time_remaining_enabled,
        !settings.seven_day_sonnet.time_remaining_enabled,
        !settings.seven_day_opus.time_remaining_enabled,
    ensures
        ({
            let once = notifications_processed(usage, settings, state, now_ms);
            let twice = notifications_processed(usage, settings, once.0, now_ms);
            twice.0 == once.0 && twice.1.len() == 0
        }),
{
    lemma_quantity_names_differ();
    if settings.enabled {
        let start = (state, Seq::<NotificationView>::empty());
        let first = quantity_processed(
            FIVE_HOUR@,
            usage.five_hour,
            settings.five_hour,
            start,
            now_ms,
        );
        let second = quantity_processed(
            SEVEN_DAY@,
            usage.seven_day,
            settings.seven_day,
            first,
            now_ms,
        );
        let third = quantity_processed(
            SEVEN_DAY_SONNET@,
            usage.seven_day_sonnet,
            settings.seven_day_sonnet,
            second,
            now_ms,
        );
        let once = quantity_processed(
            SEVEN_DAY_OPUS@,
            usage.seven_day_opus,
            settings.seven_day_opus,
            third,
            now_ms,
        );
        lemma_step(FIVE_HOUR@, usage.five_hour, settings.five_hour, start, now_ms, SEVEN_DAY@);
        lemma_step(SEVEN_DAY@, usage.seven_day, settings.seven_day, first, now_ms, FIVE_HOUR@);
        lemma_step(
            SEVEN_DAY_SONNET@,
            usage.seven_day_sonnet,
            settings.seven_day_sonnet,
            second,
            now_ms,
            FIVE_HOUR@,
        );
        lemma_step(
            SEVEN_DAY_SONNET@,
            usage.seven_day_sonnet,
            settings.seven_day_sonnet,
            second,
            now_ms,
            SEVEN_DAY@,
        );
        lemma_step(
            SEVEN_DAY_OPUS@,
            usage.seven_day_opus,
            settings.seven_day_opus,
            third,
            now_ms,
            FIVE_HOUR@,
        );
        lemma_step(
            SEVEN_DAY_OPUS@,
            usage.seven_day_opus,
            settings.seven_day_opus,
            third,
            now_ms,
            SEVEN_DAY@,
        );
        lemma_step(
            SEVEN_DAY_OPUS@,
            usage.seven_day_opus,
            settings.seven_day_opus,
            third,
            now_ms,
            SEVEN_DAY_SONNET@,
        );
        let again = (once.0, Seq::<NotificationView>::empty());
        if usage.five_hour is Some {
            lemma_settled_quantity_is_quiet(
                FIVE_HOUR@,
                usage.five_hour->0,
                settings.five_hour,
                again,
                now_ms,
            );
        }
        if usage.seven_day is Some {
            lemma_settled_quantity_is_quiet(
                SEVEN_DAY@,
                usage.seven_day->0,
                settings.seven_day,
                again,
                now_ms,
            );
        }
        if usage.seven_day_sonnet is Some {
            lemma_settled_quantity_is_quiet(
                SEVEN_DAY_SONNET@,
                usage.seven_day_sonnet->0,
                settings.seven_day_sonnet,
                again,
                now_ms,
            );
        }
        if usage.seven_day_opus is Some {
            lemma_settled_quantity_is_quiet(
                SEVEN_DAY_OPUS@,
                usage.seven_day_opus->0,
                settings.seven_day_opus,
                again,
                now_ms,
            );
        }
    }
}

/// The prefix of one quantity's markers begins no marker of another
/// quantity, whatever follows that quantity's name and colon.
pub proof fn lemma_prefixes_tell_quantities_apart(
    usage_type: Seq<char>,
    other: Seq<char>,
    rest: Seq<char>,
)
    requires
        is_quantity(usage_type),
        is_quantity(other),
        usage_type != other,
    ensures
        !threshold_prefix(usage_type).is_prefix_of(other + ":"@ + rest),
        !time_prefix(usage_type).is_prefix_of(other + ":"@ + rest),
{
    reveal_strlit("five_hour");
    reveal_strlit("seven_day");
    reveal_strlit("seven_day_sonnet");
    reveal_strlit("seven_day_opus");
    reveal_strlit(":");
    reveal_strlit(":time:");
    let own = threshold_prefix(usage_type);
    let own_time = time_prefix(usage_type);
    let marker = other + ":"@ + rest;
    let at: int = if usage_type == FIVE_HOUR@ || other == FIVE_HOUR@ {
        0
    } else if usage_type == SEVEN_DAY@ || other == SEVEN_DAY@ {
        9
    } else {
        10
    };
    assert(at < own.len() && at < own_time.len() && at < marker.len());
    assert(own[at] == own_time[at]);
    assert(own[at] != marker[at]);
    if own.is_prefix_of(marker) {
        assert(marker.subrange(0, own.len() as int)[at] == marker[at]);
    }
    if own_time.is_prefix_of(marker) {
        assert(marker.subrange(0, own_time.len() as int)[at] == marker[at]);
    }
}

/// A reset of one quantity takes away the markers that begin with that
/// quantity's prefix and no others, and adds none. Without a reset nothing
/// changes.
pub proof fn lemma_reset_drops_own_markers_only(
    usage_type: Seq<char>,
    period: Option<UsagePeriod>,
    state: NotificationStateView,
)
    ensures
        ({
            let after = quantity_reset(usage_type, period, state);
            let resets = period is Some && is_reset(state.last(usage_type), period->0.utilization);
            &&& !resets ==> after == state
            &&& forall|marker: Seq<char>|
                after.fired_thresholds.contains(marker) <==> state.fired_thresholds.contains(marker)
                    && !(resets && threshold_prefix(usage_type).is_prefix_of(marker))
            &&& forall|marker: Seq<char>|
                after.fired_time_remaining.contains(marker) <==> state.fired_time_remaining.contains(
                    marker,
                ) && !(resets && time_prefix(usage_type).is_prefix_of(marker))
        }),
{
    let after = quantity_reset(usage_type, period, state);
    let resets = period is Some && is_reset(state.last(usage_type), period->0.utilization);
    if resets {
        lemma_without_prefix_contains(state.fired_thresholds, threshold_prefix(usage_type));
        lemma_without_prefix_contains(state.fired_time_remaining, time_prefix(usage_type));
    }
}

/// What is left of a list without the entries that begin with `prefix`:
/// just its other entries.
pub proof fn lemma_without_prefix_contains(list: Seq<Seq<char>>, prefix: Seq<char>)
    ensures
        forall|entry: Seq<char>| #[trigger]
            without_prefix(list, prefix).contains(entry) <==> list.contains(entry)
                && !prefix.is_prefix_of(entry),
{
    let keep = |entry: Seq<char>| !prefix.is_prefix_of(entry);
    let kept = list.filter(keep);
    assert forall|entry: Seq<char>| #[trigger]
        kept.contains(entry) <==> list.contains(entry) && !prefix.is_prefix_of(
            entry,
        ) by {
        if kept.contains(entry) {
            list.lemma_filter_contains_rev(keep, entry);
            let k = choose|k: int| 0 <= k < kept.len() && kept[k] == entry;
            list.lemma_filter_pred(keep, k);
        }
        if list.contains(entry) && !prefix.is_prefix_of(entry) {
            let k = choose|k: int| 0 <= k < list.len() && list[k] == entry;
            list.lemma_filter_contains(keep, k);
        }
    }
}

/// After a reset the quantity's last reading is zero, so that the next
/// reading is judged from the start; the other quantities keep theirs.
pub proof fn lemma_reset_rewinds_last_reading(
    usage_type: Seq<char>,
    period: UsagePeriod,
    state: NotificationStateView,
    other: Seq<char>,
)
    requires
        is_quantity(usage_type),
        other != usage_type,
        is_reset(state.last(usage_type), period.utilization),
    ensures
        quantity_reset(usage_type, Some(period), state).last(usage_type).thousandths == 0,
        quantity_reset(usage_type, Some(period), state).last(other) == state.last(other),
{
    lemma_quantity_names_differ();
}

/// A reset of one quantity leaves the markers of every other quantity in
/// place, thresholds and reset warnings alike.
pub proof fn lemma_reset_keeps_other_quantities_markers(
    usage_type: Seq<char>,
    period: Option<UsagePeriod>,
    state: NotificationStateView,
    other: Seq<char>,
    number: u32,
)
    requires
        is_quantity(usage_type),
        is_quantity(other),
        usage_type != other,
    ensures
        state.fired_thresholds.contains(threshold_marker(other, number)) ==> quantity_reset(
            usage_type,
            period,
            state,
        ).fired_thresholds.contains(threshold_marker(other, number)),
        state.fired_time_remaining.contains(time_marker(other, number)) ==> quantity_reset(
            usage_type,
            period,
            state,
        ).fired_time_remaining.contains(time_marker(other, number)),
{
    lemma_reset_drops_own_markers_only(usage_type, period, state);
    lemma_prefixes_tell_quantities_apart(usage_type, other, decimal(number as nat));
    lemma_prefixes_tell_quantities_apart(usage_type, other, "time:"@ + decimal(number as nat));
    reveal_strlit(":");
    reveal_strlit(":time:");
    reveal_strlit("time:");
    assert(time_marker(other, number) =~= other + ":"@ + ("time:"@ + decimal(number as nat)));
}

/// Once a reading was judged, the reading of each quantity that has one is
/// that quantity's last, whether or not anything fired for it; a quantity
/// without a reading keeps its last one.
pub proof fn lemma_processing_records_every_reading(
    usage: UsageData,
    settings: NotificationSettings,
    state: NotificationStateView,
    now_ms: i64,
)
    requires
        settings.enabled,
    ensures
        ({
            let after = notifications_processed(usage, settings, state, now_ms).0;
            &&& after.five_hour_last == match usage.five_hour {
                Some(period) => period.utilization,
                None => state.five_hour_last,
            }
            &&& after.seven_day_last == match usage.seven_day {
                Some(period) => period.utilization,
                None => state.seven_day_last,
            }
            &&& after.seven_day_sonnet_last == match usage.seven_day_sonnet {
                Some(period) => period.utilization,
                None => state.seven_day_sonnet_last,
            }
            &&& after.seven_day_opus_last == match usage.seven_day_opus {
                Some(period) => period.utilization,
                None => state.seven_day_opus_last,
            }
        }),
{
    lemma_quantity_names_differ();
}

/// A reading brings at most one notification for each quantity that it
/// holds, so four at most.
pub proof fn lemma_at_most_one_alert_per_quantity(
    usage: UsageData,
    settings: NotificationSettings,
    state: NotificationStateView,
    now_ms: i64,
)
    ensures
        notifications_processed(usage, settings, state, now_ms).1.len() <= (if usage.five_hour
            is Some {
            1nat
        } else {
            0nat
        }) + (if usage.seven_day is Some {
            1nat
        } else {
            0nat
        }) + (if usage.seven_day_sonnet is Some {
            1nat
        } else {
            0nat
        }) + (if usage.seven_day_opus is Some {
            1nat
        } else {
            0nat
        }),
{
}

} // verus!
