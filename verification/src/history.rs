//! How the time ranges of the usage history are read.

use vstd::prelude::*;
use crate::text::str_eq;

verus! {

/// The hours that a range covers; a day for a name that is no range.
pub open spec fn range_hours(range: Seq<char>) -> u32 {
    if range == "1h"@ {
        1
    } else if range == "6h"@ {
        6
    } else if range == "24h"@ {
        24
    } else if range == "7d"@ {
        168
    } else if range == "30d"@ {
        720
    } else {
        24
    }
}

/// The hours that the range called `range` covers: `"1h"`, `"6h"`, `"24h"`,
/// `"7d"` or `"30d"`. Any other name counts as a day.
pub fn get_range_hours(range: &str) -> (hours: u32)
    ensures
        hours == range_hours(range@),
{
    if str_eq(range, "1h") {
        1
    } else if str_eq(range, "6h") {
        6
    } else if str_eq(range, "24h") {
        24
    } else if str_eq(range, "7d") {
        7 * 24
    } else if str_eq(range, "30d") {
        30 * 24
    } else {
        24
    }
}

/// The width in minutes of the buckets that a range is thinned out to, or
/// `None` for a range that is shown in full.
pub open spec fn downsample_bucket_minutes(range: Seq<char>) -> Option<u32> {
    if range == "7d"@ {
        Some(60u32)
    } else if range == "30d"@ {
        Some(240u32)
    } else {
        None
    }
}

/// The width in minutes of the buckets that the history of `range` is
/// averaged over: an hour for a week, four hours for thirty days. Shorter
/// ranges, and names that are no range, are shown in full.
pub fn get_downsample_bucket_minutes(range: &str) -> (minutes: Option<u32>)
    ensures
        minutes == downsample_bucket_minutes(range@),
{
    if str_eq(range, "7d") {
        Some(60)
    } else if str_eq(range, "30d") {
        Some(240)
    } else {
        None
    }
}

/// Thinning out keeps the number of points of a range in bounds: no more
/// than 180 buckets cover a thinned-out range.
pub proof fn lemma_downsampled_ranges_stay_small(range: Seq<char>)
    requires
        downsample_bucket_minutes(range) is Some,
    ensures
        range_hours(range) * 60 / (downsample_bucket_minutes(range)->0 as int) <= 180,
{
    reveal_strlit("1h");
    reveal_strlit("6h");
    reveal_strlit("24h");
    reveal_strlit("7d");
    reveal_strlit("30d");
    if range == "7d"@ {
        assert(range.len() == 2);
    } else {
        assert(range.len() == 3);
        assert(range[0] == '3');
    }
}

} // verus!
