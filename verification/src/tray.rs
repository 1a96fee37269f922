//! The words of the tray icon's tooltip.

use vstd::prelude::*;
use vstd::string::*;
use crate::text::{decimal, u32_to_decimal};
use crate::types::{UsageData, UsagePeriod};

verus! {

/// `parts` with the reading of one more quantity, if there is one: its
/// short name and its usage in whole percent, set off by `" | "` from what is
/// there.
pub open spec fn with_part(parts: Seq<char>, name: Seq<char>, period: Option<UsagePeriod>) -> Seq<
    char,
> {
    match period {
        Some(period) => {
            let part = name + decimal(period.utilization.rounded_percent() as nat) + "%"@;
            if parts.len() == 0 {
                part
            } else {
                parts + " | "@ + part
            }
        },
        None => parts,
    }
}

/// The readings of a usage report in one line.
pub open spec fn usage_line(usage: &UsageData) -> Seq<char> {
    with_part(
        with_part(
            with_part(
                with_part(Seq::<char>::empty(), "5h: "@, usage.five_hour),
                "7d: "@,
                usage.seven_day,
            ),
            "Sonnet: "@,
            usage.seven_day_sonnet,
        ),
        "Opus: "@,
        usage.seven_day_opus,
    )
}

/// The tooltip: the application's name, and below it the readings that
/// there are.
pub open spec fn tooltip_text(app_name: Seq<char>, usage: Option<&UsageData>) -> Seq<char> {
    match usage {
        Some(usage) => if usage_line(usage).len() == 0 {
            app_name
        } else {
            app_name + "\n"@ + usage_line(usage)
        },
        None => app_name,
    }
}

fn append_part(parts: &mut String, name: &str, period: &Option<UsagePeriod>)
    ensures
        final(parts)@ == with_part(old(parts)@, name@, *period),
{
    if let Some(period) = period {
        let mut part = String::from_str(name);
        part.append(u32_to_decimal(period.utilization.rounded_percent()).as_str());
        part.append("%");
        if parts.as_str().is_empty() {
            parts.append(part.as_str());
            assert(parts@ =~= part@);
        } else {
            parts.append(" | ");
            parts.append(part.as_str());
        }
    }
}

/// Words the tooltip of the tray icon for a usage report, or for none.
pub fn tray_tooltip(app_name: &str, usage: Option<&UsageData>) -> (text: String)
    ensures
        text@ == tooltip_text(app_name@, usage),
{
    match usage {
        Some(usage) => {
            let mut parts = String::new();
            append_part(&mut parts, "5h: ", &usage.five_hour);
            append_part(&mut parts, "7d: ", &usage.seven_day);
            append_part(&mut parts, "Sonnet: ", &usage.seven_day_sonnet);
            append_part(&mut parts, "Opus: ", &usage.seven_day_opus);
            if parts.as_str().is_empty() {
                String::from_str(app_name)
            } else {
                let mut text = String::from_str(app_name);
                text.append("\n");
                text.append(parts.as_str());
                text
            }
        },
        None => String::from_str(app_name),
    }
}

} // verus!
