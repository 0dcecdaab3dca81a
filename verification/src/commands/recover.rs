//! Listing and removing unfinished downloads.

use vstd::prelude::*;

use crate::number;
use crate::recovery::{RecoverySummary, StaleTempFile};

verus! {

/// The line of an unfinished download: where it is, and its age in seconds.
pub open spec fn file_line(file: StaleTempFile) -> Seq<char> {
    file.path@ + "  age="@ + number::nat_text((file.age_ms / 1000) as nat) + "s"@
}

/// The line of an unfinished download.
pub fn describe_file(file: &StaleTempFile) -> (out: String)
    ensures
        out@ == file_line(*file),
{
    let mut out = file.path.clone();
    out.append("  age=");
    let seconds = number::decimal((file.age_ms / 1000) as u128);
    out.append(seconds.as_str());
    out.append("s");
    out
}

/// What was found and removed, as a line.
pub open spec fn summary_line(summary: RecoverySummary) -> Seq<char> {
    "stale partials: "@ + number::nat_text(summary.stale_files@.len()) + " found, "@ + number::nat_text(
        summary.removed as nat,
    ) + " removed, "@ + number::nat_text(summary.scanned_files as nat) + " files scanned, "@
        + number::nat_text(summary.unreadable_entries as nat) + " unreadable entries under "@
        + summary.root@
}

/// What was found and removed, as a line.
pub fn describe_summary(summary: &RecoverySummary) -> (out: String)
    ensures
        out@ == summary_line(*summary),
{
    let mut out = "stale partials: ".to_string();
    let found = number::decimal(summary.stale_files.len() as u128);
    out.append(found.as_str());
    out.append(" found, ");
    let removed = number::decimal(summary.removed as u128);
    out.append(removed.as_str());
    out.append(" removed, ");
    let scanned = number::decimal(summary.scanned_files as u128);
    out.append(scanned.as_str());
    out.append(" files scanned, ");
    let unreadable = number::decimal(summary.unreadable_entries as u128);
    out.append(unreadable.as_str());
    out.append(" unreadable entries under ");
    out.append(summary.root.as_str());
    out
}

/// The age in milliseconds from which an unfinished download is stale.
pub fn stale_age_ms(hours: u64) -> (ms: u64)
    ensures
        ms == number::capped_u64(hours * 3_600_000),
{
    match hours.checked_mul(3_600_000) {
        Some(ms) => ms,
        None => u64::MAX,
    }
}

} // verus!
