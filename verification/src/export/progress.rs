//! The progress line of an export, and how its mode and scope are described.

use vstd::prelude::*;

use crate::binary64;
use crate::number;
use crate::report::ExportCounters;
use crate::text;
use crate::types::ExportOptions;

verus! {

/// What the progress line says about the machinery. Rates are in tenths per second.
#[derive(Debug, Clone, Copy, PartialEq, Eq, Structural)]
pub struct ProgressRuntime {
    pub worker_limit: usize,
    pub worker_max: usize,
    pub active_downloads: usize,
    pub cooldown_active: bool,
    pub flood_wait_count: u64,
    pub queued_downloads: usize,
    pub frontier_depth: usize,
    pub history_batches_per_sec: Option<u64>,
    pub history_messages_per_sec: Option<u64>,
}

/// The mode of an export in words.
pub open spec fn mode_text(options: ExportOptions) -> Seq<char> {
    if options.rescan {
        "forced rescan"@
    } else if !crate::export::scope::unbounded(options) {
        "bounded scan"@
    } else {
        "automatic sync"@
    }
}

pub fn describe_export_mode(options: &ExportOptions) -> (out: &'static str)
    ensures
        out@ == mode_text(*options),
{
    if options.rescan {
        "forced rescan"
    } else if has_bounded_scope(options) {
        "bounded scan"
    } else {
        "automatic sync"
    }
}

fn has_bounded_scope(options: &ExportOptions) -> (yes: bool)
    ensures
        yes == !crate::export::scope::unbounded(*options),
{
    options.since_id.is_some() || options.until_id.is_some() || options.date_from.is_some()
        || options.date_to.is_some()
}

/// One clause where there is a bound, none where there is not.
pub open spec fn clause(label: Seq<char>, value: Option<Seq<char>>, tail: Seq<char>) -> Seq<Seq<char>> {
    match value {
        Some(inner) => seq![label + inner + tail],
        None => Seq::<Seq<char>>::empty(),
    }
}

/// The bounds of an export in words, one clause each.
pub open spec fn scope_clauses(options: ExportOptions) -> Seq<Seq<char>> {
    let none = Seq::<char>::empty();
    clause(
        "since message id "@,
        match options.since_id {
            Some(id) => Some(number::int_text(id as int)),
            None => None,
        },
        none,
    ) + clause(
        "until message id "@,
        match options.until_id {
            Some(id) => Some(number::int_text(id as int)),
            None => None,
        },
        none,
    ) + clause(
        "from "@,
        match options.date_from {
            Some(date) => Some(date.text()),
            None => None,
        },
        none,
    ) + clause(
        "to "@,
        match options.date_to {
            Some(date) => Some(date.text()),
            None => None,
        },
        none,
    ) + clause(
        "limit "@,
        match options.limit {
            Some(limit) => Some(number::nat_text(limit as nat)),
            None => None,
        },
        " matched messages"@,
    )
}

/// The scope of an export in words.
pub open spec fn scope_text(options: ExportOptions) -> Seq<char> {
    let clauses = scope_clauses(options);
    if clauses.len() == 0 {
        "entire chat history"@
    } else {
        text::joined(clauses, ", "@)
    }
}

fn push_clause(clauses: &mut Vec<String>, label: &str, value: Option<String>, tail: &str)
    ensures
        text::texts(final(clauses)@) == text::texts(old(clauses)@) + clause(
            label@,
            text::opt_text(value),
            tail@,
        ),
{
    let ghost before = clauses@;
    if let Some(inner) = value {
        let mut out = label.to_string();
        out.append(inner.as_str());
        out.append(tail);
        clauses.push(out);
    }
    assert(text::texts(clauses@) =~= text::texts(before) + clause(label@, text::opt_text(value), tail@));
}

/// The scope of an export in words.
pub fn describe_export_scope(options: &ExportOptions) -> (out: String)
    ensures
        out@ == scope_text(*options),
{
    proof {
        reveal_strlit("");
        assert(""@ =~= Seq::<char>::empty());
    }
    let mut clauses: Vec<String> = Vec::new();
    let since = match options.since_id {
        Some(id) => Some(number::signed_decimal(id as i64)),
        None => None,
    };
    push_clause(&mut clauses, "since message id ", since, "");
    let until = match options.until_id {
        Some(id) => Some(number::signed_decimal(id as i64)),
        None => None,
    };
    push_clause(&mut clauses, "until message id ", until, "");
    let from = match options.date_from {
        Some(date) => Some(date.to_text()),
        None => None,
    };
    push_clause(&mut clauses, "from ", from, "");
    let to = match options.date_to {
        Some(date) => Some(date.to_text()),
        None => None,
    };
    push_clause(&mut clauses, "to ", to, "");
    let limit = match options.limit {
        Some(limit) => Some(number::decimal(limit as u128)),
        None => None,
    };
    push_clause(&mut clauses, "limit ", limit, " matched messages");
    assert(text::texts(clauses@) =~= scope_clauses(*options));
    if clauses.len() == 0 {
        "entire chat history".to_string()
    } else {
        text::join(&clauses, ", ")
    }
}

/// A number of tenths as text, such as `3.4`.
pub open spec fn tenths_text(tenths: nat) -> Seq<char> {
    number::nat_text(tenths / 10) + "."@ + number::nat_text(tenths % 10)
}

/// The progress line.
pub open spec fn progress_text(
    mode_label: Seq<char>,
    phase: Seq<char>,
    counters: ExportCounters,
    runtime: ProgressRuntime,
    detail: Option<Seq<char>>,
    verbose: bool,
) -> Seq<char> {
    let state = mode_label + " | "@ + phase + " | scanned="@ + number::nat_text(
        counters.scanned_messages as nat,
    ) + " found="@ + number::nat_text(counters.media_found as nat) + " downloaded="@
        + number::nat_text(counters.downloaded as nat) + " skipped="@ + number::nat_text(
        counters.skipped_existing as nat,
    ) + " failed="@ + number::nat_text(counters.failed as nat) + " pending="@ + number::nat_text(
        runtime.queued_downloads as nat,
    ) + " active="@ + number::nat_text(runtime.active_downloads as nat) + " workers="@
        + number::nat_text(runtime.worker_limit as nat) + " cooldown="@ + yes_no_text(
        runtime.cooldown_active,
    );
    let detailed = if verbose {
        state + " worker_max="@ + number::nat_text(runtime.worker_max as nat) + " frontier="@
            + number::nat_text(runtime.frontier_depth as nat) + " floods="@ + number::nat_text(
            runtime.flood_wait_count as nat,
        )
    } else {
        state
    };
    let batches = match runtime.history_batches_per_sec {
        Some(rate) => detailed + " history="@ + tenths_text(rate as nat) + " batches/s"@,
        None => detailed,
    };
    let messages = match runtime.history_messages_per_sec {
        Some(rate) => batches + " "@ + tenths_text(rate as nat) + " msgs/s"@,
        None => batches,
    };
    match detail {
        Some(more) => messages + " | "@ + more,
        None => messages,
    }
}

pub open spec fn yes_no_text(value: bool) -> Seq<char> {
    if value {
        "yes"@
    } else {
        "no"@
    }
}

pub fn yes_no(value: bool) -> (out: &'static str)
    ensures
        out@ == yes_no_text(value),
{
    if value {
        "yes"
    } else {
        "no"
    }
}

fn add_count(out: &mut String, label: &str, count: u64)
    ensures
        final(out)@ == old(out)@ + label@ + number::nat_text(count as nat),
{
    let digits = number::decimal(count as u128);
    out.append(label);
    out.append(digits.as_str());
}

fn add_rate(out: &mut String, label: &str, rate: u64, unit: &str)
    ensures
        final(out)@ == old(out)@ + label@ + tenths_text(rate as nat) + unit@,
{
    let ghost before = out@;
    let whole = number::decimal((rate / 10) as u128);
    let tenth = number::decimal((rate % 10) as u128);
    out.append(label);
    out.append(whole.as_str());
    out.append(".");
    out.append(tenth.as_str());
    out.append(unit);
    assert(out@ =~= before + label@ + tenths_text(rate as nat) + unit@);
}

/// The progress line.
pub fn build_progress_message(
    mode_label: &str,
    phase: &str,
    counters: &ExportCounters,
    runtime: ProgressRuntime,
    detail: Option<String>,
    verbose_progress: bool,
) -> (out: String)
    ensures
        out@ == progress_text(
            mode_label@,
            phase@,
            *counters,
            runtime,
            text::opt_text(detail),
            verbose_progress,
        ),
{
    let mut out = mode_label.to_string();
    out.append(" | ");
    out.append(phase);
    add_count(&mut out, " | scanned=", counters.scanned_messages as u64);
    add_count(&mut out, " found=", counters.media_found as u64);
    add_count(&mut out, " downloaded=", counters.downloaded as u64);
    add_count(&mut out, " skipped=", counters.skipped_existing as u64);
    add_count(&mut out, " failed=", counters.failed as u64);
    add_count(&mut out, " pending=", runtime.queued_downloads as u64);
    add_count(&mut out, " active=", runtime.active_downloads as u64);
    add_count(&mut out, " workers=", runtime.worker_limit as u64);
    out.append(" cooldown=");
    out.append(yes_no(runtime.cooldown_active));
    if verbose_progress {
        add_count(&mut out, " worker_max=", runtime.worker_max as u64);
        add_count(&mut out, " frontier=", runtime.frontier_depth as u64);
        add_count(&mut out, " floods=", runtime.flood_wait_count);
    }
    if let Some(rate) = runtime.history_batches_per_sec {
        add_rate(&mut out, " history=", rate, " batches/s");
    }
    if let Some(rate) = runtime.history_messages_per_sec {
        add_rate(&mut out, " ", rate, " msgs/s");
    }
    if let Some(more) = detail {
        out.append(" | ");
        out.append(more.as_str());
    }
    out
}

/// What the progress line says while a file is downloaded.
pub fn download_detail(kind: crate::types::MediaKind, message_id: i32) -> (out: String)
    ensures
        out@ == kind.name() + " from message "@ + number::int_text(message_id as int),
{
    let mut out = kind.as_str().to_string();
    out.append(" from message ");
    let digits = number::signed_decimal(message_id as i64);
    out.append(digits.as_str());
    out
}

/// What the progress line says before the first batch.
pub fn resolving_message(mode_label: &str, chat_title: &str) -> (out: String)
    ensures
        out@ == mode_label@ + " | resolving "@ + chat_title@,
{
    let mut out = mode_label.to_string();
    out.append(" | resolving ");
    out.append(chat_title);
    out
}

/// How fast the history is read. Times are milliseconds of a clock that does not go back.
#[derive(Debug, Clone, Copy, PartialEq, Eq, Structural)]
pub struct HistoryBatchMeter {
    pub started_at_ms: Option<u64>,
    pub completed_batches: usize,
    pub completed_messages: usize,
}

/// A rate in tenths per second: the quotient of count and seconds in floating point, to the nearest
/// tenth. No time at all counts as a millisecond. It stops at the largest `u64`.
pub open spec fn rate_tenths(count: usize, elapsed_ms: int) -> int {
    let ms: nat = if elapsed_ms <= 0 {
        1
    } else {
        elapsed_ms as nat
    };
    number::capped_u64(binary64::tenths_per_second(count as nat, ms) as int)
}

fn rate(count: usize, started_at_ms: u64, now_ms: u64) -> (tenths: u64)
    ensures
        tenths == rate_tenths(count, now_ms - started_at_ms),
{
    let ms: u64 = if now_ms <= started_at_ms {
        1
    } else {
        now_ms - started_at_ms
    };
    binary64::rate_in_tenths(count, ms)
}

impl Default for HistoryBatchMeter {
    fn default() -> (meter: HistoryBatchMeter)
        ensures
            meter.started_at_ms is None,
            meter.completed_batches == 0,
            meter.completed_messages == 0,
    {
        HistoryBatchMeter { started_at_ms: None, completed_batches: 0, completed_messages: 0 }
    }
}

impl HistoryBatchMeter {
    /// Counts a batch; the first one starts the clock.
    pub fn observe_batch(&mut self, message_count: usize, now_ms: u64)
        ensures
            final(self).started_at_ms == if old(self).started_at_ms is Some {
                old(self).started_at_ms
            } else {
                Some(now_ms)
            },
            final(self).completed_batches == crate::report::capped(old(self).completed_batches + 1),
            final(self).completed_messages == crate::report::capped(
                old(self).completed_messages + message_count,
            ),
    {
        if self.started_at_ms.is_none() {
            self.started_at_ms = Some(now_ms);
        }
        self.completed_batches = self.completed_batches.saturating_add(1);
        self.completed_messages = self.completed_messages.saturating_add(message_count);
    }

    /// Batches per second, in tenths.
    pub fn batches_per_sec(&self, now_ms: u64) -> (tenths: Option<u64>)
        ensures
            match (tenths, self.started_at_ms) {
                (Some(found), Some(start)) => found == rate_tenths(
                    self.completed_batches,
                    now_ms - start,
                ),
                (None, None) => true,
                _ => false,
            },
    {
        match self.started_at_ms {
            Some(start) => Some(rate(self.completed_batches, start, now_ms)),
            None => None,
        }
    }

    /// Messages per second, in tenths.
    pub fn messages_per_sec(&self, now_ms: u64) -> (tenths: Option<u64>)
        ensures
            match (tenths, self.started_at_ms) {
                (Some(found), Some(start)) => found == rate_tenths(
                    self.completed_messages,
                    now_ms - start,
                ),
                (None, None) => true,
                _ => false,
            },
    {
        match self.started_at_ms {
            Some(start) => Some(rate(self.completed_messages, start, now_ms)),
            None => None,
        }
    }
}

/// An export is called automatic exactly if it goes by the checkpoint.
pub proof fn modes_are_told_apart(options: ExportOptions)
    ensures
        mode_text(options) == "automatic sync"@ <==> crate::export::scope::moves_checkpoint(options),
        mode_text(options) == "forced rescan"@ <==> options.rescan,
        scope_clauses(options).len() == 0 <==> options.since_id is None && options.until_id is None
            && options.date_from is None && options.date_to is None && options.limit is None,
{
    reveal_strlit("automatic sync");
    reveal_strlit("forced rescan");
    reveal_strlit("bounded scan");
    assert("automatic sync"@.len() == 14 && "forced rescan"@.len() == 13 && "bounded scan"@.len() == 12);
}

} // verus!
