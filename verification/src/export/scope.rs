//! Which messages an export looks at.

use vstd::prelude::*;

use crate::date;
use crate::date::Date;
use crate::error::AppError;
use crate::error::Result;
use crate::report::ExportCounters;
use crate::types::{CheckpointState, ExportOptions, ScannedMessage};

verus! {

/// The checkpoint of a chat that was never read.
pub open spec fn fresh_checkpoint(chat_id: i64) -> CheckpointState {
    CheckpointState {
        chat_id,
        high_watermark_message_id: None,
        backfill_cursor_message_id: None,
        backfill_complete: false,
    }
}

/// Whether an export has no bounds on ids or dates.
pub open spec fn unbounded(options: ExportOptions) -> bool {
    &&& options.since_id is None
    &&& options.until_id is None
    &&& options.date_from is None
    &&& options.date_to is None
}

/// Whether an export goes by the chat's checkpoint and moves it on.
pub open spec fn moves_checkpoint(options: ExportOptions) -> bool {
    unbounded(options) && !options.rescan
}

/// Whether a message with this id and date is in scope.
pub open spec fn in_scope(id: i32, date: Date, options: ExportOptions) -> bool {
    &&& options.until_id matches Some(until) ==> id <= until
    &&& options.since_id matches Some(since) ==> id >= since
    &&& options.date_to matches Some(to) ==> !to.before(date)
    &&& options.date_from matches Some(from) ==> !date.before(from)
}

/// Whether no older message can be in scope once a message with this id and date was met.
pub open spec fn past_scope(id: i32, date: Date, options: ExportOptions) -> bool {
    ||| options.since_id is Some && id < options.since_id->0
    ||| options.date_from is Some && date.before(options.date_from->0)
}

pub fn empty_checkpoint(chat_id: i64) -> (checkpoint: CheckpointState)
    ensures
        checkpoint == fresh_checkpoint(chat_id),
{
    CheckpointState {
        chat_id,
        high_watermark_message_id: None,
        backfill_cursor_message_id: None,
        backfill_complete: false,
    }
}

/// Whether an export goes by the chat's checkpoint and moves it on.
pub fn updates_checkpoint(options: &ExportOptions) -> (yes: bool)
    ensures
        yes == moves_checkpoint(*options),
{
    options.since_id.is_none() && options.until_id.is_none() && options.date_from.is_none()
        && options.date_to.is_none() && !options.rescan
}

/// The messages that an export starts with, of those with unfinished files: all of them if it goes by
/// the checkpoint, else none.
pub fn messages_to_retry(options: &ExportOptions, unfinished: Vec<i32>) -> (ids: Vec<i32>)
    ensures
        ids@ == if moves_checkpoint(*options) {
            unfinished@
        } else {
            Seq::<i32>::empty()
        },
{
    if updates_checkpoint(options) {
        unfinished
    } else {
        Vec::new()
    }
}

/// Whether as many messages were scanned as the export is limited to.
pub fn reached_limit(options: &ExportOptions, counters: &ExportCounters) -> (yes: bool)
    ensures
        yes == (options.limit is Some && counters.scanned_messages >= options.limit->0),
{
    match options.limit {
        Some(limit) => counters.scanned_messages >= limit,
        None => false,
    }
}

/// What is wrong with the options of an export.
pub open spec fn options_error(options: ExportOptions) -> Option<Seq<char>> {
    if options.since_id is Some && options.until_id is Some && options.since_id->0
        > options.until_id->0 {
        Some("--since-id must be lower than or equal to --until-id"@)
    } else if options.date_from is Some && options.date_to is Some && options.date_to->0.before(
        options.date_from->0,
    ) {
        Some("--date-from must be earlier than or equal to --date-to"@)
    } else if options.resume && options.rescan {
        Some("--resume and --rescan cannot be used together"@)
    } else {
        None
    }
}

/// Bounds have to be in order, and a rescan cannot resume.
pub fn validate_export_options(options: &ExportOptions) -> (outcome: Result<()>)
    ensures
        match outcome {
            Ok(_) => options_error(*options) is None,
            Err(error) => error is InvalidArgument && options_error(*options) == Some(error.detail()),
        },
{
    if let (Some(since_id), Some(until_id)) = (options.since_id, options.until_id) {
        if since_id > until_id {
            return Err(
                AppError::InvalidArgument(
                    "--since-id must be lower than or equal to --until-id".to_string(),
                ),
            );
        }
    }
    if let (Some(date_from), Some(date_to)) = (options.date_from, options.date_to) {
        if date_to.is_before(date_from) {
            return Err(
                AppError::InvalidArgument(
                    "--date-from must be earlier than or equal to --date-to".to_string(),
                ),
            );
        }
    }
    if options.resume && options.rescan {
        return Err(
            AppError::InvalidArgument("--resume and --rescan cannot be used together".to_string()),
        );
    }
    Ok(())
}

/// Whether a message is in scope.
pub fn within_scope<M>(message: &ScannedMessage<M>, options: &ExportOptions) -> (yes: bool)
    ensures
        yes == in_scope(message.message_id, message.date.civil_date(), *options),
{
    if let Some(until_id) = options.until_id {
        if message.message_id > until_id {
            return false;
        }
    }
    if let Some(since_id) = options.since_id {
        if message.message_id < since_id {
            return false;
        }
    }
    let date = message.date.date();
    if let Some(date_to) = options.date_to {
        if date_to.is_before(date) {
            return false;
        }
    }
    if let Some(date_from) = options.date_from {
        if date.is_before(date_from) {
            return false;
        }
    }
    true
}

/// Whether no older message can be in scope.
pub fn should_stop_on_message<M>(message: &ScannedMessage<M>, options: &ExportOptions) -> (yes: bool)
    ensures
        yes == past_scope(message.message_id, message.date.civil_date(), *options),
{
    if let Some(since_id) = options.since_id {
        if message.message_id < since_id {
            return true;
        }
    }
    if let Some(date_from) = options.date_from {
        if message.date.date().is_before(date_from) {
            return true;
        }
    }
    false
}

/// Reading stops only at messages that are out of scope, and no older message is in scope then.
pub proof fn nothing_in_scope_is_cut_off(
    id: i32,
    date: Date,
    older_id: i32,
    older_date: Date,
    options: ExportOptions,
)
    requires
        past_scope(id, date, options),
        older_id <= id,
        date == older_date || older_date.before(date),
    ensures
        !in_scope(id, date, options),
        !in_scope(older_id, older_date, options),
{
}

/// Whether a number lies between two bounds, each of which may be missing. Bounds count.
pub open spec fn between(low: Option<int>, value: int, high: Option<int>) -> bool {
    (low is Some ==> low->0 <= value) && (high is Some ==> value <= high->0)
}

/// The number of a day, where there is one.
pub open spec fn day_of(date: Option<Date>) -> Option<int> {
    match date {
        Some(day) => Some(day.epoch_day()),
        None => None,
    }
}

/// A message identifier as a number, where there is one.
pub open spec fn id_of(id: Option<i32>) -> Option<int> {
    match id {
        Some(number) => Some(number as int),
        None => None,
    }
}

/// A message is in scope if its identifier and its day lie between the bounds, which count: the
/// message at a bound and every message of the first and the last day are in scope.
pub proof fn bounds_are_inclusive(id: i32, date: Date, options: ExportOptions)
    requires
        date.valid(),
        options.date_from is Some ==> options.date_from->0.valid(),
        options.date_to is Some ==> options.date_to->0.valid(),
    ensures
        in_scope(id, date, options) <==> (between(id_of(options.since_id), id as int, id_of(options.until_id))
            && between(day_of(options.date_from), date.epoch_day(), day_of(options.date_to))),
        options.since_id == Some(id) && between(None, id as int, id_of(options.until_id))
            && unbounded_in_time(options) ==> in_scope(id, date, options),
        options.until_id == Some(id) && between(id_of(options.since_id), id as int, None)
            && unbounded_in_time(options) ==> in_scope(id, date, options),
        options.date_from == Some(date) && options.date_to == Some(date) && options.since_id is None
            && options.until_id is None ==> in_scope(id, date, options),
{
    if options.date_from is Some {
        date::date_order_is_day_order(date, options.date_from->0);
    }
    if options.date_to is Some {
        date::date_order_is_day_order(options.date_to->0, date);
    }
}

/// Whether an export has no bounds on dates.
pub open spec fn unbounded_in_time(options: ExportOptions) -> bool {
    options.date_from is None && options.date_to is None
}

/// Reading stops exactly at messages below the lower bounds.
pub proof fn reading_stops_below_the_bounds(id: i32, date: Date, options: ExportOptions)
    requires
        date.valid(),
        options.date_from is Some ==> options.date_from->0.valid(),
    ensures
        past_scope(id, date, options) <==> !(between(id_of(options.since_id), id as int, None)
            && between(day_of(options.date_from), date.epoch_day(), None)),
{
    if options.date_from is Some {
        date::date_order_is_day_order(date, options.date_from->0);
    }
}

/// Options are accepted exactly if some message can be in scope and they do not both resume and start
/// over.
pub proof fn accepted_options_have_a_scope(options: ExportOptions)
    requires
        options.date_from is Some ==> options.date_from->0.valid(),
        options.date_to is Some ==> options.date_to->0.valid(),
    ensures
        options_error(options) is None <==> {
            &&& !(options.resume && options.rescan)
            &&& options.since_id is Some && options.until_id is Some ==> options.since_id->0
                <= options.until_id->0
            &&& options.date_from is Some && options.date_to is Some
                ==> options.date_from->0.epoch_day() <= options.date_to->0.epoch_day()
        },
        options_error(options) is None ==> exists|id: i32, date: Date|
            date.valid() && #[trigger] in_scope(id, date, options),
        (exists|id: i32, date: Date| date.valid() && #[trigger] in_scope(id, date, options)) && !(
        options.resume && options.rescan) ==> options_error(options) is None,
{
    if options.date_from is Some && options.date_to is Some {
        date::date_order_is_day_order(options.date_to->0, options.date_from->0);
        date::date_order_is_day_order(options.date_from->0, options.date_to->0);
    }
    if options_error(options) is None {
        let id: i32 = match options.since_id {
            Some(since) => since,
            None => match options.until_id {
                Some(until) => until,
                None => 0,
            },
        };
        let date = match options.date_from {
            Some(from) => from,
            None => match options.date_to {
                Some(to) => to,
                None => Date { year: 2000, month: 1, day: 1 },
            },
        };
        assert(date.valid());
        bounds_are_inclusive(id, date, options);
        assert(in_scope(id, date, options));
    }
    if exists|id: i32, date: Date| date.valid() && #[trigger] in_scope(id, date, options) {
        let (id, date) = choose|id: i32, date: Date|
            date.valid() && #[trigger] in_scope(id, date, options);
        bounds_are_inclusive(id, date, options);
    }
}

/// An export moves the checkpoint exactly if every message is in scope and it does not start over, so
/// that the checkpoint never passes a message that was left out.
pub proof fn only_whole_exports_move_checkpoints(options: ExportOptions)
    requires
        options.date_from is Some ==> options.date_from->0.valid(),
        options.date_to is Some ==> options.date_to->0.valid(),
    ensures
        moves_checkpoint(options) ==> !options.rescan && forall|id: i32, date: Date| #[trigger]
            in_scope(id, date, options),
        options.rescan ==> !moves_checkpoint(options),
        options.since_id is Some || options.until_id is Some || options.date_from is Some
            || options.date_to is Some ==> !moves_checkpoint(options),
        unbounded(options) && !options.rescan ==> moves_checkpoint(options),
        options.since_id is None && options.until_id is None && options.date_from is None
            && options.date_to is None && !options.rescan ==> moves_checkpoint(options),
{
}

} // verus!
