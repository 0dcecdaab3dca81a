//! Exports and plans against a chat: which of its messages are handed out to be planned.

use vstd::prelude::*;

use crate::date;
use crate::export::laws;
use crate::export::laws::Event;
use crate::export::plan;
use crate::export::plan::{PlanActionView, PlanPhase, PlanState};
use crate::export::scope;
use crate::export::state;
use crate::export::state::{ActionView, Phase, SavedPlan, SessionState, Step};
use crate::storage::MediaItemView;
use crate::types::{CheckpointState, ExportOptions, ScannedMessage};

verus! {

/// Whether messages, by their identifiers, make up a chat: later messages have higher identifiers. The
/// highest identifier of all is not used, because no page can be asked for that ends with it.
pub open spec fn is_chat<H>(chat: Map<int, ScannedMessage<H>>) -> bool {
    &&& forall|id: int| #[trigger]
        chat.contains_key(id) ==> {
            &&& chat[id].message_id == id
            &&& id < i32::MAX
            &&& chat[id].date.civil_date().valid()
            &&& chat[id].date.civil_date().epoch_day() == chat[id].date.unix_seconds() / 86400
        }
    &&& forall|id: int, later: int|
        id <= later && #[trigger] chat.contains_key(id) && #[trigger] chat.contains_key(later)
            ==> chat[id].date.unix_seconds() <= chat[later].date.unix_seconds()
}

/// Whether a message is among those that are asked for: below the identifier `offset_id` and earlier
/// than the second `before`, where these are given.
pub open spec fn asked_for<H>(
    message: ScannedMessage<H>,
    offset_id: Option<i32>,
    before: Option<int>,
) -> bool {
    &&& offset_id is Some ==> message.message_id < offset_id->0
    &&& before is Some ==> message.date.unix_seconds() < before->0
}

/// Whether a list is what a chat has to say to a request: its newest messages that are asked for,
/// newest first, without a gap, and none only if there are none.
pub open spec fn is_page<H>(
    chat: Map<int, ScannedMessage<H>>,
    offset_id: Option<i32>,
    before: Option<int>,
    page: Seq<ScannedMessage<H>>,
) -> bool {
    &&& forall|i: int|
        0 <= i < page.len() ==> {
            &&& chat.contains_key((#[trigger] page[i]).message_id as int)
            &&& chat[page[i].message_id as int] == page[i]
            &&& asked_for(page[i], offset_id, before)
        }
    &&& forall|i: int, j: int|
        0 <= i < j < page.len() ==> (#[trigger] page[i]).message_id > (#[trigger] page[j]).message_id
    &&& forall|id: int| #[trigger]
        chat.contains_key(id) && asked_for(chat[id], offset_id, before) ==> {
            &&& page.len() > 0
            &&& id >= page.last().message_id ==> state::came_back(page, id as i32)
        }
}

/// A request for a page of the history.
pub struct PageRequest {
    pub offset_id: Option<i32>,
    pub before: Option<int>,
}

/// An export at work: its state, the messages that it has handed out to be planned, and the request
/// for a page of the history that was not answered yet.
pub struct Reading<H> {
    pub session: SessionState<H>,
    pub handed: Set<int>,
    pub request: Option<PageRequest>,
}

/// What an event makes of an export at work.
pub open spec fn read_on<H>(r: Reading<H>, event: Event<H>) -> Reading<H> {
    let session = laws::after(r.session, event);
    match event {
        Event::Next { shutdown } => match r.session.next(shutdown).1 {
            ActionView::Plan(message) => Reading {
                session,
                handed: r.handed.insert(message.message_id as int),
                ..r
            },
            ActionView::FetchHistory { offset_id, before } => Reading {
                session,
                request: Some(PageRequest { offset_id, before }),
                ..r
            },
            _ => Reading { session, ..r },
        },
        Event::Messages(_) => Reading { session, request: None, ..r },
        _ => Reading { session, ..r },
    }
}

/// Whether an event answers a request for history as the chat does.
pub open spec fn is_fair<H>(r: Reading<H>, event: Event<H>, chat: Map<int, ScannedMessage<H>>) -> bool {
    event matches Event::Messages(page) ==> (r.request matches Some(request) ==> is_page(
        chat,
        request.offset_id,
        request.before,
        page,
    ))
}

/// An export after some events.
pub open spec fn run<H>(r: Reading<H>, events: Seq<Event<H>>) -> Reading<H>
    decreases events.len(),
{
    if events.len() == 0 {
        r
    } else {
        read_on(run(r, events.drop_last()), events.last())
    }
}

/// Whether requests for history were answered as the chat does throughout.
pub open spec fn is_fair_run<H>(
    r: Reading<H>,
    events: Seq<Event<H>>,
    chat: Map<int, ScannedMessage<H>>,
) -> bool
    decreases events.len(),
{
    events.len() > 0 ==> {
        &&& is_fair_run(r, events.drop_last(), chat)
        &&& is_fair(run(r, events.drop_last()), events.last(), chat)
    }
}

/// An export at its start.
pub open spec fn first_reading<H>(
    options: ExportOptions,
    checkpoint: CheckpointState,
    plan: Option<SavedPlan>,
    retry_ids: Seq<i32>,
    worker_cap: usize,
    window: usize,
) -> Reading<H> {
    Reading {
        session: SessionState::initial(options, checkpoint, plan, retry_ids, worker_cap, window),
        handed: Set::<int>::empty(),
        request: None,
    }
}

/// Whether a message of a chat is in scope.
pub open spec fn wanted<H>(
    chat: Map<int, ScannedMessage<H>>,
    options: ExportOptions,
    id: int,
) -> bool {
    chat.contains_key(id) && scope::in_scope(id as i32, chat[id].date.civil_date(), options)
}

/// Whether an identifier lies below the place where a scan stands.
pub open spec fn is_ahead(position: Option<i32>, id: int) -> bool {
    position is Some ==> id < position->0
}

/// Whether a batch holds the next messages of a chat below the place where a scan stands.
pub open spec fn is_next_in_line<H>(
    chat: Map<int, ScannedMessage<H>>,
    options: ExportOptions,
    position: Option<i32>,
    batch: Seq<ScannedMessage<H>>,
) -> bool {
    &&& forall|i: int|
        0 <= i < batch.len() ==> {
            &&& chat.contains_key((#[trigger] batch[i]).message_id as int)
            &&& chat[batch[i].message_id as int] == batch[i]
            &&& is_ahead(position, batch[i].message_id as int)
        }
    &&& forall|i: int, j: int|
        0 <= i < j < batch.len() ==> (#[trigger] batch[i]).message_id > (#[trigger] batch[j]).message_id
    &&& batch.len() > 0 ==> forall|id: int| #[trigger]
        wanted(chat, options, id) && is_ahead(position, id) && id >= batch.last().message_id
            ==> state::came_back(batch, id as i32)
}

/// Whether a step lies between the arrival of a page and the end of it.
pub open spec fn is_within_page(step: Step) -> bool {
    step is Scanning || step is Planning || step is Starting || step is Polling || step is Windowing
        || step is Checking
}

/// Whether the dates of options are days of the calendar.
pub open spec fn has_calendar_dates(options: ExportOptions) -> bool {
    &&& options.date_from is Some ==> options.date_from->0.valid()
    &&& options.date_to is Some ==> options.date_to->0.valid()
}

/// What a scan that stands at `position` asks for.
pub open spec fn proper_request(
    options: ExportOptions,
    phase: Phase,
    position: Option<i32>,
) -> PageRequest {
    PageRequest {
        offset_id: position,
        before: if phase == Phase::Backfill && position is None && options.date_to is Some {
            Some((options.date_to->0.epoch_day() + 1) * 86400)
        } else {
            None
        },
    }
}

/// Whether nothing is lost on the way: a page is asked for where the scan stands, its messages are
/// gone through one by one, and what was passed was handed out.
pub open spec fn loses_nothing<H>(
    r: Reading<H>,
    chat: Map<int, ScannedMessage<H>>,
    options: ExportOptions,
) -> bool {
    let s = r.session;
    let reads = s.phase == Phase::Newer || s.phase == Phase::Backfill;
    let over = s.phase == Phase::Drain || s.phase == Phase::Sweep || s.phase == Phase::Close || s.phase
        == Phase::Done;
    &&& s.options == options
    &&& s.step == Step::Fetching && reads ==> r.request == Some(
        proper_request(options, s.phase, s.position),
    )
    &&& r.request is Some ==> s.step == Step::Fetching && reads
    &&& reads && is_within_page(s.step) ==> is_next_in_line(chat, options, s.position, s.batch)
    &&& forall|id: int| #[trigger] wanted(chat, options, id) && s.seen.contains(id) ==> r.handed.contains(id)
    &&& !s.moves() ==> {
        &&& s.phase == Phase::Backfill || over
        &&& s.phase == Phase::Backfill ==> forall|id: int| #[trigger]
            wanted(chat, options, id) && !is_ahead(s.position, id) ==> r.handed.contains(id)
        &&& over && !s.stop ==> forall|id: int| #[trigger]
            wanted(chat, options, id) ==> r.handed.contains(id)
    }
    &&& s.phase == Phase::Newer || s.phase == Phase::Promote ==> s.moves()
    &&& s.step == Step::Counting ==> s.phase == Phase::Promote
    &&& s.step == Step::Lookup ==> s.phase == Phase::Replay
    &&& s.step == Step::Fetching ==> reads || s.phase == Phase::Replay
}

/// What comes to a page that was asked for where the scan stands is next in line.
proof fn pages_are_next_in_line<H>(
    chat: Map<int, ScannedMessage<H>>,
    options: ExportOptions,
    phase: Phase,
    position: Option<i32>,
    page: Seq<ScannedMessage<H>>,
)
    requires
        is_chat(chat),
        has_calendar_dates(options),
        is_page(
            chat,
            proper_request(options, phase, position).offset_id,
            proper_request(options, phase, position).before,
            page,
        ),
    ensures
        is_next_in_line(chat, options, position, page),
        page.len() == 0 ==> forall|id: int| #[trigger]
            wanted(chat, options, id) ==> !is_ahead(position, id),
{
    let request = proper_request(options, phase, position);
    assert forall|id: int| #[trigger] wanted(chat, options, id) && is_ahead(position, id) implies asked_for(
        chat[id],
        request.offset_id,
        request.before,
    ) by {
        assert(chat.contains_key(id));
        if request.before is Some {
            let day = chat[id].date.civil_date();
            date::date_order_is_day_order(options.date_to->0, day);
        }
    }
    assert forall|i: int| 0 <= i < page.len() implies is_ahead(
        position,
        (#[trigger] page[i]).message_id as int,
    ) by {
        assert(asked_for(page[i], request.offset_id, request.before));
    }
}

/// Of the messages that are next in line, the first is the highest that is left.
proof fn first_in_line<H>(
    chat: Map<int, ScannedMessage<H>>,
    options: ExportOptions,
    position: Option<i32>,
    batch: Seq<ScannedMessage<H>>,
)
    requires
        is_chat(chat),
        is_next_in_line(chat, options, position, batch),
        batch.len() > 0,
    ensures
        chat.contains_key(batch[0].message_id as int),
        chat[batch[0].message_id as int] == batch[0],
        is_ahead(position, batch[0].message_id as int),
        forall|id: int| #[trigger]
            wanted(chat, options, id) && is_ahead(position, id) ==> id <= batch[0].message_id,
        is_next_in_line(chat, options, Some(batch[0].message_id), batch.drop_first()),
{
    let first = batch[0].message_id;
    let rest = batch.drop_first();
    assert(batch.last().message_id <= first) by {
        if batch.len() > 1 {
            assert(batch[0].message_id > batch[batch.len() - 1].message_id);
        }
    }
    assert forall|id: int| #[trigger] wanted(chat, options, id) && is_ahead(position, id) implies id
        <= first by {
        assert(chat[id].message_id == id);
        if id > first {
            assert(state::came_back(batch, id as i32));
            let i = choose|i: int| 0 <= i < batch.len() && (#[trigger] batch[i]).message_id == id as i32;
            if i > 0 {
                assert(batch[0].message_id > batch[i].message_id);
            }
        }
    }
    assert forall|i: int| 0 <= i < rest.len() implies {
        &&& chat.contains_key((#[trigger] rest[i]).message_id as int)
        &&& chat[rest[i].message_id as int] == rest[i]
        &&& is_ahead(Some(first), rest[i].message_id as int)
    } by {
        assert(rest[i] == batch[i + 1]);
        assert(batch[0].message_id > batch[i + 1].message_id);
    }
    assert forall|i: int, j: int| 0 <= i < j < rest.len() implies (#[trigger] rest[i]).message_id > (
    #[trigger] rest[j]).message_id by {
        assert(batch[i + 1].message_id > batch[j + 1].message_id);
    }
    if rest.len() > 0 {
        assert(rest.last() == batch.last());
        assert forall|id: int| #[trigger]
            wanted(chat, options, id) && is_ahead(Some(first), id) && id
                >= rest.last().message_id implies state::came_back(rest, id as i32) by {
            assert(chat[id].message_id == id);
            assert(is_ahead(position, id));
            assert(state::came_back(batch, id as i32));
            let i = choose|i: int| 0 <= i < batch.len() && (#[trigger] batch[i]).message_id == id as i32;
            assert(i > 0);
            assert(rest[i - 1].message_id == id as i32);
        }
    }
}

/// What `loses_nothing` says depends on the way of the scan alone.
proof fn same_way<H>(
    r: Reading<H>,
    t: Reading<H>,
    chat: Map<int, ScannedMessage<H>>,
    options: ExportOptions,
)
    requires
        loses_nothing(r, chat, options),
        t.session.options == r.session.options,
        t.session.phase == r.session.phase,
        t.session.step == r.session.step || (is_within_page(t.session.step) && is_within_page(
            r.session.step,
        )) || (!is_within_page(t.session.step) && t.session.step != Step::Fetching && r.session.step
            != Step::Fetching) || (r.session.step == Step::Lookup && t.session.step
            == Step::Scanning),
        t.session.step == r.session.step || (t.session.step != Step::Lookup && t.session.step
            != Step::Counting),
        t.session.position == r.session.position,
        t.session.batch == r.session.batch,
        t.session.seen == r.session.seen,
        t.session.stop == r.session.stop || t.session.stop,
        t.request == r.request,
        r.handed.subset_of(t.handed),
    ensures
        loses_nothing(t, chat, options),
{
}

proof fn newer_loses_nothing<H>(
    r: Reading<H>,
    shutdown: bool,
    chat: Map<int, ScannedMessage<H>>,
    options: ExportOptions,
)
    requires
        is_chat(chat),
        has_calendar_dates(options),
        loses_nothing(r, chat, options),
        r.session.outbox.len() == 0,
        r.session.phase == Phase::Newer,
    ensures
        loses_nothing(read_on(r, Event::Next { shutdown }), chat, options),
{
    let s = r.session;
    let t = read_on(r, Event::Next { shutdown });
    match s.step {
        Step::Scanning => {
            if s.batch.len() > 0 {
                first_in_line(chat, options, s.position, s.batch);
                let m = s.batch[0].message_id;
                if m <= s.old_high {
                    assert forall|id: int| #[trigger] wanted(chat, options, id) && t.session.seen.contains(id)
                        implies t.handed.contains(id) by {
                        if !s.seen.contains(id) {
                            assert(state::stretch(s.old_high + 1, s.position).contains(id));
                            assert(is_ahead(s.position, id));
                        }
                    }
                } else {
                    assert forall|id: int| #[trigger] wanted(chat, options, id) && t.session.seen.contains(id)
                        implies t.handed.contains(id) by {
                        if !s.seen.contains(id) && id != m {
                            assert(state::stretch(m as int, s.position).contains(id));
                            assert(is_ahead(s.position, id));
                        }
                    }
                }
            }
        },
        _ => {},
    }
}

proof fn backfill_loses_nothing<H>(
    r: Reading<H>,
    shutdown: bool,
    chat: Map<int, ScannedMessage<H>>,
    options: ExportOptions,
)
    requires
        is_chat(chat),
        has_calendar_dates(options),
        loses_nothing(r, chat, options),
        r.session.outbox.len() == 0,
        r.session.phase == Phase::Backfill,
    ensures
        loses_nothing(read_on(r, Event::Next { shutdown }), chat, options),
{
    let s = r.session;
    let t = read_on(r, Event::Next { shutdown });
    match s.step {
        Step::Scanning => {
            if s.batch.len() > 0 {
                first_in_line(chat, options, s.position, s.batch);
                let m = s.batch[0].message_id;
                let day = s.batch[0].date.civil_date();
                if scope::past_scope(m, day, options) && !scope::in_scope(m, day, options) {
                    assert forall|id: int| #[trigger] wanted(chat, options, id) && is_ahead(
                        s.position,
                        id,
                    ) implies false by {
                        assert(chat[id].message_id == id);
                        assert(id <= m);
                        assert(chat.contains_key(m as int));
                        let older = chat[id].date.civil_date();
                        date::date_order_is_day_order(older, day);
                        if older.epoch_day() == day.epoch_day() {
                            date::one_date_per_day(older, day);
                        }
                        scope::nothing_in_scope_is_cut_off(m, day, id as i32, older, options);
                    }
                } else {
                    assert forall|id: int| #[trigger] wanted(chat, options, id) && (t.session.seen.contains(id)
                        && !s.seen.contains(id) || !is_ahead(t.session.position, id) && is_ahead(
                        s.position,
                        id,
                    )) implies t.handed.contains(id) by {
                        if id != m {
                            if t.session.seen.contains(id) && !s.seen.contains(id) {
                                assert(state::stretch(m as int, s.position).contains(id));
                            }
                            assert(is_ahead(s.position, id));
                        }
                    }
                }
            }
        },
        _ => {},
    }
}

proof fn steps_lose_nothing<H>(
    r: Reading<H>,
    shutdown: bool,
    chat: Map<int, ScannedMessage<H>>,
    options: ExportOptions,
)
    requires
        is_chat(chat),
        has_calendar_dates(options),
        loses_nothing(r, chat, options),
    ensures
        loses_nothing(read_on(r, Event::Next { shutdown }), chat, options),
{
    if r.session.outbox.len() == 0 {
        match r.session.phase {
            Phase::Newer => newer_loses_nothing(r, shutdown, chat, options),
            Phase::Backfill => backfill_loses_nothing(r, shutdown, chat, options),
            Phase::Replay => {},
            Phase::Promote => {},
            Phase::Drain | Phase::Sweep => {},
            Phase::Close => {},
            Phase::Done => {},
        }
    }
}

proof fn pages_lose_nothing<H>(
    r: Reading<H>,
    page: Seq<ScannedMessage<H>>,
    chat: Map<int, ScannedMessage<H>>,
    options: ExportOptions,
)
    requires
        is_chat(chat),
        has_calendar_dates(options),
        loses_nothing(r, chat, options),
        is_fair(r, Event::Messages(page), chat),
    ensures
        loses_nothing(read_on(r, Event::Messages(page)), chat, options),
{
    let s = r.session;
    let t = read_on(r, Event::Messages(page));
    if s.step == Step::Fetching && (s.phase == Phase::Newer || s.phase == Phase::Backfill) {
        pages_are_next_in_line(chat, options, s.phase, s.position, page);
        if page.len() == 0 {
            assert forall|id: int| #[trigger] wanted(chat, options, id) && t.session.seen.contains(id)
                implies t.handed.contains(id) by {
                if !s.seen.contains(id) {
                    assert(state::rest_below(s.position).contains(id));
                    assert(is_ahead(s.position, id));
                }
            }
        }
    }
}

proof fn events_lose_nothing<H>(
    r: Reading<H>,
    event: Event<H>,
    chat: Map<int, ScannedMessage<H>>,
    options: ExportOptions,
)
    requires
        is_chat(chat),
        has_calendar_dates(options),
        loses_nothing(r, chat, options),
        is_fair(r, event, chat),
    ensures
        loses_nothing(read_on(r, event), chat, options),
{
    match event {
        Event::Next { shutdown } => steps_lose_nothing(r, shutdown, chat, options),
        Event::Messages(page) => pages_lose_nothing(r, page, chat, options),
        Event::RetryableCount(_) => {},
        _ => {
            same_way(r, read_on(r, event), chat, options);
        },
    }
}

proof fn starts_lose_nothing<H>(
    options: ExportOptions,
    checkpoint: CheckpointState,
    plan: Option<SavedPlan>,
    retry_ids: Seq<i32>,
    worker_cap: usize,
    window: usize,
    chat: Map<int, ScannedMessage<H>>,
)
    requires
        is_chat(chat),
    ensures
        loses_nothing(
            first_reading(options, checkpoint, plan, retry_ids, worker_cap, window),
            chat,
            options,
        ),
{
    let s = SessionState::<H>::initial(options, checkpoint, plan, retry_ids, worker_cap, window);
    if !s.moves() {
        assert forall|id: int| #[trigger] wanted(chat, options, id) implies is_ahead(s.position, id) by {
            assert(chat[id].message_id == id);
        }
    }
}

/// Whether a checkpoint that stands nowhere claims nothing.
pub open spec fn is_sensible(checkpoint: CheckpointState) -> bool {
    checkpoint.high_watermark_message_id is None ==> checkpoint.backfill_cursor_message_id is None
        && !checkpoint.backfill_complete
}

/// Whether no message of a chat has a higher identifier.
pub open spec fn is_top<H>(chat: Map<int, ScannedMessage<H>>, high: i32) -> bool {
    forall|id: int| #[trigger] chat.contains_key(id) ==> id <= high
}

/// Whether the watermark of an export that goes by the checkpoint is the top of the chat once the new
/// messages are read.
pub open spec fn reaches_the_top<H>(r: Reading<H>, chat: Map<int, ScannedMessage<H>>) -> bool {
    let s = r.session;
    let over = s.phase == Phase::Drain || s.phase == Phase::Sweep || s.phase == Phase::Close || s.phase
        == Phase::Done;
    &&& s.plan is Some ==> is_sensible(s.plan->0.checkpoint)
    &&& s.phase == Phase::Replay || s.phase == Phase::Promote ==> is_sensible(s.checkpoint)
    &&& s.phase == Phase::Newer ==> {
        &&& s.old_high <= s.newest
        &&& forall|id: int| #[trigger]
            chat.contains_key(id) && !is_ahead(s.position, id) ==> id <= s.newest
    }
    &&& s.moves() && s.phase == Phase::Backfill ==> match s.checkpoint.high_watermark_message_id {
        Some(high) => is_top(chat, high),
        None => s.position is None,
    }
    &&& s.moves() && over && !s.stop ==> match s.checkpoint.high_watermark_message_id {
        Some(high) => is_top(chat, high),
        None => forall|id: int| !#[trigger] chat.contains_key(id),
    }
}

/// In an export that goes by the checkpoint the first message in line is the highest that is left.
proof fn first_is_highest<H>(
    s: SessionState<H>,
    chat: Map<int, ScannedMessage<H>>,
    options: ExportOptions,
)
    requires
        is_chat(chat),
        s.options == options,
        s.moves(),
        s.batch.len() > 0,
        is_next_in_line(chat, options, s.position, s.batch),
    ensures
        is_ahead(s.position, s.batch[0].message_id as int),
        forall|id: int| #[trigger]
            chat.contains_key(id) && is_ahead(s.position, id) ==> id <= s.batch[0].message_id,
{
    first_in_line(chat, options, s.position, s.batch);
    assert forall|id: int| #[trigger] chat.contains_key(id) && is_ahead(s.position, id) implies id
        <= s.batch[0].message_id by {
        assert(wanted(chat, options, id));
    }
}

proof fn newer_reaches_the_top<H>(
    r: Reading<H>,
    shutdown: bool,
    chat: Map<int, ScannedMessage<H>>,
    options: ExportOptions,
)
    requires
        is_chat(chat),
        loses_nothing(r, chat, options),
        reaches_the_top(r, chat),
        r.session.outbox.len() == 0,
        r.session.phase == Phase::Newer,
    ensures
        reaches_the_top(read_on(r, Event::Next { shutdown }), chat),
{
    let s = r.session;
    if s.step == Step::Scanning && s.batch.len() > 0 {
        first_is_highest(s, chat, options);
    }
}

proof fn backfill_reaches_the_top<H>(
    r: Reading<H>,
    shutdown: bool,
    chat: Map<int, ScannedMessage<H>>,
    options: ExportOptions,
)
    requires
        is_chat(chat),
        loses_nothing(r, chat, options),
        reaches_the_top(r, chat),
        r.session.outbox.len() == 0,
        r.session.phase == Phase::Backfill,
    ensures
        reaches_the_top(read_on(r, Event::Next { shutdown }), chat),
{
    let s = r.session;
    if s.moves() && s.step == Step::Scanning && s.batch.len() > 0 {
        first_is_highest(s, chat, options);
    }
}

proof fn steps_reach_the_top<H>(
    r: Reading<H>,
    shutdown: bool,
    chat: Map<int, ScannedMessage<H>>,
    options: ExportOptions,
)
    requires
        is_chat(chat),
        loses_nothing(r, chat, options),
        reaches_the_top(r, chat),
    ensures
        reaches_the_top(read_on(r, Event::Next { shutdown }), chat),
{
    if r.session.outbox.len() == 0 {
        match r.session.phase {
            Phase::Newer => newer_reaches_the_top(r, shutdown, chat, options),
            Phase::Backfill => backfill_reaches_the_top(r, shutdown, chat, options),
            Phase::Replay => {},
            Phase::Promote => {},
            Phase::Drain | Phase::Sweep => {},
            Phase::Close => {},
            Phase::Done => {},
        }
    }
}

proof fn events_reach_the_top<H>(
    r: Reading<H>,
    event: Event<H>,
    chat: Map<int, ScannedMessage<H>>,
    options: ExportOptions,
)
    requires
        is_chat(chat),
        has_calendar_dates(options),
        loses_nothing(r, chat, options),
        reaches_the_top(r, chat),
        is_fair(r, event, chat),
    ensures
        reaches_the_top(read_on(r, event), chat),
{
    let s = r.session;
    match event {
        Event::Next { shutdown } => steps_reach_the_top(r, shutdown, chat, options),
        Event::Messages(page) => {
            if s.step == Step::Fetching && (s.phase == Phase::Newer || s.phase == Phase::Backfill)
                && s.moves() {
                pages_are_next_in_line(chat, options, s.phase, s.position, page);
                if page.len() == 0 {
                    assert forall|id: int| #[trigger] chat.contains_key(id) implies !is_ahead(
                        s.position,
                        id,
                    ) by {
                        assert(wanted(chat, options, id));
                    }
                }
            }
        },
        _ => {},
    }
}

/// What holds of an export at work against a chat.
pub open spec fn is_on_track<H>(
    r: Reading<H>,
    chat: Map<int, ScannedMessage<H>>,
    options: ExportOptions,
    checkpoint: CheckpointState,
    plan: Option<SavedPlan>,
) -> bool {
    &&& loses_nothing(r, chat, options)
    &&& laws::sound(r.session)
    &&& laws::thorough(r.session)
    &&& is_sensible(checkpoint) && (plan is Some ==> is_sensible(plan->0.checkpoint))
        ==> reaches_the_top(r, chat)
    &&& r.session.plan == plan
    &&& forall|id: int| #[trigger]
        r.session.trusted.contains(id) ==> is_vouched_for(checkpoint, plan, id)
}

/// Whether the checkpoint that an export starts from, or a plan, claims a message.
pub open spec fn is_vouched_for(
    checkpoint: CheckpointState,
    plan: Option<SavedPlan>,
    id: int,
) -> bool {
    state::claims(checkpoint, id) || plan is Some && state::claims(plan->0.checkpoint, id)
}

proof fn events_keep_track<H>(
    r: Reading<H>,
    event: Event<H>,
    chat: Map<int, ScannedMessage<H>>,
    options: ExportOptions,
    checkpoint: CheckpointState,
    plan: Option<SavedPlan>,
)
    requires
        is_chat(chat),
        has_calendar_dates(options),
        is_on_track(r, chat, options, checkpoint, plan),
        is_fair(r, event, chat),
    ensures
        is_on_track(read_on(r, event), chat, options, checkpoint, plan),
{
    let t = read_on(r, event);
    events_lose_nothing(r, event, chat, options);
    laws::exports_stay_sound(r.session, event);
    laws::exports_stay_thorough(r.session, event);
    if is_sensible(checkpoint) && (plan is Some ==> is_sensible(plan->0.checkpoint)) {
        events_reach_the_top(r, event, chat, options);
    }
    plans_and_trust_stay(r.session, event);
    assert forall|id: int| #[trigger] t.session.trusted.contains(id) implies is_vouched_for(
        checkpoint,
        plan,
        id,
    ) by {
        if !r.session.trusted.contains(id) {
            assert(state::claimed(plan->0.checkpoint).contains(id));
        }
    }
}

proof fn plans_and_trust_stay<H>(s: SessionState<H>, event: Event<H>)
    ensures
        laws::after(s, event).plan == s.plan,
        laws::after(s, event).trusted == s.trusted || (s.plan is Some && laws::after(s, event).trusted
            == s.trusted.union(state::claimed(s.plan->0.checkpoint))),
{
    match event {
        Event::Next { shutdown } => {
            if s.outbox.len() == 0 {
                match s.phase {
                    Phase::Newer => {},
                    Phase::Backfill => {},
                    Phase::Replay => {},
                    _ => {},
                }
            }
        },
        Event::Messages(_) => {},
        Event::Planned { .. } => {},
        Event::Finished { .. } => {},
        _ => {},
    }
}

proof fn runs_keep_track<H>(
    start: Reading<H>,
    events: Seq<Event<H>>,
    chat: Map<int, ScannedMessage<H>>,
    options: ExportOptions,
    checkpoint: CheckpointState,
    plan: Option<SavedPlan>,
)
    requires
        is_chat(chat),
        has_calendar_dates(options),
        is_on_track(start, chat, options, checkpoint, plan),
        is_fair_run(start, events, chat),
    ensures
        is_on_track(run(start, events), chat, options, checkpoint, plan),
    decreases events.len(),
{
    if events.len() > 0 {
        runs_keep_track(start, events.drop_last(), chat, options, checkpoint, plan);
        events_keep_track(
            run(start, events.drop_last()),
            events.last(),
            chat,
            options,
            checkpoint,
            plan,
        );
    }
}

/// Whatever happens in an export of a chat, no message is lost between its pages. A checkpoint that is
/// saved claims only messages that were handed out to be planned, or that were vouched for at the
/// start. An export that has gone through has handed out every message of the chat that is in scope:
/// all of them, but those vouched for, where it goes by the checkpoint.
pub proof fn exports_hand_out_every_message<H>(
    options: ExportOptions,
    checkpoint: CheckpointState,
    plan: Option<SavedPlan>,
    retry_ids: Seq<i32>,
    worker_cap: usize,
    window: usize,
    chat: Map<int, ScannedMessage<H>>,
    events: Seq<Event<H>>,
    id: int,
)
    requires
        is_chat(chat),
        has_calendar_dates(options),
        chat.contains_key(id),
        is_fair_run(
            first_reading(options, checkpoint, plan, retry_ids, worker_cap, window),
            events,
            chat,
        ),
    ensures
        ({
            let start = first_reading(options, checkpoint, plan, retry_ids, worker_cap, window);
            let end = run(start, events);
            let through = end.session.phase == Phase::Done && !end.session.stop;
            let vouched = is_vouched_for(checkpoint, plan, id);
            &&& scope::moves_checkpoint(options) && state::claims(end.session.durable, id)
                ==> end.handed.contains(id) || vouched
            &&& through && !scope::moves_checkpoint(options) && scope::in_scope(
                id as i32,
                chat[id].date.civil_date(),
                options,
            ) ==> end.handed.contains(id)
            &&& through && scope::moves_checkpoint(options) && is_sensible(checkpoint) && (plan is Some
                ==> is_sensible(plan->0.checkpoint)) ==> {
                &&& end.handed.contains(id) || vouched
                &&& state::claims(end.session.durable, id)
            }
        }),
{
    let start = first_reading(options, checkpoint, plan, retry_ids, worker_cap, window);
    let end = run(start, events);
    starts_lose_nothing(options, checkpoint, plan, retry_ids, worker_cap, window, chat);
    laws::new_exports_are_sound::<H>(options, checkpoint, plan, retry_ids, worker_cap, window);
    laws::new_exports_are_thorough::<H>(options, checkpoint, plan, retry_ids, worker_cap, window);
    runs_keep_track(start, events, chat, options, checkpoint, plan);
    let s = end.session;
    assert(wanted(chat, options, id) == scope::in_scope(
        id as i32,
        chat[id].date.civil_date(),
        options,
    ));
    if state::claims(s.durable, id) {
        assert(laws::covered(s, id));
    }
}

/// What the outside can tell a plan.
pub enum PlanEvent<H> {
    /// It is asked for its next step.
    Next { shutdown: bool },
    Messages(Seq<ScannedMessage<H>>),
    Planned { records: Seq<MediaItemView>, jobs: nat, kept: nat },
}

/// A plan at work: its state, the messages that it has handed out to be planned, and the request for a
/// page of the history that was not answered yet.
pub struct Planning<H> {
    pub session: PlanState<H>,
    pub handed: Set<int>,
    pub request: Option<PageRequest>,
}

/// What an event makes of a plan at work.
pub open spec fn plan_on<H>(r: Planning<H>, event: PlanEvent<H>) -> Planning<H> {
    match event {
        PlanEvent::Next { shutdown } => {
            let session = r.session.next(shutdown).0;
            match r.session.next(shutdown).1 {
                PlanActionView::Plan(message) => Planning {
                    session,
                    handed: r.handed.insert(message.message_id as int),
                    ..r
                },
                PlanActionView::FetchHistory { offset_id, before } => Planning {
                    session,
                    request: Some(PageRequest { offset_id, before }),
                    ..r
                },
                _ => Planning { session, ..r },
            }
        },
        PlanEvent::Messages(page) => Planning {
            session: r.session.with_messages(page),
            request: None,
            ..r
        },
        PlanEvent::Planned { records, jobs, kept } => Planning {
            session: r.session.with_plan(records, jobs, kept),
            ..r
        },
    }
}

/// Whether an event answers a request for history as the chat does.
pub open spec fn is_fair_to_plan<H>(
    r: Planning<H>,
    event: PlanEvent<H>,
    chat: Map<int, ScannedMessage<H>>,
) -> bool {
    event matches PlanEvent::Messages(page) ==> (r.request matches Some(request) ==> is_page(
        chat,
        request.offset_id,
        request.before,
        page,
    ))
}

/// A plan after some events.
pub open spec fn plan_run<H>(r: Planning<H>, events: Seq<PlanEvent<H>>) -> Planning<H>
    decreases events.len(),
{
    if events.len() == 0 {
        r
    } else {
        plan_on(plan_run(r, events.drop_last()), events.last())
    }
}

/// Whether requests for history were answered as the chat does throughout.
pub open spec fn is_fair_plan_run<H>(
    r: Planning<H>,
    events: Seq<PlanEvent<H>>,
    chat: Map<int, ScannedMessage<H>>,
) -> bool
    decreases events.len(),
{
    events.len() > 0 ==> {
        &&& is_fair_plan_run(r, events.drop_last(), chat)
        &&& is_fair_to_plan(plan_run(r, events.drop_last()), events.last(), chat)
    }
}

/// A plan at its start.
pub open spec fn first_planning<H>(options: ExportOptions, chat_id: i64, save_queue: bool) -> Planning<H> {
    Planning {
        session: PlanState::initial(options, chat_id, save_queue),
        handed: Set::<int>::empty(),
        request: None,
    }
}

/// Whether a plan asks for a page where it stands, goes through its messages one by one, and has handed
/// out what it has passed.
pub open spec fn plan_loses_nothing<H>(
    r: Planning<H>,
    chat: Map<int, ScannedMessage<H>>,
    options: ExportOptions,
) -> bool {
    let s = r.session;
    &&& s.options == options
    &&& s.phase is Fetching ==> r.request == Some(
        proper_request(options, Phase::Backfill, s.position),
    )
    &&& r.request is Some ==> s.phase is Fetching
    &&& s.phase is Scanning || s.phase is Planning || s.phase is Checking ==> is_next_in_line(
        chat,
        options,
        s.position,
        s.batch,
    )
    &&& forall|id: int| #[trigger] wanted(chat, options, id) && s.seen.contains(id) ==> r.handed.contains(id)
    &&& !(s.phase is Done) ==> forall|id: int| #[trigger]
        wanted(chat, options, id) && !is_ahead(s.position, id) ==> r.handed.contains(id)
    &&& s.phase is Done && !s.interrupted && options.limit is None ==> forall|id: int| #[trigger]
        wanted(chat, options, id) ==> r.handed.contains(id)
    &&& plan::plan_is_sound(s)
    &&& scope::unbounded(options) ==> plan_reaches_the_top(r, chat)
}

/// Whether the watermark of a plan for a whole chat is the top of the chat, and the plan says that the
/// history was read once it was.
pub open spec fn plan_reaches_the_top<H>(r: Planning<H>, chat: Map<int, ScannedMessage<H>>) -> bool {
    let s = r.session;
    &&& s.checkpoint.high_watermark_message_id matches Some(high) ==> is_top(chat, high)
    &&& s.checkpoint.high_watermark_message_id is None ==> match s.phase {
        PlanPhase::Planning { message_id } => is_top(chat, message_id),
        PlanPhase::Done => !s.interrupted && s.options.limit is None ==> forall|id: int|
            !#[trigger] chat.contains_key(id),
        PlanPhase::Checking => false,
        _ => s.position is None,
    }
    &&& s.phase is Done && !s.interrupted && s.options.limit is None
        ==> s.checkpoint.backfill_complete
}

proof fn plan_events_lose_nothing<H>(
    r: Planning<H>,
    event: PlanEvent<H>,
    chat: Map<int, ScannedMessage<H>>,
    options: ExportOptions,
)
    requires
        is_chat(chat),
        has_calendar_dates(options),
        plan_loses_nothing(r, chat, options),
        is_fair_to_plan(r, event, chat),
    ensures
        plan_loses_nothing(plan_on(r, event), chat, options),
{
    let s = r.session;
    let t = plan_on(r, event);
    match event {
        PlanEvent::Next { shutdown } => {
            plan::plans_stay_sound_next(s, shutdown);
            if s.outbox is None && s.phase is Scanning && s.batch.len() > 0 {
                first_in_line(chat, options, s.position, s.batch);
                if scope::unbounded(options) {
                    assert forall|id: int| #[trigger] chat.contains_key(id) && is_ahead(
                        s.position,
                        id,
                    ) implies id <= s.batch[0].message_id by {
                        assert(wanted(chat, options, id));
                    }
                }
                let m = s.batch[0].message_id;
                let day = s.batch[0].date.civil_date();
                if scope::past_scope(m, day, options) && !scope::in_scope(m, day, options) {
                    assert forall|id: int| #[trigger] wanted(chat, options, id) && is_ahead(
                        s.position,
                        id,
                    ) implies false by {
                        assert(chat[id].message_id == id);
                        assert(id <= m);
                        assert(chat.contains_key(m as int));
                        let older = chat[id].date.civil_date();
                        date::date_order_is_day_order(older, day);
                        if older.epoch_day() == day.epoch_day() {
                            date::one_date_per_day(older, day);
                        }
                        scope::nothing_in_scope_is_cut_off(m, day, id as i32, older, options);
                    }
                } else {
                    assert forall|id: int| #[trigger] wanted(chat, options, id) && (t.session.seen.contains(id)
                        && !s.seen.contains(id) || !is_ahead(t.session.position, id) && is_ahead(
                        s.position,
                        id,
                    )) implies t.handed.contains(id) by {
                        if id != m {
                            if t.session.seen.contains(id) && !s.seen.contains(id) {
                                assert(state::stretch(m as int, s.position).contains(id));
                            }
                            assert(is_ahead(s.position, id));
                        }
                    }
                }
            }
        },
        PlanEvent::Messages(page) => {
            plan::plans_stay_sound_messages(s, page);
            if s.phase is Fetching {
                pages_are_next_in_line(chat, options, Phase::Backfill, s.position, page);
                if page.len() == 0 && scope::unbounded(options) {
                    assert forall|id: int| #[trigger] chat.contains_key(id) implies !is_ahead(
                        s.position,
                        id,
                    ) by {
                        assert(wanted(chat, options, id));
                    }
                }
            }
        },
        PlanEvent::Planned { records, jobs, kept } => {
            plan::plans_stay_sound_planned(s, records, jobs, kept);
        },
    }
}

proof fn plan_runs_lose_nothing<H>(
    start: Planning<H>,
    events: Seq<PlanEvent<H>>,
    chat: Map<int, ScannedMessage<H>>,
    options: ExportOptions,
)
    requires
        is_chat(chat),
        has_calendar_dates(options),
        plan_loses_nothing(start, chat, options),
        is_fair_plan_run(start, events, chat),
    ensures
        plan_loses_nothing(plan_run(start, events), chat, options),
    decreases events.len(),
{
    if events.len() > 0 {
        plan_runs_lose_nothing(start, events.drop_last(), chat, options);
        plan_events_lose_nothing(plan_run(start, events.drop_last()), events.last(), chat, options);
    }
}

/// Whatever happens in a plan for a chat, no message is lost between its pages. Its checkpoint claims
/// only messages that were handed out to be planned, or are out of scope. A plan without a limit that
/// has gone through has handed out every message of the chat that is in scope; without bounds, its
/// checkpoint then claims the whole chat.
pub proof fn plans_hand_out_every_message<H>(
    options: ExportOptions,
    chat_id: i64,
    save_queue: bool,
    chat: Map<int, ScannedMessage<H>>,
    events: Seq<PlanEvent<H>>,
    id: int,
)
    requires
        is_chat(chat),
        has_calendar_dates(options),
        chat.contains_key(id),
        scope::in_scope(id as i32, chat[id].date.civil_date(), options),
        is_fair_plan_run(first_planning(options, chat_id, save_queue), events, chat),
    ensures
        ({
            let end = plan_run(first_planning(options, chat_id, save_queue), events);
            &&& state::claims(end.session.checkpoint, id) ==> end.handed.contains(id)
            &&& end.session.phase == PlanPhase::Done && !end.session.interrupted && options.limit is None
                ==> end.handed.contains(id) && (scope::unbounded(options) ==> state::claims(
                end.session.checkpoint,
                id,
            ))
        }),
{
    let start = first_planning::<H>(options, chat_id, save_queue);
    plan::new_plans_are_sound::<H>(options, chat_id, save_queue);
    assert forall|id: int| #[trigger] wanted(chat, options, id) implies is_ahead(
        start.session.position,
        id,
    ) by {
        assert(chat[id].message_id == id);
    }
    plan_runs_lose_nothing(start, events, chat, options);
    assert(wanted(chat, options, id));
}

} // verus!
