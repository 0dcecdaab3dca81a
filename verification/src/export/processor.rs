//! What happens to one file: where it goes, when it is skipped, and how its download is retried.

use vstd::prelude::*;

use crate::date::Timestamp;
use crate::error::AppError;
use crate::error::Result;
use crate::export::plan::normalize_plan_output_dir;
use crate::fsutil;
use crate::media;
use crate::number;
use crate::path;
use crate::storage::{PersistedMediaItem, StoredMediaRecord};
use crate::text;
use crate::types::{FilenameMode, MediaDescriptor, MediaFilter, MediaKind, MediaStatus};

verus! {

/// How many paths are tried for one file.
pub const MAX_PATH_ATTEMPTS: u8 = 32;

/// What decides where the files of a chat go.
#[derive(Debug)]
pub struct MessageProcessor {
    pub media_filter: MediaFilter,
    pub chat_id: i64,
    pub chat_slug: String,
    /// The absolute path of the folder below which the files go.
    pub output_root: String,
    pub filename_mode: FilenameMode,
    pub temp_extension: String,
}

/// A file that is waiting to be downloaded.
#[derive(Debug)]
pub struct DownloadJob<H> {
    pub message_id: i32,
    pub kind: MediaKind,
    pub handle: H,
    pub scheduler_retry_round: u8,
    pub pending_record: PersistedMediaItem,
    pub temp_path: String,
}

impl<H: Copy> Clone for DownloadJob<H> {
    fn clone(&self) -> (copy: DownloadJob<H>)
        ensures
            copy == *self,
    {
        DownloadJob {
            message_id: self.message_id,
            kind: self.kind,
            handle: self.handle,
            scheduler_retry_round: self.scheduler_retry_round,
            pending_record: self.pending_record.clone(),
            temp_path: self.temp_path.clone(),
        }
    }
}

/// What is to be done with a file.
#[derive(Debug)]
pub enum MediaPlan<H> {
    Skip(PersistedMediaItem),
    Queue(DownloadJob<H>),
}

/// What has to be found out before it is clear what to do with a file.
#[derive(Debug)]
pub enum PlanStep<H> {
    /// Whether the file is tracked, by chat, message and key.
    FindRecord,
    /// Whether there is a file at the path, and its size.
    CheckFile(String),
    /// Whose tracked file the path is, and whether there is a file.
    ProbePath(String),
    /// Nothing: this is what to do.
    Done(MediaPlan<H>),
}

/// The file that is being planned, and how far that has got.
#[derive(Debug)]
pub struct MediaPlanner<H> {
    pub message_id: i32,
    pub message_date: Timestamp,
    pub media: MediaDescriptor<H>,
    pub existing: Option<StoredMediaRecord>,
    pub attempt: u8,
}

/// The first path that is tried for a file: named after message, date, kind and key, in the folder
/// of chat, kind, year and month.
pub open spec fn first_path<H>(
    processor: MessageProcessor,
    message_id: i32,
    date: Timestamp,
    media: MediaDescriptor<H>,
) -> Seq<char> {
    path::below(
        fsutil::media_directory(
            processor.output_root@,
            processor.chat_slug@,
            media.kind,
            date,
        ),
        media::file_name_text(
            message_id as int,
            date.civil_date(),
            media.kind,
            media::kept_stem(text::opt_text(media.original_name), processor.filename_mode),
            media.telegram_media_key@,
            media::chosen_extension(
                text::opt_text(media.original_name),
                text::opt_text(media.mime_type),
                media.kind,
            ),
        ),
    )
}

/// The name of a file whose first path is taken: the attempt and half of the key's suffix are put
/// behind the stem.
pub open spec fn variant_name(base: Seq<char>, key: Seq<char>, attempt: int) -> Seq<char> {
    let name = path::file_name(base);
    let stem = match name {
        Some(given) => path::stem(given),
        None => "file"@,
    };
    let head = stem + seq!['_'] + number::int_text(attempt) + seq!['_'] + media::suffix_text(key).take(8);
    match name {
        Some(given) => match path::extension(given) {
            Some(ext) => head + seq!['.'] + ext,
            None => head,
        },
        None => head,
    }
}

/// The path that is tried for a file at `attempt`.
pub open spec fn candidate_path(base: Seq<char>, key: Seq<char>, attempt: int) -> Seq<char> {
    if attempt == 0 {
        base
    } else {
        path::renamed(base, variant_name(base, key, attempt))
    }
}

/// Whether a tracked file is on disk as it was recorded: with the size of the record.
pub open spec fn is_current(record: StoredMediaRecord, size_on_disk: Option<u64>) -> bool {
    &&& size_on_disk is Some
    &&& record.file_size_bytes is Some
    &&& record.file_size_bytes->0 as int == size_on_disk->0 as int
}

/// Whether a path can be used for a file with this key: no other file is tracked there, and nothing
/// is on disk.
pub open spec fn is_free(owner: Option<Seq<char>>, key: Seq<char>, exists: bool) -> bool {
    (owner is Some ==> owner->0 == key) && !exists
}

/// The job that downloads a file to `path`, an absolute path.
pub open spec fn is_job_for<H>(
    job: DownloadJob<H>,
    processor: MessageProcessor,
    planner: MediaPlanner<H>,
    path: Seq<char>,
) -> bool {
    let record = job.pending_record;
    &&& job.message_id == planner.message_id
    &&& job.kind == planner.media.kind
    &&& job.handle == planner.media.handle
    &&& job.scheduler_retry_round == 0
    &&& job.temp_path@ == fsutil::sidecar(path, processor.temp_extension@)
    &&& record.chat_id == processor.chat_id
    &&& record.message_id == planner.message_id
    &&& record.message_date == planner.message_date
    &&& record.kind == planner.media.kind
    &&& record.telegram_media_key == planner.media.telegram_media_key
    &&& record.mime_type == planner.media.mime_type
    &&& record.file_size_bytes == planner.media.file_size_bytes
    &&& record.local_path@ == path
    &&& processor.valid() ==> path::is_rooted(path)
    &&& record.sha256 is None
    &&& record.status == MediaStatus::Pending
    &&& record.error_message is None
}

/// The record that keeps a saved file as it is.
pub open spec fn is_skip_record<H>(
    record: PersistedMediaItem,
    processor: MessageProcessor,
    planner: MediaPlanner<H>,
    existing: StoredMediaRecord,
) -> bool {
    &&& record.chat_id == processor.chat_id
    &&& record.message_id == planner.message_id
    &&& record.message_date == planner.message_date
    &&& record.kind == planner.media.kind
    &&& record.telegram_media_key == planner.media.telegram_media_key
    &&& record.mime_type == planner.media.mime_type
    &&& record.file_size_bytes == existing.file_size_bytes
    &&& record.local_path == existing.local_path
    &&& record.sha256 == existing.sha256
    &&& record.status == MediaStatus::SkippedExisting
    &&& record.error_message is None
}

impl MessageProcessor {
    /// Whether files go below an absolute path, so that they are found again whatever folder the
    /// next run is started in.
    pub open spec fn valid(self) -> bool {
        path::is_rooted(self.output_root@)
    }

    /// A processor for the files of a chat. The folder that they go to is kept as an absolute path:
    /// `canonical`, what the path leads to where it exists, or else `output_root` seen from
    /// `current_dir`, the folder that the program runs in.
    pub fn new(
        media_filter: MediaFilter,
        chat_id: i64,
        chat_title: &str,
        output_root: &str,
        current_dir: &str,
        canonical: Option<String>,
        filename_mode: FilenameMode,
        temp_extension: &str,
    ) -> (processor: MessageProcessor)
        ensures
            processor.valid() <== match canonical {
                Some(existing) => path::is_rooted(existing@),
                None => path::is_rooted(current_dir@),
            },
            processor.media_filter == media_filter,
            processor.chat_id == chat_id,
            processor.chat_slug@ == fsutil::chat_slug(chat_title@),
            processor.output_root@ == match canonical {
                Some(existing) => existing@,
                None => path::lexical(path::below(current_dir@, output_root@)),
            },
            processor.filename_mode == filename_mode,
            processor.temp_extension@ == temp_extension@,
    {
        proof {
            if path::is_rooted(current_dir@) {
                path::rooted_paths_stay_rooted(current_dir@, output_root@);
            }
            path::resolving_twice_is_resolving_once(path::below(current_dir@, output_root@));
        }
        MessageProcessor {
            media_filter,
            chat_id,
            chat_slug: fsutil::slugify_chat_title(chat_title),
            output_root: normalize_plan_output_dir(output_root, current_dir, canonical),
            filename_mode,
            temp_extension: temp_extension.to_string(),
        }
    }

    pub fn includes_kind(&self, kind: MediaKind) -> (yes: bool)
        ensures
            yes == self.media_filter.has(kind),
    {
        self.media_filter.contains(kind)
    }

    pub fn chat_id(&self) -> (id: i64)
        ensures
            id == self.chat_id,
    {
        self.chat_id
    }

    /// The files of a message that the export looks at, in order.
    pub fn select_media<H: Copy>(&self, media: &[MediaDescriptor<H>]) -> (list: Vec<MediaDescriptor<H>>)
        ensures
            list@ == selected(media@, self.media_filter),
    {
        let mut list: Vec<MediaDescriptor<H>> = Vec::new();
        let ghost wanted = |item: MediaDescriptor<H>| self.media_filter.has(item.kind);
        let mut i: usize = 0;
        proof {
            reveal(Seq::filter);
        }
        while i < media.len()
            invariant
                i <= media@.len(),
                wanted == |item: MediaDescriptor<H>| self.media_filter.has(item.kind),
                list@ == media@.take(i as int).filter(wanted),
            decreases media@.len() - i,
        {
            proof {
                reveal(Seq::filter);
                assert(media@.take(i + 1).drop_last() =~= media@.take(i as int));
                assert(media@.take(i + 1).last() == media@[i as int]);
            }
            if self.includes_kind(media[i].kind) {
                list.push(copy_media(&media[i]));
            }
            i += 1;
        }
        assert(media@.take(i as int) =~= media@);
        list
    }

    /// Starts to plan a file.
    pub fn plan_media<H>(
        &self,
        message_id: i32,
        message_date: Timestamp,
        media: MediaDescriptor<H>,
    ) -> (planned: (MediaPlanner<H>, PlanStep<H>))
        ensures
            planned.0.message_id == message_id,
            planned.0.message_date == message_date,
            planned.0.media == media,
            planned.0.existing is None,
            planned.0.attempt == 0,
            planned.1 is FindRecord,
    {
        (
            MediaPlanner { message_id, message_date, media, existing: None, attempt: 0 },
            PlanStep::FindRecord,
        )
    }

    fn base_path<H>(&self, planner: &MediaPlanner<H>) -> (out: String)
        ensures
            out@ == first_path(*self, planner.message_id, planner.message_date, planner.media),
    {
        let original: Option<&str> = match &planner.media.original_name {
            Some(name) => Some(name.as_str()),
            None => None,
        };
        let mime: Option<&str> = match &planner.media.mime_type {
            Some(mime) => Some(mime.as_str()),
            None => None,
        };
        let extension = media::choose_extension(original, mime, planner.media.kind);
        let file_name = media::build_filename(
            planner.message_id,
            planner.message_date.date(),
            planner.media.kind,
            original,
            planner.media.telegram_media_key.as_str(),
            extension.as_str(),
            self.filename_mode,
        );
        let directory = fsutil::build_media_directory(
            self.output_root.as_str(),
            self.chat_slug.as_str(),
            planner.media.kind,
            planner.message_date,
        );
        path::join(directory.as_str(), file_name.as_str())
    }

    fn candidate<H>(&self, planner: &MediaPlanner<H>) -> (out: String)
        ensures
            out@ == candidate_path(
                first_path(*self, planner.message_id, planner.message_date, planner.media),
                planner.media.telegram_media_key@,
                planner.attempt as int,
            ),
    {
        let base = self.base_path(planner);
        if planner.attempt == 0 {
            base
        } else {
            collision_variant(
                base.as_str(),
                planner.media.telegram_media_key.as_str(),
                planner.attempt,
            )
        }
    }

    /// Goes on when it is known whether the file is tracked. A file that was downloaded is looked
    /// for on disk; any other needs a path.
    pub fn on_record<H>(
        &self,
        planner: &mut MediaPlanner<H>,
        existing: Option<StoredMediaRecord>,
    ) -> (step: PlanStep<H>)
        ensures
            final(planner).message_id == old(planner).message_id,
            final(planner).message_date == old(planner).message_date,
            final(planner).media == old(planner).media,
            final(planner).attempt == 0,
            match existing {
                Some(record) if record.status == MediaStatus::Downloaded || record.status
                    == MediaStatus::SkippedExisting => {
                    &&& final(planner).existing == Some(record)
                    &&& step matches PlanStep::CheckFile(file) && file@ == record.local_path@
                },
                _ => {
                    &&& final(planner).existing is None
                    &&& step matches PlanStep::ProbePath(file) && file@ == first_path(
                        *self,
                        old(planner).message_id,
                        old(planner).message_date,
                        old(planner).media,
                    )
                },
            },
    {
        planner.attempt = 0;
        if let Some(record) = existing {
            if record.status == MediaStatus::Downloaded || record.status
                == MediaStatus::SkippedExisting {
                let file = record.local_path.clone();
                planner.existing = Some(record);
                return PlanStep::CheckFile(file);
            }
        }
        planner.existing = None;
        PlanStep::ProbePath(self.base_path(planner))
    }

    /// Goes on when it is known what is on disk for a tracked file. A file with the recorded size is
    /// kept; any other needs a path.
    pub fn on_file<H>(
        &self,
        planner: &mut MediaPlanner<H>,
        size_on_disk: Option<u64>,
    ) -> (step: PlanStep<H>)
        ensures
            final(planner).message_id == old(planner).message_id,
            final(planner).message_date == old(planner).message_date,
            final(planner).media == old(planner).media,
            final(planner).attempt == old(planner).attempt,
            final(planner).existing is None,
            match old(planner).existing {
                Some(record) if is_current(record, size_on_disk) => {
                    step matches PlanStep::Done(MediaPlan::Skip(item)) && is_skip_record(
                        item,
                        *self,
                        *old(planner),
                        record,
                    )
                },
                _ => {
                    step matches PlanStep::ProbePath(file) && file@ == candidate_path(
                        first_path(
                            *self,
                            old(planner).message_id,
                            old(planner).message_date,
                            old(planner).media,
                        ),
                        old(planner).media.telegram_media_key@,
                        old(planner).attempt as int,
                    )
                },
            },
    {
        if let Some(record) = planner.existing.take() {
            if verify_existing_record(&record, size_on_disk) {
                return PlanStep::Done(
                    MediaPlan::Skip(
                        PersistedMediaItem {
                            chat_id: self.chat_id,
                            message_id: planner.message_id,
                            message_date: planner.message_date,
                            kind: planner.media.kind,
                            telegram_media_key: planner.media.telegram_media_key.clone(),
                            mime_type: text::copy_opt(&planner.media.mime_type),
                            file_size_bytes: record.file_size_bytes,
                            local_path: record.local_path,
                            sha256: record.sha256,
                            status: MediaStatus::SkippedExisting,
                            error_message: None,
                        },
                    ),
                );
            }
        }
        PlanStep::ProbePath(self.candidate(planner))
    }

    /// Goes on when it is known what stands at the path that was probed. A free path is used; else
    /// the next one is probed, as long as there are attempts.
    pub fn on_probe<H: Copy>(
        &self,
        planner: &mut MediaPlanner<H>,
        owner: Option<String>,
        exists: bool,
    ) -> (step: Result<PlanStep<H>>)
        ensures
            final(planner).message_id == old(planner).message_id,
            final(planner).message_date == old(planner).message_date,
            final(planner).media == old(planner).media,
            final(planner).existing == old(planner).existing,
            ({
                let base = first_path(
                    *self,
                    old(planner).message_id,
                    old(planner).message_date,
                    old(planner).media,
                );
                let key = old(planner).media.telegram_media_key@;
                let attempt = old(planner).attempt;
                if is_free(text::opt_text(owner), key, exists) {
                    &&& final(planner).attempt == attempt
                    &&& step matches Ok(PlanStep::Done(MediaPlan::Queue(job))) && is_job_for(
                        job,
                        *self,
                        *old(planner),
                        candidate_path(base, key, attempt as int),
                    )
                } else if attempt + 1 < MAX_PATH_ATTEMPTS {
                    &&& final(planner).attempt == attempt + 1
                    &&& step matches Ok(PlanStep::ProbePath(file)) && file@ == candidate_path(
                        base,
                        key,
                        attempt + 1,
                    )
                } else {
                    &&& final(planner).attempt == attempt
                    &&& step matches Err(error) && error is Filesystem && error.detail()
                        == "could not resolve a deterministic collision-free destination path"@
                }
            }),
    {
        if path_is_available(&owner, planner.media.telegram_media_key.as_str(), exists) {
            let final_path = self.candidate(planner);
            proof {
                if self.valid() {
                    files_go_below_absolute_paths(
                        *self,
                        planner.message_id,
                        planner.message_date,
                        planner.media,
                        planner.attempt as int,
                    );
                }
            }
            let temp_path = fsutil::temp_sidecar_path(
                final_path.as_str(),
                self.temp_extension.as_str(),
            );
            return Ok(
                PlanStep::Done(
                    MediaPlan::Queue(
                        DownloadJob {
                            message_id: planner.message_id,
                            kind: planner.media.kind,
                            handle: planner.media.handle,
                            scheduler_retry_round: 0,
                            pending_record: PersistedMediaItem {
                                chat_id: self.chat_id,
                                message_id: planner.message_id,
                                message_date: planner.message_date,
                                kind: planner.media.kind,
                                telegram_media_key: planner.media.telegram_media_key.clone(),
                                mime_type: text::copy_opt(&planner.media.mime_type),
                                file_size_bytes: planner.media.file_size_bytes,
                                local_path: final_path,
                                sha256: None,
                                status: MediaStatus::Pending,
                                error_message: None,
                            },
                            temp_path,
                        },
                    ),
                ),
            );
        }
        if planner.attempt < MAX_PATH_ATTEMPTS - 1 {
            planner.attempt = planner.attempt + 1;
            Ok(PlanStep::ProbePath(self.candidate(planner)))
        } else {
            Err(
                AppError::Filesystem(
                    "could not resolve a deterministic collision-free destination path".to_string(),
                ),
            )
        }
    }
}

fn copy_media<H: Copy>(media: &MediaDescriptor<H>) -> (copy: MediaDescriptor<H>)
    ensures
        copy == *media,
{
    MediaDescriptor {
        kind: media.kind,
        telegram_media_key: media.telegram_media_key.clone(),
        mime_type: text::copy_opt(&media.mime_type),
        file_size_bytes: media.file_size_bytes,
        original_name: text::copy_opt(&media.original_name),
        handle: media.handle,
    }
}

/// Whether a tracked file is on disk as it was recorded.
pub fn verify_existing_record(record: &StoredMediaRecord, size_on_disk: Option<u64>) -> (yes: bool)
    ensures
        yes == is_current(*record, size_on_disk),
{
    match (size_on_disk, record.file_size_bytes) {
        (Some(actual), Some(expected)) => expected >= 0 && expected as u64 == actual,
        _ => false,
    }
}

/// Whether a path can be used for a file with this key.
pub fn path_is_available(owner: &Option<String>, telegram_media_key: &str, exists: bool) -> (yes: bool)
    ensures
        yes == is_free(text::opt_text(*owner), telegram_media_key@, exists),
{
    if let Some(key) = owner {
        if !text::same_text(key.as_str(), telegram_media_key) {
            return false;
        }
    }
    !exists
}

/// The path of a file whose first path is taken.
pub fn collision_variant(base_path: &str, telegram_media_key: &str, attempt: u8) -> (out: String)
    ensures
        out@ == path::renamed(
            base_path@,
            variant_name(base_path@, telegram_media_key@, attempt as int),
        ),
{
    let suffix = media::stable_suffix(telegram_media_key);
    let stem = match path::stem_of(base_path) {
        Some(stem) => stem,
        None => "file".to_string(),
    };
    let extension = path::extension_of(base_path);
    let mut name = stem;
    name.push('_');
    let digits = number::signed_decimal(attempt as i64);
    name.append(digits.as_str());
    name.push('_');
    let chars = text::chars_of(suffix.as_str());
    let half = text::slice_of(&chars, 0, 8);
    let extra = text::text_of(&half);
    assert(extra@ =~= media::suffix_text(telegram_media_key@).take(8));
    name.append(extra.as_str());
    if let Some(ext) = extension {
        name.push('.');
        name.append(ext.as_str());
    }
    assert(name@ =~= variant_name(base_path@, telegram_media_key@, attempt as int));
    path::with_name(base_path, name.as_str())
}

/// The files of a message that the export looks at.
pub open spec fn selected<H>(media: Seq<MediaDescriptor<H>>, filter: MediaFilter) -> Seq<
    MediaDescriptor<H>,
> {
    media.filter(|item: MediaDescriptor<H>| filter.has(item.kind))
}

/// What is to be done with the files of one message.
#[derive(Debug)]
pub struct PlannedMessage<H> {
    kinds: Vec<MediaKind>,
    initial_records: Vec<PersistedMediaItem>,
    jobs: Vec<DownloadJob<H>>,
    skipped: usize,
}

impl<H> PlannedMessage<H> {
    /// The kinds of the files, in order.
    pub closed spec fn found(self) -> Seq<MediaKind> {
        self.kinds@
    }

    /// The records to be written before anything is downloaded, one for each file.
    pub closed spec fn records(self) -> Seq<PersistedMediaItem> {
        self.initial_records@
    }

    /// The files to be downloaded.
    pub closed spec fn queue(self) -> Seq<DownloadJob<H>> {
        self.jobs@
    }

    /// How many files are kept as they are.
    pub closed spec fn kept(self) -> nat {
        self.skipped as nat
    }

    /// Every file is either kept or queued, and has one record.
    #[verifier::type_invariant]
    spec fn balanced(self) -> bool {
        &&& self.kinds@.len() == self.initial_records@.len()
        &&& self.kinds@.len() == self.skipped + self.jobs@.len()
    }

    pub fn new() -> (planned: PlannedMessage<H>)
        ensures
            planned.found() == Seq::<MediaKind>::empty(),
            planned.records() == Seq::<PersistedMediaItem>::empty(),
            planned.queue() == Seq::<DownloadJob<H>>::empty(),
            planned.kept() == 0,
    {
        PlannedMessage {
            kinds: Vec::new(),
            initial_records: Vec::new(),
            jobs: Vec::new(),
            skipped: 0,
        }
    }

    /// Adds what is to be done with the next file.
    pub fn include_plan(self, plan: MediaPlan<H>) -> (planned: PlannedMessage<H>)
        ensures
            match plan {
                MediaPlan::Skip(record) => {
                    &&& planned.found() == self.found().push(record.kind)
                    &&& planned.records() == self.records().push(record)
                    &&& planned.queue() == self.queue()
                    &&& planned.kept() == self.kept() + 1
                },
                MediaPlan::Queue(job) => {
                    &&& planned.found() == self.found().push(job.kind)
                    &&& planned.records() == self.records().push(job.pending_record)
                    &&& planned.queue() == self.queue().push(job)
                    &&& planned.kept() == self.kept()
                },
            },
    {
        proof {
            use_type_invariant(&self);
        }
        let mut kinds = self.kinds;
        let mut initial_records = self.initial_records;
        let mut jobs = self.jobs;
        let mut skipped: usize = self.skipped;
        match plan {
            MediaPlan::Skip(record) => {
                kinds.push(record.kind);
                initial_records.push(record);
                let grown: usize = kinds.len();
                skipped = grown - jobs.len();
            },
            MediaPlan::Queue(job) => {
                kinds.push(job.kind);
                initial_records.push(job.pending_record.clone());
                jobs.push(job);
            },
        }
        PlannedMessage { kinds, initial_records, jobs, skipped }
    }

    /// Takes the plan apart: kinds, records, jobs, and how many files are kept.
    pub fn take_apart(self) -> (parts: (
        Vec<MediaKind>,
        Vec<PersistedMediaItem>,
        Vec<DownloadJob<H>>,
        usize,
    ))
        ensures
            parts.0@ == self.found(),
            parts.1@ == self.records(),
            parts.2@ == self.queue(),
            parts.3 == self.kept(),
            parts.0@.len() == parts.1@.len(),
            parts.0@.len() == parts.3 + parts.2@.len(),
    {
        proof {
            use_type_invariant(&self);
        }
        (self.kinds, self.initial_records, self.jobs, self.skipped)
    }
}

/// What is done after a failed attempt to download a file.
#[derive(Debug)]
pub enum RetryDecision {
    /// The download has failed.
    GiveUp(AppError),
    /// Wait, then try again.
    RetryAfter { delay_ms: u64 },
}

/// The wait before the retry that follows `attempt`: it doubles with every attempt.
pub open spec fn retry_delay(backoff_ms: u64, attempt: nat) -> int {
    number::capped_u64(backoff_ms * number::capped_u64(vstd::arithmetic::power2::pow2(attempt) as int))
}

fn power_of_two(exponent: u32) -> (out: u64)
    ensures
        out == number::capped_u64(vstd::arithmetic::power2::pow2(exponent as nat) as int),
{
    let mut out: u64 = 1;
    let mut i: u32 = 0;
    proof {
        vstd::arithmetic::power2::lemma2_to64();
    }
    while i < exponent
        invariant
            i <= exponent,
            out == number::capped_u64(vstd::arithmetic::power2::pow2(i as nat) as int),
            vstd::arithmetic::power2::pow2(i as nat) > 0,
        decreases exponent - i,
    {
        proof {
            vstd::arithmetic::power2::lemma_pow2_unfold((i + 1) as nat);
        }
        out = if out > u64::MAX / 2 {
            u64::MAX
        } else {
            out * 2
        };
        i += 1;
    }
    out
}

/// The wait before the retry that follows `attempt`.
pub fn backoff_delay(backoff_ms: u64, attempt: u32) -> (delay_ms: u64)
    ensures
        delay_ms == retry_delay(backoff_ms, attempt as nat),
{
    let factor: u64 = power_of_two(attempt);
    proof {
        assert(backoff_ms * factor <= u64::MAX * u64::MAX) by (nonlinear_arith)
            requires
                backoff_ms <= u64::MAX,
                factor <= u64::MAX,
        ;
    }
    let product: u128 = backoff_ms as u128 * factor as u128;
    if product > u64::MAX as u128 {
        u64::MAX
    } else {
        product as u64
    }
}

/// Whether an error ends a download at once: a flood wait that is too long, or an interruption.
pub open spec fn is_final(error: AppError) -> bool {
    error is FloodWaitExceeded || error is Interrupted
}

/// Whether a download is given up that failed at `attempt`, counted from zero.
pub open spec fn gives_up(error: AppError, attempt: nat, retry_count: nat) -> bool {
    is_final(error) || attempt >= retry_count
}

/// Decides what follows a failed attempt. A flood wait that is too long and an interruption end the
/// download at once; any other error is retried until the retries are used up.
pub fn after_failed_attempt(
    error: AppError,
    attempt: u32,
    retry_count: u32,
    backoff_ms: u64,
) -> (decision: RetryDecision)
    ensures
        decision == if gives_up(error, attempt as nat, retry_count as nat) {
            RetryDecision::GiveUp(error)
        } else {
            RetryDecision::RetryAfter { delay_ms: retry_delay(backoff_ms, attempt as nat) as u64 }
        },
{
    let final_error: bool = match &error {
        AppError::FloodWaitExceeded { .. } | AppError::Interrupted(_) => true,
        _ => false,
    };
    if final_error || attempt >= retry_count {
        RetryDecision::GiveUp(error)
    } else {
        RetryDecision::RetryAfter { delay_ms: backoff_delay(backoff_ms, attempt) }
    }
}

/// The attempts to download one file.
#[derive(Debug)]
pub struct DownloadAttempts {
    /// How many attempts have failed.
    pub failed: u32,
    pub retry_count: u32,
    pub backoff_ms: u64,
}

impl DownloadAttempts {
    /// Before the first attempt.
    pub fn new(retry_count: u32, backoff_ms: u64) -> (attempts: DownloadAttempts)
        ensures
            attempts.failed == 0,
            attempts.retry_count == retry_count,
            attempts.backoff_ms == backoff_ms,
    {
        DownloadAttempts { failed: 0, retry_count, backoff_ms }
    }

    /// Takes in that an attempt has failed, and decides what follows.
    pub fn on_failure(&mut self, error: AppError) -> (decision: RetryDecision)
        ensures
            final(self).retry_count == old(self).retry_count,
            final(self).backoff_ms == old(self).backoff_ms,
            if gives_up(error, old(self).failed as nat, old(self).retry_count as nat) {
                &&& decision == RetryDecision::GiveUp(error)
                &&& final(self).failed == old(self).failed
            } else {
                &&& decision == (RetryDecision::RetryAfter {
                    delay_ms: retry_delay(old(self).backoff_ms, old(self).failed as nat) as u64,
                })
                &&& final(self).failed == old(self).failed + 1
            },
    {
        let decision = after_failed_attempt(error, self.failed, self.retry_count, self.backoff_ms);
        if let RetryDecision::RetryAfter { .. } = &decision {
            self.failed = self.failed + 1;
        }
        decision
    }
}

/// How many attempts are made, from `attempt` on, where each fails with its error.
pub open spec fn attempts_made(
    errors: spec_fn(nat) -> AppError,
    attempt: nat,
    retry_count: nat,
) -> nat
    decreases retry_count - attempt,
{
    if gives_up(errors(attempt), attempt, retry_count) {
        1
    } else {
        1 + attempts_made(errors, attempt + 1, retry_count)
    }
}

/// A download that fails whenever it is tried is tried once more than there are retries, and gives up
/// only then, unless an error ends it earlier.
pub proof fn retries_are_used_up(errors: spec_fn(nat) -> AppError, attempt: nat, retry_count: nat)
    requires
        attempt <= retry_count,
        forall|i: nat| attempt <= i < retry_count ==> !is_final(#[trigger] errors(i)),
    ensures
        attempts_made(errors, attempt, retry_count) == retry_count + 1 - attempt,
        forall|i: nat|
            attempt <= i < retry_count ==> !#[trigger] gives_up(errors(i), i, retry_count),
        gives_up(errors(retry_count), retry_count, retry_count),
    decreases retry_count - attempt,
{
    if attempt < retry_count {
        assert(!is_final(errors(attempt)));
        retries_are_used_up(errors, attempt + 1, retry_count);
        assert forall|i: nat| attempt <= i < retry_count implies !#[trigger] gives_up(
            errors(i),
            i,
            retry_count,
        ) by {
            assert(!is_final(errors(i)));
        }
    }
}

/// The first error that ends a download at once is the last attempt.
pub proof fn final_errors_end_downloads(errors: spec_fn(nat) -> AppError, last: nat, retry_count: nat)
    requires
        last <= retry_count,
        is_final(errors(last)),
        forall|i: nat| i < last ==> !is_final(#[trigger] errors(i)),
    ensures
        attempts_made(errors, 0, retry_count) == last + 1,
{
    final_errors_end_downloads_from(errors, 0, last, retry_count);
}

proof fn final_errors_end_downloads_from(
    errors: spec_fn(nat) -> AppError,
    attempt: nat,
    last: nat,
    retry_count: nat,
)
    requires
        attempt <= last <= retry_count,
        is_final(errors(last)),
        forall|i: nat| i < last ==> !is_final(#[trigger] errors(i)),
    ensures
        attempts_made(errors, attempt, retry_count) == last + 1 - attempt,
    decreases last - attempt,
{
    if attempt < last {
        assert(!is_final(errors(attempt)));
        final_errors_end_downloads_from(errors, attempt + 1, last, retry_count);
    }
}

/// The error of a download that was cancelled while it waited for a retry.
pub fn download_cancelled() -> (error: AppError)
    ensures
        error is Interrupted,
        error.detail() == "download cancelled by signal"@,
{
    AppError::Interrupted("download cancelled by signal".to_string())
}

/// The size of the downloaded file has to be the expected one, where that is known.
pub fn validate_download_size(
    actual_size_bytes: u64,
    expected_size_bytes: Option<i64>,
) -> (outcome: Result<()>)
    ensures
        match outcome {
            Ok(_) => expected_size_bytes is None || expected_size_bytes->0 < 0
                || expected_size_bytes->0 == actual_size_bytes,
            Err(error) => {
                &&& expected_size_bytes is Some
                &&& expected_size_bytes->0 >= 0
                &&& expected_size_bytes->0 != actual_size_bytes
                &&& error is Runtime
                &&& error.detail() == "downloaded size mismatch: expected "@ + number::int_text(
                    expected_size_bytes->0 as int,
                ) + " bytes, got "@ + number::nat_text(actual_size_bytes as nat) + " bytes"@
            },
        },
{
    let expected: i64 = match expected_size_bytes {
        Some(expected) => expected,
        None => {
            return Ok(());
        },
    };
    if expected < 0 || expected as u64 == actual_size_bytes {
        return Ok(());
    }
    let mut detail = "downloaded size mismatch: expected ".to_string();
    let wanted = number::signed_decimal(expected);
    detail.append(wanted.as_str());
    detail.append(" bytes, got ");
    let got = number::decimal(actual_size_bytes as u128);
    detail.append(got.as_str());
    detail.append(" bytes");
    Err(AppError::Runtime(detail))
}

/// A file's size in the integers of the state database.
pub fn i64_file_size(size: u64) -> (outcome: Result<i64>)
    ensures
        match outcome {
            Ok(stored) => stored == size,
            Err(error) => {
                &&& size > i64::MAX
                &&& error is Runtime
                &&& error.detail() == "file size "@ + number::nat_text(size as nat)
                    + " bytes is too large to store in the state database"@
            },
        },
{
    if size <= i64::MAX as u64 {
        return Ok(size as i64);
    }
    let mut detail = "file size ".to_string();
    let digits = number::decimal(size as u128);
    detail.append(digits.as_str());
    detail.append(" bytes is too large to store in the state database");
    Err(AppError::Runtime(detail))
}

/// A file that was downloaded completely.
#[derive(Debug)]
pub struct DownloadedFile {
    pub final_path: String,
    pub final_size_bytes: i64,
    pub sha256: String,
}

/// The record that a download leaves: the file where it succeeded, the error where it failed. Only a
/// flood wait that is too long is passed on instead of being recorded.
pub fn settle_download(
    base_record: PersistedMediaItem,
    result: Result<DownloadedFile>,
) -> (settled: Result<PersistedMediaItem>)
    ensures
        match result {
            Ok(file) => settled == Ok::<PersistedMediaItem, AppError>(
                PersistedMediaItem {
                    file_size_bytes: Some(file.final_size_bytes),
                    sha256: Some(file.sha256),
                    local_path: file.final_path,
                    status: MediaStatus::Downloaded,
                    error_message: None,
                    ..base_record
                },
            ),
            Err(error) => if error is FloodWaitExceeded {
                settled == Err::<PersistedMediaItem, AppError>(error)
            } else {
                settled matches Ok(record) && record.error_message is Some && record.error_message->0@
                    == error.text() && record == (PersistedMediaItem {
                    status: MediaStatus::Failed,
                    error_message: record.error_message,
                    ..base_record
                })
            },
        },
{
    match result {
        Ok(file) => Ok(
            PersistedMediaItem {
                file_size_bytes: Some(file.final_size_bytes),
                sha256: Some(file.sha256),
                local_path: file.final_path,
                status: MediaStatus::Downloaded,
                error_message: None,
                ..base_record
            },
        ),
        Err(error) => {
            let flood: bool = match &error {
                AppError::FloodWaitExceeded { .. } => true,
                _ => false,
            };
            if flood {
                Err(error)
            } else {
                let message = error.message();
                Ok(
                    PersistedMediaItem {
                        status: MediaStatus::Failed,
                        error_message: Some(message),
                        ..base_record
                    },
                )
            }
        },
    }
}

/// Each retry waits twice as long as the one before, as far as the clock goes.
pub proof fn waits_double(backoff_ms: u64, attempt: nat)
    ensures
        retry_delay(backoff_ms, attempt + 1) == number::capped_u64(2 * retry_delay(backoff_ms, attempt)),
{
    let power = vstd::arithmetic::power2::pow2(attempt) as int;
    vstd::arithmetic::power2::lemma_pow2_unfold(attempt + 1);
    vstd::arithmetic::power2::lemma_pow2_pos(attempt);
    let wait = backoff_ms as int;
    if 2 * power <= u64::MAX {
        assert(wait * (2 * power) == 2 * (wait * power)) by (nonlinear_arith);
        assert(wait * power >= 0) by (nonlinear_arith)
            requires
                wait >= 0,
                power >= 0,
        ;
    } else if wait >= 2 {
        assert(wait * number::capped_u64(power) > u64::MAX) by (nonlinear_arith)
            requires
                wait >= 2,
                number::capped_u64(power) * 2 > u64::MAX,
        ;
        assert(wait * u64::MAX >= u64::MAX) by (nonlinear_arith)
            requires
                wait >= 2,
        ;
    } else if wait == 1 {
        assert(1 * number::capped_u64(power) == number::capped_u64(power));
    } else {
        assert(0 * number::capped_u64(power) == 0);
        assert(0 * number::capped_u64(2 * power) == 0);
    }
}

/// Whatever path is tried for a file, it is an absolute one.
pub proof fn files_go_below_absolute_paths<H>(
    processor: MessageProcessor,
    message_id: i32,
    date: Timestamp,
    media: MediaDescriptor<H>,
    attempt: int,
)
    requires
        processor.valid(),
    ensures
        path::is_rooted(
            candidate_path(
                first_path(processor, message_id, date, media),
                media.telegram_media_key@,
                attempt,
            ),
        ),
{
    let chat = path::below(processor.output_root@, processor.chat_slug@);
    let kind = path::below(chat, media.kind.folder());
    let year = path::below(kind, fsutil::year_folder(date.civil_date().year as int));
    let month = path::below(year, number::padded_text(date.civil_date().month as nat, 2));
    let base = first_path(processor, message_id, date, media);
    path::rooted_paths_stay_rooted(processor.output_root@, processor.chat_slug@);
    path::rooted_paths_stay_rooted(chat, media.kind.folder());
    path::rooted_paths_stay_rooted(kind, fsutil::year_folder(date.civil_date().year as int));
    path::rooted_paths_stay_rooted(year, number::padded_text(date.civil_date().month as nat, 2));
    path::rooted_paths_stay_rooted(
        month,
        media::file_name_text(
            message_id as int,
            date.civil_date(),
            media.kind,
            media::kept_stem(text::opt_text(media.original_name), processor.filename_mode),
            media.telegram_media_key@,
            media::chosen_extension(
                text::opt_text(media.original_name),
                text::opt_text(media.mime_type),
                media.kind,
            ),
        ),
    );
    path::rooted_paths_stay_rooted(base, variant_name(base, media.telegram_media_key@, attempt));
}

/// No two attempts to find a free path for a file try the same path.
pub proof fn attempts_try_different_paths(base: Seq<char>, key: Seq<char>, first: int, second: int)
    requires
        0 < first < second,
    ensures
        candidate_path(base, key, first) != candidate_path(base, key, second),
{
    let x = variant_name(base, key, first);
    let y = variant_name(base, key, second);
    let a = number::int_text(first);
    let b = number::int_text(second);
    let name = path::file_name(base);
    let stem = match name {
        Some(given) => path::stem(given),
        None => "file"@,
    };
    let tail = seq!['_'] + media::suffix_text(key).take(8) + match name {
        Some(given) => match path::extension(given) {
            Some(ext) => seq!['.'] + ext,
            None => Seq::empty(),
        },
        None => Seq::empty(),
    };
    let front = stem + seq!['_'];
    assert(x =~= front + a + tail);
    assert(y =~= front + b + tail);
    if x == y {
        assert(a.len() == b.len());
        assert(x.subrange(front.len() as int, (front.len() + a.len()) as int) =~= a);
        assert(y.subrange(front.len() as int, (front.len() + b.len()) as int) =~= b);
        number::signed_decimal_reads_back(first);
        number::signed_decimal_reads_back(second);
    }
    let folder = if name is Some {
        path::parent(base)
    } else {
        base
    };
    assert(x[0] == front[0] && y[0] == front[0]);
    if x[0] != '/' {
        let before = if folder.len() == 0 || folder.last() == '/' {
            folder
        } else {
            folder.push('/')
        };
        if before + x == before + y {
            assert((before + x).skip(before.len() as int) =~= x);
            assert((before + y).skip(before.len() as int) =~= y);
        }
    }
}

proof fn everything_wanted_is_selected<H>(media: Seq<MediaDescriptor<H>>, filter: MediaFilter)
    ensures
        (forall|i: int| 0 <= i < media.len() ==> filter.has((#[trigger] media[i]).kind)) ==> selected(
            media,
            filter,
        ) == media,
    decreases media.len(),
{
    reveal(Seq::filter);
    if media.len() > 0 && (forall|i: int| 0 <= i < media.len() ==> filter.has((#[trigger] media[i]).kind)) {
        let init = media.drop_last();
        assert forall|i: int| 0 <= i < init.len() implies filter.has((#[trigger] init[i]).kind) by {
            assert(init[i] == media[i]);
        }
        everything_wanted_is_selected(init, filter);
        assert(filter.has(media[media.len() - 1].kind));
        assert(init.push(media.last()) =~= media);
    }
}

/// A tracked file is recognised by one size only: the recorded one. Without a recorded size, or without
/// a file, it is not.
pub proof fn files_are_recognised_by_their_size(record: StoredMediaRecord, size: u64)
    ensures
        is_current(record, Some(size)) <==> record.file_size_bytes is Some
            && record.file_size_bytes->0 as int == size as int,
        record.file_size_bytes is Some && (size as int) < record.file_size_bytes->0 as int
            ==> !is_current(record, Some(size)),
        record.file_size_bytes is Some && size as int > record.file_size_bytes->0 as int ==> !is_current(
            record,
            Some(size),
        ),
        !is_current(record, None),
{
}

/// A path is free exactly if nothing is there and no other file is tracked there: no file is written
/// over, and a file gets back the path that it is tracked at.
pub proof fn nothing_is_written_over(owner: Seq<char>, key: Seq<char>)
    ensures
        !is_free(None, key, true),
        !is_free(Some(owner), key, true),
        is_free(None, key, false),
        is_free(Some(key), key, false),
        is_free(Some(owner), key, false) <==> owner == key,
{
}

/// The files that are looked at are those of the message whose kind is wanted, in their order.
pub proof fn wanted_files_are_selected<H>(media: Seq<MediaDescriptor<H>>, filter: MediaFilter)
    ensures
        forall|item: MediaDescriptor<H>| #[trigger]
            selected(media, filter).contains(item) <==> media.contains(item) && filter.has(item.kind),
        (forall|i: int| 0 <= i < media.len() ==> filter.has((#[trigger] media[i]).kind)) ==> selected(
            media,
            filter,
        ) == media,
        selected(selected(media, filter), filter) == selected(media, filter),
{
    let wanted = |item: MediaDescriptor<H>| filter.has(item.kind);
    assert forall|item: MediaDescriptor<H>| #[trigger] selected(media, filter).contains(item)
        <==> media.contains(item) && filter.has(item.kind) by {
        if selected(media, filter).contains(item) {
            media.lemma_filter_contains_rev(wanted, item);
            let i = choose|i: int|
                0 <= i < selected(media, filter).len() && selected(media, filter)[i] == item;
            media.lemma_filter_pred(wanted, i);
        }
        if media.contains(item) && filter.has(item.kind) {
            let i = choose|i: int| 0 <= i < media.len() && media[i] == item;
            media.lemma_filter_contains(wanted, i);
        }
    }
    everything_wanted_is_selected(media, filter);
    let kept = selected(media, filter);
    assert forall|i: int| 0 <= i < kept.len() implies filter.has((#[trigger] kept[i]).kind) by {
        media.lemma_filter_pred(wanted, i);
    }
    everything_wanted_is_selected(kept, filter);
}

/// The first wait is as long as it is set, and no wait is shorter than the one before.
pub proof fn waits_start_with_the_setting(backoff_ms: u64, attempt: nat)
    ensures
        retry_delay(backoff_ms, 0) == backoff_ms,
        retry_delay(backoff_ms, attempt + 1) >= retry_delay(backoff_ms, attempt),
{
    vstd::arithmetic::power2::lemma2_to64();
    assert(backoff_ms * 1 == backoff_ms);
    waits_double(backoff_ms, attempt);
    vstd::arithmetic::power2::lemma_pow2_pos(attempt);
    let factor = number::capped_u64(vstd::arithmetic::power2::pow2(attempt) as int);
    assert(backoff_ms * factor >= 0) by (nonlinear_arith)
        requires
            backoff_ms >= 0,
            factor >= 0,
    ;
}

/// The first path of a file lies under the output folder by chat, kind, year and month, and names the
/// message and its day.
pub proof fn files_are_filed_by_chat_and_month<H>(
    processor: MessageProcessor,
    message_id: i32,
    date: Timestamp,
    media: MediaDescriptor<H>,
)
    requires
        processor.output_root@.len() > 0,
        processor.output_root@.last() != '/',
        processor.chat_slug@.len() > 0,
        processor.chat_slug@[0] != '/',
        processor.chat_slug@.last() != '/',
        date.civil_date().valid(),
        0 <= date.civil_date().year <= 9999,
    ensures
        ({
            let day = date.civil_date();
            let year = number::padded_text(day.year as nat, 4);
            let month = number::padded_text(day.month as nat, 2);
            let folder = processor.output_root@ + seq!['/'] + processor.chat_slug@ + seq!['/']
                + media.kind.folder() + seq!['/'] + year + seq!['/'] + month + seq!['/'];
            let first = first_path(processor, message_id, date, media);
            &&& text::starts_with(first, folder)
            &&& text::starts_with(
                first.skip(folder.len() as int),
                number::int_text(message_id as int) + seq!['_'] + day.text() + seq!['_'],
            )
            &&& candidate_path(first, media.telegram_media_key@, 0) == first
        }),
{
    let day = date.civil_date();
    let year = number::padded_text(day.year as nat, 4);
    let month = number::padded_text(day.month as nat, 2);
    let directory = processor.output_root@ + seq!['/'] + processor.chat_slug@ + seq!['/']
        + media.kind.folder() + seq!['/'] + year + seq!['/'] + month;
    let folder = directory + seq!['/'];
    fsutil::files_are_sorted_by_month(
        processor.output_root@,
        processor.chat_slug@,
        media.kind,
        date,
    );
    let name = media::file_name_text(
        message_id as int,
        day,
        media.kind,
        media::kept_stem(text::opt_text(media.original_name), processor.filename_mode),
        media.telegram_media_key@,
        media::chosen_extension(
            text::opt_text(media.original_name),
            text::opt_text(media.mime_type),
            media.kind,
        ),
    );
    let first = first_path(processor, message_id, date, media);
    number::padded_numbers_read_back(day.month as nat, 2);
    number::signed_decimal_reads_back(message_id as int);
    media::names_start_with_the_message(
        message_id as int,
        day,
        media.kind,
        media::kept_stem(text::opt_text(media.original_name), processor.filename_mode),
        media.telegram_media_key@,
        media::chosen_extension(
            text::opt_text(media.original_name),
            text::opt_text(media.mime_type),
            media.kind,
        ),
    );
    assert(text::is_ascii_digit(month[month.len() - 1]));
    assert(directory.last() == month.last());
    assert(first =~= folder + name);
    assert(first.take(folder.len() as int) =~= folder);
    assert(first.skip(folder.len() as int) =~= name);
}

/// Only a flood wait that is too long and an interruption end a download at once; with any other error
/// it is tried again as long as there are retries, and with these never.
pub proof fn most_errors_are_tried_again(error: AppError, attempt: nat, retry_count: nat)
    ensures
        error is Interrupted ==> gives_up(error, attempt, retry_count),
        error is FloodWaitExceeded ==> gives_up(error, attempt, retry_count),
        !(error is Interrupted) && !(error is FloodWaitExceeded) ==> (gives_up(error, attempt, retry_count)
            <==> attempt >= retry_count),
{
}

/// The record of a file that is kept says what was recorded before: the same path, size and hash, for the
/// same file of the same message.
pub proof fn kept_files_stay_as_they_are<H>(
    record: PersistedMediaItem,
    processor: MessageProcessor,
    planner: MediaPlanner<H>,
    existing: StoredMediaRecord,
)
    requires
        is_skip_record(record, processor, planner, existing),
    ensures
        record.local_path@ == existing.local_path@,
        record.file_size_bytes == existing.file_size_bytes,
        record.sha256 == existing.sha256,
        record.status == MediaStatus::SkippedExisting,
        record.error_message is None,
        record.chat_id == processor.chat_id,
        record.message_id == planner.message_id,
        record.message_date == planner.message_date,
        record.telegram_media_key@ == planner.media.telegram_media_key@,
        record.kind == planner.media.kind,
        record.mime_type == planner.media.mime_type,
{
}

/// A job downloads the file that was planned, beside the path where it goes, and its record tells of that
/// file and waits.
pub proof fn jobs_download_what_was_planned<H>(
    job: DownloadJob<H>,
    processor: MessageProcessor,
    planner: MediaPlanner<H>,
    path: Seq<char>,
)
    requires
        is_job_for(job, processor, planner, path),
        !processor.temp_extension@.contains('/'),
        processor.temp_extension@.len() > 0,
    ensures
        job.handle == planner.media.handle,
        job.message_id == planner.message_id,
        job.kind == planner.media.kind,
        job.pending_record.local_path@ == path,
        job.temp_path@ != path,
        job.pending_record.status == MediaStatus::Pending,
        job.pending_record.chat_id == processor.chat_id,
        job.pending_record.message_id == planner.message_id,
        job.pending_record.message_date == planner.message_date,
        job.pending_record.kind == planner.media.kind,
        job.pending_record.telegram_media_key@ == planner.media.telegram_media_key@,
        job.pending_record.file_size_bytes == planner.media.file_size_bytes,
        job.pending_record.sha256 is None,
{
    fsutil::unfinished_files_are_marked(path, processor.temp_extension@);
}

} // verus!
