//! The job lifecycle coordinator.
//!
//! A submission is canonicalized and fingerprinted, then driven through a
//! state machine: look the fingerprint up in the result store; on a valid
//! stored record answer from the cache; otherwise stage the canonical
//! payload, enqueue a job descriptor, and poll the store until a worker's
//! result appears or the wait budget runs out. The machine itself performs
//! no I/O: each state names one outside action, the surrounding binary
//! performs it and feeds the outcome back as an event.

use vstd::prelude::*;
use vstd::string::*;
use crate::media::{
    canonicalize_image, compute_hash, get_image_extension, spec_fingerprint,
    spec_image_extension, spec_png_height, spec_png_signature, spec_png_width, spec_resized_png,
};
use crate::model::{
    encode_queue_item, is_valid_recognition_result, parse_scan_fields, spec_parse_scan,
    spec_queue_item_json, spec_valid_fields, JsonShapeError, WorkQueueData, WorkQueueDataV,
};
use crate::requests::{content_type_for, staged_object_key, worker_fetch_url};

verus! {

/// Everything the coordinator knows about one submission.
pub struct JobContext {
    /// Fingerprint of the canonical payload; the job's key everywhere.
    pub fingerprint: String,
    /// Sniffed extension of the canonical payload.
    pub extension: String,
    /// The canonical (resized, PNG-encoded) payload bytes.
    pub canonical: Vec<u8>,
    /// Object-store key of the staged payload: `{fingerprint}.{extension}`.
    pub object_key: String,
    /// Content type the payload is staged under: `image/{extension}`.
    pub content_type: String,
    /// URL a worker fetches the staged payload from.
    pub scan_url: String,
}

/// How a scan run ends.
pub enum ScanOutcome {
    /// A valid record was already stored; its text is returned unchanged.
    CacheHit { stored: String },
    /// A worker completed the job while we waited; its record is returned.
    Completed { stored: String },
    /// The payload could not be decoded as an image.
    BadImage,
    /// The canonical payload could not be staged.
    StageFailed,
    /// The job descriptor could not be enqueued.
    EnqueueFailed,
    /// The wait budget ran out before a result appeared.
    TimedOut,
}

/// The coordinator's states. Each non-final state stands for one pending
/// outside action (see [`coord_action`]).
pub enum CoordState {
    /// Fetch the stored record for the fingerprint.
    Lookup,
    /// Delete a stored record that failed validation during lookup.
    CorruptDelete,
    /// Write the canonical payload to the object store.
    Staging,
    /// Publish the job descriptor on the queue.
    Enqueuing,
    /// Enqueue failed: best-effort delete of the staged payload.
    EnqueueCleanup,
    /// Poll the store for the worker's result; `polls_left` polls remain.
    Waiting { polls_left: u8 },
    /// Delete an invalid record found while waiting, then keep polling.
    WaitDelete { polls_left: u8 },
    /// Pause between polls.
    WaitPause { polls_left: u8 },
    /// The run is over.
    Finished { outcome: ScanOutcome },
}

/// The outside actions the coordinator asks for.
pub enum CoordAction {
    /// Read the stored record under the fingerprint from the result store.
    FetchScan { fingerprint: String },
    /// Delete the stored record under the fingerprint.
    DeleteScan { fingerprint: String },
    /// Write the canonical payload under the key with the content type.
    StagePayload { object_key: String, bytes: Vec<u8>, content_type: String },
    /// Publish the message on the work queue.
    EnqueueJob { message: String },
    /// Delete the staged payload under the key.
    RemoveStaged { object_key: String },
    /// Sleep for the given number of milliseconds.
    Pause { millis: u64 },
}

/// What the performed action reported back.
pub enum CoordEvent {
    /// The stored record's text, or nothing on a miss or any store failure.
    ScanFetched { stored: Option<String> },
    /// Whether the delete went through; failure is logged, never fatal.
    ScanDeleted { ok: bool },
    /// Whether the payload was staged.
    Staged { ok: bool },
    /// Whether the descriptor was enqueued.
    Enqueued { ok: bool },
    /// Whether the staged payload was removed.
    StagedRemoved { ok: bool },
    /// The pause elapsed.
    Paused,
}

/// How many polls the wait budget grants.
pub const WAIT_POLLS: u8 = 10;

/// What a fetched record means for the cache path.
#[derive(PartialEq, Eq, Structural, Clone, Copy, Debug)]
pub enum CacheVerdict {
    /// The record is a valid result: answer with it.
    UseStored,
    /// The record is JSON of the wrong shape or fails the validator: delete
    /// it, then rescan.
    DeleteAndStage,
    /// The record is not JSON at all: rescan without touching it.
    StageOnly,
}

/// The verdict on a fetched record, as a function of its text.
pub open spec fn spec_cache_verdict(stored: String) -> CacheVerdict {
    match spec_parse_scan(stored@) {
        Ok(f) => if spec_valid_fields(f) {
            CacheVerdict::UseStored
        } else {
            CacheVerdict::DeleteAndStage
        },
        Err(e) => if e is NotJson {
            CacheVerdict::StageOnly
        } else {
            CacheVerdict::DeleteAndStage
        },
    }
}

/// Judges a fetched record.
pub fn cache_verdict(stored: &String) -> (r: CacheVerdict)
    ensures
        r == spec_cache_verdict(*stored),
{
    match parse_scan_fields(stored.as_str()) {
        Ok(f) => {
            if is_valid_recognition_result(&f) {
                CacheVerdict::UseStored
            } else {
                CacheVerdict::DeleteAndStage
            }
        },
        Err(JsonShapeError::NotJson) => CacheVerdict::StageOnly,
        Err(JsonShapeError::WrongShape) => CacheVerdict::DeleteAndStage,
    }
}

/// One poll is spent; the count never goes below zero.
pub open spec fn spec_dec(n: u8) -> u8 {
    if n >= 1 {
        (n - 1) as u8
    } else {
        0
    }
}

/// The coordinator's transition function. An event that does not answer the
/// state's pending action leaves the state unchanged, and a finished run
/// stays finished.
pub open spec fn spec_coord_step(s: CoordState, e: CoordEvent) -> CoordState {
    match (s, e) {
        (CoordState::Lookup, CoordEvent::ScanFetched { stored }) => match stored {
            Some(st) => match spec_cache_verdict(st) {
                CacheVerdict::UseStored => CoordState::Finished {
                    outcome: ScanOutcome::CacheHit { stored: st },
                },
                CacheVerdict::DeleteAndStage => CoordState::CorruptDelete,
                CacheVerdict::StageOnly => CoordState::Staging,
            },
            None => CoordState::Staging,
        },
        (CoordState::CorruptDelete, CoordEvent::ScanDeleted { .. }) => CoordState::Staging,
        (CoordState::Staging, CoordEvent::Staged { ok }) => if ok {
            CoordState::Enqueuing
        } else {
            CoordState::Finished { outcome: ScanOutcome::StageFailed }
        },
        (CoordState::Enqueuing, CoordEvent::Enqueued { ok }) => if ok {
            CoordState::Waiting { polls_left: WAIT_POLLS }
        } else {
            CoordState::EnqueueCleanup
        },
        (CoordState::EnqueueCleanup, CoordEvent::StagedRemoved { .. }) => CoordState::Finished {
            outcome: ScanOutcome::EnqueueFailed,
        },
        (CoordState::Waiting { polls_left }, CoordEvent::ScanFetched { stored }) => match stored {
            Some(st) => match spec_cache_verdict(st) {
                CacheVerdict::UseStored => CoordState::Finished {
                    outcome: ScanOutcome::Completed { stored: st },
                },
                _ => CoordState::WaitDelete { polls_left: spec_dec(polls_left) },
            },
            None => CoordState::WaitPause { polls_left: spec_dec(polls_left) },
        },
        (CoordState::WaitDelete { polls_left }, CoordEvent::ScanDeleted { .. }) => if polls_left
            == 0 {
            CoordState::Finished { outcome: ScanOutcome::TimedOut }
        } else {
            CoordState::Waiting { polls_left }
        },
        (CoordState::WaitPause { polls_left }, CoordEvent::Paused) => if polls_left == 0 {
            CoordState::Finished { outcome: ScanOutcome::TimedOut }
        } else {
            CoordState::Waiting { polls_left }
        },
        (other, _) => other,
    }
}

/// Drives the coordinator one step.
pub fn coord_step(s: CoordState, e: CoordEvent) -> (r: CoordState)
    ensures
        r == spec_coord_step(s, e),
{
    match (s, e) {
        (CoordState::Lookup, CoordEvent::ScanFetched { stored }) => match stored {
            Some(st) => match cache_verdict(&st) {
                CacheVerdict::UseStored => CoordState::Finished {
                    outcome: ScanOutcome::CacheHit { stored: st },
                },
                CacheVerdict::DeleteAndStage => CoordState::CorruptDelete,
                CacheVerdict::StageOnly => CoordState::Staging,
            },
            None => CoordState::Staging,
        },
        (CoordState::CorruptDelete, CoordEvent::ScanDeleted { .. }) => CoordState::Staging,
        (CoordState::Staging, CoordEvent::Staged { ok }) => {
            if ok {
                CoordState::Enqueuing
            } else {
                CoordState::Finished { outcome: ScanOutcome::StageFailed }
            }
        },
        (CoordState::Enqueuing, CoordEvent::Enqueued { ok }) => {
            if ok {
                CoordState::Waiting { polls_left: WAIT_POLLS }
            } else {
                CoordState::EnqueueCleanup
            }
        },
        (CoordState::EnqueueCleanup, CoordEvent::StagedRemoved { .. }) => CoordState::Finished {
            outcome: ScanOutcome::EnqueueFailed,
        },
        (CoordState::Waiting { polls_left }, CoordEvent::ScanFetched { stored }) => match stored {
            Some(st) => match cache_verdict(&st) {
                CacheVerdict::UseStored => CoordState::Finished {
                    outcome: ScanOutcome::Completed { stored: st },
                },
                _ => CoordState::WaitDelete {
                    polls_left: if polls_left >= 1 {
                        polls_left - 1
                    } else {
                        0
                    },
                },
            },
            None => CoordState::WaitPause {
                polls_left: if polls_left >= 1 {
                    polls_left - 1
                } else {
                    0
                },
            },
        },
        (CoordState::WaitDelete { polls_left }, CoordEvent::ScanDeleted { .. }) => {
            if polls_left == 0 {
                CoordState::Finished { outcome: ScanOutcome::TimedOut }
            } else {
                CoordState::Waiting { polls_left }
            }
        },
        (CoordState::WaitPause { polls_left }, CoordEvent::Paused) => {
            if polls_left == 0 {
                CoordState::Finished { outcome: ScanOutcome::TimedOut }
            } else {
                CoordState::Waiting { polls_left }
            }
        },
        (other, _) => other,
    }
}

/// The job descriptor the coordinator publishes for a submission.
pub open spec fn spec_job_descriptor(job: JobContext) -> WorkQueueDataV {
    WorkQueueDataV {
        image_hash: job.fingerprint@,
        scan_url: job.scan_url@,
        data_type: "image"@,
        data_extension: job.extension@,
    }
}

/// The outside action a state asks for. Only the enqueue states publish, and
/// the message is exactly the canonical text of the submission's descriptor.
pub fn coord_action(s: &CoordState, job: &JobContext) -> (r: Option<CoordAction>)
    ensures
        (match s {
            CoordState::Lookup => (r matches Some(a) && a matches CoordAction::FetchScan {
                fingerprint,
            } && fingerprint@ == job.fingerprint@),
            CoordState::CorruptDelete => (r matches Some(a)
                && a matches CoordAction::DeleteScan { fingerprint } && fingerprint@
                == job.fingerprint@),
            CoordState::Staging => (r matches Some(a) && a matches CoordAction::StagePayload {
                object_key,
                bytes,
                content_type,
            } && object_key@ == job.object_key@ && bytes@ == job.canonical@ && content_type@
                == job.content_type@),
            CoordState::Enqueuing => (r matches Some(a) && a matches CoordAction::EnqueueJob {
                message,
            } && message@ == spec_queue_item_json(spec_job_descriptor(*job))),
            CoordState::EnqueueCleanup => (r matches Some(a)
                && a matches CoordAction::RemoveStaged { object_key } && object_key@
                == job.object_key@),
            CoordState::Waiting { .. } => (r matches Some(a)
                && a matches CoordAction::FetchScan { fingerprint } && fingerprint@
                == job.fingerprint@),
            CoordState::WaitDelete { .. } => (r matches Some(a)
                && a matches CoordAction::DeleteScan { fingerprint } && fingerprint@
                == job.fingerprint@),
            CoordState::WaitPause { .. } => (r matches Some(a) && a matches CoordAction::Pause {
                millis,
            } && millis == 450),
            CoordState::Finished { .. } => r is None,
        }),
{
    match s {
        CoordState::Lookup => Some(
            CoordAction::FetchScan { fingerprint: job.fingerprint.clone() },
        ),
        CoordState::CorruptDelete => Some(
            CoordAction::DeleteScan { fingerprint: job.fingerprint.clone() },
        ),
        CoordState::Staging => Some(
            CoordAction::StagePayload {
                object_key: job.object_key.clone(),
                bytes: job.canonical.clone(),
                content_type: job.content_type.clone(),
            },
        ),
        CoordState::Enqueuing => {
            let descriptor = WorkQueueData {
                ImageHash: job.fingerprint.clone(),
                ScanUrl: job.scan_url.clone(),
                DataType: String::from_str("image"),
                DataExtension: job.extension.clone(),
            };
            let message = encode_queue_item(&descriptor);
            proof {
                assert(descriptor@ =~= spec_job_descriptor(*job));
            }
            Some(CoordAction::EnqueueJob { message })
        },
        CoordState::EnqueueCleanup => Some(
            CoordAction::RemoveStaged { object_key: job.object_key.clone() },
        ),
        CoordState::Waiting { .. } => Some(
            CoordAction::FetchScan { fingerprint: job.fingerprint.clone() },
        ),
        CoordState::WaitDelete { .. } => Some(
            CoordAction::DeleteScan { fingerprint: job.fingerprint.clone() },
        ),
        CoordState::WaitPause { .. } => Some(CoordAction::Pause { millis: 450 }),
        CoordState::Finished { .. } => None,
    }
}

/// Prepares a submission: canonicalize, fingerprint, sniff the extension,
/// and derive the staging names. Fails exactly when the payload does not
/// decode as an image; the machine then starts in [`CoordState::Lookup`].
pub fn begin_scan(body: &Vec<u8>, pam_url: &String) -> (r: Result<JobContext, ScanOutcome>)
    ensures
        (match r {
            Ok(job) => {
                &&& spec_resized_png(body@, 250, 250) == Some(job.canonical@)
                &&& spec_png_signature(job.canonical@)
                &&& spec_png_width(job.canonical@) <= 250
                &&& spec_png_height(job.canonical@) <= 250
                &&& job.fingerprint@ == spec_fingerprint(job.canonical@)
                &&& job.fingerprint@.len() == 128
                &&& job.extension@ == spec_image_extension(job.canonical@)
                &&& job.object_key@ == job.fingerprint@ + "."@ + job.extension@
                &&& job.content_type@ == "image/"@ + job.extension@
                &&& job.scan_url@ == pam_url@ + "/scan/v1/worker/get_image/"@ + job.object_key@
            },
            Err(o) => o is BadImage && spec_resized_png(body@, 250, 250) is None,
        }),
{
    let canonical = match canonicalize_image(body) {
        Some(c) => c,
        None => {
            return Err(ScanOutcome::BadImage);
        },
    };
    let fingerprint = compute_hash(&canonical);
    let extension = match get_image_extension(&canonical) {
        Some(e) => e,
        None => {
            return Err(ScanOutcome::BadImage);
        },
    };
    let object_key = staged_object_key(&fingerprint, &extension);
    let content_type = content_type_for(&extension);
    let scan_url = worker_fetch_url(pam_url, &object_key);
    Ok(JobContext { fingerprint, extension, canonical, object_key, content_type, scan_url })
}

/// The states a run passes through, starting at `init`, one step per event.
pub open spec fn spec_run(init: CoordState, events: Seq<CoordEvent>) -> Seq<CoordState>
    decreases events.len(),
{
    if events.len() == 0 {
        seq![init]
    } else {
        let prev = spec_run(init, events.drop_last());
        prev.push(spec_coord_step(prev.last(), events.last()))
    }
}

/// A run has one more state than events, and each state follows from the
/// one before it by the transition function.
pub proof fn lemma_run_shape(init: CoordState, events: Seq<CoordEvent>)
    ensures
        spec_run(init, events).len() == events.len() + 1,
        spec_run(init, events)[0] == init,
        forall|i: int|
            0 <= i < events.len() ==> spec_run(init, events)[i + 1] == spec_coord_step(
                #[trigger] spec_run(init, events)[i],
                events[i],
            ),
    decreases events.len(),
{
    if events.len() == 0 {
    } else {
        lemma_run_shape(init, events.drop_last());
        let prev = spec_run(init, events.drop_last());
        assert forall|i: int| 0 <= i < events.len() implies spec_run(init, events)[i + 1]
            == spec_coord_step(#[trigger] spec_run(init, events)[i], events[i]) by {
            if i + 1 < events.len() {
                assert(spec_run(init, events)[i + 1] == prev[i + 1]);
                assert(spec_run(init, events)[i] == prev[i]);
                assert(events.drop_last()[i] == events[i]);
            } else {
                assert(prev.last() == prev[events.len() - 1]);
            }
        }
    }
}

/// States from which a cache hit can no longer arise: everything but the
/// initial lookup, as long as the run has not already finished as a hit.
pub open spec fn spec_past_cache(s: CoordState) -> bool {
    &&& !(s is Lookup)
    &&& !(match s {
        CoordState::Finished { outcome } => outcome is CacheHit,
        _ => false,
    })
}

/// One step preserves being past the cache: no transition re-enters the
/// lookup state, and a cache hit only arises out of it.
pub proof fn lemma_step_past_cache(s: CoordState, e: CoordEvent)
    requires
        spec_past_cache(s),
    ensures
        spec_past_cache(spec_coord_step(s, e)),
{
}

/// Being past the cache persists to the end of the run.
pub proof fn lemma_past_cache_persists(init: CoordState, events: Seq<CoordEvent>, i: int, j: int)
    requires
        0 <= i <= j < spec_run(init, events).len(),
        spec_past_cache(spec_run(init, events)[i]),
    ensures
        spec_past_cache(spec_run(init, events)[j]),
    decreases j - i,
{
    if j > i {
        lemma_past_cache_persists(init, events, i, j - 1);
        lemma_run_shape(init, events);
        lemma_step_past_cache(spec_run(init, events)[j - 1], events[j - 1]);
    }
}

/// A request answered from the cache never enqueued a job: a run that ends
/// as a cache hit passed through no enqueue state, so no publish action was
/// ever asked for.
pub proof fn lemma_cache_hit_never_enqueues(events: Seq<CoordEvent>)
    requires
        (spec_run(CoordState::Lookup, events).last() matches CoordState::Finished { outcome }
            && outcome is CacheHit),
    ensures
        forall|i: int|
            0 <= i < spec_run(CoordState::Lookup, events).len() ==> !(#[trigger] spec_run(
                CoordState::Lookup,
                events,
            )[i] is Enqueuing),
{
    let run = spec_run(CoordState::Lookup, events);
    lemma_run_shape(CoordState::Lookup, events);
    assert forall|i: int| 0 <= i < run.len() implies !(#[trigger] run[i] is Enqueuing) by {
        if run[i] is Enqueuing {
            assert(spec_past_cache(run[i]));
            lemma_past_cache_persists(CoordState::Lookup, events, i, run.len() - 1);
            assert(spec_past_cache(run.last()));
        }
    }
}

/// A stored record that is JSON of the wrong shape or fails the validator is
/// deleted on the very next step, both on the lookup path and while waiting:
/// the machine moves to a delete state whose action removes exactly that
/// fingerprint's record, and then rescans or keeps polling.
pub proof fn lemma_invalid_record_deleted(stored: String, n: u8)
    requires
        spec_cache_verdict(stored) == CacheVerdict::DeleteAndStage,
    ensures
        spec_coord_step(CoordState::Lookup, CoordEvent::ScanFetched { stored: Some(stored) })
            == CoordState::CorruptDelete,
        spec_coord_step(
            CoordState::Waiting { polls_left: n },
            CoordEvent::ScanFetched { stored: Some(stored) },
        ) == (CoordState::WaitDelete { polls_left: spec_dec(n) }),
{
}

/// A run is answered from the cache exactly when the very first lookup
/// yields a record that parses and validates.
pub proof fn lemma_first_lookup_decides_cache(stored: String)
    ensures
        spec_cache_verdict(stored) == CacheVerdict::UseStored ==> spec_coord_step(
            CoordState::Lookup,
            CoordEvent::ScanFetched { stored: Some(stored) },
        ) == (CoordState::Finished { outcome: ScanOutcome::CacheHit { stored } }),
        spec_cache_verdict(stored) != CacheVerdict::UseStored ==> !(spec_coord_step(
            CoordState::Lookup,
            CoordEvent::ScanFetched { stored: Some(stored) },
        ) is Finished),
{
}

} // verus!
