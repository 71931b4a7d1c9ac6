//! The worker-facing surface: leasing work and ingesting completed results.
//!
//! `get_work` polls the queue, drops messages that are malformed or whose
//! fingerprint already has a stored result, and hands the first surviving
//! descriptor to the worker. `post_result` validates a posted record,
//! overwrites its provenance from the authenticated token — never from the
//! body — frees the staged payload, and stores the record. Both are state
//! machines here; the surrounding binary performs the queue, store and HTTP
//! work.

use vstd::prelude::*;
use vstd::string::*;
use crate::model::{
    encode_recognition_result, is_valid_queue_item, is_valid_recognition_result,
    parse_queue_item, parse_scan_fields, sp_parse_queue_item, spec_result_json, spec_parse_scan,
    spec_valid_fields, spec_valid_queue_item, PamApiTokenPayload, RecognitionResult,
    ScanFields,
};
use crate::requests::staged_object_key;

verus! {

/// How many polls a lease request may spend.
pub const LEASE_ATTEMPTS: u8 = 50;

/// How a lease request ends.
pub enum WorkOutcome {
    /// The first surviving message, returned to the worker verbatim.
    Job { message: String },
    /// Every attempt came up empty or was dropped.
    NoWork,
    /// The queue itself failed a poll.
    QueueError,
}

/// The lease machine's states; each non-final state names one pending
/// outside action (see [`work_action`]).
pub enum WorkPollState {
    /// Receive-and-delete one message; `attempts_left` polls remain.
    Receiving { attempts_left: u8 },
    /// The queue was empty: pause before polling again.
    PollPause { attempts_left: u8 },
    /// A well-formed message arrived: consult the result store for its
    /// fingerprint before handing it out.
    DedupCheck { attempts_left: u8, message: String },
    /// The lease request is over.
    WorkDone { outcome: WorkOutcome },
}

/// The outside actions the lease machine asks for.
pub enum WorkAction {
    /// Receive and delete at most one message from the queue.
    ReceiveMessage,
    /// Sleep for the given number of milliseconds.
    PausePoll { millis: u64 },
    /// Read the stored record under the fingerprint from the result store.
    FetchStored { fingerprint: String },
}

/// What the performed action reported back.
pub enum WorkEvent {
    /// The queue's answer: a message body, the empty string when the queue
    /// was empty, or failure.
    Received { result: Result<String, ()> },
    /// The pause elapsed.
    PausedPoll,
    /// The stored record for the candidate's fingerprint, if any.
    DedupFetched { stored: Option<String> },
}

/// A message survives parsing when it is the canonical text of a descriptor
/// whose four members are all non-empty.
pub open spec fn spec_message_usable(s: String) -> bool {
    match sp_parse_queue_item(s@) {
        Some(q) => spec_valid_queue_item(q),
        None => false,
    }
}

/// The candidate message held by a dedup state is always usable.
pub open spec fn spec_poll_ok(s: WorkPollState) -> bool {
    match s {
        WorkPollState::DedupCheck { message, .. } => spec_message_usable(message),
        _ => true,
    }
}

/// The lease machine's transition function. An event that does not answer
/// the state's pending action leaves the state unchanged.
pub open spec fn spec_work_step(s: WorkPollState, e: WorkEvent) -> WorkPollState {
    match (s, e) {
        (WorkPollState::Receiving { attempts_left }, WorkEvent::Received { result }) => match result {
            Err(_) => WorkPollState::WorkDone { outcome: WorkOutcome::QueueError },
            Ok(msg) => {
                if msg@.len() == 0 {
                    WorkPollState::PollPause {
                        attempts_left: crate::coordinator::spec_dec(attempts_left),
                    }
                } else if spec_message_usable(msg) {
                    WorkPollState::DedupCheck {
                        attempts_left: crate::coordinator::spec_dec(attempts_left),
                        message: msg,
                    }
                } else if attempts_left <= 1 {
                    WorkPollState::WorkDone { outcome: WorkOutcome::NoWork }
                } else {
                    WorkPollState::Receiving {
                        attempts_left: crate::coordinator::spec_dec(attempts_left),
                    }
                }
            },
        },
        (WorkPollState::PollPause { attempts_left }, WorkEvent::PausedPoll) => if attempts_left
            == 0 {
            WorkPollState::WorkDone { outcome: WorkOutcome::NoWork }
        } else {
            WorkPollState::Receiving { attempts_left }
        },
        (
            WorkPollState::DedupCheck { attempts_left, message },
            WorkEvent::DedupFetched { stored },
        ) => match stored {
            Some(_) => if attempts_left == 0 {
                WorkPollState::WorkDone { outcome: WorkOutcome::NoWork }
            } else {
                WorkPollState::Receiving { attempts_left }
            },
            None => WorkPollState::WorkDone { outcome: WorkOutcome::Job { message } },
        },
        (other, _) => other,
    }
}

/// Drives the lease machine one step.
pub fn work_step(s: WorkPollState, e: WorkEvent) -> (r: WorkPollState)
    ensures
        r == spec_work_step(s, e),
        spec_poll_ok(s) ==> spec_poll_ok(r),
{
    match (s, e) {
        (WorkPollState::Receiving { attempts_left }, WorkEvent::Received { result }) => match result {
            Err(_) => WorkPollState::WorkDone { outcome: WorkOutcome::QueueError },
            Ok(msg) => {
                if msg.as_str().is_empty() {
                    WorkPollState::PollPause {
                        attempts_left: if attempts_left >= 1 {
                            attempts_left - 1
                        } else {
                            0
                        },
                    }
                } else {
                    let usable = match parse_queue_item(msg.as_str()) {
                        Some(q) => is_valid_queue_item(&q),
                        None => false,
                    };
                    if usable {
                        WorkPollState::DedupCheck {
                            attempts_left: if attempts_left >= 1 {
                                attempts_left - 1
                            } else {
                                0
                            },
                            message: msg,
                        }
                    } else if attempts_left <= 1 {
                        WorkPollState::WorkDone { outcome: WorkOutcome::NoWork }
                    } else {
                        WorkPollState::Receiving { attempts_left: attempts_left - 1 }
                    }
                }
            },
        },
        (WorkPollState::PollPause { attempts_left }, WorkEvent::PausedPoll) => {
            if attempts_left == 0 {
                WorkPollState::WorkDone { outcome: WorkOutcome::NoWork }
            } else {
                WorkPollState::Receiving { attempts_left }
            }
        },
        (
            WorkPollState::DedupCheck { attempts_left, message },
            WorkEvent::DedupFetched { stored },
        ) => match stored {
            Some(_) => {
                if attempts_left == 0 {
                    WorkPollState::WorkDone { outcome: WorkOutcome::NoWork }
                } else {
                    WorkPollState::Receiving { attempts_left }
                }
            },
            None => WorkPollState::WorkDone { outcome: WorkOutcome::Job { message } },
        },
        (other, _) => other,
    }
}

/// The outside action a lease state asks for.
pub fn work_action(s: &WorkPollState) -> (r: Option<WorkAction>)
    requires
        spec_poll_ok(*s),
    ensures
        (match s {
            WorkPollState::Receiving { .. } => r == Some(WorkAction::ReceiveMessage),
            WorkPollState::PollPause { .. } => (r matches Some(a)
                && a matches WorkAction::PausePoll { millis } && millis == 100),
            WorkPollState::DedupCheck { message, .. } => (r matches Some(a)
                && a matches WorkAction::FetchStored { fingerprint }
                && sp_parse_queue_item(message@) matches Some(q) && fingerprint@ == q.image_hash),
            WorkPollState::WorkDone { .. } => r is None,
        }),
{
    match s {
        WorkPollState::Receiving { .. } => Some(WorkAction::ReceiveMessage),
        WorkPollState::PollPause { .. } => Some(WorkAction::PausePoll { millis: 100 }),
        WorkPollState::DedupCheck { message, .. } => match parse_queue_item(message.as_str()) {
            Some(q) => Some(WorkAction::FetchStored { fingerprint: q.ImageHash }),
            None => None,
        },
        WorkPollState::WorkDone { .. } => None,
    }
}

/// The dedup filter drops a duplicate: when the store already holds a record
/// for the candidate's fingerprint, the message is never handed out — the
/// machine goes back to polling (or gives up), so each fingerprint's job
/// survives at most until its result exists.
pub proof fn lemma_duplicate_dropped(attempts_left: u8, message: String, stored: String)
    ensures
        spec_work_step(
            WorkPollState::DedupCheck { attempts_left, message },
            WorkEvent::DedupFetched { stored: Some(stored) },
        ) == (if attempts_left == 0 {
            WorkPollState::WorkDone { outcome: WorkOutcome::NoWork }
        } else {
            WorkPollState::Receiving { attempts_left }
        }),
{
}

/// A job is handed out only when the dedup probe found no stored result for
/// it: any step that first reaches a job outcome starts from a dedup state
/// whose probe came back empty, and hands out that state's own message.
pub proof fn lemma_job_needs_empty_probe(s: WorkPollState, e: WorkEvent)
    requires
        !(s is WorkDone),
        (spec_work_step(s, e) matches WorkPollState::WorkDone { outcome } && outcome is Job),
    ensures
        (s matches WorkPollState::DedupCheck { message, .. } && e == (WorkEvent::DedupFetched {
            stored: None,
        }) && spec_work_step(s, e) == (WorkPollState::WorkDone {
            outcome: WorkOutcome::Job { message },
        })),
{
}

/// Why a posted result is turned away.
#[derive(PartialEq, Eq, Structural, Clone, Copy, Debug)]
pub enum IngestReject {
    /// The caller's bearer did not authenticate.
    NotAuthenticated,
    /// The caller is authenticated but not one of the service's own workers.
    NotInternal,
    /// The bearer's claims are unusable: absent, or carrying no machine
    /// identity.
    BadClaims,
    /// The request carried no body.
    EmptyBody,
    /// The body is not JSON, not a result record, or fails the validator.
    BadRecord,
}

/// The ingestion machine's states.
pub enum IngestState {
    /// Free the staged payload under `{Key}.{DataExtension}`.
    RemovingStaged { record: RecognitionResult },
    /// Write the accepted record to the result store.
    Storing { record: RecognitionResult },
    /// The ingestion is over.
    IngestDone { reply: IngestReply },
}

/// How a finished ingestion answers the worker.
#[derive(PartialEq, Eq, Structural, Clone, Copy, Debug)]
pub enum IngestReply {
    /// The record was accepted and stored.
    Accepted,
    /// The staged payload could not be removed.
    RemoveFailed,
    /// The result store refused the record.
    StoreFailed,
}

/// The outside actions the ingestion machine asks for.
pub enum IngestAction {
    /// Delete the staged payload under the key.
    RemoveStagedObject { object_key: String },
    /// Store the record text under its key in the result store.
    StoreScan { record_json: String },
}

/// What the performed action reported back.
pub enum IngestEvent {
    /// Whether the staged payload was removed.
    StagedGone { ok: bool },
    /// Whether the result store accepted the record.
    Stored { ok: bool },
}

/// Records held by the machine are always valid.
pub open spec fn spec_ingest_ok(s: IngestState) -> bool {
    match s {
        IngestState::RemovingStaged { record } => spec_valid_fields(record@.fields),
        IngestState::Storing { record } => spec_valid_fields(record@.fields),
        IngestState::IngestDone { .. } => true,
    }
}

/// Examines a posted result and either opens an ingestion or turns the
/// caller away. The record that enters the machine keeps the body's payload
/// members, but its provenance is the authenticated caller's: the machine
/// identity comes from the token's claims and the provenance flag from the
/// role check, whatever the body said.
pub fn ingest_begin(
    authenticated: bool,
    internal: bool,
    claims: &Option<PamApiTokenPayload>,
    body: &String,
) -> (r: Result<IngestState, IngestReject>)
    ensures
        (match r {
            Ok(s) => {
                &&& authenticated
                &&& internal
                &&& (claims matches Some(c) && c.apiTokenMachineGuid@.len() > 0
                    && (s matches IngestState::RemovingStaged { record } && {
                    &&& spec_parse_scan(body@) matches Ok(f) && {
                        &&& spec_valid_fields(f)
                        &&& record@.fields.key == f.key
                        &&& record@.fields.scan_result == f.scan_result
                        &&& record@.fields.data_type == f.data_type
                        &&& record@.fields.data_extension == f.data_extension
                    }
                    &&& record@.fields.scan_machine_guid == c.apiTokenMachineGuid@
                    &&& record.is_user_scan == internal
                    &&& spec_valid_fields(record@.fields)
                }))
            },
            Err(IngestReject::NotAuthenticated) => !authenticated,
            Err(IngestReject::NotInternal) => authenticated && !internal,
            Err(IngestReject::BadClaims) => authenticated && internal && (match claims {
                Some(c) => c.apiTokenMachineGuid@.len() == 0,
                None => true,
            }),
            Err(IngestReject::EmptyBody) => authenticated && internal && (claims matches Some(c)
                && c.apiTokenMachineGuid@.len() > 0) && body@.len() == 0,
            Err(IngestReject::BadRecord) => authenticated && internal && (claims matches Some(c)
                && c.apiTokenMachineGuid@.len() > 0) && body@.len() > 0 && (match spec_parse_scan(
                body@,
            ) {
                Ok(f) => !spec_valid_fields(f),
                Err(_) => true,
            }),
        }),
{
    if !authenticated {
        return Err(IngestReject::NotAuthenticated);
    }
    if !internal {
        return Err(IngestReject::NotInternal);
    }
    let guid = match claims {
        Some(c) => {
            if c.apiTokenMachineGuid.as_str().is_empty() {
                return Err(IngestReject::BadClaims);
            }
            c.apiTokenMachineGuid.clone()
        },
        None => {
            return Err(IngestReject::BadClaims);
        },
    };
    if body.as_str().is_empty() {
        return Err(IngestReject::EmptyBody);
    }
    let fields = match parse_scan_fields(body.as_str()) {
        Ok(f) => f,
        Err(_) => {
            return Err(IngestReject::BadRecord);
        },
    };
    if !is_valid_recognition_result(&fields) {
        return Err(IngestReject::BadRecord);
    }
    let record = RecognitionResult {
        fields: ScanFields {
            key: fields.key,
            scan_result: fields.scan_result,
            data_type: fields.data_type,
            data_extension: fields.data_extension,
            scan_machine_guid: guid,
        },
        is_user_scan: internal,
    };
    Ok(IngestState::RemovingStaged { record })
}

/// The ingestion machine's transition function.
pub open spec fn spec_ingest_step(s: IngestState, e: IngestEvent) -> IngestState {
    match (s, e) {
        (IngestState::RemovingStaged { record }, IngestEvent::StagedGone { ok }) => if ok {
            IngestState::Storing { record }
        } else {
            IngestState::IngestDone { reply: IngestReply::RemoveFailed }
        },
        (IngestState::Storing { .. }, IngestEvent::Stored { ok }) => if ok {
            IngestState::IngestDone { reply: IngestReply::Accepted }
        } else {
            IngestState::IngestDone { reply: IngestReply::StoreFailed }
        },
        (other, _) => other,
    }
}

/// Drives the ingestion machine one step.
pub fn ingest_step(s: IngestState, e: IngestEvent) -> (r: IngestState)
    ensures
        r == spec_ingest_step(s, e),
        spec_ingest_ok(s) ==> spec_ingest_ok(r),
{
    match (s, e) {
        (IngestState::RemovingStaged { record }, IngestEvent::StagedGone { ok }) => {
            if ok {
                IngestState::Storing { record }
            } else {
                IngestState::IngestDone { reply: IngestReply::RemoveFailed }
            }
        },
        (IngestState::Storing { record }, IngestEvent::Stored { ok }) => {
            if ok {
                IngestState::IngestDone { reply: IngestReply::Accepted }
            } else {
                IngestState::IngestDone { reply: IngestReply::StoreFailed }
            }
        },
        (other, _) => other,
    }
}

/// The outside action an ingestion state asks for: the staged payload is
/// freed under exactly `{Key}.{DataExtension}` of the record being ingested,
/// and what is stored is exactly that record's canonical text.
pub fn ingest_action(s: &IngestState) -> (r: Option<IngestAction>)
    ensures
        (match s {
            IngestState::RemovingStaged { record } => (r matches Some(a)
                && a matches IngestAction::RemoveStagedObject { object_key } && object_key@
                == record@.fields.key + "."@ + record@.fields.data_extension),
            IngestState::Storing { record } => (r matches Some(a)
                && a matches IngestAction::StoreScan { record_json } && record_json@
                == spec_result_json(record@)),
            IngestState::IngestDone { .. } => r is None,
        }),
{
    match s {
        IngestState::RemovingStaged { record } => Some(
            IngestAction::RemoveStagedObject {
                object_key: staged_object_key(&record.fields.key, &record.fields.data_extension),
            },
        ),
        IngestState::Storing { record } => Some(
            IngestAction::StoreScan { record_json: encode_recognition_result(record) },
        ),
        IngestState::IngestDone { .. } => None,
    }
}

/// A record reaches the store only after its staged payload was freed: the
/// storing state arises from exactly one transition, the successful removal
/// of the staged object of that same record.
pub proof fn lemma_store_only_after_removal(s: IngestState, e: IngestEvent)
    requires
        !(s is Storing),
        spec_ingest_step(s, e) is Storing,
    ensures
        (s matches IngestState::RemovingStaged { record } && e == (IngestEvent::StagedGone {
            ok: true,
        }) && spec_ingest_step(s, e) == (IngestState::Storing { record })),
{
}

/// Every record the machine ever stores passes the validator: ingestion
/// starts only with a valid record, stepping preserves it, and the store
/// action carries the machine's own record.
pub proof fn lemma_stored_records_valid(s: IngestState, e: IngestEvent)
    requires
        spec_ingest_ok(s),
    ensures
        spec_ingest_ok(spec_ingest_step(s, e)),
        (s matches IngestState::Storing { record } ==> spec_valid_fields(record@.fields)),
{
}

} // verus!

verus! {

/// The states a lease run passes through, one step per event.
pub open spec fn spec_work_run(init: WorkPollState, events: Seq<WorkEvent>) -> Seq<WorkPollState>
    decreases events.len(),
{
    if events.len() == 0 {
        seq![init]
    } else {
        let prev = spec_work_run(init, events.drop_last());
        prev.push(spec_work_step(prev.last(), events.last()))
    }
}

/// A lease run has one more state than events, and each state follows from
/// the one before it by the transition function.
pub proof fn lemma_work_run_shape(init: WorkPollState, events: Seq<WorkEvent>)
    ensures
        spec_work_run(init, events).len() == events.len() + 1,
        spec_work_run(init, events)[0] == init,
        forall|i: int|
            0 <= i < events.len() ==> spec_work_run(init, events)[i + 1] == spec_work_step(
                #[trigger] spec_work_run(init, events)[i],
                events[i],
            ),
    decreases events.len(),
{
    if events.len() == 0 {
    } else {
        lemma_work_run_shape(init, events.drop_last());
        let prev = spec_work_run(init, events.drop_last());
        assert forall|i: int| 0 <= i < events.len() implies spec_work_run(init, events)[i + 1]
            == spec_work_step(#[trigger] spec_work_run(init, events)[i], events[i]) by {
            if i + 1 < events.len() {
                assert(spec_work_run(init, events)[i + 1] == prev[i + 1]);
                assert(spec_work_run(init, events)[i] == prev[i]);
                assert(events.drop_last()[i] == events[i]);
            } else {
                assert(prev.last() == prev[events.len() - 1]);
            }
        }
    }
}

/// The run-level dedup law: a lease run that hands a job out performed a
/// dedup probe that found no stored result for it. Each fingerprint's job
/// therefore survives the filter at most until its result exists.
pub proof fn lemma_leased_job_probed_empty(
    init: WorkPollState,
    events: Seq<WorkEvent>,
    j: int,
)
    requires
        !(init is WorkDone),
        0 <= j < spec_work_run(init, events).len(),
        (spec_work_run(init, events)[j] matches WorkPollState::WorkDone { outcome }
            && outcome is Job),
    ensures
        exists|i: int|
            0 <= i < j && ((#[trigger] spec_work_run(init, events)[i]) matches
                WorkPollState::DedupCheck { .. }) && events[i] == (WorkEvent::DedupFetched {
                stored: None,
            }),
    decreases j,
{
    lemma_work_run_shape(init, events);
    let run = spec_work_run(init, events);
    if j == 0 {
        assert(run[0] == init);
    } else {
        let prev = run[j - 1];
        assert(run[j] == spec_work_step(prev, events[j - 1]));
        if prev is WorkDone {
            assert(spec_work_step(prev, events[j - 1]) == prev);
            lemma_leased_job_probed_empty(init, events, j - 1);
        } else {
            lemma_job_needs_empty_probe(prev, events[j - 1]);
            assert(run[j - 1] matches WorkPollState::DedupCheck { .. } && events[j - 1] == (
            WorkEvent::DedupFetched { stored: None }));
        }
    }
}

} // verus!

verus! {

/// The states an ingestion run passes through, one step per event.
pub open spec fn spec_ingest_run(init: IngestState, events: Seq<IngestEvent>) -> Seq<IngestState>
    decreases events.len(),
{
    if events.len() == 0 {
        seq![init]
    } else {
        let prev = spec_ingest_run(init, events.drop_last());
        prev.push(spec_ingest_step(prev.last(), events.last()))
    }
}

/// An ingestion run has one more state than events, and each state follows
/// from the one before it by the transition function.
pub proof fn lemma_ingest_run_shape(init: IngestState, events: Seq<IngestEvent>)
    ensures
        spec_ingest_run(init, events).len() == events.len() + 1,
        spec_ingest_run(init, events)[0] == init,
        forall|i: int|
            0 <= i < events.len() ==> spec_ingest_run(init, events)[i + 1] == spec_ingest_step(
                #[trigger] spec_ingest_run(init, events)[i],
                events[i],
            ),
    decreases events.len(),
{
    if events.len() == 0 {
    } else {
        lemma_ingest_run_shape(init, events.drop_last());
        let prev = spec_ingest_run(init, events.drop_last());
        assert forall|i: int| 0 <= i < events.len() implies spec_ingest_run(init, events)[i + 1]
            == spec_ingest_step(#[trigger] spec_ingest_run(init, events)[i], events[i]) by {
            if i + 1 < events.len() {
                assert(spec_ingest_run(init, events)[i + 1] == prev[i + 1]);
                assert(spec_ingest_run(init, events)[i] == prev[i]);
                assert(events.drop_last()[i] == events[i]);
            } else {
                assert(prev.last() == prev[events.len() - 1]);
            }
        }
    }
}

/// The record an ingestion state carries, where it carries one.
pub open spec fn spec_record_is(s: IngestState, record: RecognitionResult) -> bool {
    match s {
        IngestState::RemovingStaged { record: r } => r == record,
        IngestState::Storing { record: r } => r == record,
        IngestState::IngestDone { .. } => true,
    }
}

/// The record an ingestion was opened with never changes along the run.
pub proof fn lemma_ingest_record_stable(
    record: RecognitionResult,
    events: Seq<IngestEvent>,
    j: int,
)
    requires
        0 <= j < spec_ingest_run(IngestState::RemovingStaged { record }, events).len(),
    ensures
        spec_record_is(spec_ingest_run(IngestState::RemovingStaged { record }, events)[j], record),
    decreases j,
{
    lemma_ingest_run_shape(IngestState::RemovingStaged { record }, events);
    if j > 0 {
        lemma_ingest_record_stable(record, events, j - 1);
    }
}

/// An accepted end always arises out of a successful store.
pub open spec fn spec_is_accepted(s: IngestState) -> bool {
    match s {
        IngestState::IngestDone { reply } => reply == IngestReply::Accepted,
        _ => false,
    }
}

pub proof fn lemma_accept_only_after_store(s: IngestState, e: IngestEvent)
    requires
        !spec_is_accepted(s),
        spec_is_accepted(spec_ingest_step(s, e)),
    ensures
        s is Storing,
        e == (IngestEvent::Stored { ok: true }),
{
}

/// A storing state arises only out of the successful removal of the staged
/// object of the very record the ingestion was opened with.
pub proof fn lemma_storing_follows_removal(
    record: RecognitionResult,
    events: Seq<IngestEvent>,
    j: int,
)
    requires
        0 <= j < spec_ingest_run(IngestState::RemovingStaged { record }, events).len(),
        spec_ingest_run(IngestState::RemovingStaged { record }, events)[j] is Storing,
    ensures
        exists|i: int|
            0 <= i < j && (#[trigger] spec_ingest_run(
                IngestState::RemovingStaged { record },
                events,
            )[i]) == (IngestState::RemovingStaged { record }) && events[i] == (
            IngestEvent::StagedGone { ok: true }),
    decreases j,
{
    let init = IngestState::RemovingStaged { record };
    lemma_ingest_run_shape(init, events);
    let run = spec_ingest_run(init, events);
    if j == 0 {
        assert(run[0] == init);
    } else {
        let prev = run[j - 1];
        assert(run[j] == spec_ingest_step(prev, events[j - 1]));
        if prev is Storing {
            lemma_storing_follows_removal(record, events, j - 1);
        } else {
            lemma_store_only_after_removal(prev, events[j - 1]);
            lemma_ingest_record_stable(record, events, j - 1);
            assert(run[j - 1] == (IngestState::RemovingStaged { record }));
        }
    }
}

/// The run-level staged-object law: an ingestion that ends accepted first
/// removed the staged object under `{Key}.{DataExtension}` of the record it
/// stored — the removal state's own action names exactly that key.
pub proof fn lemma_accepted_run_removed_staged(
    record: RecognitionResult,
    events: Seq<IngestEvent>,
    j: int,
)
    requires
        0 <= j < spec_ingest_run(IngestState::RemovingStaged { record }, events).len(),
        spec_is_accepted(spec_ingest_run(IngestState::RemovingStaged { record }, events)[j]),
    ensures
        exists|i: int|
            0 <= i < j && (#[trigger] spec_ingest_run(
                IngestState::RemovingStaged { record },
                events,
            )[i]) == (IngestState::RemovingStaged { record }) && events[i] == (
            IngestEvent::StagedGone { ok: true }),
    decreases j,
{
    let init = IngestState::RemovingStaged { record };
    lemma_ingest_run_shape(init, events);
    let run = spec_ingest_run(init, events);
    if j == 0 {
        assert(run[0] == init);
    } else {
        let prev = run[j - 1];
        assert(run[j] == spec_ingest_step(prev, events[j - 1]));
        if spec_is_accepted(prev) {
            lemma_accepted_run_removed_staged(record, events, j - 1);
        } else {
            lemma_accept_only_after_store(prev, events[j - 1]);
            lemma_storing_follows_removal(record, events, j - 1);
        }
    }
}

/// The run-level validity law: opened with a valid record, an ingestion
/// holds a valid record in every state it ever reaches, so whatever it
/// stores passes the validator.
pub proof fn lemma_ingest_run_valid(
    record: RecognitionResult,
    events: Seq<IngestEvent>,
    j: int,
)
    requires
        spec_valid_fields(record@.fields),
        0 <= j < spec_ingest_run(IngestState::RemovingStaged { record }, events).len(),
    ensures
        spec_ingest_ok(spec_ingest_run(IngestState::RemovingStaged { record }, events)[j]),
    decreases j,
{
    lemma_ingest_run_shape(IngestState::RemovingStaged { record }, events);
    if j > 0 {
        lemma_ingest_run_valid(record, events, j - 1);
        lemma_stored_records_valid(
            spec_ingest_run(IngestState::RemovingStaged { record }, events)[j - 1],
            events[j - 1],
        );
    }
}

} // verus!
