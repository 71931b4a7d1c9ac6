use pamaxie_api::coordinator::{
    begin_scan, coord_action, coord_step, CoordAction, CoordEvent, CoordState, JobContext,
    ScanOutcome,
};
use pamaxie_api::credentials::{refresh_decision, RefreshStep};
use pamaxie_api::http_api::{
    auth_gate, bearer_token_of, check_api_reply, detect_image_gate, detect_url_gate,
    get_image_reply, incorrect_result_reply, ingest_reject_reply, ingest_reply_http,
    recognition_reply, status_body, unsupported_media_reply, url_bytes_failed_reply,
    url_fetch_failed_reply, work_outcome_reply,
};
use pamaxie_api::media::{canonicalize_image, compute_hash};
use pamaxie_api::model::{
    encode_queue_item, encode_recognition_result, parse_queue_item, PamApiTokenPayload,
    RecognitionResult, ScanFields, WorkQueueData,
};
use pamaxie_api::requests::{
    auth_check_request, content_type_for, get_scan_request, get_s3_response,
    internal_check_request, remove_s3_response, remove_scan_response, set_scan_request,
    set_scan_response, staged_object_key, status_request, store_s3_response, worker_fetch_url,
    HttpMethod,
};
use pamaxie_api::worker::{
    ingest_action, ingest_begin, ingest_step, work_action, work_step, IngestAction, IngestEvent,
    IngestReject, IngestReply, IngestState, WorkAction, WorkEvent, WorkOutcome, WorkPollState,
};

fn flow_png_bytes(w: u32, h: u32) -> Vec<u8> {
    let img = image::RgbaImage::from_pixel(w, h, image::Rgba([255, 0, 0, 255]));
    let dynimg = image::DynamicImage::ImageRgba8(img);
    let mut out: Vec<u8> = Vec::new();
    dynimg
        .write_to(&mut std::io::Cursor::new(&mut out), image::ImageFormat::Png)
        .expect("encoding a fresh image must work");
    out
}

fn begin(png: &Vec<u8>) -> JobContext {
    match begin_scan(png, &"https://api.example".to_string()) {
        Ok(job) => job,
        Err(_) => panic!("a valid PNG must begin a scan"),
    }
}

fn valid_record(key: &str, guid: &str) -> RecognitionResult {
    RecognitionResult {
        fields: ScanFields {
            key: key.to_string(),
            scan_result: "r".to_string(),
            data_type: "image".to_string(),
            data_extension: "png".to_string(),
            scan_machine_guid: guid.to_string(),
        },
        is_user_scan: true,
    }
}

fn worker_claims(guid: &str) -> PamApiTokenPayload {
    PamApiTokenPayload {
        ownerId: 1,
        isApiToken: true,
        apiTokenMachineGuid: guid.to_string(),
        projectId: 2,
        nbf: 0,
        exp: 0,
        iat: 0,
        iss: "issuer".to_string(),
    }
}

#[test]
fn begin_scan_derives_the_staging_names() {
    let png = flow_png_bytes(1, 1);
    let job = begin(&png);
    let canonical = canonicalize_image(&png).expect("valid PNG");
    assert_eq!(job.canonical, canonical);
    assert_eq!(job.fingerprint, compute_hash(&canonical));
    assert_eq!(job.extension, "png");
    assert_eq!(job.object_key, format!("{}.png", job.fingerprint));
    assert_eq!(job.content_type, "image/png");
    assert_eq!(
        job.scan_url,
        format!("https://api.example/scan/v1/worker/get_image/{}", job.object_key)
    );
}

#[test]
fn bad_payload_is_rejected_before_any_store_work() {
    let junk = vec![9u8; 1024];
    match begin_scan(&junk, &"https://api.example".to_string()) {
        Ok(_) => panic!("junk must not begin a scan"),
        Err(outcome) => {
            let reply = recognition_reply(outcome);
            assert_eq!(reply.status, 500);
            assert!(reply.body.contains("process your image"));
        },
    }
}

#[test]
fn cache_hit_answers_without_enqueuing() {
    let png = flow_png_bytes(1, 1);
    let job = begin(&png);
    let stored = encode_recognition_result(&valid_record(&job.fingerprint, "w1"));

    let state = CoordState::Lookup;
    match coord_action(&state, &job) {
        Some(CoordAction::FetchScan { fingerprint }) => assert_eq!(fingerprint, job.fingerprint),
        _ => panic!("lookup must fetch the stored record"),
    }
    let state = coord_step(state, CoordEvent::ScanFetched { stored: Some(stored.clone()) });
    match state {
        CoordState::Finished { outcome } => {
            match &outcome {
                ScanOutcome::CacheHit { stored: s } => assert_eq!(s, &stored),
                _ => panic!("a valid stored record must be a cache hit"),
            }
            let reply = recognition_reply(outcome);
            assert_eq!(reply.status, 200);
            assert_eq!(reply.body, stored);
            assert_eq!(reply.retry_after, None);
        },
        _ => panic!("the run must finish on a cache hit"),
    }
}

#[test]
fn miss_stages_enqueues_and_returns_the_posted_result() {
    let png = flow_png_bytes(1, 1);
    let job = begin(&png);

    let state = CoordState::Lookup;
    let state = coord_step(state, CoordEvent::ScanFetched { stored: None });
    match coord_action(&state, &job) {
        Some(CoordAction::StagePayload { object_key, bytes, content_type }) => {
            assert_eq!(object_key, job.object_key);
            assert_eq!(bytes, job.canonical);
            assert_eq!(content_type, "image/png");
        },
        _ => panic!("a miss must stage the canonical payload"),
    }
    let state = coord_step(state, CoordEvent::Staged { ok: true });
    let message = match coord_action(&state, &job) {
        Some(CoordAction::EnqueueJob { message }) => message,
        _ => panic!("staging must be followed by the enqueue"),
    };
    let descriptor = parse_queue_item(&message).expect("the queue message is canonical");
    assert_eq!(descriptor.ImageHash, job.fingerprint);
    assert_eq!(descriptor.ScanUrl, job.scan_url);
    assert_eq!(descriptor.DataType, "image");
    assert_eq!(descriptor.DataExtension, "png");

    let state = coord_step(state, CoordEvent::Enqueued { ok: true });
    match coord_action(&state, &job) {
        Some(CoordAction::FetchScan { fingerprint }) => assert_eq!(fingerprint, job.fingerprint),
        _ => panic!("waiting must poll the result store"),
    }
    let posted = encode_recognition_result(&valid_record(&job.fingerprint, "w1"));
    let state = coord_step(state, CoordEvent::ScanFetched { stored: Some(posted.clone()) });
    match state {
        CoordState::Finished { outcome } => {
            let reply = recognition_reply(outcome);
            assert_eq!(reply.status, 200);
            assert_eq!(reply.body, posted);
        },
        _ => panic!("a valid posted record must complete the run"),
    }
}

#[test]
fn exhausted_wait_is_the_soft_timeout() {
    let png = flow_png_bytes(1, 1);
    let job = begin(&png);

    let mut state = CoordState::Lookup;
    state = coord_step(state, CoordEvent::ScanFetched { stored: None });
    state = coord_step(state, CoordEvent::Staged { ok: true });
    state = coord_step(state, CoordEvent::Enqueued { ok: true });

    let mut polls = 0u32;
    let mut pauses = 0u32;
    loop {
        match coord_action(&state, &job) {
            Some(CoordAction::FetchScan { .. }) => {
                polls += 1;
                state = coord_step(state, CoordEvent::ScanFetched { stored: None });
            },
            Some(CoordAction::Pause { millis }) => {
                assert_eq!(millis, 450);
                pauses += 1;
                state = coord_step(state, CoordEvent::Paused);
            },
            None => break,
            _ => panic!("the wait only polls and pauses"),
        }
    }
    assert_eq!(polls, 10);
    assert_eq!(pauses, 10);
    match state {
        CoordState::Finished { outcome } => {
            assert!(matches!(outcome, ScanOutcome::TimedOut));
            let reply = recognition_reply(outcome);
            assert_eq!(reply.status, 200);
            assert_eq!(reply.retry_after, Some(60));
            assert!(reply.body.contains("timely manner"));
        },
        _ => panic!("the exhausted wait must finish"),
    }
}

#[test]
fn invalid_record_found_while_waiting_is_deleted() {
    let png = flow_png_bytes(1, 1);
    let job = begin(&png);

    let mut state = CoordState::Lookup;
    state = coord_step(state, CoordEvent::ScanFetched { stored: None });
    state = coord_step(state, CoordEvent::Staged { ok: true });
    state = coord_step(state, CoordEvent::Enqueued { ok: true });

    let broken = "{\"Key\":\"k\"}".to_string();
    state = coord_step(state, CoordEvent::ScanFetched { stored: Some(broken) });
    match coord_action(&state, &job) {
        Some(CoordAction::DeleteScan { fingerprint }) => assert_eq!(fingerprint, job.fingerprint),
        _ => panic!("an invalid record must be deleted"),
    }
    state = coord_step(state, CoordEvent::ScanDeleted { ok: true });
    match coord_action(&state, &job) {
        Some(CoordAction::FetchScan { .. }) => {},
        _ => panic!("after the delete the wait keeps polling"),
    }
}

#[test]
fn corrupt_cache_record_is_deleted_then_staged() {
    let png = flow_png_bytes(1, 1);
    let job = begin(&png);

    let state = CoordState::Lookup;
    let state = coord_step(
        state,
        CoordEvent::ScanFetched { stored: Some("{\"Key\":\"\"}".to_string()) },
    );
    match coord_action(&state, &job) {
        Some(CoordAction::DeleteScan { fingerprint }) => assert_eq!(fingerprint, job.fingerprint),
        _ => panic!("a corrupt cache record must be deleted"),
    }
    let state = coord_step(state, CoordEvent::ScanDeleted { ok: false });
    match coord_action(&state, &job) {
        Some(CoordAction::StagePayload { .. }) => {},
        _ => panic!("a failed delete still falls through to staging"),
    }
}

#[test]
fn failed_enqueue_cleans_up_the_staged_payload() {
    let png = flow_png_bytes(1, 1);
    let job = begin(&png);

    let mut state = CoordState::Lookup;
    state = coord_step(state, CoordEvent::ScanFetched { stored: None });
    state = coord_step(state, CoordEvent::Staged { ok: true });
    state = coord_step(state, CoordEvent::Enqueued { ok: false });
    match coord_action(&state, &job) {
        Some(CoordAction::RemoveStaged { object_key }) => assert_eq!(object_key, job.object_key),
        _ => panic!("a failed enqueue must free the staged payload"),
    }
    state = coord_step(state, CoordEvent::StagedRemoved { ok: true });
    match state {
        CoordState::Finished { outcome } => {
            let reply = recognition_reply(outcome);
            assert_eq!(reply.status, 500);
            assert!(reply.body.contains("queue"));
        },
        _ => panic!("a failed enqueue ends the run"),
    }
}

#[test]
fn failed_staging_is_a_server_error() {
    let state = coord_step(CoordState::Staging, CoordEvent::Staged { ok: false });
    match state {
        CoordState::Finished { outcome } => {
            let reply = recognition_reply(outcome);
            assert_eq!(reply.status, 500);
            assert!(reply.body.contains("S3"));
        },
        _ => panic!("a failed staging ends the run"),
    }
}

#[test]
fn empty_queue_for_the_whole_budget_is_no_work() {
    let mut state = WorkPollState::Receiving { attempts_left: 50 };
    let mut receives = 0u32;
    loop {
        match work_action(&state) {
            Some(WorkAction::ReceiveMessage) => {
                receives += 1;
                state = work_step(state, WorkEvent::Received { result: Ok(String::new()) });
            },
            Some(WorkAction::PausePoll { millis }) => {
                assert_eq!(millis, 100);
                state = work_step(state, WorkEvent::PausedPoll);
            },
            None => break,
            _ => panic!("an empty queue only receives and pauses"),
        }
    }
    assert_eq!(receives, 50);
    match state {
        WorkPollState::WorkDone { outcome } => {
            assert!(matches!(outcome, WorkOutcome::NoWork));
            let reply = work_outcome_reply(outcome);
            assert_eq!(reply.status, 400);
            assert!(reply.body.contains("could not poll any work"));
        },
        _ => panic!("the exhausted lease must finish"),
    }
}

#[test]
fn duplicate_job_is_dropped_and_fresh_job_is_leased() {
    let msg = encode_queue_item(&WorkQueueData {
        ImageHash: "fp1".to_string(),
        ScanUrl: "https://api.example/scan/v1/worker/get_image/fp1.png".to_string(),
        DataType: "image".to_string(),
        DataExtension: "png".to_string(),
    });

    let state = WorkPollState::Receiving { attempts_left: 50 };
    let state = work_step(state, WorkEvent::Received { result: Ok(msg.clone()) });
    match work_action(&state) {
        Some(WorkAction::FetchStored { fingerprint }) => assert_eq!(fingerprint, "fp1"),
        _ => panic!("a well-formed message must be dedup-checked"),
    }
    // A result already exists: the message is dropped and polling resumes.
    let state = work_step(
        state,
        WorkEvent::DedupFetched { stored: Some("{\"Key\":\"fp1\"}".to_string()) },
    );
    match work_action(&state) {
        Some(WorkAction::ReceiveMessage) => {},
        _ => panic!("a duplicate must be dropped, not handed out"),
    }

    // No result stored: the message survives and is handed out verbatim.
    let state = work_step(state, WorkEvent::Received { result: Ok(msg.clone()) });
    let state = work_step(state, WorkEvent::DedupFetched { stored: None });
    match state {
        WorkPollState::WorkDone { outcome } => {
            match &outcome {
                WorkOutcome::Job { message } => assert_eq!(message, &msg),
                _ => panic!("the surviving message is the job"),
            }
            let reply = work_outcome_reply(outcome);
            assert_eq!(reply.status, 200);
            assert_eq!(reply.body, msg);
        },
        _ => panic!("an empty probe hands the job out"),
    }
}

#[test]
fn malformed_and_incomplete_messages_are_dropped() {
    let state = WorkPollState::Receiving { attempts_left: 5 };
    let state = work_step(state, WorkEvent::Received { result: Ok("not json".to_string()) });
    assert!(matches!(state, WorkPollState::Receiving { attempts_left: 4 }));
    let empty_member = encode_queue_item(&WorkQueueData {
        ImageHash: String::new(),
        ScanUrl: "u".to_string(),
        DataType: "image".to_string(),
        DataExtension: "png".to_string(),
    });
    let state = work_step(state, WorkEvent::Received { result: Ok(empty_member) });
    assert!(matches!(state, WorkPollState::Receiving { attempts_left: 3 }));
}

#[test]
fn queue_failure_ends_the_lease() {
    let state = WorkPollState::Receiving { attempts_left: 50 };
    let state = work_step(state, WorkEvent::Received { result: Err(()) });
    match state {
        WorkPollState::WorkDone { outcome } => {
            let reply = work_outcome_reply(outcome);
            assert_eq!(reply.status, 500);
            assert!(reply.body.contains("poll messages"));
        },
        _ => panic!("a failed poll ends the lease"),
    }
}

#[test]
fn ingestion_overwrites_provenance_and_frees_the_staged_object() {
    let body = encode_recognition_result(&RecognitionResult {
        fields: ScanFields {
            key: "fp1".to_string(),
            scan_result: "r".to_string(),
            data_type: "image".to_string(),
            data_extension: "png".to_string(),
            scan_machine_guid: "FORGED".to_string(),
        },
        is_user_scan: false,
    });
    let claims = Some(worker_claims("w1"));
    let state = match ingest_begin(true, true, &claims, &body) {
        Ok(s) => s,
        Err(_) => panic!("a valid posted record opens an ingestion"),
    };
    match ingest_action(&state) {
        Some(IngestAction::RemoveStagedObject { object_key }) => assert_eq!(object_key, "fp1.png"),
        _ => panic!("ingestion first frees the staged payload"),
    }
    let state = ingest_step(state, IngestEvent::StagedGone { ok: true });
    match ingest_action(&state) {
        Some(IngestAction::StoreScan { record_json }) => {
            assert!(record_json.contains("\"ScanMachineGuid\":\"w1\""));
            assert!(record_json.contains("\"IsUserScan\":true"));
            assert!(!record_json.contains("FORGED"));
            assert!(record_json.contains("\"Key\":\"fp1\""));
        },
        _ => panic!("ingestion then stores the record"),
    }
    let state = ingest_step(state, IngestEvent::Stored { ok: true });
    match state {
        IngestState::IngestDone { reply } => {
            assert_eq!(reply, IngestReply::Accepted);
            let http = ingest_reply_http(reply);
            assert_eq!(http.status, 200);
            assert_eq!(http.body, "Data has been accepted and stored by our Db API");
        },
        _ => panic!("a stored record finishes the ingestion"),
    }
}

#[test]
fn ingestion_rejections_map_to_the_right_answers() {
    let claims = Some(worker_claims("w1"));
    let good_body = encode_recognition_result(&valid_record("fp1", "any"));

    match ingest_begin(false, false, &claims, &good_body) {
        Err(r) => {
            assert_eq!(r, IngestReject::NotAuthenticated);
            assert_eq!(ingest_reject_reply(r).status, 401);
        },
        Ok(_) => panic!("unauthenticated callers are turned away"),
    }
    match ingest_begin(true, false, &claims, &good_body) {
        Err(r) => {
            assert_eq!(r, IngestReject::NotInternal);
            let reply = ingest_reject_reply(r);
            assert_eq!(reply.status, 401);
            assert!(reply.body.contains("own clients"));
        },
        Ok(_) => panic!("external callers are turned away"),
    }
    match ingest_begin(true, true, &None, &good_body) {
        Err(r) => {
            assert_eq!(r, IngestReject::BadClaims);
            assert_eq!(ingest_reject_reply(r).status, 400);
        },
        Ok(_) => panic!("claims are required"),
    }
    match ingest_begin(true, true, &Some(worker_claims("")), &good_body) {
        Err(r) => assert_eq!(r, IngestReject::BadClaims),
        Ok(_) => panic!("an empty machine identity is unusable"),
    }
    match ingest_begin(true, true, &claims, &String::new()) {
        Err(r) => {
            assert_eq!(r, IngestReject::EmptyBody);
            assert_eq!(ingest_reject_reply(r).body, "No body found in request");
        },
        Ok(_) => panic!("an empty body is refused"),
    }
    match ingest_begin(true, true, &claims, &"not json".to_string()) {
        Err(r) => {
            assert_eq!(r, IngestReject::BadRecord);
            assert_eq!(ingest_reject_reply(r).body, "Invalid data found in request");
        },
        Ok(_) => panic!("non-JSON bodies are refused"),
    }
    let empty_member = encode_recognition_result(&RecognitionResult {
        fields: ScanFields {
            key: "fp1".to_string(),
            scan_result: String::new(),
            data_type: "image".to_string(),
            data_extension: "png".to_string(),
            scan_machine_guid: "g".to_string(),
        },
        is_user_scan: false,
    });
    match ingest_begin(true, true, &claims, &empty_member) {
        Err(r) => assert_eq!(r, IngestReject::BadRecord),
        Ok(_) => panic!("records failing the validator are refused"),
    }
}

#[test]
fn failed_removal_and_failed_store_are_server_errors() {
    let body = encode_recognition_result(&valid_record("fp1", "any"));
    let claims = Some(worker_claims("w1"));
    let state = match ingest_begin(true, true, &claims, &body) {
        Ok(s) => s,
        Err(_) => panic!("a valid posted record opens an ingestion"),
    };
    let state = ingest_step(state, IngestEvent::StagedGone { ok: false });
    match state {
        IngestState::IngestDone { reply } => {
            assert_eq!(reply, IngestReply::RemoveFailed);
            assert_eq!(ingest_reply_http(reply).status, 500);
        },
        _ => panic!("a failed removal ends the ingestion"),
    }

    let state = match ingest_begin(true, true, &claims, &body) {
        Ok(s) => s,
        Err(_) => panic!("a valid posted record opens an ingestion"),
    };
    let state = ingest_step(state, IngestEvent::StagedGone { ok: true });
    let state = ingest_step(state, IngestEvent::Stored { ok: false });
    match state {
        IngestState::IngestDone { reply } => {
            assert_eq!(reply, IngestReply::StoreFailed);
            let http = ingest_reply_http(reply);
            assert_eq!(http.status, 500);
            assert!(http.body.contains("could not be stored"));
        },
        _ => panic!("a refused store ends the ingestion"),
    }
}

#[test]
fn missing_authorization_header_sends_no_db_request() {
    let db = "https://db.example".to_string();
    assert!(auth_check_request(&db, &None).is_none());
    assert!(internal_check_request(&db, &None).is_none());

    let header = Some("Bearer tok".to_string());
    let req = auth_check_request(&db, &header).expect("a header yields a request");
    assert_eq!(req.url, "https://db.example/db/v1/scan/CanAuthenticate");
    assert_eq!(req.auth_header, Some("Bearer tok".to_string()));
    assert_eq!(req.method, HttpMethod::Get);
    let req = internal_check_request(&db, &header).expect("a header yields a request");
    assert_eq!(req.url, "https://db.example/db/v1/scan/IsInternalToken");
}

#[test]
fn store_requests_carry_the_token_and_key() {
    let db = "https://db.example".to_string();
    let token = "tok".to_string();
    let fp = "fp1".to_string();
    let req = get_scan_request(&db, &token, &fp);
    assert_eq!(req.url, "https://db.example/db/v1/scan/get=fp1");
    assert_eq!(req.auth_header, Some("Bearer tok".to_string()));
    let req = set_scan_request(&db, &token, &"{}".to_string());
    assert_eq!(req.url, "https://db.example/db/v1/scan/update");
    assert_eq!(req.body, Some("{}".to_string()));
    let probe = status_request(&db);
    assert_eq!(probe.url, "https://db.exampledb/v1/scan/CanConnect");
}

#[test]
fn reply_interpretation_matches_the_store_contracts() {
    assert!(set_scan_response(200));
    assert!(set_scan_response(204));
    assert!(!set_scan_response(401));
    assert!(!set_scan_response(500));
    assert!(remove_scan_response(204).is_ok());
    assert!(remove_scan_response(404).is_err());
    assert!(store_s3_response(200));
    assert!(!store_s3_response(204));
    assert!(remove_s3_response(204).is_ok());
    let err = remove_s3_response(404).unwrap_err();
    assert!(err.contains("could not be found"));
    assert_eq!(get_s3_response(200, vec![1, 2]), Some(vec![1, 2]));
    assert_eq!(get_s3_response(404, vec![1, 2]), None);
}

#[test]
fn staging_names_compose() {
    let key = staged_object_key(&"fp1".to_string(), &"png".to_string());
    assert_eq!(key, "fp1.png");
    assert_eq!(content_type_for(&"png".to_string()), "image/png");
    assert_eq!(
        worker_fetch_url(&"https://api.example".to_string(), &key),
        "https://api.example/scan/v1/worker/get_image/fp1.png"
    );
}

#[test]
fn gates_answer_as_specified() {
    match auth_gate(false) {
        Some(reply) => {
            assert_eq!(reply.status, 401);
            assert!(reply.body.is_empty());
        },
        None => panic!("unauthenticated callers are stopped"),
    }
    assert!(auth_gate(true).is_none());

    match detect_image_gate(true, 0) {
        Some(reply) => {
            assert_eq!(reply.status, 400);
            assert_eq!(reply.body, "No data provided");
        },
        None => panic!("an empty body is stopped"),
    }
    assert!(detect_image_gate(true, 10).is_none());

    match detect_url_gate(true, &Some(String::new())) {
        Some(reply) => assert_eq!(reply.status, 400),
        None => panic!("an empty URL is stopped"),
    }
    assert!(detect_url_gate(true, &Some("http://x".to_string())).is_none());
    assert_eq!(url_fetch_failed_reply().status, 400);
    assert_eq!(url_bytes_failed_reply().status, 400);
}

#[test]
fn bearer_prefix_is_stripped_exactly() {
    assert_eq!(
        bearer_token_of(&Some("Bearer tok123".to_string())),
        Some("tok123".to_string())
    );
    assert_eq!(bearer_token_of(&Some("Token tok123".to_string())), None);
    assert_eq!(bearer_token_of(&Some("Bearer".to_string())), None);
    assert_eq!(bearer_token_of(&None), None);
}

#[test]
fn health_and_static_replies() {
    assert_eq!(status_body(true), "{\"SCAN_STATUS\": \"Ok\", \"DB_STATUS\": \"Ok\"}");
    assert_eq!(
        status_body(false),
        "{\"SCAN_STATUS\": \"Ok\", \"DB_STATUS\": \"Unavailable\"}"
    );
    assert_eq!(check_api_reply(true).status, 200);
    assert_eq!(unsupported_media_reply().status, 501);
    assert_eq!(incorrect_result_reply().body, "\"Incorrect Result\"");
}

#[test]
fn staged_payload_retrieval_sniffs_the_content_type() {
    let png = flow_png_bytes(1, 1);
    match get_image_reply(Some(png.clone())) {
        Ok((bytes, content_type)) => {
            assert_eq!(bytes, png);
            assert_eq!(content_type, "image/png");
        },
        Err(_) => panic!("a present object is returned"),
    }
    match get_image_reply(None) {
        Ok(_) => panic!("a missing object is not invented"),
        Err(reply) => {
            assert_eq!(reply.status, 404);
            assert!(reply.body.contains("storage API"));
        },
    }
}

#[test]
fn refresh_cycle_decisions() {
    let db = "https://db.example".to_string();
    match refresh_decision(&String::new(), true, &db) {
        RefreshStep::AbortEmptyKey => {},
        _ => panic!("an empty key must abort"),
    }
    match refresh_decision(&"key".to_string(), false, &db) {
        RefreshStep::SkipLocked => {},
        _ => panic!("a held lock skips the cycle"),
    }
    match refresh_decision(&"key".to_string(), true, &db) {
        RefreshStep::Login { request } => {
            assert_eq!(request.url, "https://db.example/db/v1/scan/login");
            assert_eq!(request.auth_header, Some("Token key".to_string()));
        },
        _ => panic!("a free lock logs in"),
    }
}
