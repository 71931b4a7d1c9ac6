//! The HTTP surface's decisions: who gets in, where a payload is routed,
//! and the exact status, headers and body of every answer.
//!
//! The surrounding binary owns the sockets; every choice it has to make —
//! is the request authorized, is the body acceptable, what does this
//! machine outcome answer — is a verified function here.

use vstd::prelude::*;
use vstd::string::*;
use crate::coordinator::ScanOutcome;
use crate::json_text::{chars_to_string, match_lit, sp_lit_at, string_to_chars};
use crate::media::{
    classify_media, compute_hash, spec_fingerprint, spec_image_extension, spec_media_kind,
    get_image_extension, MediaKind,
};
use crate::model::{encode_scan_data, spec_scan_data_json, ScanData, ScanDataV};
use crate::worker::{IngestReject, IngestReply, WorkOutcome};

verus! {

/// The largest request body the server accepts, in bytes: payloads beyond
/// this are rejected at the server level before any handler runs.
pub const MAX_BODY_BYTES: usize = 250000000;

/// One HTTP answer: status, body text, and the optional `Retry-After`
/// header the soft timeout carries.
pub struct HttpReply {
    pub status: u16,
    pub body: String,
    pub retry_after: Option<u64>,
}

/// The health body: the scan service itself is up; the Database API's
/// health is as probed.
pub fn status_body(db_ok: bool) -> (r: String)
    ensures
        db_ok ==> r@ == "{\"SCAN_STATUS\": \"Ok\", \"DB_STATUS\": \"Ok\"}"@,
        !db_ok ==> r@ == "{\"SCAN_STATUS\": \"Ok\", \"DB_STATUS\": \"Unavailable\"}"@,
{
    if db_ok {
        String::from_str("{\"SCAN_STATUS\": \"Ok\", \"DB_STATUS\": \"Ok\"}")
    } else {
        String::from_str("{\"SCAN_STATUS\": \"Ok\", \"DB_STATUS\": \"Unavailable\"}")
    }
}

/// The health endpoint's answer: always `200`.
pub fn check_api_reply(db_ok: bool) -> (r: HttpReply)
    ensures
        r.status == 200,
        r.retry_after is None,
        db_ok ==> r.body@ == "{\"SCAN_STATUS\": \"Ok\", \"DB_STATUS\": \"Ok\"}"@,
        !db_ok ==> r.body@ == "{\"SCAN_STATUS\": \"Ok\", \"DB_STATUS\": \"Unavailable\"}"@,
{
    HttpReply { status: 200, body: status_body(db_ok), retry_after: None }
}

/// The bearer token inside an `Authorization` header: the text after the
/// `Bearer ` prefix, if the header is present and carries one.
pub fn bearer_token_of(header: &Option<String>) -> (r: Option<String>)
    ensures
        (match r {
            Some(t) => (header matches Some(h) && h@ == "Bearer "@ + t@),
            None => (match header {
                Some(h) => !sp_lit_at(h@, 0, "Bearer "@),
                None => true,
            }),
        }),
{
    match header {
        Some(h) => {
            let chars = string_to_chars(h.as_str());
            match match_lit(&chars, 0, "Bearer ") {
                Some(start) => {
                    let mut rest: Vec<char> = Vec::new();
                    let mut i: usize = start;
                    while i < chars.len()
                        invariant
                            start <= i <= chars@.len(),
                            rest@ == chars@.subrange(start as int, i as int),
                        decreases chars@.len() - i,
                    {
                        rest.push(chars[i]);
                        proof {
                            assert(rest@ =~= chars@.subrange(start as int, i + 1));
                        }
                        i = i + 1;
                    }
                    let token = chars_to_string(&rest);
                    proof {
                        assert(h@ =~= "Bearer "@ + token@);
                    }
                    Some(token)
                },
                None => None,
            }
        },
        None => None,
    }
}

/// The guard every client endpoint runs first: an unauthorized caller is
/// answered `401` with an empty body.
pub fn auth_gate(authenticated: bool) -> (r: Option<HttpReply>)
    ensures
        authenticated <==> r is None,
        (r matches Some(rep) ==> rep.status == 401 && rep.body@.len() == 0
            && rep.retry_after is None),
{
    if authenticated {
        None
    } else {
        Some(HttpReply { status: 401, body: String::new(), retry_after: None })
    }
}

/// The image endpoint's gate: unauthorized callers get `401`, an empty body
/// gets `400`, anything else goes on to the coordinator.
pub fn detect_image_gate(authenticated: bool, body_len: usize) -> (r: Option<HttpReply>)
    ensures
        !authenticated ==> (r matches Some(rep) && rep.status == 401 && rep.body@.len() == 0),
        authenticated && body_len == 0 ==> (r matches Some(rep) && rep.status == 400 && rep.body@
            == "No data provided"@),
        authenticated && body_len > 0 ==> r is None,
        (r matches Some(rep) ==> rep.retry_after is None),
{
    if !authenticated {
        return Some(HttpReply { status: 401, body: String::new(), retry_after: None });
    }
    if body_len == 0 {
        return Some(
            HttpReply { status: 400, body: String::from_str("No data provided"), retry_after: None },
        );
    }
    None
}

/// Where the mixed-media endpoint sends a payload.
#[derive(PartialEq, Eq, Structural, Clone, Copy, Debug)]
pub enum DetectRoute {
    /// An image: run the coordinator.
    ScanImage,
    /// A recognized non-image kind: not implemented.
    Unsupported,
    /// Nothing recognized.
    Incorrect,
}

/// Routes a payload by its sniffed kind: only images are scanned; every
/// other recognized kind is refused as unsupported.
pub fn detect_route(body: &Vec<u8>) -> (r: DetectRoute)
    ensures
        spec_media_kind(body@) == MediaKind::Image <==> r == DetectRoute::ScanImage,
        spec_media_kind(body@) == MediaKind::Unknown <==> r == DetectRoute::Incorrect,
        (spec_media_kind(body@) != MediaKind::Image && spec_media_kind(body@)
            != MediaKind::Unknown) <==> r == DetectRoute::Unsupported,
{
    match classify_media(body) {
        MediaKind::Image => DetectRoute::ScanImage,
        MediaKind::Unknown => DetectRoute::Incorrect,
        _ => DetectRoute::Unsupported,
    }
}

/// The answer for a recognized but unsupported media kind: `501`.
pub fn unsupported_media_reply() -> (r: HttpReply)
    ensures
        r.status == 501,
        r.body@ == "We do not support this media type yet."@,
        r.retry_after is None,
{
    HttpReply {
        status: 501,
        body: String::from_str("We do not support this media type yet."),
        retry_after: None,
    }
}

/// The answer for a payload of no recognizable kind: `200` with the literal
/// JSON string the service has always returned.
pub fn incorrect_result_reply() -> (r: HttpReply)
    ensures
        r.status == 200,
        r.body@ == "\"Incorrect Result\""@,
        r.retry_after is None,
{
    HttpReply { status: 200, body: String::from_str("\"Incorrect Result\""), retry_after: None }
}

/// Maps a finished coordinator run to its HTTP answer: a stored record is
/// returned verbatim with `200`; an undecodable payload and staging or
/// enqueue trouble are server errors; an exhausted wait is the soft timeout,
/// `200` with `Retry-After: 60`.
pub fn recognition_reply(outcome: ScanOutcome) -> (r: HttpReply)
    ensures
        (match outcome {
            ScanOutcome::CacheHit { stored } => r.status == 200 && r.body == stored
                && r.retry_after is None,
            ScanOutcome::Completed { stored } => r.status == 200 && r.body == stored
                && r.retry_after is None,
            ScanOutcome::BadImage => r.status == 500 && r.body@
                == "Encountered an issue while attempting to process your image. Please validate its data type is correct."@
                && r.retry_after is None,
            ScanOutcome::StageFailed => r.status == 500 && r.body@
                == "We could not store the data in our S3 bucket. Aborting. Please try again later."@
                && r.retry_after is None,
            ScanOutcome::EnqueueFailed => r.status == 500 && r.body@
                == "We could not add the work to the queue. Aborting. Please try again later."@
                && r.retry_after is None,
            ScanOutcome::TimedOut => r.status == 200 && r.body@
                == "We could not process your result in a timely manner. Please try again later."@
                && r.retry_after == Some(60u64),
        }),
{
    match outcome {
        ScanOutcome::CacheHit { stored } => HttpReply {
            status: 200,
            body: stored,
            retry_after: None,
        },
        ScanOutcome::Completed { stored } => HttpReply {
            status: 200,
            body: stored,
            retry_after: None,
        },
        ScanOutcome::BadImage => HttpReply {
            status: 500,
            body: String::from_str(
                "Encountered an issue while attempting to process your image. Please validate its data type is correct.",
            ),
            retry_after: None,
        },
        ScanOutcome::StageFailed => HttpReply {
            status: 500,
            body: String::from_str(
                "We could not store the data in our S3 bucket. Aborting. Please try again later.",
            ),
            retry_after: None,
        },
        ScanOutcome::EnqueueFailed => HttpReply {
            status: 500,
            body: String::from_str(
                "We could not add the work to the queue. Aborting. Please try again later.",
            ),
            retry_after: None,
        },
        ScanOutcome::TimedOut => HttpReply {
            status: 200,
            body: String::from_str(
                "We could not process your result in a timely manner. Please try again later.",
            ),
            retry_after: Some(60),
        },
    }
}

/// The URL endpoint's gate: unauthorized callers get `401`; a body that is
/// not text, or is empty, gets `400`; a usable URL goes on to the fetch.
pub fn detect_url_gate(authenticated: bool, url: &Option<String>) -> (r: Option<HttpReply>)
    ensures
        !authenticated ==> (r matches Some(rep) && rep.status == 401 && rep.body@.len() == 0),
        authenticated && (match url {
            Some(u) => u@.len() == 0,
            None => true,
        }) ==> (r matches Some(rep) && rep.status == 400 && rep.body@
            == "Please ensure you specify a valid url to detect from"@),
        authenticated && (url matches Some(u) && u@.len() > 0) ==> r is None,
        (r matches Some(rep) ==> rep.retry_after is None),
{
    if !authenticated {
        return Some(HttpReply { status: 401, body: String::new(), retry_after: None });
    }
    match url {
        Some(u) => {
            if u.as_str().is_empty() {
                Some(
                    HttpReply {
                        status: 400,
                        body: String::from_str(
                            "Please ensure you specify a valid url to detect from",
                        ),
                        retry_after: None,
                    },
                )
            } else {
                None
            }
        },
        None => Some(
            HttpReply {
                status: 400,
                body: String::from_str("Please ensure you specify a valid url to detect from"),
                retry_after: None,
            },
        ),
    }
}

/// The answer when the submitted URL could not be fetched: `400`.
pub fn url_fetch_failed_reply() -> (r: HttpReply)
    ensures
        r.status == 400,
        r.body@
            == "Could not fetch the image from the given url. Please make sure the url is correct."@,
        r.retry_after is None,
{
    HttpReply {
        status: 400,
        body: String::from_str(
            "Could not fetch the image from the given url. Please make sure the url is correct.",
        ),
        retry_after: None,
    }
}

/// The answer when the fetched reply's bytes could not be read: `400`.
pub fn url_bytes_failed_reply() -> (r: HttpReply)
    ensures
        r.status == 400,
        r.body@
            == "Error while trying to load the image as bytes. Please ensure the url is correct and we can get images from it."@,
        r.retry_after is None,
{
    HttpReply {
        status: 400,
        body: String::from_str(
            "Error while trying to load the image as bytes. Please ensure the url is correct and we can get images from it.",
        ),
        retry_after: None,
    }
}

/// The raw-fingerprint endpoint: the Blake2b-512 hex digest of the exact
/// bytes submitted, not of their canonical form.
pub fn get_hash_reply(body: &Vec<u8>) -> (r: HttpReply)
    ensures
        r.status == 200,
        r.body@ == spec_fingerprint(body@),
        r.body@.len() == 128,
        r.retry_after is None,
{
    HttpReply { status: 200, body: compute_hash(body), retry_after: None }
}

/// The payload-retrieval endpoint: the staged object's bytes under the
/// content type of its sniffed extension, or `404`.
pub fn get_image_reply(data: Option<Vec<u8>>) -> (r: Result<(Vec<u8>, String), HttpReply>)
    ensures
        (match r {
            Ok(p) => (data matches Some(d) && p.0 == d && p.1@ == "image/"@
                + spec_image_extension(d@)),
            Err(rep) => data is None && rep.status == 404 && rep.body@
                == "Could not find the requested item on our storage API"@,
        }),
{
    match data {
        Some(d) => {
            let extension = match get_image_extension(&d) {
                Some(e) => e,
                None => String::from_str("png"),
            };
            let content_type = crate::requests::content_type_for(&extension);
            Ok((d, content_type))
        },
        None => Err(
            HttpReply {
                status: 404,
                body: String::from_str("Could not find the requested item on our storage API"),
                retry_after: None,
            },
        ),
    }
}

/// Maps a finished lease run to its HTTP answer: the surviving message
/// verbatim, `400` when the whole budget found no work, `500` when the
/// queue failed.
pub fn work_outcome_reply(outcome: WorkOutcome) -> (r: HttpReply)
    ensures
        (match outcome {
            WorkOutcome::Job { message } => r.status == 200 && r.body == message,
            WorkOutcome::NoWork => r.status == 400 && r.body@
                == "We could not poll any work in a timely manner. Please try again later."@,
            WorkOutcome::QueueError => r.status == 500 && r.body@
                == "Something went wrong while attempting to poll messages. Please try again later."@,
        }),
        r.retry_after is None,
{
    match outcome {
        WorkOutcome::Job { message } => HttpReply {
            status: 200,
            body: message,
            retry_after: None,
        },
        WorkOutcome::NoWork => HttpReply {
            status: 400,
            body: String::from_str(
                "We could not poll any work in a timely manner. Please try again later.",
            ),
            retry_after: None,
        },
        WorkOutcome::QueueError => HttpReply {
            status: 500,
            body: String::from_str(
                "Something went wrong while attempting to poll messages. Please try again later.",
            ),
            retry_after: None,
        },
    }
}

/// The answer for a turned-away result post.
pub fn ingest_reject_reply(reject: IngestReject) -> (r: HttpReply)
    ensures
        (match reject {
            IngestReject::NotAuthenticated => r.status == 401 && r.body@.len() == 0,
            IngestReject::NotInternal => r.status == 401 && r.body@
                == "Currently only pamaxie's own clients are allowed to scan files. Stay tuned for more."@,
            IngestReject::BadClaims => r.status == 400 && r.body@
                == "Invalid JWT bearer payload data. Could not read required data from it."@,
            IngestReject::EmptyBody => r.status == 400 && r.body@ == "No body found in request"@,
            IngestReject::BadRecord => r.status == 400 && r.body@
                == "Invalid data found in request"@,
        }),
        r.retry_after is None,
{
    match reject {
        IngestReject::NotAuthenticated => HttpReply {
            status: 401,
            body: String::new(),
            retry_after: None,
        },
        IngestReject::NotInternal => HttpReply {
            status: 401,
            body: String::from_str(
                "Currently only pamaxie's own clients are allowed to scan files. Stay tuned for more.",
            ),
            retry_after: None,
        },
        IngestReject::BadClaims => HttpReply {
            status: 400,
            body: String::from_str(
                "Invalid JWT bearer payload data. Could not read required data from it.",
            ),
            retry_after: None,
        },
        IngestReject::EmptyBody => HttpReply {
            status: 400,
            body: String::from_str("No body found in request"),
            retry_after: None,
        },
        IngestReject::BadRecord => HttpReply {
            status: 400,
            body: String::from_str("Invalid data found in request"),
            retry_after: None,
        },
    }
}

/// The answer for a finished ingestion.
pub fn ingest_reply_http(reply: IngestReply) -> (r: HttpReply)
    ensures
        (match reply {
            IngestReply::Accepted => r.status == 200 && r.body@
                == "Data has been accepted and stored by our Db API"@,
            IngestReply::RemoveFailed => r.status == 500 && r.body@
                == "Something went wrong while attempting to remove the file from S3. Please try again later."@,
            IngestReply::StoreFailed => r.status == 500 && r.body@
                == "Data could not be stored by our Db API. Please try again later."@,
        }),
        r.retry_after is None,
{
    match reply {
        IngestReply::Accepted => HttpReply {
            status: 200,
            body: String::from_str("Data has been accepted and stored by our Db API"),
            retry_after: None,
        },
        IngestReply::RemoveFailed => HttpReply {
            status: 500,
            body: String::from_str(
                "Something went wrong while attempting to remove the file from S3. Please try again later.",
            ),
            retry_after: None,
        },
        IngestReply::StoreFailed => HttpReply {
            status: 500,
            body: String::from_str(
                "Data could not be stored by our Db API. Please try again later.",
            ),
            retry_after: None,
        },
    }
}

/// The legacy detection endpoint's whole computation: images and
/// unrecognized payloads are answered with a scan summary keyed by the raw
/// fingerprint; every other recognized kind is unsupported.
pub fn compute_media_content(body: &Vec<u8>) -> (r: HttpReply)
    ensures
        spec_media_kind(body@) == MediaKind::Image ==> r.status == 200 && r.body@
            == spec_scan_data_json(
            ScanDataV {
                key: spec_fingerprint(body@),
                data_type: "image"@,
                scan_machine_guid: Seq::empty(),
                is_user_scan: false,
                scan_result: Seq::empty(),
                ttl: 0,
            },
        ),
        spec_media_kind(body@) == MediaKind::Unknown ==> r.status == 200 && r.body@
            == spec_scan_data_json(
            ScanDataV {
                key: spec_fingerprint(body@),
                data_type: "Unknown"@,
                scan_machine_guid: Seq::empty(),
                is_user_scan: false,
                scan_result: Seq::empty(),
                ttl: 0,
            },
        ),
        (spec_media_kind(body@) != MediaKind::Image && spec_media_kind(body@)
            != MediaKind::Unknown) ==> r.status == 501 && r.body@
            == "We do not support this media type yet."@,
        r.retry_after is None,
{
    let kind = classify_media(body);
    match kind {
        MediaKind::Image => {
            let summary = ScanData {
                key: compute_hash(body),
                data_type: String::from_str("image"),
                scan_machine_guid: String::new(),
                is_user_scan: false,
                scan_result: String::new(),
                ttl: 0,
            };
            proof {
                reveal_strlit("");
            }
            HttpReply { status: 200, body: encode_scan_data(&summary), retry_after: None }
        },
        MediaKind::Unknown => {
            let summary = ScanData {
                key: compute_hash(body),
                data_type: String::from_str("Unknown"),
                scan_machine_guid: String::new(),
                is_user_scan: false,
                scan_result: String::new(),
                ttl: 0,
            };
            proof {
                reveal_strlit("");
            }
            HttpReply { status: 200, body: encode_scan_data(&summary), retry_after: None }
        },
        _ => unsupported_media_reply(),
    }
}

} // verus!
