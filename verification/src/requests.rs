//! Outbound request shapes and reply interpretation.
//!
//! Every call the service makes to the Database API or the object store is
//! described here as a plain request value — method, URL, authorization
//! header, body — and every reply is folded back into a plain value. The
//! surrounding binary only moves these descriptions over the network; which
//! URL is asked for, with which credentials, and what a status code means is
//! decided by the verified functions in this module.

use vstd::prelude::*;
use vstd::string::*;

verus! {

/// The HTTP method of an outbound request.
#[derive(PartialEq, Eq, Structural, Clone, Copy, Debug)]
pub enum HttpMethod {
    Get,
    Post,
    Delete,
}

/// An outbound request to the Database API.
pub struct HttpReqDesc {
    pub method: HttpMethod,
    pub url: String,
    pub auth_header: Option<String>,
    pub body: Option<String>,
}

/// Whether a status code counts as success.
pub open spec fn spec_is_success(status: u16) -> bool {
    200 <= status < 300
}

/// Decides whether a status code counts as success.
pub fn is_success_status(status: u16) -> (r: bool)
    ensures
        r == spec_is_success(status),
{
    200 <= status && status < 300
}

/// The health probe: `GET {db}db/v1/scan/CanConnect`, unauthenticated.
pub fn status_request(db_url: &String) -> (r: HttpReqDesc)
    ensures
        r.method == HttpMethod::Get,
        r.url@ == db_url@ + "db/v1/scan/CanConnect"@,
        r.auth_header is None,
        r.body is None,
{
    let url = db_url.clone().concat("db/v1/scan/CanConnect");
    HttpReqDesc { method: HttpMethod::Get, url, auth_header: None, body: None }
}

/// Interprets the health probe's reply.
pub fn status_response(status: u16) -> (r: bool)
    ensures
        r == spec_is_success(status),
{
    is_success_status(status)
}

/// The authentication check for a caller's own bearer header:
/// `GET {db}/db/v1/scan/CanAuthenticate`. A request without an
/// `Authorization` header is refused outright — `None` here — so the
/// Database API is never consulted for it.
pub fn auth_check_request(db_url: &String, auth_header: &Option<String>) -> (r: Option<
    HttpReqDesc,
>)
    ensures
        r is Some <==> auth_header is Some,
        (match r {
            Some(req) => {
                &&& req.method == HttpMethod::Get
                &&& req.url@ == db_url@ + "/db/v1/scan/CanAuthenticate"@
                &&& req.auth_header == Some(auth_header->0)
                &&& req.body is None
            },
            None => true,
        }),
{
    match auth_header {
        Some(h) => {
            let url = db_url.clone().concat("/db/v1/scan/CanAuthenticate");
            Some(
                HttpReqDesc {
                    method: HttpMethod::Get,
                    url,
                    auth_header: Some(h.clone()),
                    body: None,
                },
            )
        },
        None => None,
    }
}

/// The role check for a worker's bearer header:
/// `GET {db}/db/v1/scan/IsInternalToken`; absent header, no request.
pub fn internal_check_request(db_url: &String, auth_header: &Option<String>) -> (r: Option<
    HttpReqDesc,
>)
    ensures
        r is Some <==> auth_header is Some,
        (match r {
            Some(req) => {
                &&& req.method == HttpMethod::Get
                &&& req.url@ == db_url@ + "/db/v1/scan/IsInternalToken"@
                &&& req.auth_header == Some(auth_header->0)
                &&& req.body is None
            },
            None => true,
        }),
{
    match auth_header {
        Some(h) => {
            let url = db_url.clone().concat("/db/v1/scan/IsInternalToken");
            Some(
                HttpReqDesc {
                    method: HttpMethod::Get,
                    url,
                    auth_header: Some(h.clone()),
                    body: None,
                },
            )
        },
        None => None,
    }
}

/// Interprets an authentication or role reply: the caller passes exactly
/// when the Database API answered success.
pub fn auth_check_response(status: u16) -> (r: bool)
    ensures
        r == spec_is_success(status),
{
    is_success_status(status)
}

/// The login call that trades the long-lived key for a bearer token:
/// `GET {db}/db/v1/scan/login` with `Authorization: Token {key}`.
pub fn login_request(db_url: &String, auth_token: &String) -> (r: HttpReqDesc)
    ensures
        r.method == HttpMethod::Get,
        r.url@ == db_url@ + "/db/v1/scan/login"@,
        (r.auth_header matches Some(h) && h@ == "Token "@ + auth_token@),
        r.body is None,
{
    let url = db_url.clone().concat("/db/v1/scan/login");
    let auth = String::from_str("Token ").concat(auth_token.as_str());
    HttpReqDesc { method: HttpMethod::Get, url, auth_header: Some(auth), body: None }
}

/// The result-store read: `GET {db}/db/v1/scan/get={fingerprint}` with
/// `Authorization: Bearer {token}`.
pub fn get_scan_request(db_url: &String, token: &String, fingerprint: &String) -> (r: HttpReqDesc)
    ensures
        r.method == HttpMethod::Get,
        r.url@ == db_url@ + "/db/v1/scan/get="@ + fingerprint@,
        (r.auth_header matches Some(h) && h@ == "Bearer "@ + token@),
        r.body is None,
{
    let url = db_url.clone().concat("/db/v1/scan/get=").concat(fingerprint.as_str());
    let auth = String::from_str("Bearer ").concat(token.as_str());
    HttpReqDesc { method: HttpMethod::Get, url, auth_header: Some(auth), body: None }
}

/// Interprets a result-store read: the stored text on success, nothing on
/// any failure (absent records and transport trouble look alike; the
/// coordinator treats both as a miss).
pub fn get_scan_response(status: u16, body: String) -> (r: Option<String>)
    ensures
        (match r {
            Some(b) => spec_is_success(status) && b == body,
            None => !spec_is_success(status),
        }),
{
    if is_success_status(status) {
        Some(body)
    } else {
        None
    }
}

/// The result-store delete: `DELETE {db}/db/v1/scan/delete={fingerprint}`.
pub fn remove_scan_request(db_url: &String, token: &String, fingerprint: &String) -> (r:
    HttpReqDesc)
    ensures
        r.method == HttpMethod::Delete,
        r.url@ == db_url@ + "/db/v1/scan/delete="@ + fingerprint@,
        (r.auth_header matches Some(h) && h@ == "Bearer "@ + token@),
        r.body is None,
{
    let url = db_url.clone().concat("/db/v1/scan/delete=").concat(fingerprint.as_str());
    let auth = String::from_str("Bearer ").concat(token.as_str());
    HttpReqDesc { method: HttpMethod::Delete, url, auth_header: Some(auth), body: None }
}

/// Interprets a result-store delete.
pub fn remove_scan_response(status: u16) -> (r: Result<(), ()>)
    ensures
        r is Ok <==> spec_is_success(status),
{
    if is_success_status(status) {
        Ok(())
    } else {
        Err(())
    }
}

/// The result-store write: `POST {db}/db/v1/scan/update` carrying the record
/// text.
pub fn set_scan_request(db_url: &String, token: &String, record_json: &String) -> (r: HttpReqDesc)
    ensures
        r.method == HttpMethod::Post,
        r.url@ == db_url@ + "/db/v1/scan/update"@,
        (r.auth_header matches Some(h) && h@ == "Bearer "@ + token@),
        (r.body matches Some(b) && b@ == record_json@),
{
    let url = db_url.clone().concat("/db/v1/scan/update");
    let auth = String::from_str("Bearer ").concat(token.as_str());
    HttpReqDesc {
        method: HttpMethod::Post,
        url,
        auth_header: Some(auth),
        body: Some(record_json.clone()),
    }
}

/// Interprets a result-store write. A `401` surfaces as failure like any
/// other non-success reply: the write is not retried within the call.
pub fn set_scan_response(status: u16) -> (r: bool)
    ensures
        r == spec_is_success(status),
        status == 401 ==> !r,
{
    is_success_status(status)
}

/// The object-store key of a staged payload: `{fingerprint}.{extension}`.
pub fn staged_object_key(fingerprint: &String, extension: &String) -> (r: String)
    ensures
        r@ == fingerprint@ + "."@ + extension@,
{
    let r = fingerprint.clone().concat(".").concat(extension.as_str());
    proof {
        assert(r@ =~= fingerprint@ + "."@ + extension@);
    }
    r
}

/// The content type a staged payload is stored under: `image/{extension}`.
pub fn content_type_for(extension: &String) -> (r: String)
    ensures
        r@ == "image/"@ + extension@,
{
    String::from_str("image/").concat(extension.as_str())
}

/// The URL a worker fetches a staged payload from:
/// `{base}/scan/v1/worker/get_image/{key}`.
pub fn worker_fetch_url(pam_url: &String, object_key: &String) -> (r: String)
    ensures
        r@ == pam_url@ + "/scan/v1/worker/get_image/"@ + object_key@,
{
    let r = pam_url.clone().concat("/scan/v1/worker/get_image/").concat(object_key.as_str());
    proof {
        assert(r@ =~= pam_url@ + "/scan/v1/worker/get_image/"@ + object_key@);
    }
    r
}

/// Interprets an object-store write: stored exactly on a `200` reply.
pub fn store_s3_response(status: u16) -> (r: bool)
    ensures
        r <==> status == 200,
{
    status == 200
}

/// Interprets an object-store delete: gone on `200` or `204`, distinguishing
/// a missing object.
pub fn remove_s3_response(status: u16) -> (r: Result<(), String>)
    ensures
        r is Ok <==> (status == 200 || status == 204),
        (r matches Err(m) ==> (if status == 404 {
            m@ == "The item that you wanted to delete could not be found"@
        } else {
            m@ == "An unexpected error occurred while attempting to delete an S3 storage object"@
        })),
{
    if status == 200 || status == 204 {
        Ok(())
    } else if status == 404 {
        Err(String::from_str("The item that you wanted to delete could not be found"))
    } else {
        Err(
            String::from_str(
                "An unexpected error occurred while attempting to delete an S3 storage object",
            ),
        )
    }
}

/// Interprets an object-store read: the payload on `200`, nothing otherwise.
pub fn get_s3_response(status: u16, data: Vec<u8>) -> (r: Option<Vec<u8>>)
    ensures
        (match r {
            Some(d) => status == 200 && d == data,
            None => status != 200,
        }),
{
    if status == 200 {
        Some(data)
    } else {
        None
    }
}

} // verus!
