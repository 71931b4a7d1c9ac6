//! The credential refresher's decisions.
//!
//! One background task holds the service's bearer token for the Database
//! API fresh: every cycle it checks the long-lived key, tries the token
//! slot's lock, logs in, and stores the token the reply carries. The lock,
//! the clock and the network belong to the surrounding binary; what to do
//! each cycle and what the reply means are decided here.

use vstd::prelude::*;
use vstd::string::*;
use crate::model::{parse_login_token, spec_login_token};
use crate::requests::{login_request, HttpReqDesc, HttpMethod};

verus! {

/// Seconds between two refresh cycles.
pub const REFRESH_INTERVAL_SECS: u64 = 3600;

/// What one refresh cycle should do.
pub enum RefreshStep {
    /// The long-lived key is empty. That is a programmer error which the
    /// start-up checks should have caught; the refresher must abort loudly.
    AbortEmptyKey,
    /// The token slot is held by a reader right now; skip this cycle and
    /// try again on the next one.
    SkipLocked,
    /// Send the login request and apply its reply to the slot.
    Login { request: HttpReqDesc },
}

/// Decides one refresh cycle.
pub fn refresh_decision(api_key: &String, lock_acquired: bool, db_url: &String) -> (r: RefreshStep)
    ensures
        api_key@.len() == 0 <==> r is AbortEmptyKey,
        api_key@.len() > 0 && !lock_acquired <==> r is SkipLocked,
        (r matches RefreshStep::Login { request } ==> {
            &&& api_key@.len() > 0
            &&& lock_acquired
            &&& request.method == HttpMethod::Get
            &&& request.url@ == db_url@ + "/db/v1/scan/login"@
            &&& (request.auth_header matches Some(h) && h@ == "Token "@ + api_key@)
        }),
{
    if api_key.as_str().is_empty() {
        return RefreshStep::AbortEmptyKey;
    }
    if !lock_acquired {
        return RefreshStep::SkipLocked;
    }
    RefreshStep::Login { request: login_request(db_url, api_key) }
}

/// Reads the token out of a login reply: the nested `Token.Token` member.
/// A failed call, an empty reply, or a reply without that member leaves the
/// slot as it is — the refresher never brings requests down.
pub fn refresh_apply(reply_body: &Option<String>) -> (r: Option<String>)
    ensures
        (match reply_body {
            Some(b) => (match r {
                Some(t) => b@.len() > 0 && spec_login_token(b@) == Some(t@),
                None => b@.len() == 0 || spec_login_token(b@) is None,
            }),
            None => r is None,
        }),
{
    match reply_body {
        Some(b) => {
            if b.as_str().is_empty() {
                None
            } else {
                parse_login_token(b.as_str())
            }
        },
        None => None,
    }
}

} // verus!
