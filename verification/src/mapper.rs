//! Response mapper: normalizes internal errors into the fixed client
//! envelope and renders the structured request-outcome log line.

use vstd::prelude::*;

use crate::error::{client_error_name_of, client_error_of, error_name_of, status_of, ClientError,
    Error};
use crate::token::{dec_rep, u64_to_string};

verus! {

/// The fixed client-facing error envelope, bit for bit.
pub open spec fn envelope_of(ce: ClientError, req_uuid: Seq<char>) -> Seq<char> {
    "{\"error\":{\"type\":\""@ + client_error_name_of(ce) + "\",\"req_uuid\":\""@ + req_uuid
        + "\"}}"@
}

/// Renders the client error envelope for a request id.
pub fn client_error_body(ce: ClientError, req_uuid: &str) -> (r: String)
    ensures
        r@ == envelope_of(ce, req_uuid@),
{
    let mut s = String::from_str("{\"error\":{\"type\":\"");
    s.append(ce.as_str());
    s.append("\",\"req_uuid\":\"");
    s.append(req_uuid);
    s.append("\"}}");
    proof {
        assert(s@ =~= envelope_of(ce, req_uuid@));
    }
    s
}

/// Maps a handler outcome to what the client sees: a response that
/// carries no error passes through untouched (`None`); one that carries
/// an error is replaced by the envelope at the error's mapped status.
pub fn map_response(err: Option<&Error>, req_uuid: &str) -> (r: Option<(u16, String)>)
    ensures
        err is None ==> r is None,
        err is Some ==> (r matches Some(p) && p.0 == status_of(*err->0) && p.1@ == envelope_of(
            client_error_of(*err->0),
            req_uuid@,
        )),
{
    match err {
        None => None,
        Some(e) => {
            let (status, ce) = e.client_status_and_error();
            Some((status, client_error_body(ce, req_uuid)))
        },
    }
}

/// View of an optional error, as attached to a response.
pub open spec fn opt_error_view(e: Option<&Error>) -> Option<Error> {
    match e {
        Some(v) => Some(*v),
        None => None,
    }
}

/// The structured request-outcome log line: request id, timestamp, user
/// id if resolved, method, path, internal error name if any, and the
/// client error code it maps to.
pub open spec fn log_line_of(
    req_uuid: Seq<char>,
    timestamp: Seq<char>,
    user_id: Option<u64>,
    method: Seq<char>,
    path: Seq<char>,
    err: Option<Error>,
) -> Seq<char> {
    req_uuid + " "@ + timestamp + " user="@ + (match user_id {
        Some(id) => dec_rep(id as nat),
        None => "-"@,
    }) + " "@ + method + " "@ + path + " error="@ + (match err {
        Some(e) => error_name_of(e),
        None => "-"@,
    }) + " client_error="@ + (match err {
        Some(e) => client_error_name_of(client_error_of(e)),
        None => "-"@,
    })
}

/// Renders one request-outcome log line.
pub fn log_line(
    req_uuid: &str,
    timestamp: &str,
    user_id: Option<u64>,
    method: &str,
    path: &str,
    err: Option<&Error>,
) -> (r: String)
    ensures
        r@ == log_line_of(req_uuid@, timestamp@, user_id, method@, path@, opt_error_view(err)),
{
    let mut s = String::from_str(req_uuid);
    s.append(" ");
    s.append(timestamp);
    s.append(" user=");
    match user_id {
        Some(id) => {
            let ds = u64_to_string(id);
            s.append(ds.as_str());
        },
        None => s.append("-"),
    }
    s.append(" ");
    s.append(method);
    s.append(" ");
    s.append(path);
    s.append(" error=");
    match err {
        Some(e) => s.append(e.variant_name()),
        None => s.append("-"),
    }
    s.append(" client_error=");
    match err {
        Some(e) => {
            let (_status, ce) = e.client_status_and_error();
            s.append(ce.as_str());
        },
        None => s.append("-"),
    }
    proof {
        assert(s@ =~= log_line_of(
            req_uuid@,
            timestamp@,
            user_id,
            method@,
            path@,
            opt_error_view(err),
        ));
    }
    s
}

} // verus!
