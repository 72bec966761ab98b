//! Auth middleware stages: the context resolver and the require-auth gate.

use vstd::prelude::*;

use crate::ctx::Ctx;
use crate::error::{client_error_of, status_of, ClientError, Error};
use crate::token::{parse_token, token_user_id, token_wf};

verus! {

/// View of an optional string, as carried by an optional cookie.
pub open spec fn opt_string_view(s: Option<&String>) -> Option<Seq<char>> {
    match s {
        Some(v) => Some(v@),
        None => None,
    }
}

/// Outcome of context resolution on a raw cookie value: the resolved user
/// id, or the recorded auth failure.
pub open spec fn resolve_outcome(cookie: Option<Seq<char>>) -> Result<u64, Error> {
    match cookie {
        None => Err(Error::AuthFailNoAuthTokenCookie),
        Some(s) => if token_wf(s) {
            Ok(token_user_id(s))
        } else {
            Err(Error::AuthFailTokenWrongFormat)
        },
    }
}

/// Context resolver: runs on every request, never rejects it. An absent
/// cookie records `AuthFailNoAuthTokenCookie`, a malformed one records
/// `AuthFailTokenWrongFormat`; a well-formed token yields the caller's
/// `Ctx`. The recorded outcome is consumed later by the require-auth
/// stage and by the response mapper.
pub fn resolve_ctx(cookie: Option<&String>) -> (r: Result<Ctx, Error>)
    ensures
        (r is Ok) == (resolve_outcome(opt_string_view(cookie)) is Ok),
        r is Ok ==> r->Ok_0.spec_user_id() == resolve_outcome(opt_string_view(cookie))->Ok_0,
        r is Err ==> r->Err_0 == resolve_outcome(opt_string_view(cookie))->Err_0,
{
    match cookie {
        None => Err(Error::AuthFailNoAuthTokenCookie),
        Some(s) => match parse_token(s.as_str()) {
            Ok(id) => Ok(Ctx::new(id)),
            Err(_) => Err(Error::AuthFailTokenWrongFormat),
        },
    }
}

/// Require-auth gate: passes a resolved `Ctx` through unchanged and
/// re-surfaces the resolver's recorded failure otherwise. An outcome that
/// was never recorded fails with `AuthFailCtxNotInRequestExt`.
pub fn require_auth(ctx_outcome: Option<&Result<Ctx, Error>>) -> (r: Result<Ctx, Error>)
    ensures
        ctx_outcome is None ==> r == Err::<Ctx, Error>(Error::AuthFailCtxNotInRequestExt),
        ctx_outcome is Some ==> r == *ctx_outcome->0,
{
    match ctx_outcome {
        None => Err(Error::AuthFailCtxNotInRequestExt),
        Some(res) => match res {
            Ok(c) => Ok(*c),
            Err(e) => Err(*e),
        },
    }
}

/// Law: with an absent or malformed auth cookie, context resolution
/// fails, and the failure is reported to the client as `NO_AUTH` at
/// status 403.
pub proof fn lemma_bad_cookie_is_no_auth(cookie: Option<Seq<char>>)
    requires
        cookie is None || !token_wf(cookie->0),
    ensures
        resolve_outcome(cookie) is Err,
        status_of(resolve_outcome(cookie)->Err_0) == 403,
        client_error_of(resolve_outcome(cookie)->Err_0) == ClientError::NO_AUTH,
{
}

} // verus!
