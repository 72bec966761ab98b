//! Ticket routes: thin adapters from the request pipeline to the model
//! controller, behind the require-auth gate.
//!
//! Each adapter consumes the context resolver's recorded outcome. When no
//! valid `Ctx` was resolved, it fails with the require-auth stage's
//! error and leaves the store untouched — no model operation runs.

use vstd::prelude::*;

use crate::auth::require_auth;
use crate::ctx::Ctx;
use crate::error::{client_error_of, is_auth_error, status_of, ClientError, Error};
use crate::model::{create_spec, delete_post, delete_result, list_view, ModelController, Ticket,
    TicketForCreate};

verus! {

/// Whether the resolver's recorded outcome carries a valid `Ctx`.
pub open spec fn gate_passes(ctx_outcome: Option<&Result<Ctx, Error>>) -> bool {
    ctx_outcome is Some && *ctx_outcome->0 is Ok
}

/// The `Ctx` a passing outcome carries.
pub open spec fn gate_ctx(ctx_outcome: Option<&Result<Ctx, Error>>) -> Ctx
    recommends
        gate_passes(ctx_outcome),
{
    (*ctx_outcome->0)->Ok_0
}

/// The failure a non-passing outcome is rejected with: the resolver's
/// recorded failure, or `AuthFailCtxNotInRequestExt` when none was
/// recorded. For a resolver outcome this always maps to `NO_AUTH`.
pub open spec fn gate_error(ctx_outcome: Option<&Result<Ctx, Error>>) -> Error
    recommends
        !gate_passes(ctx_outcome),
{
    match ctx_outcome {
        None => Error::AuthFailCtxNotInRequestExt,
        Some(res) => (*res)->Err_0,
    }
}

/// `POST /api/tickets`: creates a ticket for the authenticated caller.
/// Without a valid `Ctx` the require-auth failure is returned, it maps
/// to `NO_AUTH`, and the store is untouched.
pub fn create_ticket_route(
    ctx_outcome: Option<&Result<Ctx, Error>>,
    mc: &mut ModelController,
    ticket_fc: TicketForCreate,
) -> (r: Result<Ticket, Error>)
    requires
        old(mc).wf(),
    ensures
        final(mc).wf(),
        gate_passes(ctx_outcome) ==> {
            &&& r is Ok
            &&& final(mc)@ == create_spec(
                old(mc)@,
                gate_ctx(ctx_outcome).spec_user_id(),
                ticket_fc.title@,
            )
            &&& r->Ok_0@.id == old(mc)@.len() as u64
            &&& r->Ok_0@.cid == gate_ctx(ctx_outcome).spec_user_id()
            &&& r->Ok_0@.title == ticket_fc.title@
        },
        !gate_passes(ctx_outcome) ==> {
            &&& final(mc)@ == old(mc)@
            &&& r == Err::<Ticket, Error>(gate_error(ctx_outcome))
        },
{
    match require_auth(ctx_outcome) {
        Ok(ctx) => mc.create_ticket(ctx, ticket_fc),
        Err(e) => Err(e),
    }
}

/// `GET /api/tickets`: lists all tickets, in store order. Without a
/// valid `Ctx` the require-auth failure is returned; the store is untouched.
pub fn list_tickets_route(ctx_outcome: Option<&Result<Ctx, Error>>, mc: &ModelController) -> (r:
    Result<Vec<Ticket>, Error>)
    ensures
        gate_passes(ctx_outcome) ==> r is Ok && r->Ok_0@.map_values(|t: Ticket| t@) == list_view(
            mc@,
        ),
        !gate_passes(ctx_outcome) ==> r == Err::<Vec<Ticket>, Error>(gate_error(ctx_outcome)),
{
    match require_auth(ctx_outcome) {
        Ok(ctx) => mc.list_tickets(ctx),
        Err(e) => Err(e),
    }
}

/// `DELETE /api/tickets/<id>`: deletes the ticket with that id. Without
/// a valid `Ctx` the require-auth failure is returned; the store is untouched.
pub fn delete_ticket_route(
    ctx_outcome: Option<&Result<Ctx, Error>>,
    mc: &mut ModelController,
    id: u64,
) -> (r: Result<Ticket, Error>)
    requires
        old(mc).wf(),
    ensures
        final(mc).wf(),
        gate_passes(ctx_outcome) ==> {
            &&& final(mc)@ == delete_post(old(mc)@, id)
            &&& (r is Ok) == (delete_result(old(mc)@, id) is Ok)
            &&& (r is Ok ==> r->Ok_0@ == delete_result(old(mc)@, id)->Ok_0)
            &&& (r is Err ==> r->Err_0 == delete_result(old(mc)@, id)->Err_0)
        },
        !gate_passes(ctx_outcome) ==> {
            &&& final(mc)@ == old(mc)@
            &&& r == Err::<Ticket, Error>(gate_error(ctx_outcome))
        },
{
    match require_auth(ctx_outcome) {
        Ok(ctx) => mc.delete_ticket(ctx, id),
        Err(e) => Err(e),
    }
}

/// Law: a recorded outcome that carries no valid `Ctx` — absent, or
/// holding one of the resolver's auth failures — is rejected by the
/// routes above with a failure that maps to `NO_AUTH` at status 403; by
/// the route contracts, the store is then left untouched.
pub proof fn lemma_rejected_outcome_maps_no_auth(ctx_outcome: Option<&Result<Ctx, Error>>)
    requires
        !gate_passes(ctx_outcome),
        ctx_outcome matches Some(res) ==> is_auth_error((*res)->Err_0),
    ensures
        status_of(gate_error(ctx_outcome)) == 403,
        client_error_of(gate_error(ctx_outcome)) == ClientError::NO_AUTH,
{
}

} // verus!
