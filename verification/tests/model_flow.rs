use ticket_api::error::{ClientError, Error};
use ticket_api::mapper::map_response;
use ticket_api::model::{ModelController, TicketForCreate};
use ticket_api::tickets::{create_ticket_route, delete_ticket_route, list_tickets_route};
use ticket_api::Ctx;

fn fc(title: &str) -> TicketForCreate {
    TicketForCreate { title: String::from(title) }
}

#[test]
fn create_returns_sequential_ids() {
    let mut mc = ModelController::new().unwrap();
    let ctx = Ctx::new(1);
    let t0 = mc.create_ticket(ctx, fc("first")).unwrap();
    let t1 = mc.create_ticket(ctx, fc("second")).unwrap();
    assert_eq!(t0.id, 0);
    assert_eq!(t1.id, 1);
    assert_eq!(t0.cid, 1);
    assert_eq!(t0.title, "first");
}

#[test]
fn create_then_list_round_trip() {
    let mut mc = ModelController::new().unwrap();
    let ctx = Ctx::new(7);
    let titles = ["a", "b", "c"];
    for t in titles {
        mc.create_ticket(ctx, fc(t)).unwrap();
    }
    let listed = mc.list_tickets(ctx).unwrap();
    assert_eq!(listed.len(), titles.len());
    for (i, t) in listed.iter().enumerate() {
        assert_eq!(t.id, i as u64);
        assert_eq!(t.cid, 7);
        assert_eq!(t.title, titles[i]);
    }
}

#[test]
fn many_creates_yield_distinct_gapless_ids() {
    let mut mc = ModelController::new().unwrap();
    let ctx = Ctx::new(2);
    let k = 5;
    let mut ids = Vec::new();
    for i in 0..k {
        let t = mc.create_ticket(ctx, fc(&format!("t{}", i))).unwrap();
        ids.push(t.id);
    }
    let listed = mc.list_tickets(ctx).unwrap();
    assert_eq!(listed.len(), k);
    for (i, id) in ids.iter().enumerate() {
        assert_eq!(*id, i as u64);
    }
}

#[test]
fn list_ignores_creator() {
    let mut mc = ModelController::new().unwrap();
    mc.create_ticket(Ctx::new(1), fc("mine")).unwrap();
    mc.create_ticket(Ctx::new(2), fc("theirs")).unwrap();
    let listed = mc.list_tickets(Ctx::new(3)).unwrap();
    assert_eq!(listed.len(), 2);
}

#[test]
fn delete_returns_removed_ticket() {
    let mut mc = ModelController::new().unwrap();
    let ctx = Ctx::new(1);
    mc.create_ticket(ctx, fc("keep")).unwrap();
    mc.create_ticket(ctx, fc("drop")).unwrap();
    let removed = mc.delete_ticket(ctx, 1).unwrap();
    assert_eq!(removed.id, 1);
    assert_eq!(removed.title, "drop");
    let listed = mc.list_tickets(ctx).unwrap();
    assert_eq!(listed.len(), 1);
    assert_eq!(listed[0].title, "keep");
}

#[test]
fn deleted_ids_are_not_reused() {
    let mut mc = ModelController::new().unwrap();
    let ctx = Ctx::new(1);
    mc.create_ticket(ctx, fc("a")).unwrap();
    mc.delete_ticket(ctx, 0).unwrap();
    let t = mc.create_ticket(ctx, fc("b")).unwrap();
    assert_eq!(t.id, 1);
}

#[test]
fn delete_twice_fails_second_time() {
    let mut mc = ModelController::new().unwrap();
    let ctx = Ctx::new(1);
    mc.create_ticket(ctx, fc("once")).unwrap();
    assert!(mc.delete_ticket(ctx, 0).is_ok());
    let second = mc.delete_ticket(ctx, 0);
    assert_eq!(second, Err(Error::TicketDeleteFailIdNotFound { id: 0 }));
    let e = second.unwrap_err();
    assert_eq!(e.client_status_and_error(), (400, ClientError::INVALID_PARAMS));
}

#[test]
fn unknown_id_delete_maps_to_invalid_params_400() {
    let mut mc = ModelController::new().unwrap();
    let ctx = Ctx::new(1);
    let r = mc.delete_ticket(ctx, 9999);
    assert_eq!(r, Err(Error::TicketDeleteFailIdNotFound { id: 9999 }));
    let (status, body) = map_response(Some(&r.unwrap_err()), "uuid-9").unwrap();
    assert_eq!(status, 400);
    assert_eq!(body, "{\"error\":{\"type\":\"INVALID_PARAMS\",\"req_uuid\":\"uuid-9\"}}");
}

#[test]
fn gated_routes_reject_without_ctx_and_touch_nothing() {
    let mut mc = ModelController::new().unwrap();
    let bad: Result<Ctx, Error> = Err(Error::AuthFailTokenWrongFormat);

    let r = create_ticket_route(Some(&bad), &mut mc, fc("nope"));
    assert_eq!(r, Err(Error::AuthFailTokenWrongFormat));
    let r = create_ticket_route(None, &mut mc, fc("nope"));
    assert_eq!(r, Err(Error::AuthFailCtxNotInRequestExt));
    let r = delete_ticket_route(Some(&bad), &mut mc, 0);
    assert_eq!(r, Err(Error::AuthFailTokenWrongFormat));
    let r = list_tickets_route(None, &mc);
    assert_eq!(r, Err(Error::AuthFailCtxNotInRequestExt));

    // Every rejection above maps to NO_AUTH at 403, and none of them
    // invoked a model operation: the store is still empty.
    let good: Result<Ctx, Error> = Ok(Ctx::new(1));
    let listed = list_tickets_route(Some(&good), &mc).unwrap();
    assert_eq!(listed.len(), 0);
}

#[test]
fn gated_routes_run_for_valid_ctx() {
    let mut mc = ModelController::new().unwrap();
    let good: Result<Ctx, Error> = Ok(Ctx::new(5));
    let t = create_ticket_route(Some(&good), &mut mc, fc("gated")).unwrap();
    assert_eq!(t.id, 0);
    assert_eq!(t.cid, 5);
    let listed = list_tickets_route(Some(&good), &mc).unwrap();
    assert_eq!(listed.len(), 1);
    let removed = delete_ticket_route(Some(&good), &mut mc, 0).unwrap();
    assert_eq!(removed.title, "gated");
    assert!(list_tickets_route(Some(&good), &mc).unwrap().is_empty());
}
