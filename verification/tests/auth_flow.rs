use ticket_api::auth::{require_auth, resolve_ctx};
use ticket_api::error::{ClientError, Error};
use ticket_api::hello::{hello2_greeting, hello_greeting};
use ticket_api::login::login;
use ticket_api::mapper::{client_error_body, log_line, map_response};
use ticket_api::token::{format_token, parse_token, u64_to_string};
use ticket_api::Ctx;

#[test]
fn login_issues_parseable_token() {
    let tok = login("demo", "demo").unwrap();
    assert_eq!(tok, "user-4.exp.sign");
    assert_eq!(parse_token(&tok), Ok(4));
}

#[test]
fn login_round_trip_various_names() {
    for name in ["a", "qiao", "a longer user name"] {
        let tok = login(name, name).unwrap();
        let id = parse_token(&tok).unwrap();
        assert_eq!(id, name.chars().count() as u64);
    }
}

#[test]
fn login_rejects_mismatch() {
    assert_eq!(login("demo", "demo2"), Err(Error::LoginFail));
    assert_eq!(login("a", "b"), Err(Error::LoginFail));
}

#[test]
fn login_rejects_empty() {
    assert_eq!(login("", ""), Err(Error::LoginFail));
}

#[test]
fn format_token_exact() {
    assert_eq!(format_token(0), "user-0.exp.sign");
    assert_eq!(format_token(1), "user-1.exp.sign");
    assert_eq!(format_token(10500), "user-10500.exp.sign");
}

#[test]
fn u64_to_string_exact() {
    assert_eq!(u64_to_string(0), "0");
    assert_eq!(u64_to_string(9), "9");
    assert_eq!(u64_to_string(10), "10");
    assert_eq!(u64_to_string(10500), "10500");
    assert_eq!(u64_to_string(u64::MAX), "18446744073709551615");
}

#[test]
fn parse_token_accepts_well_formed() {
    assert_eq!(parse_token("user-1.exp.sign"), Ok(1));
    assert_eq!(parse_token("user-123.a.b"), Ok(123));
    assert_eq!(parse_token("user-0.."), Ok(0));
    assert_eq!(parse_token("user-18446744073709551615.s.e"), Ok(u64::MAX));
}

#[test]
fn parse_token_rejects_malformed() {
    let wrong = Err(Error::AuthFailTokenWrongFormat);
    assert_eq!(parse_token(""), wrong);
    assert_eq!(parse_token("garbage"), wrong);
    assert_eq!(parse_token("usr-1.a.b"), wrong);
    assert_eq!(parse_token("user-.a.b"), wrong);
    assert_eq!(parse_token("user-x.a.b"), wrong);
    assert_eq!(parse_token("user-1"), wrong);
    assert_eq!(parse_token("user-1.a"), wrong);
    assert_eq!(parse_token("user-1.a.b.c"), wrong);
    // One past u64::MAX: the user segment no longer fits.
    assert_eq!(parse_token("user-18446744073709551616.s.e"), wrong);
}

#[test]
fn resolver_records_missing_cookie() {
    assert_eq!(resolve_ctx(None), Err(Error::AuthFailNoAuthTokenCookie));
}

#[test]
fn resolver_records_malformed_cookie() {
    let raw = String::from("garbage");
    assert_eq!(resolve_ctx(Some(&raw)), Err(Error::AuthFailTokenWrongFormat));
}

#[test]
fn resolver_builds_ctx_from_token() {
    let raw = String::from("user-42.exp.sign");
    let ctx = resolve_ctx(Some(&raw)).unwrap();
    assert_eq!(ctx.user_id(), 42);
}

#[test]
fn gate_passes_resolved_ctx_through() {
    let outcome: Result<Ctx, Error> = Ok(Ctx::new(7));
    let ctx = require_auth(Some(&outcome)).unwrap();
    assert_eq!(ctx.user_id(), 7);
}

#[test]
fn gate_resurfaces_resolver_failure() {
    let outcome: Result<Ctx, Error> = Err(Error::AuthFailTokenWrongFormat);
    assert_eq!(require_auth(Some(&outcome)), Err(Error::AuthFailTokenWrongFormat));
}

#[test]
fn gate_fails_without_recorded_outcome() {
    assert_eq!(require_auth(None), Err(Error::AuthFailCtxNotInRequestExt));
}

#[test]
fn bad_cookies_map_to_no_auth_403() {
    // Absent cookie, then a malformed one: both auth failures map to the
    // NO_AUTH envelope at 403.
    let raw = String::from("not-a-token");
    for outcome in [resolve_ctx(None), resolve_ctx(Some(&raw))] {
        let e = outcome.unwrap_err();
        assert_eq!(e.client_status_and_error(), (403, ClientError::NO_AUTH));
    }
}

#[test]
fn status_mapping_all_variants() {
    assert_eq!(
        Error::LoginFail.client_status_and_error(),
        (403, ClientError::LOGIN_FAIL)
    );
    assert_eq!(
        Error::AuthFailNoAuthTokenCookie.client_status_and_error(),
        (403, ClientError::NO_AUTH)
    );
    assert_eq!(
        Error::AuthFailTokenWrongFormat.client_status_and_error(),
        (403, ClientError::NO_AUTH)
    );
    assert_eq!(
        Error::AuthFailCtxNotInRequestExt.client_status_and_error(),
        (403, ClientError::NO_AUTH)
    );
    assert_eq!(
        Error::TicketDeleteFailIdNotFound { id: 3 }.client_status_and_error(),
        (400, ClientError::INVALID_PARAMS)
    );
    // Unmapped variant: the deliberate fallback.
    assert_eq!(
        Error::TicketGetFailIdNotFound { id: 3 }.client_status_and_error(),
        (500, ClientError::SERVICE_ERROR)
    );
}

#[test]
fn envelope_exact() {
    let body = client_error_body(ClientError::LOGIN_FAIL, "uuid-1");
    assert_eq!(body, "{\"error\":{\"type\":\"LOGIN_FAIL\",\"req_uuid\":\"uuid-1\"}}");
}

#[test]
fn map_response_passes_success_through() {
    assert_eq!(map_response(None, "uuid-2"), None);
}

#[test]
fn map_response_rewrites_errors() {
    let e = Error::AuthFailNoAuthTokenCookie;
    let (status, body) = map_response(Some(&e), "uuid-3").unwrap();
    assert_eq!(status, 403);
    assert_eq!(body, "{\"error\":{\"type\":\"NO_AUTH\",\"req_uuid\":\"uuid-3\"}}");
}

#[test]
fn log_line_exact() {
    let line = log_line(
        "id1",
        "t1",
        Some(42),
        "GET",
        "/api/tickets",
        Some(&Error::LoginFail),
    );
    assert_eq!(line, "id1 t1 user=42 GET /api/tickets error=LoginFail client_error=LOGIN_FAIL");
    let quiet = log_line("id2", "t2", None, "GET", "/hello", None);
    assert_eq!(quiet, "id2 t2 user=- GET /hello error=- client_error=-");
}

#[test]
fn hello_defaults_to_world() {
    let body = hello_greeting(None);
    assert!(body.contains("World"));
    assert_eq!(body, "Hello <strong>World!!!</strong>");
}

#[test]
fn hello_uses_query_name() {
    let name = String::from("Qiao");
    let body = hello_greeting(Some(&name));
    assert!(body.contains("Qiao"));
    assert_eq!(body, "Hello <strong>Qiao!!!</strong>");
}

#[test]
fn hello2_uses_path_name() {
    assert_eq!(hello2_greeting("Mike"), "Hello2 <strong>Mike!!!</strong>");
}
