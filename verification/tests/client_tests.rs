use ergosphere::api::client::{
    is_success, ApiClient, Primary, Replica, GRAVITY_STREAM_CLOSED, MISSING_SID, NOT_AUTHENTICATED,
};
use ergosphere::api::error::ApiError;
use ergosphere::api::types::{
    ApiErrorPayload, ApiResult, ApiSessionPayload, ErrorDetails, GravityImportOptions,
    SessionDetails, TeleporterImportOptions,
};

const SECOND: u128 = 1_000_000_000;

fn session(sid: Option<&str>, validity: u64) -> SessionDetails {
    SessionDetails {
        valid: true,
        totp: false,
        sid: sid.map(|s| s.to_string()),
        csrf: Some("csrf".to_string()),
        validity,
        message: None,
    }
}

fn error_doc(key: &str, message: &str) -> ApiErrorPayload {
    ApiErrorPayload {
        error: ErrorDetails { key: key.to_string(), message: message.to_string(), hint: None },
    }
}

fn options() -> TeleporterImportOptions {
    TeleporterImportOptions {
        config: true,
        dhcp_leases: false,
        gravity: GravityImportOptions {
            group: true,
            adlist: true,
            adlist_by_group: true,
            domainlist: true,
            domainlist_by_group: true,
            client: true,
            client_by_group: true,
        },
    }
}

#[test]
fn base_url_gains_trailing_slash_and_api() {
    let c = ApiClient::<Primary>::new("http://192.168.0.2", None).unwrap();
    let req = c.auth_request("pw").unwrap();
    assert_eq!(req.endpoint, "http://192.168.0.2/api/auth/");
    assert_eq!(req.payload.password, "pw");

    let c = ApiClient::<Primary>::new("https://pi.example:8443/pihole", None).unwrap();
    let req = c.auth_request("pw").unwrap();
    assert_eq!(req.endpoint, "https://pi.example:8443/pihole/api/auth/");

    let c = ApiClient::<Primary>::new("http://10.0.0.1/admin/", None).unwrap();
    assert_eq!(c.auth_request("x").unwrap().endpoint, "http://10.0.0.1/admin/api/auth/");
}

#[test]
fn invalid_url_is_a_url_error() {
    match ApiClient::<Replica>::new("not a url", None) {
        Err(ApiError::UrlParseError(e)) => assert_eq!(e, url::ParseError::RelativeUrlWithoutBase),
        _ => panic!("expected a URL parse error"),
    }
    assert!(matches!(
        ApiClient::<Replica>::new("http://", None),
        Err(ApiError::UrlParseError(url::ParseError::EmptyHost))
    ));
}

#[test]
fn identifier_prefers_label_then_host() {
    let labelled = ApiClient::<Primary>::new("http://192.168.0.2", Some("pihole-primary".to_string())).unwrap();
    assert_eq!(labelled.identifier(), "pihole-primary");
    let bare = ApiClient::<Replica>::new("http://192.168.0.3:8080", None).unwrap();
    assert_eq!(bare.identifier(), "192.168.0.3");
    let hostless = ApiClient::<Replica>::new("unix:/run/pihole.sock", None).unwrap();
    assert_eq!(hostless.identifier(), "unix:/run/pihole.sock/api/");
}

#[test]
fn unauthenticated_client_has_no_sid_and_is_expired() {
    let c = ApiClient::<Primary>::new("http://192.168.0.2", None).unwrap();
    assert!(c.is_session_expired(0));
    assert!(c.is_session_expired(u128::MAX));
    match c.get_sid() {
        Err(ApiError::Unauthorized(m)) => assert_eq!(m, NOT_AUTHENTICATED),
        _ => panic!("expected unauthorized"),
    }
    assert!(matches!(c.download_request(), Err(ApiError::Unauthorized(_))));
}

#[test]
fn authentication_installs_session_with_buffer() {
    let mut c = ApiClient::<Replica>::new("http://192.168.0.3", None).unwrap();
    let payload = ApiSessionPayload { session: session(Some("abc"), 300) };
    let now = 1_000 * SECOND;
    assert!(c.complete_authentication(200, ApiResult::Success(payload), now).is_ok());
    assert_eq!(c.get_sid().unwrap(), "abc");
    // Expires 295 s later: validity less the 5 s safety buffer.
    assert!(!c.is_session_expired(now));
    assert!(!c.is_session_expired(now + 295 * SECOND - 1));
    assert!(c.is_session_expired(now + 295 * SECOND));
    let up = c.upload_request(options()).unwrap();
    assert_eq!(up.endpoint, "http://192.168.0.3/api/teleporter/");
    assert_eq!(up.sid, "abc");
    assert!(up.options.config && !up.options.dhcp_leases);
    let g = c.gravity_request().unwrap();
    assert_eq!(g.endpoint, "http://192.168.0.3/api/action/gravity/");
    let out = c.invalidate_session_request().unwrap();
    assert_eq!(out.endpoint, "http://192.168.0.3/api/auth/");
}

#[test]
fn short_validity_expires_immediately() {
    let mut c = ApiClient::<Primary>::new("http://192.168.0.2", None).unwrap();
    let payload = ApiSessionPayload { session: session(Some("s"), 3) };
    c.complete_authentication(200, ApiResult::Success(payload), 7 * SECOND).unwrap();
    assert!(c.is_session_expired(7 * SECOND));
}

#[test]
fn session_without_sid() {
    let mut c = ApiClient::<Primary>::new("http://192.168.0.2", None).unwrap();
    let payload = ApiSessionPayload { session: session(None, 300) };
    c.complete_authentication(200, ApiResult::Success(payload), 0).unwrap();
    match c.get_sid() {
        Err(ApiError::Unauthorized(m)) => assert_eq!(m, MISSING_SID),
        _ => panic!("expected unauthorized"),
    }
}

#[test]
fn authentication_failures_map_status() {
    let mut c = ApiClient::<Primary>::new("http://192.168.0.2", None).unwrap();
    let r = c.complete_authentication(400, ApiResult::Failure(error_doc("bad_request", "No valid JSON payload found")), 0);
    assert!(matches!(r, Err(ApiError::BadRequest(m)) if m == "No valid JSON payload found"));
    let r = c.complete_authentication(401, ApiResult::Failure(error_doc("unauthorized", "wrong password")), 0);
    assert!(matches!(r, Err(ApiError::Unauthorized(m)) if m == "wrong password"));
    let r = c.complete_authentication(429, ApiResult::Failure(error_doc("rate_limiting", "slow down")), 0);
    assert!(matches!(r, Err(ApiError::TooManyRequests(m)) if m == "slow down"));
    let r = c.complete_authentication(500, ApiResult::Failure(error_doc("x", "y")), 0);
    assert!(matches!(r, Err(ApiError::UnexpectedStatusCode(500))));
    // The client stays unauthenticated.
    assert!(c.get_sid().is_err());
    assert!(c.is_session_expired(0));
}

#[test]
fn error_documents_map_to_errors() {
    let e = ApiClient::<Primary>::map_error_response(401, ApiResult::Failure(error_doc("unauthorized", "expired")));
    assert!(matches!(e, ApiError::Unauthorized(m) if m == "expired"));
    let e = ApiClient::<Primary>::map_error_response(400, ApiResult::Failure(error_doc("bad_request", "nope")));
    assert!(matches!(e, ApiError::Error(m) if m == "nope"));
    let e = ApiClient::<Primary>::map_error_response(404, ApiResult::Success(error_doc("not_found", "gone")));
    assert!(matches!(e, ApiError::UnexpectedStatusCode(404)));
}

#[test]
fn download_outcomes() {
    assert!(is_success(200) && is_success(299) && !is_success(300) && !is_success(199));
    let ok = ApiClient::<Primary>::download_outcome(200, Ok(vec![1, 2, 3]), None).unwrap();
    assert_eq!(ok, vec![1, 2, 3]);
    let e = ApiClient::<Primary>::download_outcome(200, Err("reset".to_string()), None);
    assert!(matches!(e, Err(ApiError::Transport(m)) if m == "reset"));
    let e = ApiClient::<Primary>::download_outcome(401, Ok(vec![]), Some(ApiResult::Failure(error_doc("unauthorized", "no"))));
    assert!(matches!(e, Err(ApiError::Unauthorized(m)) if m == "no"));
    let e = ApiClient::<Primary>::download_outcome(502, Ok(vec![]), None);
    assert!(matches!(e, Err(ApiError::UnexpectedStatusCode(502))));
}

#[test]
fn upload_and_gravity_outcomes() {
    assert!(ApiClient::<Replica>::upload_outcome(201, None).is_ok());
    assert!(matches!(ApiClient::<Replica>::upload_outcome(413, None), Err(ApiError::UnexpectedStatusCode(413))));
    assert!(ApiClient::<Replica>::gravity_status_outcome(200).is_ok());
    assert!(ApiClient::<Replica>::gravity_status_outcome(302).is_ok());
    assert!(ApiClient::<Replica>::gravity_status_outcome(399).is_ok());
    assert!(matches!(ApiClient::<Replica>::gravity_status_outcome(400), Err(ApiError::UnexpectedStatusCode(400))));
    assert!(matches!(ApiClient::<Replica>::gravity_status_outcome(503), Err(ApiError::UnexpectedStatusCode(503))));
    assert!(ApiClient::<Replica>::gravity_status_outcome(600).is_ok());
    assert!(ApiClient::<Replica>::gravity_stream_outcome(Ok(())).is_ok());
    match ApiClient::<Replica>::gravity_stream_outcome(Err("eof".to_string())) {
        Err(ApiError::Error(m)) => assert_eq!(m, GRAVITY_STREAM_CLOSED),
        _ => panic!("expected a stream error"),
    }
}

#[test]
fn authentication_keeps_the_node_name() {
    let mut c = ApiClient::<Replica>::new("http://192.168.0.9:8080/", None).unwrap();
    let before = c.identifier();
    let payload = ApiSessionPayload { session: session(Some("z"), 60) };
    c.complete_authentication(200, ApiResult::Success(payload), 0).unwrap();
    assert_eq!(c.identifier(), before);
    assert_eq!(before, "192.168.0.9");
}

#[test]
fn try_new_creates_clients_for_ordinary_urls() {
    match ApiClient::<Primary>::try_new("http://10.0.0.1:8080", Some("p".to_string())) {
        Some(Ok(c)) => assert_eq!(c.identifier(), "p"),
        _ => panic!("expected a client"),
    }
    assert!(matches!(ApiClient::<Replica>::try_new("::bad::", None), Some(Err(ApiError::UrlParseError(_)))));
}
