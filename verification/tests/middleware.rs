use axum::http::{HeaderMap, HeaderValue};
use gateway::clients::TokenInterceptor;
use gateway::error::{ApiError, Code, Status};
use gateway::headers::{edge_terminated_tls, is_secure, security_headers};
use gateway::json::Json;
use gateway::messages::{ValidateApiKeyResponse, ValidateTokenResponse};
use gateway::middleware::{
    api_key_identity, attach_identity, auth, authenticated_caller, bearer, call_as,
    token_identity, Credential, Identity,
};
use gateway::reply::Body;
use tonic::metadata::MetadataMap;

fn identity() -> Identity {
    Identity {
        user_id: "u1".to_string(),
        email: "a@b.c".to_string(),
        roles: vec!["admin".to_string()],
        permissions: vec!["user:read".to_string(), "role:read".to_string()],
        tenant_id: "t1".to_string(),
        project_id: String::new(),
    }
}

fn with(name: &'static str, value: &str) -> HeaderMap {
    let mut headers = HeaderMap::new();
    headers.insert(name, HeaderValue::from_str(value).unwrap());
    headers
}

fn failure() -> Status {
    Status { code: Code::Internal, message: "db".to_string() }
}

fn unauthorized(e: ApiError, message: &str) {
    assert_eq!((e.code, e.message.as_str()), (401, message));
}

#[test]
fn a_permission_is_held_or_not() {
    let id = identity();
    assert!(id.has_permission("user:read"));
    assert!(!id.has_permission("user"));
    assert!(!id.has_permission("user:write"));
    assert!(id.require("role:read").is_ok());
}

#[test]
fn a_missing_permission_is_forbidden() {
    match identity().require("user:write") {
        Err(e) => {
            assert_eq!(e.code, 403);
            assert_eq!(e.message, "permission denied: user:write");
        }
        Ok(()) => panic!("permitted"),
    }
}

#[test]
fn a_bearer_token_is_read() {
    assert_eq!(bearer(&with("authorization", "Bearer abc")), Some("abc".to_string()));
    assert_eq!(bearer(&with("authorization", "bEARER   abc def ")), Some("abc def".to_string()));
    assert_eq!(bearer(&with("authorization", "Bearer ")), Some(String::new()));
    assert_eq!(bearer(&with("authorization", "Bearer")), None);
    assert_eq!(bearer(&with("authorization", "Basic abc")), None);
    assert_eq!(bearer(&HeaderMap::new()), None);
    let mut headers = HeaderMap::new();
    headers.insert("authorization", HeaderValue::from_bytes(b"Bearer \xe9").unwrap());
    assert_eq!(bearer(&headers), None);
}

#[test]
fn the_prefix_tells_keys_from_tokens() {
    match auth(&with("authorization", "Bearer iamk_1")) {
        Ok(Credential::ApiKey(q)) => assert_eq!(q.api_key, "iamk_1"),
        _ => panic!("not a key"),
    }
    match auth(&with("authorization", "Bearer IAMK_1")) {
        Ok(Credential::AccessToken(q)) => assert_eq!(q.access_token, "IAMK_1"),
        _ => panic!("not a token"),
    }
    match auth(&HeaderMap::new()) {
        Err(e) => unauthorized(e, "missing bearer token"),
        Ok(_) => panic!("authenticated"),
    }
}

#[test]
fn a_key_acts_with_its_scopes() {
    let owner = ValidateApiKeyResponse {
        user_id: "u1".to_string(),
        email: "a@b.c".to_string(),
        scopes: vec!["user:read".to_string()],
    };
    let id = api_key_identity(Ok(owner)).ok().unwrap();
    assert_eq!((id.user_id.as_str(), id.email.as_str()), ("u1", "a@b.c"));
    assert!(id.roles.is_empty() && id.tenant_id.is_empty() && id.project_id.is_empty());
    assert_eq!(id.permissions, vec!["user:read".to_string()]);
    unauthorized(api_key_identity(Err(failure())).err().unwrap(), "invalid api key");
}

#[test]
fn a_token_acts_with_its_claims() {
    let claims = ValidateTokenResponse {
        user_id: "u1".to_string(),
        email: "a@b.c".to_string(),
        roles: vec!["admin".to_string()],
        permissions: vec!["user:read".to_string()],
        tenant_id: "t1".to_string(),
        project_id: "p1".to_string(),
    };
    let id = token_identity(Ok(claims)).ok().unwrap();
    assert_eq!(id.roles, vec!["admin".to_string()]);
    assert_eq!(id.permissions, vec!["user:read".to_string()]);
    assert_eq!((id.tenant_id.as_str(), id.project_id.as_str()), ("t1", "p1"));
    unauthorized(token_identity(Err(failure())).err().unwrap(), "invalid or expired token");
}

#[test]
fn a_caller_without_identity_is_refused() {
    assert_eq!(authenticated_caller(Some(identity())).ok().unwrap().user_id, "u1");
    unauthorized(authenticated_caller(None).err().unwrap(), "unauthenticated");
}

fn text(metadata: &MetadataMap, key: &str) -> Option<String> {
    metadata.get(key).map(|v| String::from_utf8(v.as_bytes().to_vec()).unwrap())
}

#[test]
fn the_identity_arrives() {
    let call = call_as(&identity(), 7u32);
    assert_eq!(call.message, 7);
    let md = call.metadata;
    assert_eq!(text(&md, "x-user-id"), Some("u1".to_string()));
    assert_eq!(text(&md, "x-user-email"), Some("a@b.c".to_string()));
    assert_eq!(text(&md, "x-user-permissions"), Some("user:read,role:read".to_string()));
    assert_eq!(text(&md, "x-tenant-id"), Some("t1".to_string()));
    assert_eq!(text(&md, "x-project-id"), Some(String::new()));
    assert_eq!(md.len(), 5);
}

#[test]
fn what_cannot_travel_is_left_out() {
    let mut id = identity();
    id.user_id = "a\nb".to_string();
    id.email = "é\t@b".to_string();
    id.tenant_id = "\u{7f}".to_string();
    let mut md = MetadataMap::new();
    md.insert("x-user-id", "old".parse().unwrap());
    md.insert("x-other", "kept".parse().unwrap());
    assert!(attach_identity(&mut md, &id));
    assert_eq!(text(&md, "x-user-id"), Some("old".to_string()));
    assert_eq!(text(&md, "x-other"), Some("kept".to_string()));
    assert_eq!(text(&md, "x-user-email"), Some("é\t@b".to_string()));
    assert_eq!(text(&md, "x-tenant-id"), None);
}

#[test]
fn the_identity_replaces_what_stood_there() {
    let mut md = MetadataMap::new();
    md.append("x-user-id", "one".parse().unwrap());
    md.append("x-user-id", "two".parse().unwrap());
    assert!(attach_identity(&mut md, &identity()));
    assert_eq!(md.get_all("x-user-id").iter().count(), 1);
    assert_eq!(text(&md, "x-user-id"), Some("u1".to_string()));
}

#[test]
fn the_internal_token_is_added() {
    let interceptor = TokenInterceptor::new("s3cret".to_string());
    let mut md = call_as(&identity(), ()).metadata;
    assert!(interceptor.call(&mut md));
    assert_eq!(text(&md, "x-internal-token"), Some("s3cret".to_string()));
    assert_eq!(text(&md, "x-user-id"), Some("u1".to_string()));
    assert_eq!(md.len(), 6);
}

#[test]
fn a_token_that_makes_no_value_is_left_out() {
    for token in ["", "a\nb"] {
        let mut md = MetadataMap::new();
        assert!(TokenInterceptor::new(token.to_string()).call(&mut md));
        assert_eq!(md.len(), 0);
    }
}

/// The most names that a header map takes.
const FULL: usize = 24576;

fn crowd(names: usize) -> HeaderMap {
    let mut headers = HeaderMap::new();
    for i in 0..names {
        let name: axum::http::HeaderName = format!("n{i}").parse().unwrap();
        headers.insert(name, HeaderValue::from_static("v"));
    }
    headers
}

#[test]
fn a_crowded_call_still_takes_the_token_and_the_identity() {
    let mut md = MetadataMap::from_headers(crowd(10_000));
    assert!(TokenInterceptor::new("t".to_string()).call(&mut md));
    assert!(attach_identity(&mut md, &identity()));
    assert_eq!(text(&md, "x-internal-token"), Some("t".to_string()));
    assert_eq!(text(&md, "x-user-id"), Some("u1".to_string()));
    assert_eq!(md.len(), 10_006);
}

#[test]
fn a_full_call_keeps_its_metadata() {
    let mut md = MetadataMap::from_headers(crowd(FULL));
    assert!(!TokenInterceptor::new("t".to_string()).call(&mut md));
    assert!(TokenInterceptor::new(String::new()).call(&mut md));
    assert!(!attach_identity(&mut md, &identity()));
    assert_eq!(md.len(), FULL);
    assert_eq!(text(&md, "n7"), Some("v".to_string()));
}

#[test]
fn the_identity_is_attached_as_far_as_there_is_room() {
    let mut md = MetadataMap::from_headers(crowd(FULL - 2));
    assert!(!attach_identity(&mut md, &identity()));
    assert_eq!(text(&md, "x-user-id"), Some("u1".to_string()));
    assert_eq!(text(&md, "x-user-email"), Some("a@b.c".to_string()));
    assert_eq!(text(&md, "x-user-permissions"), None);
    assert_eq!(md.len(), FULL);
}

#[test]
fn security_headers_are_set() {
    for https in [false, true] {
        let mut headers = with("x-frame-options", "SAMEORIGIN");
        headers.append("x-frame-options", HeaderValue::from_static("again"));
        headers.insert("x-kept", HeaderValue::from_static("yes"));
        assert!(security_headers(&mut headers, https));
        assert_eq!(headers["x-content-type-options"], "nosniff");
        assert_eq!(headers["x-frame-options"], "DENY");
        assert_eq!(headers.get_all("x-frame-options").iter().count(), 1);
        assert_eq!(headers["referrer-policy"], "no-referrer");
        assert_eq!(headers["x-kept"], "yes");
        assert_eq!(
            headers.get("strict-transport-security").map(|v| v.to_str().unwrap()),
            if https { Some("max-age=31536000; includeSubDomains") } else { None }
        );
    }
}

#[test]
fn a_crowded_response_still_takes_the_security_headers() {
    let mut headers = crowd(10_000);
    assert!(security_headers(&mut headers, true));
    assert_eq!(headers["x-frame-options"], "DENY");
    assert_eq!(headers.keys_len(), 10_004);
}

#[test]
fn a_full_response_takes_as_many_security_headers_as_fit() {
    let mut headers = crowd(FULL);
    assert!(!security_headers(&mut headers, true));
    assert_eq!(headers.keys_len(), FULL);
    let mut headers = crowd(FULL - 3);
    assert!(!security_headers(&mut headers, true));
    assert_eq!(headers["referrer-policy"], "no-referrer");
    assert!(headers.get("strict-transport-security").is_none());
    let mut headers = crowd(FULL - 3);
    assert!(security_headers(&mut headers, false));
}

#[test]
fn the_edge_tells_whether_it_was_https() {
    assert!(is_secure(&with("x-forwarded-proto", "https")));
    assert!(!is_secure(&with("x-forwarded-proto", "HTTPS")));
    assert!(!is_secure(&HeaderMap::new()));
    assert!(edge_terminated_tls(&with("x-forwarded-proto", "https")));
    assert!(edge_terminated_tls(&with("x-forwarded-proto", "HttpS")));
    assert!(!edge_terminated_tls(&with("x-forwarded-proto", "http")));
    assert!(!edge_terminated_tls(&HeaderMap::new()));
}

fn mapped(code: Code) -> (u16, String) {
    let e = ApiError::from(Status { code, message: "detail".to_string() });
    (e.code, e.message)
}

#[test]
fn client_errors_are_passed_on() {
    for (code, status) in [
        (Code::InvalidArgument, 400),
        (Code::Unauthenticated, 401),
        (Code::PermissionDenied, 403),
        (Code::NotFound, 404),
        (Code::AlreadyExists, 409),
        (Code::FailedPrecondition, 409),
    ] {
        assert_eq!(mapped(code), (status, "detail".to_string()));
    }
}

#[test]
fn internal_detail_stays_inside() {
    for code in [
        Code::Okay,
        Code::Cancelled,
        Code::Unknown,
        Code::DeadlineExceeded,
        Code::ResourceExhausted,
        Code::Aborted,
        Code::OutOfRange,
        Code::Unimplemented,
        Code::Internal,
        Code::Unavailable,
        Code::DataLoss,
    ] {
        assert_eq!(mapped(code), (500, "internal error".to_string()));
    }
}

#[test]
fn an_error_is_answered_as_json() {
    let reply = ApiError::bad_request("no name".to_string()).into_response();
    assert_eq!(reply.status, 400);
    assert!(reply.headers.is_empty());
    match reply.body {
        Body::Json(Json::Object(entries)) => {
            assert_eq!(entries.len(), 1);
            assert_eq!(entries[0].0, "error");
            assert!(matches!(&entries[0].1, Json::Text(t) if t == "no name"));
        }
        _ => panic!("not an object"),
    }
    let e = ApiError::new(418, "teapot".to_string());
    assert_eq!((e.code, e.message.as_str()), (418, "teapot"));
}
