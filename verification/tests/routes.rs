use axum::http::{HeaderMap, HeaderValue};
use gateway::config::{check_session_secret, listen_address, rate_limit, rate_window_seconds};
use gateway::docs::{asset, Asset};
use gateway::error::{Code, Status};
use gateway::json::Json;
use gateway::messages::Jwk;
use gateway::oidc::{discovery, issuer, jwks};
use gateway::reply::{Body, Reply};
use gateway::router::{build, healthz, Endpoint, Guard, Method, MAX_BODY};

fn members(reply: Reply) -> Vec<(String, Json)> {
    match reply.body {
        Body::Json(Json::Object(entries)) => entries,
        _ => panic!("not an object"),
    }
}

fn text(j: &Json) -> String {
    match j {
        Json::Text(t) => t.clone(),
        Json::List(items) => items.iter().map(text).collect::<Vec<_>>().join(" "),
        _ => panic!("not a text"),
    }
}

fn at(method: Method, path: &str) -> Vec<Endpoint> {
    build().into_iter().filter(|e| e.method() == method && e.path() == path).collect()
}

#[test]
fn every_route_leads_to_one_endpoint() {
    let all = build();
    assert_eq!(all.len(), 48);
    for e in &all {
        assert!(at(e.method(), e.path()) == vec![*e]);
    }
}

#[test]
fn the_routes_are_where_callers_expect_them() {
    assert!(at(Method::Post, "/auth/login") == vec![Endpoint::Login]);
    assert!(at(Method::Get, "/users/me") == vec![Endpoint::GetMe]);
    assert!(at(Method::Patch, "/users/:id") == vec![Endpoint::UpdateUser]);
    assert!(at(Method::Delete, "/users/:id") == vec![Endpoint::DeleteUser]);
    assert!(at(Method::Get, "/users/:id") == vec![Endpoint::GetUser]);
    assert!(
        at(Method::Delete, "/roles/:name/permissions/:perm") == vec![Endpoint::RevokePermission]
    );
    assert!(at(Method::Post, "/roles/:name/assignments") == vec![Endpoint::AssignRoleBulk]);
    assert!(at(Method::Get, "/.well-known/jwks.json") == vec![Endpoint::Jwks]);
    assert!(at(Method::Post, "/users/:id").is_empty());
    assert_eq!(MAX_BODY, 1 << 20);
}

#[test]
fn the_guards_are_as_many_as_the_endpoints_they_cover() {
    let count = |guard: Guard| build().iter().filter(|e| e.guard() == guard).count();
    assert_eq!(count(Guard::Open), 13);
    assert_eq!(count(Guard::RateLimited), 8);
    assert_eq!(count(Guard::Authenticated), 27);
}

#[test]
fn only_public_endpoints_are_without_authentication() {
    for (path, guard) in [
        ("/healthz", Guard::Open),
        ("/docs", Guard::Open),
        ("/authorize", Guard::Open),
        ("/token", Guard::Open),
        ("/auth/login", Guard::RateLimited),
        ("/auth/register", Guard::RateLimited),
        ("/auth/password-reset", Guard::RateLimited),
        ("/auth/logout", Guard::Authenticated),
        ("/auth/2fa/enroll", Guard::Authenticated),
        ("/users", Guard::Authenticated),
        ("/audit", Guard::Authenticated),
        ("/oauth/clients", Guard::Authenticated),
    ] {
        let found: Vec<Endpoint> = build().into_iter().filter(|e| e.path() == path).collect();
        assert_eq!(found.len(), 1);
        assert!(found[0].guard() == guard);
    }
}

#[test]
fn the_health_check_is_answered() {
    let reply = healthz();
    assert_eq!(reply.status, 200);
    let entries = members(reply);
    assert_eq!(entries.len(), 1);
    assert_eq!((entries[0].0.as_str(), text(&entries[0].1).as_str()), ("status", "ok"));
}

#[test]
fn the_documentation_has_its_media_types() {
    let types: Vec<(&str, &str)> = build()
        .into_iter()
        .filter_map(|e| asset(e).map(|a| (e.path(), a.content_type())))
        .collect();
    assert_eq!(
        types,
        vec![
            ("/openapi.yaml", "application/yaml"),
            ("/docs", "text/html; charset=utf-8"),
            ("/docs/", "text/html; charset=utf-8"),
            ("/docs/swagger-ui.css", "text/css"),
            ("/docs/swagger-ui-bundle.js", "application/javascript"),
            ("/docs/swagger-ui-standalone-preset.js", "application/javascript"),
        ]
    );
    assert!(asset(Endpoint::DocsStyle) == Some(Asset::Style));
    assert!(asset(Endpoint::Token).is_none());
    assert_eq!(gateway::docs::routes().len(), 6);
    assert_eq!(gateway::oidc::routes().len(), 2);
}

fn request(proto: Option<&'static str>, host: Option<&'static str>) -> HeaderMap {
    let mut headers = HeaderMap::new();
    if let Some(p) = proto {
        headers.insert("x-forwarded-proto", HeaderValue::from_static(p));
    }
    if let Some(h) = host {
        headers.insert("host", HeaderValue::from_static(h));
    }
    headers
}

#[test]
fn the_issuer_is_configured_or_derived() {
    let headers = request(Some("https"), Some("iam.example"));
    let configured = |url: &str| issuer(&headers, Some(url.to_string()));
    assert_eq!(configured("https://id.example///"), "https://id.example");
    assert_eq!(configured("https://id.example"), "https://id.example");
    assert_eq!(configured("/"), "");
    assert_eq!(configured(""), "https://iam.example");
    assert_eq!(issuer(&headers, None), "https://iam.example");
    assert_eq!(issuer(&request(None, Some("h:1")), None), "http://h:1");
    assert_eq!(issuer(&request(Some("https"), None), None), "https://localhost:8080");
    assert_eq!(issuer(&HeaderMap::new(), None), "http://localhost:8080");
}

#[test]
fn the_discovery_document_points_at_the_routes() {
    let reply = discovery(&HeaderMap::new(), Some("https://id".to_string()));
    assert_eq!(reply.status, 200);
    let shown: Vec<(String, String)> =
        members(reply).iter().map(|(k, v)| (k.clone(), text(v))).collect();
    let expected = [
        ("issuer", "https://id"),
        ("authorization_endpoint", "https://id/authorize"),
        ("token_endpoint", "https://id/token"),
        ("userinfo_endpoint", "https://id/userinfo"),
        ("jwks_uri", "https://id/.well-known/jwks.json"),
        ("end_session_endpoint", "https://id/logout"),
        ("response_types_supported", "code"),
        ("grant_types_supported", "authorization_code refresh_token"),
        ("subject_types_supported", "public"),
        ("id_token_signing_alg_values_supported", "RS256"),
        ("scopes_supported", "openid profile email"),
        ("token_endpoint_auth_methods_supported", "client_secret_post none"),
        ("code_challenge_methods_supported", "S256"),
    ];
    assert_eq!(
        shown,
        expected.iter().map(|(k, v)| (k.to_string(), v.to_string())).collect::<Vec<_>>()
    );
    for e in [Endpoint::Authorize, Endpoint::Token, Endpoint::Userinfo, Endpoint::Jwks] {
        assert!(shown.iter().any(|(_, v)| *v == format!("https://id{}", e.path())));
    }
}

#[test]
fn the_keys_are_published() {
    let key = Jwk {
        kty: "RSA".to_string(),
        key_use: "sig".to_string(),
        alg: "RS256".to_string(),
        kid: "k1".to_string(),
        n: "nn".to_string(),
        e: "AQAB".to_string(),
    };
    let reply = jwks(Ok(vec![key]));
    assert_eq!(reply.status, 200);
    let entries = members(reply);
    assert_eq!(entries[0].0, "keys");
    let Json::List(keys) = &entries[0].1 else { panic!("not a list") };
    let Json::Object(shown) = &keys[0] else { panic!("not an object") };
    let shown: Vec<(String, String)> = shown.iter().map(|(k, v)| (k.clone(), text(v))).collect();
    let expected = [
        ("kty", "RSA"),
        ("use", "sig"),
        ("alg", "RS256"),
        ("kid", "k1"),
        ("n", "nn"),
        ("e", "AQAB"),
    ];
    assert_eq!(
        shown,
        expected.iter().map(|(k, v)| (k.to_string(), v.to_string())).collect::<Vec<_>>()
    );
    let refused = Status { code: Code::Unavailable, message: "down".to_string() };
    let reply = jwks(Err(refused));
    assert_eq!(reply.status, 500);
    assert_eq!(text(&members(reply)[0].1), "internal error");
}

#[test]
fn production_needs_a_session_secret() {
    for env in ["production", "prod"] {
        assert_eq!(
            check_session_secret(env, ""),
            Err("SESSION_SECRET must be set in production (signs OIDC browser sessions)"
                .to_string())
        );
        assert_eq!(check_session_secret(env, "s"), Ok(()));
    }
    for env in ["", "dev", "Production"] {
        assert_eq!(check_session_secret(env, ""), Ok(()));
    }
}

#[test]
fn limits_are_read_or_fall_back() {
    let texts = [
        "60", "0", "+5", "007", "4294967295", "4294967296", "18446744073709551615",
        "18446744073709551616", "", "+", "-1", " 5", "5 ", "1e3", "++1", "٣",
    ];
    for text in texts {
        assert_eq!(rate_limit(text), text.parse::<u32>().unwrap_or(60));
        assert_eq!(rate_window_seconds(text), text.parse::<u64>().unwrap_or(60));
    }
}

#[test]
fn the_gateway_listens_on_every_interface() {
    assert_eq!(listen_address("8080"), "0.0.0.0:8080");
}
