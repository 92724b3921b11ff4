use axum::http::{HeaderMap, HeaderValue};
use gateway::authorize::{
    basic_pair, client_creds, exchange_reply, refreshed_reply, token, TokenForm, TokenStep,
};
use gateway::error::{Code, Status};
use gateway::json::Json;
use gateway::messages::{OidcTokens, TokenPair};
use gateway::reply::{Body, Reply};

fn form(grant_type: &str) -> TokenForm {
    TokenForm {
        grant_type: grant_type.to_string(),
        code: "c1".to_string(),
        redirect_uri: "https://app/cb".to_string(),
        client_id: "web".to_string(),
        client_secret: "s".to_string(),
        code_verifier: "v".to_string(),
        refresh_token: "rt".to_string(),
    }
}

fn with_authorization(text: &str) -> HeaderMap {
    let mut headers = HeaderMap::new();
    headers.insert("authorization", HeaderValue::from_str(text).unwrap());
    headers
}

fn members(reply: &Reply) -> Vec<(String, String)> {
    let Body::Json(Json::Object(entries)) = &reply.body else { panic!("not an object") };
    let text = |j: &Json| match j {
        Json::Text(s) => s.clone(),
        Json::Number(n) => format!("{n}"),
        _ => panic!("unexpected member"),
    };
    entries.iter().map(|(k, v)| (k.clone(), text(v))).collect()
}

fn pairs(expected: &[(&str, &str)]) -> Vec<(String, String)> {
    expected.iter().map(|(k, v)| (k.to_string(), v.to_string())).collect()
}

fn is_uncached(reply: &Reply) -> bool {
    reply.headers == vec![("cache-control".to_string(), "no-store".to_string())]
}

fn failure() -> Status {
    Status { code: Code::Internal, message: "db".to_string() }
}

#[test]
fn the_form_names_the_client_first() {
    let headers = with_authorization("Basic d2ViOnMzOmNyZXQ=");
    assert_eq!(client_creds(&headers, &form("")), ("web".to_string(), "s".to_string()));
}

#[test]
fn the_basic_header_names_the_client_next() {
    let mut f = form("");
    f.client_id = String::new();
    let headers = with_authorization("Basic d2ViOnMzOmNyZXQ=");
    assert_eq!(client_creds(&headers, &f), ("web".to_string(), "s3:cret".to_string()));
}

#[test]
fn a_basic_header_that_cannot_be_read_is_passed_over() {
    let mut f = form("");
    f.client_id = String::new();
    // another scheme, another case, no base64, no UTF-8, no colon
    for text in ["Bearer x", "basic d2ViOnMzOmNyZXQ=", "Basic d2Vi!", "Basic /w==", "Basic d2Vi"] {
        let headers = with_authorization(text);
        assert_eq!(client_creds(&headers, &f), (String::new(), "s".to_string()));
    }
    assert_eq!(client_creds(&HeaderMap::new(), &f), (String::new(), "s".to_string()));
}

#[test]
fn the_decoded_bytes_are_cut_at_the_first_colon() {
    let pair = |bytes: &[u8]| basic_pair(bytes.to_vec());
    assert_eq!(pair(b"abc:p:q"), Some(("abc".to_string(), "p:q".to_string())));
    assert_eq!(pair(b":"), Some((String::new(), String::new())));
    assert_eq!(pair("é:ü".as_bytes()), Some(("é".to_string(), "ü".to_string())));
    assert_eq!(pair(b"abc"), None);
    assert_eq!(pair(b""), None);
    assert_eq!(pair(b"a:\xff"), None);
}

#[test]
fn a_code_is_exchanged() {
    match token(&HeaderMap::new(), form("authorization_code")) {
        TokenStep::Exchange(q) => {
            assert_eq!(q.client_id, "web");
            assert_eq!(q.client_secret, "s");
            assert_eq!(q.code, "c1");
            assert_eq!(q.redirect_uri, "https://app/cb");
            assert_eq!(q.code_verifier, "v");
        }
        _ => panic!("not exchanged"),
    }
}

#[test]
fn a_refresh_token_is_refreshed() {
    match token(&HeaderMap::new(), form("refresh_token")) {
        TokenStep::Refresh(q) => assert_eq!(q.refresh_token, "rt"),
        _ => panic!("not refreshed"),
    }
}

#[test]
fn other_grants_are_refused() {
    for grant in ["", "password", "Authorization_code"] {
        match token(&HeaderMap::new(), form(grant)) {
            TokenStep::Refuse(reply) => {
                assert_eq!(reply.status, 400);
                assert_eq!(members(&reply), pairs(&[("error", "unsupported_grant_type")]));
                assert!(is_uncached(&reply));
            }
            _ => panic!("not refused"),
        }
    }
}

#[test]
fn an_exchange_hands_out_tokens() {
    let reply = exchange_reply(Ok(OidcTokens {
        access_token: "at".to_string(),
        id_token: "it".to_string(),
        refresh_token: "rt".to_string(),
        expires_in: Json::Number(900),
        scope: "openid".to_string(),
    }));
    assert_eq!(reply.status, 200);
    assert!(is_uncached(&reply));
    assert_eq!(
        members(&reply),
        pairs(&[
            ("access_token", "at"),
            ("id_token", "it"),
            ("refresh_token", "rt"),
            ("token_type", "Bearer"),
            ("expires_in", "900"),
            ("scope", "openid"),
        ])
    );
}

#[test]
fn a_refresh_hands_out_tokens() {
    let reply = refreshed_reply(Ok(TokenPair {
        access_token: "at".to_string(),
        refresh_token: "rt".to_string(),
        expires_in: Json::Number(900),
        token_type: "other".to_string(),
        mfa_required: true,
        mfa_token: "m".to_string(),
    }));
    assert_eq!(reply.status, 200);
    assert!(is_uncached(&reply));
    assert_eq!(
        members(&reply),
        pairs(&[
            ("access_token", "at"),
            ("refresh_token", "rt"),
            ("token_type", "Bearer"),
            ("expires_in", "900"),
        ])
    );
}

#[test]
fn a_refused_grant_is_invalid_and_not_cached() {
    for reply in [exchange_reply(Err(failure())), refreshed_reply(Err(failure()))] {
        assert_eq!(reply.status, 400);
        assert_eq!(members(&reply), pairs(&[("error", "invalid_grant")]));
        assert!(is_uncached(&reply));
    }
}
