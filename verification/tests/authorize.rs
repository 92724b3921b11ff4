use axum::http::{HeaderMap, HeaderValue};
use gateway::authorize::{
    authorize, authorize_consent, authorize_login, authorize_run, authorize_to_code, consent_run,
    issue_code, redirect_error, redirect_with, routes, scopes_covered, AuthorizeClient,
    AuthorizeConsent, AuthorizeSession, ConsentForm, LoginForm, Step,
};
use gateway::error::{Code, Status};
use gateway::json::Json;
use gateway::messages::{Client, TokenPair, ValidateTokenResponse};
use gateway::pages::{consent_page, login_page, AuthzParams};
use gateway::reply::{Body, Reply};
use gateway::router::Endpoint;
use gateway::session::{find_session, open_session, Session};

fn params() -> AuthzParams {
    AuthzParams {
        response_type: "code".to_string(),
        client_id: "web".to_string(),
        redirect_uri: "https://app/cb".to_string(),
        scope: "openid email".to_string(),
        state: "xyz".to_string(),
        code_challenge: "ch".to_string(),
        code_challenge_method: "S256".to_string(),
        nonce: "n0".to_string(),
    }
}

fn consent_form(action: &str) -> ConsentForm {
    let p = params();
    ConsentForm {
        action: action.to_string(),
        response_type: p.response_type,
        client_id: p.client_id,
        redirect_uri: p.redirect_uri,
        scope: p.scope,
        state: p.state,
        code_challenge: p.code_challenge,
        code_challenge_method: p.code_challenge_method,
        nonce: p.nonce,
    }
}

fn login_form() -> LoginForm {
    let p = params();
    LoginForm {
        email: "a@b.c".to_string(),
        password: "pw".to_string(),
        response_type: p.response_type,
        client_id: p.client_id,
        redirect_uri: p.redirect_uri,
        scope: p.scope,
        state: p.state,
        code_challenge: p.code_challenge,
        code_challenge_method: p.code_challenge_method,
        nonce: p.nonce,
    }
}

fn client() -> Client {
    Client {
        name: "Web & Co".to_string(),
        redirect_uris: vec!["https://other/cb".to_string(), "https://app/cb".to_string()],
    }
}

fn session() -> Session {
    Session { uid: "u1".to_string(), email: "a@b.c".to_string(), exp: 10 }
}

fn failure() -> Status {
    Status { code: Code::Internal, message: "db".to_string() }
}

fn html(reply: &Reply) -> (u16, String) {
    assert!(reply.headers.is_empty());
    match &reply.body {
        Body::Html(page) => (reply.status, page.clone()),
        _ => panic!("not a page"),
    }
}

fn location(reply: &Reply) -> String {
    assert_eq!(reply.status, 303);
    assert!(matches!(reply.body, Body::Empty));
    assert_eq!(reply.headers[0].0, "location");
    reply.headers[0].1.clone()
}

fn done<S, Q>(step: Step<S, Q>) -> Reply {
    match step {
        Step::Done(reply) => reply,
        Step::Ask(_, _) => panic!("asked"),
    }
}

fn ask<S, Q>(step: Step<S, Q>) -> (S, Q) {
    match step {
        Step::Ask(state, question) => (state, question),
        Step::Done(_) => panic!("done"),
    }
}

fn at_client() -> AuthorizeClient {
    ask(authorize(params())).0
}

fn at_session() -> AuthorizeSession {
    match at_client().client_found(Ok(client())) {
        Ok(state) => state,
        Err(_) => panic!("refused"),
    }
}

fn at_consent() -> AuthorizeConsent {
    ask(at_session().session_read(Some(session()))).0
}

#[test]
fn the_flow_has_four_endpoints() {
    assert!(
        routes()
            == vec![
                Endpoint::Authorize,
                Endpoint::AuthorizeLogin,
                Endpoint::AuthorizeConsent,
                Endpoint::Token
            ]
    );
}

#[test]
fn only_the_code_response_type_is_supported() {
    let mut p = params();
    p.response_type = "token".to_string();
    assert_eq!(
        html(&done(authorize(p))),
        (400, "unsupported response_type (only 'code')".to_string())
    );
    let (_, question) = ask(authorize(params()));
    assert_eq!(question.client_id, "web");
}

#[test]
fn an_unknown_client_is_refused() {
    match at_client().client_found(Err(failure())) {
        Err(reply) => assert_eq!(html(&reply), (400, "unknown client".to_string())),
        Ok(_) => panic!("accepted"),
    }
}

#[test]
fn a_location_that_is_not_registered_is_refused() {
    let mut p = params();
    p.redirect_uri = "https://app/cb/".to_string();
    match ask(authorize(p)).0.client_found(Ok(client())) {
        Err(reply) => assert_eq!(html(&reply), (400, "invalid redirect_uri".to_string())),
        Ok(_) => panic!("accepted"),
    }
}

#[test]
fn without_a_session_the_user_signs_in() {
    let reply = done(at_session().session_read(None));
    assert_eq!(html(&reply), (200, login_page(&params(), "")));
}

#[test]
fn with_a_session_the_consent_is_looked_up() {
    let (_, question) = ask(at_session().session_read(Some(session())));
    assert_eq!((question.user_id.as_str(), question.client_id.as_str()), ("u1", "web"));
}

#[test]
fn without_full_consent_the_user_is_asked() {
    let page = (200, consent_page(&params(), "Web & Co"));
    assert_eq!(html(&done(at_consent().consent_found(Ok(vec!["openid".to_string()])))), page);
    assert_eq!(html(&done(at_consent().consent_found(Err(failure())))), page);
}

#[test]
fn with_full_consent_a_code_is_issued() {
    let granted = vec!["email".to_string(), "openid".to_string(), "profile".to_string()];
    let (state, question) = ask(at_consent().consent_found(Ok(granted)));
    assert_eq!(question.client_id, "web");
    assert_eq!(question.user_id, "u1");
    assert_eq!(question.redirect_uri, "https://app/cb");
    assert_eq!(question.scope, "openid email");
    assert_eq!(question.code_challenge, "ch");
    assert_eq!(question.code_challenge_method, "S256");
    assert_eq!(question.nonce, "n0");
    let reply = state.code_made(Ok("c 1".to_string()));
    assert_eq!(location(&reply), "https://app/cb?code=c+1&state=xyz");
}

#[test]
fn a_code_that_cannot_be_made_is_an_error_at_the_client() {
    let (state, _) = issue_code(params(), "u1".to_string());
    assert_eq!(
        location(&state.code_made(Err(failure()))),
        "https://app/cb?error=server_error&state=xyz"
    );
}

#[test]
fn an_empty_state_is_left_out() {
    let mut p = params();
    p.state = String::new();
    assert_eq!(
        location(&redirect_error(&p, "access_denied")),
        "https://app/cb?error=access_denied"
    );
    let (state, _) = issue_code(p, "u1".to_string());
    assert_eq!(location(&state.code_made(Ok("c".to_string()))), "https://app/cb?code=c");
}

#[test]
fn a_location_with_a_query_is_continued() {
    let pairs = vec![
        ("code".to_string(), "a b+c/d".to_string()),
        ("state".to_string(), "x&y=é".to_string()),
    ];
    let query = "code=a+b%2Bc%2Fd&state=x%26y%3D%C3%A9";
    assert_eq!(location(&redirect_with("https://a/b", &pairs)), format!("https://a/b?{query}"));
    assert_eq!(
        location(&redirect_with("https://a/b?k=v", &pairs)),
        format!("https://a/b?k=v&{query}")
    );
}

#[test]
fn scopes_are_covered_by_all_of_their_words() {
    let granted = vec!["openid".to_string(), "email".to_string()];
    assert!(scopes_covered(&granted, "openid"));
    assert!(scopes_covered(&granted, " email\topenid "));
    assert!(!scopes_covered(&granted, "openid profile"));
    assert!(!scopes_covered(&granted, ""));
    assert!(!scopes_covered(&granted, "  "));
    assert!(!scopes_covered(&Vec::new(), "openid"));
}

#[test]
fn a_login_asks_for_the_password_check() {
    let (_, question) = authorize_login(login_form());
    assert_eq!((question.email.as_str(), question.password.as_str()), ("a@b.c", "pw"));
}

#[test]
fn a_wrong_password_shows_the_page_again() {
    let (state, _) = authorize_login(login_form());
    let reply = done(state.password_checked(Err(failure())));
    assert_eq!(html(&reply), (401, login_page(&params(), "Invalid email or password")));
}

fn tokens() -> TokenPair {
    TokenPair {
        access_token: "at".to_string(),
        refresh_token: "rt".to_string(),
        expires_in: Json::Number(900),
        token_type: "Bearer".to_string(),
        mfa_required: false,
        mfa_token: String::new(),
    }
}

fn user() -> ValidateTokenResponse {
    ValidateTokenResponse {
        user_id: "u1".to_string(),
        email: "a@b.c".to_string(),
        roles: vec![],
        permissions: vec![],
        tenant_id: String::new(),
        project_id: String::new(),
    }
}

#[test]
fn a_user_that_cannot_be_identified_is_a_failed_login() {
    let (state, _) = authorize_login(login_form());
    let (state, question) = ask(state.password_checked(Ok(tokens())));
    assert_eq!(question.access_token, "at");
    let reply = done(state.identified(Err(failure()), i64::MAX));
    assert_eq!(html(&reply), (500, "login failed".to_string()));
}

#[test]
fn a_login_sets_a_session_and_goes_back() {
    for (proto, secure) in [(Some("https"), true), (Some("HTTPS"), false), (None, false)] {
        let (state, _) = authorize_login(login_form());
        let (state, _) = ask(state.password_checked(Ok(tokens())));
        let (state, session) = ask(state.identified(Ok(user()), 1000));
        assert_eq!((session.uid.as_str(), session.email.as_str()), ("u1", "a@b.c"));
        assert_eq!(session.exp, 4600);
        let mut headers = HeaderMap::new();
        if let Some(p) = proto {
            headers.insert("x-forwarded-proto", HeaderValue::from_static(p));
        }
        let reply = state.written(b"payload", "k", &headers);
        assert_eq!(
            location(&reply),
            "/authorize?response_type=code&client_id=web&redirect_uri=https%3A%2F%2Fapp%2Fcb\
             &scope=openid+email&state=xyz&code_challenge=ch&code_challenge_method=S256&nonce=n0"
        );
        assert_eq!(reply.headers.len(), 2);
        assert_eq!(reply.headers[1].0, "set-cookie");
        let cookie = reply.headers[1].1.clone();
        assert_eq!(cookie.ends_with("; Secure"), secure);
        let value = find_session(cookie.split(';').next().unwrap()).unwrap();
        assert_eq!(open_session(&value, "k"), Some(b"payload".to_vec()));
    }
}

#[test]
fn a_consent_without_a_session_goes_back() {
    let reply = done(authorize_consent(consent_form("allow"), None));
    assert!(location(&reply).starts_with("/authorize?response_type=code&client_id=web&"));
}

#[test]
fn a_consent_checks_the_client_again() {
    let begin = || ask(authorize_consent(consent_form("allow"), Some(session())));
    let (state, question) = begin();
    assert_eq!(question.client_id, "web");
    assert_eq!(html(&done(state.client_found(Err(failure())))), (400, "invalid client".to_string()));
    let (state, _) = begin();
    let moved = Client { name: "Web".to_string(), redirect_uris: vec!["https://x".to_string()] };
    assert_eq!(
        html(&done(state.client_found(Ok(moved)))),
        (400, "invalid redirect_uri".to_string())
    );
}

#[test]
fn a_denied_consent_gives_no_code() {
    for action in ["deny", "", "Allow", "allow "] {
        let (state, _) = ask(authorize_consent(consent_form(action), Some(session())));
        assert_eq!(
            location(&done(state.client_found(Ok(client())))),
            "https://app/cb?error=access_denied&state=xyz"
        );
    }
}

#[test]
fn an_allowed_consent_is_saved_and_covers_the_request() {
    let (state, _) = ask(authorize_consent(consent_form("allow"), Some(session())));
    let (state, question) = ask(state.client_found(Ok(client())));
    assert_eq!((question.user_id.as_str(), question.client_id.as_str()), ("u1", "web"));
    assert_eq!(question.scopes, vec!["openid".to_string(), "email".to_string()]);
    assert!(scopes_covered(&question.scopes, "openid email"));
    let (state, request) = state.saved();
    assert_eq!(request.user_id, "u1");
    assert_eq!(
        location(&state.code_made(Ok("c".to_string()))),
        "https://app/cb?code=c&state=xyz"
    );
}

#[test]
fn the_browser_is_sent_only_to_registered_locations() {
    let registered = client().redirect_uris;
    for uri in ["https://app/cb", "https://evil/cb", "https://other/cb"] {
        let mut p = params();
        p.redirect_uri = uri.to_string();
        let known = registered.iter().any(|u| u == uri);
        match ask(authorize(p)).0.client_found(Ok(client())) {
            Ok(state) => {
                assert!(known);
                let (state, _) = ask(state.session_read(Some(session())));
                let granted = vec!["openid".to_string(), "email".to_string()];
                let (state, _) = ask(state.consent_found(Ok(granted)));
                assert!(location(&state.code_made(Ok("c".to_string()))).starts_with(uri));
            }
            Err(reply) => {
                assert!(!known);
                assert_eq!(reply.status, 400);
            }
        }
    }
}

fn scopes() -> Vec<String> {
    vec!["openid".to_string(), "email".to_string()]
}

#[test]
fn an_authorization_runs_to_its_end() {
    let code = || Ok("c".to_string());
    let reply = authorize_run(params(), Ok(client()), Some(session()), Ok(scopes()), code());
    assert_eq!(location(&reply), "https://app/cb?code=c&state=xyz");
    let reply = authorize_run(params(), Ok(client()), Some(session()), Ok(vec![]), code());
    assert_eq!(html(&reply).0, 200);
    let reply = authorize_run(params(), Ok(client()), None, Ok(scopes()), code());
    assert_eq!(html(&reply), (200, login_page(&params(), "")));
    let reply = authorize_run(params(), Err(failure()), Some(session()), Ok(scopes()), code());
    assert_eq!(html(&reply), (400, "unknown client".to_string()));
}

#[test]
fn a_code_needs_a_session_and_consent() {
    let asked = |session, consent| {
        matches!(authorize_to_code(params(), Ok(client()), session, consent), Step::Ask(_, _))
    };
    assert!(asked(Some(session()), Ok(scopes())));
    assert!(!asked(None, Ok(scopes())));
    assert!(!asked(Some(session()), Ok(vec!["openid".to_string()])));
    assert!(!asked(Some(session()), Err(failure())));
}

#[test]
fn a_consent_runs_to_its_end() {
    let code = || Ok("c".to_string());
    let run = |action: &str| {
        location(&consent_run(consent_form(action), Ok(client()), Some(session()), code()))
    };
    assert_eq!(run("allow"), "https://app/cb?code=c&state=xyz");
    assert_eq!(run("deny"), "https://app/cb?error=access_denied&state=xyz");
    let reply = consent_run(consent_form("allow"), Ok(client()), None, code());
    assert!(location(&reply).starts_with("/authorize?"));
}

#[test]
fn every_character_of_a_query_is_encoded() {
    let ascii: String = (1u8..128).map(|b| b as char).collect();
    let pairs = vec![(ascii.clone(), "é€🔐".to_string()), (String::new(), String::new())];
    let text = location(&redirect_with("", &pairs));
    let mut expected = String::from("?");
    for b in ascii.bytes() {
        match b {
            b'*' | b'-' | b'.' | b'_' | b'0'..=b'9' | b'A'..=b'Z' | b'a'..=b'z' => {
                expected.push(b as char)
            }
            b' ' => expected.push('+'),
            _ => expected.push_str(&format!("%{b:02X}")),
        }
    }
    expected.push_str("=%C3%A9%E2%82%AC%F0%9F%94%90&=");
    assert_eq!(text, expected);
    assert!(HeaderValue::from_str(&text).is_ok());
    assert_eq!(location(&redirect_with("u", &Vec::new())), "u?");
}
