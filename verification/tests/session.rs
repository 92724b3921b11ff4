use axum::http::{HeaderMap, HeaderValue};
use gateway::session::{
    find_session, now, open_session, parse_session, session_cookie, session_secret, sign_session,
    Session,
};
use hmac::{Hmac, Mac};

const PAYLOAD: &[u8] = br#"{"uid":"u1","email":"a@b.c","exp":4600}"#;
const SIGNED: &str = "eyJ1aWQiOiJ1MSIsImVtYWlsIjoiYUBiLmMiLCJleHAiOjQ2MDB9.x-teIwe9U-v691EnNXNwFAwKYkjAknzand9SQAgIG7Q";

fn with_cookie(text: &str) -> HeaderMap {
    let mut headers = HeaderMap::new();
    headers.insert("cookie", HeaderValue::from_str(text).unwrap());
    headers
}

#[test]
fn signing_gives_the_known_value() {
    assert_eq!(sign_session(PAYLOAD, "s3cret"), SIGNED);
}

#[test]
fn a_signed_value_opens_with_its_secret_only() {
    assert_eq!(open_session(SIGNED, "s3cret"), Some(PAYLOAD.to_vec()));
    assert_eq!(open_session(SIGNED, "other"), None);
}

#[test]
fn a_value_that_was_tampered_with_does_not_open() {
    let swapped = SIGNED.replacen("eyJ1", "eyJ2", 1);
    assert_eq!(open_session(&swapped, "s3cret"), None);
    let cut = &SIGNED[..SIGNED.len() - 1];
    assert_eq!(open_session(cut, "s3cret"), None);
    assert_eq!(open_session("no dot here", "s3cret"), None);
    assert_eq!(open_session("a.b!", "s3cret"), None);
    assert_eq!(open_session(".", "s3cret"), None);
}

#[test]
fn an_empty_payload_and_an_empty_secret_round_trip() {
    let value = sign_session(&[], "");
    assert!(value.starts_with('.'));
    assert_eq!(open_session(&value, ""), Some(Vec::new()));
}

#[test]
fn a_payload_that_is_not_base64_does_not_open_though_signed() {
    let mut mac = Hmac::<sha2::Sha256>::new_from_slice(b"k").unwrap();
    mac.update(b"!!");
    let tag = mac.finalize().into_bytes();
    let value = format!(
        "!!.{}",
        base64::Engine::encode(&base64::engine::general_purpose::URL_SAFE_NO_PAD, tag)
    );
    assert_eq!(open_session(&value, "k"), None);
}

#[test]
fn the_session_is_found_alone_and_behind_other_cookies() {
    assert_eq!(find_session("iam_session=abc"), Some("abc".to_string()));
    assert_eq!(find_session("theme=dark; iam_session=abc"), Some("abc".to_string()));
    assert_eq!(find_session("a=1;iam_session=x;iam_session=y"), Some("x".to_string()));
    assert_eq!(find_session("a=1;  iam_session=x \t; b=2"), Some("x".to_string()));
    assert_eq!(find_session("iam_session="), Some(String::new()));
    assert_eq!(find_session("xiam_session=abc"), None);
    assert_eq!(find_session("IAM_SESSION=abc"), None);
    assert_eq!(find_session(""), None);
}

#[test]
fn a_request_hands_back_what_was_signed() {
    for payload in [PAYLOAD.to_vec(), vec![0, 255, 1, 254], Vec::new()] {
        let value = sign_session(&payload, "k");
        let headers = with_cookie(&format!("a=b; iam_session={value}; c=d"));
        assert_eq!(parse_session(&headers, "k"), Some(payload.clone()));
        assert_eq!(parse_session(&headers, "l"), None);
        let first = with_cookie(&format!("iam_session={value}; theme=dark; iam_session=x"));
        assert_eq!(parse_session(&first, "k"), Some(payload.clone()));
        let last = with_cookie(&format!("a=b; iam_session={value}"));
        assert_eq!(parse_session(&last, "k"), Some(payload.clone()));
        let alone = with_cookie(&format!("iam_session={value}"));
        assert_eq!(parse_session(&alone, "k"), Some(payload.clone()));
    }
}

#[test]
fn a_request_without_a_readable_cookie_has_no_session() {
    assert_eq!(parse_session(&HeaderMap::new(), "k"), None);
    let mut headers = HeaderMap::new();
    headers.insert("cookie", HeaderValue::from_bytes(b"iam_session=\xff").unwrap());
    assert_eq!(parse_session(&headers, "k"), None);
    assert_eq!(parse_session(&with_cookie("a=b"), "k"), None);
}

#[test]
fn only_the_first_cookie_header_is_read() {
    let value = sign_session(PAYLOAD, "k");
    let mut headers = HeaderMap::new();
    headers.append("cookie", HeaderValue::from_static("a=b"));
    headers.append("cookie", HeaderValue::from_str(&format!("iam_session={value}")).unwrap());
    assert_eq!(parse_session(&headers, "k"), None);
}

#[test]
fn the_cookie_has_its_attributes() {
    assert_eq!(
        session_cookie("v", false),
        "iam_session=v; HttpOnly; SameSite=Lax; Path=/; Max-Age=3600"
    );
    assert_eq!(
        session_cookie("v", true),
        "iam_session=v; HttpOnly; SameSite=Lax; Path=/; Max-Age=3600; Secure"
    );
}

#[test]
fn the_cookie_of_a_session_is_a_header_value() {
    let value = sign_session(&[0, 1, 2, 250, 251, 252, 253, 254, 255], "k");
    for secure in [false, true] {
        assert!(HeaderValue::from_str(&session_cookie(&value, secure)).is_ok());
    }
}

#[test]
fn a_session_lasts_an_hour_to_the_second() {
    let session = || Session::starting("u1".to_string(), "a@b.c".to_string(), 1000);
    assert_eq!(session().exp, 4600);
    assert!(session().unexpired(4599).is_some());
    assert!(session().unexpired(4600).is_some());
    assert!(session().unexpired(4601).is_none());
    let kept = session().unexpired(1000).unwrap();
    assert_eq!((kept.uid.as_str(), kept.email.as_str(), kept.exp), ("u1", "a@b.c", 4600));
}

#[test]
fn the_clock_counts_from_the_epoch() {
    assert_eq!(now(Some(1_700_000_000)), 1_700_000_000);
    assert_eq!(now(None), 0);
}

#[test]
fn the_secret_is_the_configured_one_even_if_empty() {
    assert_eq!(session_secret(Some("x".to_string())), "x");
    assert_eq!(session_secret(Some(String::new())), "");
    assert_eq!(session_secret(None), "dev-session-secret-change-me-please");
}
