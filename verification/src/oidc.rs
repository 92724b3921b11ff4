//! OIDC discovery and the published keys.

use axum::http::HeaderMap;
use vstd::prelude::*;
use vstd::string::*;

use crate::error::{error_of, error_reply, ApiError, Status};
use crate::headers::{header, header_text};
use crate::json::{list, list_of_texts, single, text_list, views, Fields, Json, JsonView};
use crate::messages::Jwk;
use crate::reply::{json_view, Reply, ReplyView, OK};
use crate::router::Endpoint;
use crate::text::{texts, trim_trailing, without_trailing};

verus! {

/// The endpoints of OpenID Connect discovery.
pub fn routes() -> (r: Vec<Endpoint>)
    ensures
        r@ == seq![Endpoint::Discovery, Endpoint::Jwks],
{
    vec![Endpoint::Discovery, Endpoint::Jwks]
}

/// The issuer: the configured one without slashes at its end, or else the one that the
/// request was addressed to.
pub open spec fn issuer_of(
    configured: Option<Seq<char>>,
    proto: Option<Seq<char>>,
    host: Option<Seq<char>>,
) -> Seq<char> {
    if configured is Some && configured->0.len() > 0 {
        without_trailing(configured->0, '/')
    } else {
        (match proto {
            Some(scheme) => scheme,
            None => "http"@,
        }) + "://"@ + (match host {
            Some(name) => name,
            None => "localhost:8080"@,
        })
    }
}

/// What an optional string holds.
pub open spec fn optional_text(s: Option<String>) -> Option<Seq<char>> {
    match s {
        Some(text) => Some(text@),
        None => None,
    }
}

/// Tells the issuer.
pub fn issuer(headers: &HeaderMap, configured: Option<String>) -> (r: String)
    ensures
        r@ == issuer_of(
            optional_text(configured),
            header_text(*headers, "x-forwarded-proto"@),
            header_text(*headers, "host"@),
        ),
{
    match configured {
        Some(url) => if !url.as_str().is_empty() {
            return trim_trailing(url.as_str(), '/');
        },
        None => {},
    }
    proof {
        reveal_strlit("x-forwarded-proto");
        reveal_strlit("host");
    }
    let mut r = match header(headers, "x-forwarded-proto") {
        Some(scheme) => scheme,
        None => "http".to_owned(),
    };
    r.append("://");
    match header(headers, "host") {
        Some(name) => {
            r.append(name.as_str());
        },
        None => {
            r.append("localhost:8080");
        },
    }
    r
}

/// The discovery document of an issuer.
pub open spec fn discovery_view(iss: Seq<char>) -> JsonView {
    JsonView::Object(
        seq![
            ("issuer"@, JsonView::Text(iss)),
            ("authorization_endpoint"@, JsonView::Text(iss + "/authorize"@)),
            ("token_endpoint"@, JsonView::Text(iss + "/token"@)),
            ("userinfo_endpoint"@, JsonView::Text(iss + "/userinfo"@)),
            ("jwks_uri"@, JsonView::Text(iss + "/.well-known/jwks.json"@)),
            ("end_session_endpoint"@, JsonView::Text(iss + "/logout"@)),
            ("response_types_supported"@, text_list(seq!["code"@])),
            (
                "grant_types_supported"@,
                text_list(seq!["authorization_code"@, "refresh_token"@]),
            ),
            ("subject_types_supported"@, text_list(seq!["public"@])),
            ("id_token_signing_alg_values_supported"@, text_list(seq!["RS256"@])),
            ("scopes_supported"@, text_list(seq!["openid"@, "profile"@, "email"@])),
            (
                "token_endpoint_auth_methods_supported"@,
                text_list(seq!["client_secret_post"@, "none"@]),
            ),
            ("code_challenge_methods_supported"@, text_list(seq!["S256"@])),
        ],
    )
}

/// The list of one text.
fn one(a: &str) -> (r: Json)
    ensures
        r@ == text_list(seq![a@]),
{
    let mut v: Vec<String> = Vec::new();
    v.push(a.to_owned());
    assert(texts(v@) =~= seq![a@]);
    list_of_texts(v)
}

/// The list of two texts.
fn two(a: &str, b: &str) -> (r: Json)
    ensures
        r@ == text_list(seq![a@, b@]),
{
    let mut v: Vec<String> = Vec::new();
    v.push(a.to_owned());
    v.push(b.to_owned());
    assert(texts(v@) =~= seq![a@, b@]);
    list_of_texts(v)
}

/// The list of three texts.
fn three(a: &str, b: &str, c: &str) -> (r: Json)
    ensures
        r@ == text_list(seq![a@, b@, c@]),
{
    let mut v: Vec<String> = Vec::new();
    v.push(a.to_owned());
    v.push(b.to_owned());
    v.push(c.to_owned());
    assert(texts(v@) =~= seq![a@, b@, c@]);
    list_of_texts(v)
}

/// A location under the issuer.
fn under(iss: &str, path: &str) -> (r: String)
    ensures
        r@ == iss@ + path@,
{
    let mut r = iss.to_owned();
    r.append(path);
    r
}

/// Answers with the discovery document.
pub fn discovery(headers: &HeaderMap, configured: Option<String>) -> (r: Reply)
    ensures
        r@ == json_view(
            OK,
            discovery_view(
                issuer_of(
                    optional_text(configured),
                    header_text(*headers, "x-forwarded-proto"@),
                    header_text(*headers, "host"@),
                ),
            ),
        ),
{
    let iss = issuer(headers, configured);
    let i = iss.as_str();
    let mut doc = Fields::new();
    doc.put_text("issuer", iss.clone());
    doc.put_text("authorization_endpoint", under(i, "/authorize"));
    doc.put_text("token_endpoint", under(i, "/token"));
    doc.put_text("userinfo_endpoint", under(i, "/userinfo"));
    doc.put_text("jwks_uri", under(i, "/.well-known/jwks.json"));
    doc.put_text("end_session_endpoint", under(i, "/logout"));
    doc.put("response_types_supported", one("code"));
    doc.put("grant_types_supported", two("authorization_code", "refresh_token"));
    doc.put("subject_types_supported", one("public"));
    doc.put("id_token_signing_alg_values_supported", one("RS256"));
    doc.put("scopes_supported", three("openid", "profile", "email"));
    doc.put("token_endpoint_auth_methods_supported", two("client_secret_post", "none"));
    doc.put("code_challenge_methods_supported", one("S256"));
    assert(JsonView::Object(doc@) == discovery_view(iss@)) by {
        assert(doc@ =~= discovery_view(iss@)->Object_0);
    }
    Reply::json(OK, doc.object())
}

/// A published key.
pub open spec fn jwk_view(k: Jwk) -> JsonView {
    JsonView::Object(
        seq![
            ("kty"@, JsonView::Text(k.kty@)),
            ("use"@, JsonView::Text(k.key_use@)),
            ("alg"@, JsonView::Text(k.alg@)),
            ("kid"@, JsonView::Text(k.kid@)),
            ("n"@, JsonView::Text(k.n@)),
            ("e"@, JsonView::Text(k.e@)),
        ],
    )
}

/// Writes a published key.
fn jwk_json(k: &Jwk) -> (r: Json)
    ensures
        r@ == jwk_view(*k),
{
    let mut f = Fields::new();
    f.put_text("kty", k.kty.clone());
    f.put_text("use", k.key_use.clone());
    f.put_text("alg", k.alg.clone());
    f.put_text("kid", k.kid.clone());
    f.put_text("n", k.n.clone());
    f.put_text("e", k.e.clone());
    assert(JsonView::Object(f@) == jwk_view(*k)) by {
        assert(f@ =~= jwk_view(*k)->Object_0);
    }
    f.object()
}

/// The reply with the published keys.
pub open spec fn jwks_view(answer: Result<Vec<Jwk>, Status>) -> ReplyView {
    match answer {
        Ok(keys) => json_view(
            OK,
            JsonView::Object(
                seq![("keys"@, JsonView::List(keys@.map_values(|k: Jwk| jwk_view(k))))],
            ),
        ),
        Err(status) => error_reply(error_of(status)),
    }
}

/// Answers with the published keys.
pub fn jwks(answer: Result<Vec<Jwk>, Status>) -> (r: Reply)
    ensures
        r@ == jwks_view(answer),
{
    match answer {
        Ok(keys) => {
            let mut items: Vec<Json> = Vec::new();
            let mut i: usize = 0;
            while i < keys.len()
                invariant
                    i <= keys@.len(),
                    items@.len() == i,
                    forall|j: int| 0 <= j < i ==> (#[trigger] items@[j])@ == jwk_view(keys@[j]),
                decreases keys@.len() - i,
            {
                items.push(jwk_json(&keys[i]));
                i = i + 1;
            }
            assert(views(items@) =~= keys@.map_values(|k: Jwk| jwk_view(k)));
            Reply::json(OK, single("keys", list(items)))
        },
        Err(status) => ApiError::from(status).into_response(),
    }
}

/// The discovery document points at endpoints of this gateway: authorization, tokens, user
/// info and keys stand under the issuer where the document says.
pub proof fn law_discovery_points_at_routes(iss: Seq<char>)
    ensures
        ({
            let doc = discovery_view(iss)->Object_0;
            &&& doc.contains(
                ("authorization_endpoint"@, JsonView::Text(iss + Endpoint::Authorize.at())),
            )
            &&& doc.contains(("token_endpoint"@, JsonView::Text(iss + Endpoint::Token.at())))
            &&& doc.contains(("userinfo_endpoint"@, JsonView::Text(iss + Endpoint::Userinfo.at())))
            &&& doc.contains(("jwks_uri"@, JsonView::Text(iss + Endpoint::Jwks.at())))
        }),
{
    let doc = discovery_view(iss)->Object_0;
    assert(doc[1].0 == "authorization_endpoint"@);
    assert(doc[2].0 == "token_endpoint"@);
    assert(doc[3].0 == "userinfo_endpoint"@);
    assert(doc[4].0 == "jwks_uri"@);
}

/// The discovery document says of every issuer what the gateway supports, and nothing else.
pub proof fn law_discovery_members(iss: Seq<char>)
    ensures
        discovery_view(iss) is Object,
        discovery_view(iss)->Object_0.len() == 13,
        discovery_view(iss)->Object_0.contains(
            ("issuer"@, JsonView::Text(iss)),
        ),
        discovery_view(iss)->Object_0.contains(
            ("authorization_endpoint"@, JsonView::Text(iss + "/authorize"@)),
        ),
        discovery_view(iss)->Object_0.contains(
            ("token_endpoint"@, JsonView::Text(iss + "/token"@)),
        ),
        discovery_view(iss)->Object_0.contains(
            ("userinfo_endpoint"@, JsonView::Text(iss + "/userinfo"@)),
        ),
        discovery_view(iss)->Object_0.contains(
            ("jwks_uri"@, JsonView::Text(iss + "/.well-known/jwks.json"@)),
        ),
        discovery_view(iss)->Object_0.contains(
            ("end_session_endpoint"@, JsonView::Text(iss + "/logout"@)),
        ),
        discovery_view(iss)->Object_0.contains(
            ("response_types_supported"@, text_list(seq!["code"@])),
        ),
        discovery_view(iss)->Object_0.contains(
            ("grant_types_supported"@, text_list(seq!["authorization_code"@, "refresh_token"@])),
        ),
        discovery_view(iss)->Object_0.contains(
            ("subject_types_supported"@, text_list(seq!["public"@])),
        ),
        discovery_view(iss)->Object_0.contains(
            ("id_token_signing_alg_values_supported"@, text_list(seq!["RS256"@])),
        ),
        discovery_view(iss)->Object_0.contains(
            ("scopes_supported"@, text_list(seq!["openid"@, "profile"@, "email"@])),
        ),
        discovery_view(iss)->Object_0.contains(
            (
                "token_endpoint_auth_methods_supported"@,
                text_list(seq!["client_secret_post"@, "none"@]),
            ),
        ),
        discovery_view(iss)->Object_0.contains(
            ("code_challenge_methods_supported"@, text_list(seq!["S256"@])),
        ),
{
    let doc = discovery_view(iss)->Object_0;
    assert(doc[0] == ("issuer"@, JsonView::Text(iss)));
    assert(doc[1] == ("authorization_endpoint"@, JsonView::Text(iss + "/authorize"@)));
    assert(doc[2] == ("token_endpoint"@, JsonView::Text(iss + "/token"@)));
    assert(doc[3] == ("userinfo_endpoint"@, JsonView::Text(iss + "/userinfo"@)));
    assert(doc[4] == ("jwks_uri"@, JsonView::Text(iss + "/.well-known/jwks.json"@)));
    assert(doc[5] == ("end_session_endpoint"@, JsonView::Text(iss + "/logout"@)));
    assert(doc[6] == ("response_types_supported"@, text_list(seq!["code"@])));
    assert(doc[7] == (
        "grant_types_supported"@,
        text_list(seq!["authorization_code"@, "refresh_token"@]),
    ));
    assert(doc[8] == ("subject_types_supported"@, text_list(seq!["public"@])));
    assert(doc[9] == ("id_token_signing_alg_values_supported"@, text_list(seq!["RS256"@])));
    assert(doc[10] == ("scopes_supported"@, text_list(seq!["openid"@, "profile"@, "email"@])));
    assert(doc[11] == (
        "token_endpoint_auth_methods_supported"@,
        text_list(seq!["client_secret_post"@, "none"@]),
    ));
    assert(doc[12] == ("code_challenge_methods_supported"@, text_list(seq!["S256"@])));
}

/// A configured issuer is told whatever the request says, without slashes at its end; where
/// none is configured, the request and the defaults make it up.
pub proof fn law_issuer(
    configured: Seq<char>,
    proto: Option<Seq<char>>,
    host: Option<Seq<char>>,
    scheme: Seq<char>,
    name: Seq<char>,
)
    ensures
        configured.len() > 0 ==> issuer_of(Some(configured), proto, host) == without_trailing(
            configured,
            '/',
        ),
        configured.len() == 0 ==> issuer_of(Some(configured), proto, host) == issuer_of(
            None,
            proto,
            host,
        ),
        issuer_of(None, Some(scheme), Some(name)) == scheme + "://"@ + name,
        issuer_of(None, None, Some(name)) == "http"@ + "://"@ + name,
        issuer_of(None, Some(scheme), None) == scheme + "://"@ + "localhost:8080"@,
        issuer_of(None, None, None) == "http"@ + "://"@ + "localhost:8080"@,
{
}

/// What an optional string holds is the string's text, where there is a string.
pub proof fn law_optional_text(s: String)
    ensures
        optional_text(Some(s)) == Some(s@),
        optional_text(None) is None,
{
}

/// A key is published with all that it holds.
pub proof fn law_jwk_members(k: Jwk)
    ensures
        jwk_view(k) is Object,
        jwk_view(k)->Object_0.len() == 6,
        jwk_view(k)->Object_0.contains(("kty"@, JsonView::Text(k.kty@))),
        jwk_view(k)->Object_0.contains(("use"@, JsonView::Text(k.key_use@))),
        jwk_view(k)->Object_0.contains(("alg"@, JsonView::Text(k.alg@))),
        jwk_view(k)->Object_0.contains(("kid"@, JsonView::Text(k.kid@))),
        jwk_view(k)->Object_0.contains(("n"@, JsonView::Text(k.n@))),
        jwk_view(k)->Object_0.contains(("e"@, JsonView::Text(k.e@))),
{
    let m = jwk_view(k)->Object_0;
    assert(m[0] == ("kty"@, JsonView::Text(k.kty@)));
    assert(m[1] == ("use"@, JsonView::Text(k.key_use@)));
    assert(m[2] == ("alg"@, JsonView::Text(k.alg@)));
    assert(m[3] == ("kid"@, JsonView::Text(k.kid@)));
    assert(m[4] == ("n"@, JsonView::Text(k.n@)));
    assert(m[5] == ("e"@, JsonView::Text(k.e@)));
}

/// Every key is published, in its place; a refusal of the service is answered as an error.
pub proof fn law_keys_are_all_published(keys: Vec<Jwk>, status: Status)
    ensures
        jwks_view(Ok(keys)).status == 200,
        jwks_view(Ok(keys)).headers.len() == 0,
        jwks_view(Ok(keys)).body is Json,
        ({
            let m = jwks_view(Ok(keys)).body->Json_0->Object_0;
            &&& jwks_view(Ok(keys)).body->Json_0 is Object
            &&& m.len() == 1
            &&& m[0].0 == "keys"@
            &&& m[0].1 is List
            &&& m[0].1->List_0.len() == keys@.len()
            &&& forall|i: int|
                0 <= i < keys@.len() ==> #[trigger] m[0].1->List_0[i] == jwk_view(keys@[i])
        }),
        jwks_view(Err(status)) == error_reply(error_of(status)),
{
}

} // verus!
