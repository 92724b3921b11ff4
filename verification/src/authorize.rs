//! The OIDC authorization code flow in the browser: sign-in, consent, code, and the
//! token endpoint. Each phase takes the answer of the step before it and says what
//! comes next: a reply, or the next question to a service.

use axum::http::HeaderMap;
use vstd::prelude::*;
use vstd::string::*;
use vstd::utf8::*;

use crate::codec::{
    base64_decode, base64_decoded, form_encode, form_encoded, lemma_form_is_visible,
    lemma_visible_together, pair_texts, utf8_text,
};
use crate::error::Status;
use crate::headers::{header, header_text, is_secure, is_visible_text};
use crate::json::{single, Fields, Json, JsonView};
use crate::messages::{
    Client, CreateAuthorizationCodeRequest, ExchangeAuthorizationCodeRequest, GetClientRequest,
    GetConsentRequest, LoginRequest, OidcTokens, RefreshRequest, SaveConsentRequest, TokenPair,
    ValidateTokenRequest, ValidateTokenResponse,
};
use crate::pages::{
    consent_page, consent_page_text, login_page, login_page_text, AuthzParams,
};
use crate::reply::{
    html_view, json_view, redirect_view, with_header_view, BodyView, Reply, ReplyView,
    BAD_REQUEST, INTERNAL_SERVER_ERROR, OK, UNAUTHORIZED,
};
use crate::router::Endpoint;
use crate::session::{
    law_session_cookie_is_a_header_value, recognised, session_cookie, session_cookie_text,
    session_from, sign_session, signed, Session, SESSION_SECONDS,
};
use crate::text::{
    has_char, has_text, is_space, law_a_word_is_one, law_starts_with, law_white_space_parts_words,
    lemma_position, lemma_position_is, same, split_at_first, split_once, split_words, starts_with,
    strip_prefix, texts, words,
};

verus! {

/// The endpoints of the authorization code flow.
pub fn routes() -> (r: Vec<Endpoint>)
    ensures
        r@ == seq![
            Endpoint::Authorize,
            Endpoint::AuthorizeLogin,
            Endpoint::AuthorizeConsent,
            Endpoint::Token,
        ],
{
    vec![
        Endpoint::Authorize,
        Endpoint::AuthorizeLogin,
        Endpoint::AuthorizeConsent,
        Endpoint::Token,
    ]
}

/// What follows a phase: a reply, or a question whose answer the next phase takes.
pub enum Step<S, Q> {
    Done(Reply),
    Ask(S, Q),
}

/// The sign-in form.
pub struct LoginForm {
    pub email: String,
    pub password: String,
    pub response_type: String,
    pub client_id: String,
    pub redirect_uri: String,
    pub scope: String,
    pub state: String,
    pub code_challenge: String,
    pub code_challenge_method: String,
    pub nonce: String,
}

impl LoginForm {
    /// The parameters that the form carries.
    pub open spec fn carried(&self) -> AuthzParams {
        AuthzParams {
            response_type: self.response_type,
            client_id: self.client_id,
            redirect_uri: self.redirect_uri,
            scope: self.scope,
            state: self.state,
            code_challenge: self.code_challenge,
            code_challenge_method: self.code_challenge_method,
            nonce: self.nonce,
        }
    }

    /// The parameters that the form carries.
    pub fn params(&self) -> (r: AuthzParams)
        ensures
            r == self.carried(),
    {
        AuthzParams {
            response_type: self.response_type.clone(),
            client_id: self.client_id.clone(),
            redirect_uri: self.redirect_uri.clone(),
            scope: self.scope.clone(),
            state: self.state.clone(),
            code_challenge: self.code_challenge.clone(),
            code_challenge_method: self.code_challenge_method.clone(),
            nonce: self.nonce.clone(),
        }
    }
}

/// The consent form.
pub struct ConsentForm {
    pub action: String,
    pub response_type: String,
    pub client_id: String,
    pub redirect_uri: String,
    pub scope: String,
    pub state: String,
    pub code_challenge: String,
    pub code_challenge_method: String,
    pub nonce: String,
}

impl ConsentForm {
    /// The parameters that the form carries.
    pub open spec fn carried(&self) -> AuthzParams {
        AuthzParams {
            response_type: self.response_type,
            client_id: self.client_id,
            redirect_uri: self.redirect_uri,
            scope: self.scope,
            state: self.state,
            code_challenge: self.code_challenge,
            code_challenge_method: self.code_challenge_method,
            nonce: self.nonce,
        }
    }

    /// The parameters that the form carries.
    pub fn params(&self) -> (r: AuthzParams)
        ensures
            r == self.carried(),
    {
        AuthzParams {
            response_type: self.response_type.clone(),
            client_id: self.client_id.clone(),
            redirect_uri: self.redirect_uri.clone(),
            scope: self.scope.clone(),
            state: self.state.clone(),
            code_challenge: self.code_challenge.clone(),
            code_challenge_method: self.code_challenge_method.clone(),
            nonce: self.nonce.clone(),
        }
    }
}

/// Writes name-value pairs as a query string.
fn query_string(pairs: &Vec<(String, String)>) -> (r: String)
    ensures
        r@ == form_encoded(pair_texts(pairs@)),
{
    match form_encode(pairs) {
        Some(text) => text,
        None => String::new(),
    }
}

/// Where a redirect with query parameters leads.
pub open spec fn location_with(uri: Seq<char>, pairs: Seq<(Seq<char>, Seq<char>)>) -> Seq<char> {
    uri + (if uri.contains('?') {
        "&"@
    } else {
        "?"@
    }) + form_encoded(pairs)
}

/// Redirects to a location, with the pairs added to its query.
pub fn redirect_with(redirect_uri: &str, pairs: &Vec<(String, String)>) -> (r: Reply)
    ensures
        r@ == redirect_view(location_with(redirect_uri@, pair_texts(pairs@))),
{
    let mut location = redirect_uri.to_owned();
    if has_char(redirect_uri, '?') {
        location.append("&");
    } else {
        location.append("?");
    }
    location.append(query_string(pairs).as_str());
    Reply::redirect(location)
}

/// A pair, followed by the state where there is one.
pub open spec fn with_state(
    name: Seq<char>,
    value: Seq<char>,
    state: Seq<char>,
) -> Seq<(Seq<char>, Seq<char>)> {
    if state.len() == 0 {
        seq![(name, value)]
    } else {
        seq![(name, value), ("state"@, state)]
    }
}

/// Redirects back to the client with one parameter and the client's state.
fn redirect_back(p: &AuthzParams, name: &str, value: String) -> (r: Reply)
    ensures
        r@ == redirect_view(
            location_with(p.redirect_uri@, with_state(name@, value@, p.state@)),
        ),
{
    let mut pairs: Vec<(String, String)> = Vec::new();
    pairs.push((name.to_owned(), value));
    if !p.state.as_str().is_empty() {
        pairs.push(("state".to_owned(), p.state.clone()));
    }
    assert(pair_texts(pairs@) =~= with_state(name@, value@, p.state@));
    redirect_with(p.redirect_uri.as_str(), &pairs)
}

/// The redirect that tells the client of an error.
pub open spec fn redirect_error_view(p: AuthzParams, code: Seq<char>) -> ReplyView {
    redirect_view(location_with(p.redirect_uri@, with_state("error"@, code, p.state@)))
}

/// Redirects back to the client with an error.
pub fn redirect_error(p: &AuthzParams, code: &str) -> (r: Reply)
    ensures
        r@ == redirect_error_view(*p, code@),
{
    redirect_back(p, "error", code.to_owned())
}

/// The parameters as a query, in their order.
pub open spec fn params_pairs(p: AuthzParams) -> Seq<(Seq<char>, Seq<char>)> {
    seq![
        ("response_type"@, p.response_type@),
        ("client_id"@, p.client_id@),
        ("redirect_uri"@, p.redirect_uri@),
        ("scope"@, p.scope@),
        ("state"@, p.state@),
        ("code_challenge"@, p.code_challenge@),
        ("code_challenge_method"@, p.code_challenge_method@),
        ("nonce"@, p.nonce@),
    ]
}

/// The location of the authorization page with the same parameters.
pub open spec fn authorize_location(p: AuthzParams) -> Seq<char> {
    "/authorize?"@ + form_encoded(params_pairs(p))
}

/// Writes the location of the authorization page with the same parameters.
fn back_to_authorize(p: &AuthzParams) -> (r: String)
    ensures
        r@ == authorize_location(*p),
{
    let mut pairs: Vec<(String, String)> = Vec::new();
    pairs.push(("response_type".to_owned(), p.response_type.clone()));
    pairs.push(("client_id".to_owned(), p.client_id.clone()));
    pairs.push(("redirect_uri".to_owned(), p.redirect_uri.clone()));
    pairs.push(("scope".to_owned(), p.scope.clone()));
    pairs.push(("state".to_owned(), p.state.clone()));
    pairs.push(("code_challenge".to_owned(), p.code_challenge.clone()));
    pairs.push(("code_challenge_method".to_owned(), p.code_challenge_method.clone()));
    pairs.push(("nonce".to_owned(), p.nonce.clone()));
    assert(pair_texts(pairs@) =~= params_pairs(*p));
    let mut location = "/authorize?".to_owned();
    location.append(query_string(&pairs).as_str());
    location
}

/// Whether a scope is asked for and all of it was granted.
pub open spec fn covers(granted: Seq<Seq<char>>, scope: Seq<char>) -> bool {
    &&& words(scope).len() > 0
    &&& forall|i: int| 0 <= i < words(scope).len() ==> granted.contains(#[trigger] words(scope)[i])
}

/// Whether the granted scopes cover a scope parameter.
pub fn scopes_covered(granted: &Vec<String>, scope: &str) -> (r: bool)
    ensures
        r == covers(texts(granted@), scope@),
        r ==> words(scope@).len() > 0,
        r ==> forall|i: int|
            0 <= i < words(scope@).len() ==> texts(granted@).contains(#[trigger] words(scope@)[i]),
        !r && words(scope@).len() > 0 ==> exists|i: int|
            0 <= i < words(scope@).len() && !texts(granted@).contains(#[trigger] words(scope@)[i]),
{
    let asked = split_words(scope);
    if asked.len() == 0 {
        assert(texts(asked@).len() == 0);
        return false;
    }
    let mut i: usize = 0;
    while i < asked.len()
        invariant
            i <= asked@.len(),
            texts(asked@) == words(scope@),
            forall|j: int|
                0 <= j < i ==> texts(granted@).contains(#[trigger] words(scope@)[j]),
        decreases asked@.len() - i,
    {
        assert(texts(asked@)[i as int] == asked@[i as int]@);
        if !has_text(granted, asked[i].as_str()) {
            return false;
        }
        i = i + 1;
    }
    assert(texts(asked@).len() == asked@.len());
    true
}

// The authorization page.

/// Whether a client registered a redirect location.
pub open spec fn registered(client: Client, uri: Seq<char>) -> bool {
    texts(client.redirect_uris@).contains(uri)
}

/// The refusal of an authorization request by its own parameters, if it is refused.
pub open spec fn authorize_refusal(p: AuthzParams) -> Option<ReplyView> {
    if p.response_type@ != "code"@ {
        Some(html_view(BAD_REQUEST, "unsupported response_type (only 'code')"@))
    } else {
        None
    }
}

/// An authorization request whose client is being looked up.
pub struct AuthorizeClient {
    pub params: AuthzParams,
}

/// An authorization request of a known client, before the session is read.
pub struct AuthorizeSession {
    pub params: AuthzParams,
    pub client_name: String,
}

/// An authorization request of a signed-in user, whose consent is being looked up.
pub struct AuthorizeConsent {
    pub params: AuthzParams,
    pub client_name: String,
    pub uid: String,
}

/// A granted authorization request, for which a code is being made.
pub struct IssueCode {
    pub params: AuthzParams,
}

/// The request for a code.
pub open spec fn code_request(p: AuthzParams, uid: String) -> CreateAuthorizationCodeRequest {
    CreateAuthorizationCodeRequest {
        client_id: p.client_id,
        user_id: uid,
        redirect_uri: p.redirect_uri,
        scope: p.scope,
        code_challenge: p.code_challenge,
        code_challenge_method: p.code_challenge_method,
        nonce: p.nonce,
    }
}

/// Begins an authorization request: only the response type `code` is supported.
pub fn authorize(p: AuthzParams) -> (r: Step<AuthorizeClient, GetClientRequest>)
    ensures
        match r {
            Step::Done(reply) => authorize_refusal(p) == Some(reply@),
            Step::Ask(state, question) => {
                &&& authorize_refusal(p) is None
                &&& state.params == p
                &&& question.client_id == p.client_id
            },
        },
{
    if !same(p.response_type.as_str(), "code") {
        return Step::Done(
            Reply::html(BAD_REQUEST, "unsupported response_type (only 'code')".to_owned()),
        );
    }
    let question = GetClientRequest { client_id: p.client_id.clone() };
    Step::Ask(AuthorizeClient { params: p }, question)
}

/// The refusal of an authorization request by what is known of its client.
pub open spec fn client_refusal(p: AuthzParams, answer: Result<Client, Status>) -> Option<
    ReplyView,
> {
    match answer {
        Ok(client) => if registered(client, p.redirect_uri@) {
            None
        } else {
            Some(html_view(BAD_REQUEST, "invalid redirect_uri"@))
        },
        Err(_) => Some(html_view(BAD_REQUEST, "unknown client"@)),
    }
}

impl AuthorizeClient {
    /// Goes on with the answer about the client: it must be known, and the redirect
    /// location must be one that it registered.
    pub fn client_found(self, answer: Result<Client, Status>) -> (r: Result<
        AuthorizeSession,
        Reply,
    >)
        ensures
            match r {
                Err(reply) => client_refusal(self.params, answer) == Some(reply@),
                Ok(state) => {
                    &&& client_refusal(self.params, answer) is None
                    &&& state.params == self.params
                    &&& state.client_name == answer->Ok_0.name
                },
            },
    {
        match answer {
            Ok(client) => if has_text(&client.redirect_uris, self.params.redirect_uri.as_str()) {
                Ok(AuthorizeSession { params: self.params, client_name: client.name })
            } else {
                Err(Reply::html(BAD_REQUEST, "invalid redirect_uri".to_owned()))
            },
            Err(_) => Err(Reply::html(BAD_REQUEST, "unknown client".to_owned())),
        }
    }
}

/// The sign-in page, where there is no session.
pub open spec fn session_refusal(p: AuthzParams, session: Option<Session>) -> Option<ReplyView> {
    match session {
        Some(_) => None,
        None => Some(html_view(OK, login_page_text(p, ""@))),
    }
}

impl AuthorizeSession {
    /// Goes on with the session of the browser: without one the user is asked to sign in.
    pub fn session_read(self, session: Option<Session>) -> (r: Step<
        AuthorizeConsent,
        GetConsentRequest,
    >)
        ensures
            match r {
                Step::Done(reply) => session_refusal(self.params, session) == Some(reply@),
                Step::Ask(state, question) => {
                    &&& session_refusal(self.params, session) is None
                    &&& state.params == self.params
                    &&& state.client_name == self.client_name
                    &&& state.uid == session->0.uid
                    &&& question.user_id == session->0.uid
                    &&& question.client_id == self.params.client_id
                },
            },
    {
        match session {
            Some(s) => {
                let question = GetConsentRequest {
                    user_id: s.uid.clone(),
                    client_id: self.params.client_id.clone(),
                };
                Step::Ask(
                    AuthorizeConsent {
                        params: self.params,
                        client_name: self.client_name,
                        uid: s.uid,
                    },
                    question,
                )
            },
            None => {
                let page = login_page(&self.params, "");
                Step::Done(Reply::html(OK, page))
            },
        }
    }
}

/// The scopes that an answer grants: none where the service did not answer.
pub open spec fn granted_scopes(answer: Result<Vec<String>, Status>) -> Seq<Seq<char>> {
    match answer {
        Ok(scopes) => texts(scopes@),
        Err(_) => Seq::empty(),
    }
}

/// The consent page, where what was granted does not cover what is asked for.
pub open spec fn consent_refusal(
    p: AuthzParams,
    client_name: Seq<char>,
    answer: Result<Vec<String>, Status>,
) -> Option<ReplyView> {
    if covers(granted_scopes(answer), p.scope@) {
        None
    } else {
        Some(html_view(OK, consent_page_text(p, client_name)))
    }
}

impl AuthorizeConsent {
    /// Goes on with the consent on record: where it covers the scope a code is issued,
    /// and otherwise the user is asked.
    pub fn consent_found(self, answer: Result<Vec<String>, Status>) -> (r: Step<
        IssueCode,
        CreateAuthorizationCodeRequest,
    >)
        ensures
            match r {
                Step::Done(reply) => consent_refusal(self.params, self.client_name@, answer)
                    == Some(reply@),
                Step::Ask(state, question) => {
                    &&& consent_refusal(self.params, self.client_name@, answer) is None
                    &&& state.params == self.params
                    &&& question == code_request(self.params, self.uid)
                },
            },
    {
        let granted = match answer {
            Ok(scopes) => scopes,
            Err(_) => Vec::new(),
        };
        assert(texts(granted@) =~= granted_scopes(answer));
        if scopes_covered(&granted, self.params.scope.as_str()) {
            let (state, question) = issue_code(self.params, self.uid);
            Step::Ask(state, question)
        } else {
            let page = consent_page(&self.params, self.client_name.as_str());
            Step::Done(Reply::html(OK, page))
        }
    }
}

/// Asks for an authorization code.
pub fn issue_code(p: AuthzParams, uid: String) -> (r: (IssueCode, CreateAuthorizationCodeRequest))
    ensures
        r.0.params == p,
        r.1 == code_request(p, uid),
{
    let question = CreateAuthorizationCodeRequest {
        client_id: p.client_id.clone(),
        user_id: uid,
        redirect_uri: p.redirect_uri.clone(),
        scope: p.scope.clone(),
        code_challenge: p.code_challenge.clone(),
        code_challenge_method: p.code_challenge_method.clone(),
        nonce: p.nonce.clone(),
    };
    (IssueCode { params: p }, question)
}

/// The redirect with a code, or with the error that there is none.
pub open spec fn code_reply(p: AuthzParams, answer: Result<String, Status>) -> ReplyView {
    match answer {
        Ok(code) => redirect_view(
            location_with(p.redirect_uri@, with_state("code"@, code@, p.state@)),
        ),
        Err(_) => redirect_error_view(p, "server_error"@),
    }
}

impl IssueCode {
    /// Sends the code, or word that there is none, to the client.
    pub fn code_made(self, answer: Result<String, Status>) -> (r: Reply)
        ensures
            r@ == code_reply(self.params, answer),
    {
        match answer {
            Ok(code) => redirect_back(&self.params, "code", code),
            Err(_) => redirect_error(&self.params, "server_error"),
        }
    }
}

// Signing in.

/// A sign-in whose password is being checked.
pub struct LoginCheck {
    pub params: AuthzParams,
}

/// A sign-in whose user is being identified.
pub struct LoginIdentify {
    pub params: AuthzParams,
}

/// A sign-in whose session is being written down.
pub struct LoginSession {
    pub params: AuthzParams,
}

/// Begins a sign-in.
pub fn authorize_login(f: LoginForm) -> (r: (LoginCheck, LoginRequest))
    ensures
        r.0.params == f.carried(),
        r.1 == (LoginRequest { email: f.email, password: f.password }),
{
    let params = f.params();
    (LoginCheck { params }, LoginRequest { email: f.email, password: f.password })
}

impl LoginCheck {
    /// Goes on with the answer to the password: where it is refused the page comes again.
    pub fn password_checked(self, answer: Result<TokenPair, Status>) -> (r: Step<
        LoginIdentify,
        ValidateTokenRequest,
    >)
        ensures
            match (answer, r) {
                (Err(_), Step::Done(reply)) => reply@ == html_view(
                    UNAUTHORIZED,
                    login_page_text(self.params, "Invalid email or password"@),
                ),
                (Ok(tokens), Step::Ask(state, question)) => {
                    &&& state.params == self.params
                    &&& question.access_token == tokens.access_token
                },
                _ => false,
            },
    {
        match answer {
            Ok(tokens) => Step::Ask(
                LoginIdentify { params: self.params },
                ValidateTokenRequest { access_token: tokens.access_token },
            ),
            Err(_) => {
                let page = login_page(&self.params, "Invalid email or password");
                Step::Done(Reply::html(UNAUTHORIZED, page))
            },
        }
    }
}

impl LoginIdentify {
    /// Goes on with the user behind the new token, for whom a session begins.
    pub fn identified(self, answer: Result<ValidateTokenResponse, Status>, now: i64) -> (r: Step<
        LoginSession,
        Session,
    >)
        requires
            answer is Ok ==> now <= i64::MAX - SESSION_SECONDS,
        ensures
            match (answer, r) {
                (Err(_), Step::Done(reply)) => reply@ == html_view(
                    INTERNAL_SERVER_ERROR,
                    "login failed"@,
                ),
                (Ok(user), Step::Ask(state, session)) => {
                    &&& state.params == self.params
                    &&& session == session_from(user.user_id, user.email, now)
                },
                _ => false,
            },
    {
        match answer {
            Ok(user) => Step::Ask(
                LoginSession { params: self.params },
                Session::starting(user.user_id, user.email, now),
            ),
            Err(_) => Step::Done(Reply::html(INTERNAL_SERVER_ERROR, "login failed".to_owned())),
        }
    }
}

impl LoginSession {
    /// Signs the written session into a cookie and sends the browser back to the
    /// authorization page. The cookie can be set, and by it the browser is known from then on.
    pub fn written(self, payload: &[u8], secret: &str, headers: &HeaderMap) -> (r: Reply)
        requires
            payload@.len() <= usize::MAX / 4,
        ensures
            r@ == with_header_view(
                redirect_view(authorize_location(self.params)),
                "set-cookie"@,
                session_cookie_text(
                    signed(payload@, secret@),
                    header_text(*headers, "x-forwarded-proto"@) == Some("https"@),
                ),
            ),
            recognised(signed(payload@, secret@), payload@, secret@),
            is_visible_text(r@.headers[1].1),
    {
        let value = sign_session(payload, secret);
        proof {
            law_session_cookie_is_a_header_value(
                value@,
                header_text(*headers, "x-forwarded-proto"@) == Some("https"@),
            );
        }
        let cookie = session_cookie(value.as_str(), is_secure(headers));
        let location = back_to_authorize(&self.params);
        Reply::redirect(location).with_header("set-cookie", cookie)
    }
}

// Consent.

/// An answer to the consent page whose client is being looked up.
pub struct ConsentClient {
    pub params: AuthzParams,
    pub allowed: bool,
    pub uid: String,
}

/// A consent that is being put on record.
pub struct ConsentSave {
    pub params: AuthzParams,
    pub uid: String,
}

/// Begins with the answer to the consent page: without a session the browser goes back to
/// the authorization page.
pub fn authorize_consent(f: ConsentForm, session: Option<Session>) -> (r: Step<
    ConsentClient,
    GetClientRequest,
>)
    ensures
        match (session, r) {
            (None, Step::Done(reply)) => reply@ == redirect_view(authorize_location(f.carried())),
            (Some(s), Step::Ask(state, question)) => {
                &&& state.params == f.carried()
                &&& state.allowed == (f.action@ == "allow"@)
                &&& state.uid == s.uid
                &&& question.client_id == f.client_id
            },
            _ => false,
        },
{
    let params = f.params();
    match session {
        Some(s) => {
            let question = GetClientRequest { client_id: params.client_id.clone() };
            let allowed = same(f.action.as_str(), "allow");
            Step::Ask(ConsentClient { params, allowed, uid: s.uid }, question)
        },
        None => {
            let location = back_to_authorize(&params);
            Step::Done(Reply::redirect(location))
        },
    }
}

/// How an answer to the consent page is refused, if it is: the client and the redirect
/// location are checked again before the browser is sent anywhere.
pub open spec fn allow_refusal(
    p: AuthzParams,
    allowed: bool,
    answer: Result<Client, Status>,
) -> Option<ReplyView> {
    match answer {
        Ok(client) => if !registered(client, p.redirect_uri@) {
            Some(html_view(BAD_REQUEST, "invalid redirect_uri"@))
        } else if !allowed {
            Some(redirect_error_view(p, "access_denied"@))
        } else {
            None
        },
        Err(_) => Some(html_view(BAD_REQUEST, "invalid client"@)),
    }
}

impl ConsentClient {
    /// Goes on with the answer about the client.
    pub fn client_found(self, answer: Result<Client, Status>) -> (r: Step<
        ConsentSave,
        SaveConsentRequest,
    >)
        ensures
            match r {
                Step::Done(reply) => allow_refusal(self.params, self.allowed, answer) == Some(
                    reply@,
                ),
                Step::Ask(state, question) => {
                    &&& allow_refusal(self.params, self.allowed, answer) is None
                    &&& state.params == self.params
                    &&& state.uid == self.uid
                    &&& question.user_id == self.uid
                    &&& question.client_id == self.params.client_id
                    &&& texts(question.scopes@) == words(self.params.scope@)
                },
            },
    {
        match answer {
            Ok(client) => {
                if !has_text(&client.redirect_uris, self.params.redirect_uri.as_str()) {
                    return Step::Done(
                        Reply::html(BAD_REQUEST, "invalid redirect_uri".to_owned()),
                    );
                }
                if !self.allowed {
                    return Step::Done(redirect_error(&self.params, "access_denied"));
                }
                let question = SaveConsentRequest {
                    user_id: self.uid.clone(),
                    client_id: self.params.client_id.clone(),
                    scopes: split_words(self.params.scope.as_str()),
                };
                Step::Ask(ConsentSave { params: self.params, uid: self.uid }, question)
            },
            Err(_) => Step::Done(Reply::html(BAD_REQUEST, "invalid client".to_owned())),
        }
    }
}

impl ConsentSave {
    /// Goes on once the service has answered, whether or not it kept the consent.
    pub fn saved(self) -> (r: (IssueCode, CreateAuthorizationCodeRequest))
        ensures
            r.0.params == self.params,
            r.1 == code_request(self.params, self.uid),
    {
        issue_code(self.params, self.uid)
    }
}

// The token endpoint.

/// The form of the token endpoint.
pub struct TokenForm {
    pub grant_type: String,
    pub code: String,
    pub redirect_uri: String,
    pub client_id: String,
    pub client_secret: String,
    pub code_verifier: String,
    pub refresh_token: String,
}

/// The name and secret in the text of an authorization header of the basic scheme.
pub open spec fn basic_creds(authorization: Option<Seq<char>>) -> Option<(Seq<char>, Seq<char>)> {
    match authorization {
        Some(text) => if starts_with(text, "Basic "@) {
            match base64_decoded(text.skip("Basic "@.len() as int)) {
                Some(data) => if valid_utf8(data) {
                    split_at_first(decode_utf8(data), ':')
                } else {
                    None
                },
                None => None,
            }
        } else {
            None
        },
        None => None,
    }
}

/// The client's name and secret: those of the form where it names the client, else those
/// of the authorization header, else those of the form.
pub open spec fn chosen_creds(
    client_id: Seq<char>,
    client_secret: Seq<char>,
    authorization: Option<Seq<char>>,
) -> (Seq<char>, Seq<char>) {
    if client_id.len() > 0 {
        (client_id, client_secret)
    } else {
        match basic_creds(authorization) {
            Some(creds) => creds,
            None => (client_id, client_secret),
        }
    }
}

/// Reads a name and a secret out of the decoded bytes of the basic scheme: UTF-8, cut at the
/// first colon.
pub fn basic_pair(decoded: Vec<u8>) -> (r: Option<(String, String)>)
    ensures
        match r {
            Some((name, secret)) => valid_utf8(decoded@) && split_at_first(
                decode_utf8(decoded@),
                ':',
            ) == Some((name@, secret@)),
            None => !valid_utf8(decoded@) || split_at_first(decode_utf8(decoded@), ':') is None,
        },
{
    match utf8_text(decoded) {
        Some(plain) => split_once(plain.as_str(), ':'),
        None => None,
    }
}

/// Reads the name and secret of the basic scheme off a request.
fn basic_header(headers: &HeaderMap) -> (r: Option<(String, String)>)
    ensures
        match r {
            Some((name, secret)) => basic_creds(header_text(*headers, "authorization"@)) == Some(
                (name@, secret@),
            ),
            None => basic_creds(header_text(*headers, "authorization"@)) is None,
        },
{
    proof {
        reveal_strlit("authorization");
    }
    match header(headers, "authorization") {
        Some(text) => match strip_prefix(text.as_str(), "Basic ") {
            Some(encoded) => match base64_decode(encoded.as_str()) {
                Some(data) => basic_pair(data),
                None => None,
            },
            None => None,
        },
        None => None,
    }
}

/// Reads the client's name and secret.
pub fn client_creds(headers: &HeaderMap, f: &TokenForm) -> (r: (String, String))
    ensures
        (r.0@, r.1@) == chosen_creds(
            f.client_id@,
            f.client_secret@,
            header_text(*headers, "authorization"@),
        ),
        f.client_id@.len() > 0 ==> r.0@ == f.client_id@ && r.1@ == f.client_secret@,
{
    if !f.client_id.as_str().is_empty() {
        return (f.client_id.clone(), f.client_secret.clone());
    }
    match basic_header(headers) {
        Some(creds) => creds,
        None => (f.client_id.clone(), f.client_secret.clone()),
    }
}

/// What the token endpoint does: put a code or a refresh token to the service, or refuse.
pub enum TokenStep {
    Exchange(ExchangeAuthorizationCodeRequest),
    Refresh(RefreshRequest),
    Refuse(Reply),
}

/// A reply of the token endpoint: it must not be cached.
pub open spec fn uncached(reply: ReplyView) -> ReplyView {
    with_header_view(reply, "cache-control"@, "no-store"@)
}

/// The refusal of a token request.
pub open spec fn token_refusal(code: Seq<char>) -> ReplyView {
    uncached(
        json_view(BAD_REQUEST, JsonView::Object(seq![("error"@, JsonView::Text(code))])),
    )
}

/// Refuses a token request.
fn refuse_token(code: &str) -> (r: Reply)
    ensures
        r@ == token_refusal(code@),
{
    Reply::json(BAD_REQUEST, single("error", Json::Text(code.to_owned()))).with_header(
        "cache-control",
        "no-store".to_owned(),
    )
}

/// Decides on a token request by its grant type.
pub fn token(headers: &HeaderMap, f: TokenForm) -> (r: TokenStep)
    ensures
        match r {
            TokenStep::Exchange(q) => {
                &&& f.grant_type@ == "authorization_code"@
                &&& (q.client_id@, q.client_secret@) == chosen_creds(
                    f.client_id@,
                    f.client_secret@,
                    header_text(*headers, "authorization"@),
                )
                &&& f.client_id@.len() > 0 ==> q.client_id@ == f.client_id@ && q.client_secret@
                    == f.client_secret@
                &&& q.code == f.code
                &&& q.redirect_uri == f.redirect_uri
                &&& q.code_verifier == f.code_verifier
            },
            TokenStep::Refresh(q) => {
                &&& f.grant_type@ == "refresh_token"@
                &&& q.refresh_token == f.refresh_token
            },
            TokenStep::Refuse(reply) => {
                &&& f.grant_type@ != "authorization_code"@
                &&& f.grant_type@ != "refresh_token"@
                &&& reply@ == token_refusal("unsupported_grant_type"@)
            },
        },
{
    if same(f.grant_type.as_str(), "authorization_code") {
        let (client_id, client_secret) = client_creds(headers, &f);
        TokenStep::Exchange(
            ExchangeAuthorizationCodeRequest {
                client_id,
                client_secret,
                code: f.code,
                redirect_uri: f.redirect_uri,
                code_verifier: f.code_verifier,
            },
        )
    } else if same(f.grant_type.as_str(), "refresh_token") {
        TokenStep::Refresh(RefreshRequest { refresh_token: f.refresh_token })
    } else {
        TokenStep::Refuse(refuse_token("unsupported_grant_type"))
    }
}

/// The reply to a code that was put to the service.
pub open spec fn exchange_view(answer: Result<OidcTokens, Status>) -> ReplyView {
    match answer {
        Ok(t) => uncached(
            json_view(
                OK,
                JsonView::Object(
                    seq![
                        ("access_token"@, JsonView::Text(t.access_token@)),
                        ("id_token"@, JsonView::Text(t.id_token@)),
                        ("refresh_token"@, JsonView::Text(t.refresh_token@)),
                        ("token_type"@, JsonView::Text("Bearer"@)),
                        ("expires_in"@, t.expires_in@),
                        ("scope"@, JsonView::Text(t.scope@)),
                    ],
                ),
            ),
        ),
        Err(_) => token_refusal("invalid_grant"@),
    }
}

/// Answers a token request that put a code to the service.
pub fn exchange_reply(answer: Result<OidcTokens, Status>) -> (r: Reply)
    ensures
        r@ == exchange_view(answer),
{
    match answer {
        Ok(t) => {
            let mut body = Fields::new();
            body.put_text("access_token", t.access_token);
            body.put_text("id_token", t.id_token);
            body.put_text("refresh_token", t.refresh_token);
            body.put_text("token_type", "Bearer".to_owned());
            body.put("expires_in", t.expires_in);
            body.put_text("scope", t.scope);
            assert(body@ =~= seq![
                ("access_token"@, JsonView::Text(t.access_token@)),
                ("id_token"@, JsonView::Text(t.id_token@)),
                ("refresh_token"@, JsonView::Text(t.refresh_token@)),
                ("token_type"@, JsonView::Text("Bearer"@)),
                ("expires_in"@, t.expires_in@),
                ("scope"@, JsonView::Text(t.scope@)),
            ]);
            Reply::json(OK, body.object()).with_header("cache-control", "no-store".to_owned())
        },
        Err(_) => refuse_token("invalid_grant"),
    }
}

/// The reply to a refresh token that was put to the service.
pub open spec fn refreshed_view(answer: Result<TokenPair, Status>) -> ReplyView {
    match answer {
        Ok(t) => uncached(
            json_view(
                OK,
                JsonView::Object(
                    seq![
                        ("access_token"@, JsonView::Text(t.access_token@)),
                        ("refresh_token"@, JsonView::Text(t.refresh_token@)),
                        ("token_type"@, JsonView::Text("Bearer"@)),
                        ("expires_in"@, t.expires_in@),
                    ],
                ),
            ),
        ),
        Err(_) => token_refusal("invalid_grant"@),
    }
}

/// Answers a token request that put a refresh token to the service.
pub fn refreshed_reply(answer: Result<TokenPair, Status>) -> (r: Reply)
    ensures
        r@ == refreshed_view(answer),
{
    match answer {
        Ok(t) => {
            let mut body = Fields::new();
            body.put_text("access_token", t.access_token);
            body.put_text("refresh_token", t.refresh_token);
            body.put_text("token_type", "Bearer".to_owned());
            body.put("expires_in", t.expires_in);
            assert(body@ =~= seq![
                ("access_token"@, JsonView::Text(t.access_token@)),
                ("refresh_token"@, JsonView::Text(t.refresh_token@)),
                ("token_type"@, JsonView::Text("Bearer"@)),
                ("expires_in"@, t.expires_in@),
            ]);
            Reply::json(OK, body.object()).with_header("cache-control", "no-store".to_owned())
        },
        Err(_) => refuse_token("invalid_grant"),
    }
}

// What holds of the flow as a whole.

/// The answers that one authorization request meets, each taken only where the phase
/// before it asks for it.
pub struct AuthorizeAnswers {
    pub client: Result<Client, Status>,
    pub session: Option<Session>,
    pub consent: Result<Vec<String>, Status>,
    pub code: Result<String, Status>,
}

/// Whether an authorization request gets as far as asking for a code.
pub open spec fn authorize_asks_code(p: AuthzParams, a: AuthorizeAnswers) -> bool {
    &&& authorize_refusal(p) is None
    &&& client_refusal(p, a.client) is None
    &&& session_refusal(p, a.session) is None
    &&& consent_refusal(p, a.client->Ok_0.name@, a.consent) is None
}

/// How an authorization request ends: the first refusal, or the reply with the code.
pub open spec fn authorize_ends(p: AuthzParams, a: AuthorizeAnswers) -> ReplyView {
    match authorize_refusal(p) {
        Some(reply) => reply,
        None => match client_refusal(p, a.client) {
            Some(reply) => reply,
            None => match session_refusal(p, a.session) {
                Some(reply) => reply,
                None => match consent_refusal(p, a.client->Ok_0.name@, a.consent) {
                    Some(reply) => reply,
                    None => code_reply(p, a.code),
                },
            },
        },
    }
}

/// Takes an authorization request through its phases up to the question for a code, where
/// the answers before it are known.
pub fn authorize_to_code(
    p: AuthzParams,
    client: Result<Client, Status>,
    session: Option<Session>,
    consent: Result<Vec<String>, Status>,
) -> (r: Step<IssueCode, CreateAuthorizationCodeRequest>)
    ensures
        forall|code: Result<String, Status>| #[trigger]
            authorize_asks_code(p, (AuthorizeAnswers { client, session, consent, code })) <==> r
                is Ask,
        match r {
            Step::Done(reply) => forall|code: Result<String, Status>|
                reply@ == #[trigger] authorize_ends(
                    p,
                    (AuthorizeAnswers { client, session, consent, code }),
                ),
            Step::Ask(state, question) => {
                &&& state.params == p
                &&& question == code_request(p, session->0.uid)
            },
        },
{
    let phase = match authorize(p) {
        Step::Done(reply) => {
            return Step::Done(reply);
        },
        Step::Ask(phase, _) => phase,
    };
    let phase = match phase.client_found(client) {
        Err(reply) => {
            return Step::Done(reply);
        },
        Ok(phase) => phase,
    };
    let phase = match phase.session_read(session) {
        Step::Done(reply) => {
            return Step::Done(reply);
        },
        Step::Ask(phase, _) => phase,
    };
    phase.consent_found(consent)
}

/// Takes an authorization request through all of its phases, where every answer is known.
pub fn authorize_run(
    p: AuthzParams,
    client: Result<Client, Status>,
    session: Option<Session>,
    consent: Result<Vec<String>, Status>,
    code: Result<String, Status>,
) -> (r: Reply)
    ensures
        r@ == authorize_ends(p, (AuthorizeAnswers { client, session, consent, code })),
{
    let ghost answers = AuthorizeAnswers { client, session, consent, code };
    let step = authorize_to_code(p, client, session, consent);
    assert(authorize_asks_code(p, answers) <==> step is Ask);
    match step {
        Step::Done(reply) => reply,
        Step::Ask(phase, _) => phase.code_made(code),
    }
}

/// A code is asked for only, and always, where the response type is `code`, the client is
/// known and registered the redirect location, a user is signed in, and that user's
/// consent covers every scope asked for.
pub proof fn law_code_needs_session_and_consent(p: AuthzParams, a: AuthorizeAnswers)
    ensures
        authorize_asks_code(p, a) <==> {
            &&& p.response_type@ == "code"@
            &&& a.client is Ok
            &&& registered(a.client->Ok_0, p.redirect_uri@)
            &&& a.session is Some
            &&& covers(granted_scopes(a.consent), p.scope@)
        },
{
}

/// Whether a reply sends the browser to a location that begins with `uri`.
pub open spec fn redirects_under(reply: ReplyView, uri: Seq<char>) -> bool {
    &&& reply.headers.len() == 1
    &&& reply.headers[0].0 == "location"@
    &&& starts_with(reply.headers[0].1, uri)
}

/// What is added to a location stands behind it.
proof fn lemma_location_begins(uri: Seq<char>, pairs: Seq<(Seq<char>, Seq<char>)>)
    ensures
        starts_with(location_with(uri, pairs), uri),
{
    assert(location_with(uri, pairs).take(uri.len() as int) =~= uri);
}

/// The authorization page is no open redirect: it sends the browser away only to a
/// location that the client registered.
pub proof fn law_authorize_redirects_to_registered(p: AuthzParams, a: AuthorizeAnswers)
    requires
        authorize_ends(p, a).status == 303,
    ensures
        a.client is Ok,
        registered(a.client->Ok_0, p.redirect_uri@),
        redirects_under(authorize_ends(p, a), p.redirect_uri@),
{
    match a.code {
        Ok(code) => {
            lemma_location_begins(p.redirect_uri@, with_state("code"@, code@, p.state@));
        },
        Err(_) => {
            lemma_location_begins(
                p.redirect_uri@,
                with_state("error"@, "server_error"@, p.state@),
            );
        },
    }
}

/// How an answer to the consent page ends.
pub open spec fn consent_ends(f: ConsentForm, a: AuthorizeAnswers) -> ReplyView {
    match a.session {
        Some(_) => match allow_refusal(f.carried(), f.action@ == "allow"@, a.client) {
            Some(reply) => reply,
            None => code_reply(f.carried(), a.code),
        },
        None => redirect_view(authorize_location(f.carried())),
    }
}

/// Takes an answer to the consent page through all of its phases, where every answer of the
/// services is known.
pub fn consent_run(
    f: ConsentForm,
    client: Result<Client, Status>,
    session: Option<Session>,
    code: Result<String, Status>,
) -> (r: Reply)
    ensures
        forall|consent: Result<Vec<String>, Status>|
            r@ == #[trigger] consent_ends(
                f,
                (AuthorizeAnswers { client, session, consent, code }),
            ),
{
    let phase = match authorize_consent(f, session) {
        Step::Done(reply) => {
            return reply;
        },
        Step::Ask(phase, _) => phase,
    };
    match phase.client_found(client) {
        Step::Done(reply) => reply,
        Step::Ask(phase, _) => {
            let (phase, _) = phase.saved();
            phase.code_made(code)
        },
    }
}

/// The consent page is no open redirect either: a signed-in browser is sent away only to a
/// location that the client registered, and one that is not signed in only to the
/// authorization page.
pub proof fn law_consent_redirects_to_registered(f: ConsentForm, a: AuthorizeAnswers)
    requires
        consent_ends(f, a).status == 303,
    ensures
        a.session is None ==> consent_ends(f, a) == redirect_view(authorize_location(f.carried())),
        a.session is Some ==> {
            &&& a.client is Ok
            &&& registered(a.client->Ok_0, f.redirect_uri@)
            &&& redirects_under(consent_ends(f, a), f.redirect_uri@)
        },
{
    let p = f.carried();
    lemma_location_begins(p.redirect_uri@, with_state("error"@, "access_denied"@, p.state@));
    lemma_location_begins(p.redirect_uri@, with_state("error"@, "server_error"@, p.state@));
    if a.code is Ok {
        lemma_location_begins(p.redirect_uri@, with_state("code"@, a.code->Ok_0@, p.state@));
    }
}

/// Without the user's consent no code goes out: every action but `allow` ends in an error.
pub proof fn law_denied_means_no_code(f: ConsentForm, a: AuthorizeAnswers)
    requires
        f.action@ != "allow"@,
        a.session is Some,
        a.client is Ok,
        registered(a.client->Ok_0, f.redirect_uri@),
    ensures
        consent_ends(f, a) == redirect_error_view(f.carried(), "access_denied"@),
{
}

/// What the consent page puts on record covers the same request from then on: the user is
/// not asked twice.
pub proof fn law_saved_consent_covers(scope: Seq<char>)
    requires
        words(scope).len() > 0,
    ensures
        covers(words(scope), scope),
{
}

/// A redirect can always be sent: its location is visible ASCII, as the value of a header has
/// to be, wherever the location that the client registered is.
pub proof fn law_locations_are_header_values(
    p: AuthzParams,
    uri: Seq<char>,
    pairs: Seq<(Seq<char>, Seq<char>)>,
)
    requires
        is_visible_text(uri),
    ensures
        is_visible_text(location_with(uri, pairs)),
        is_visible_text(authorize_location(p)),
{
    reveal_strlit("&");
    reveal_strlit("?");
    reveal_strlit("/authorize?");
    lemma_form_is_visible(pairs);
    lemma_form_is_visible(params_pairs(p));
    let sep = if uri.contains('?') {
        "&"@
    } else {
        "?"@
    };
    lemma_visible_together(uri, sep);
    lemma_visible_together(uri + sep, form_encoded(pairs));
    lemma_visible_together("/authorize?"@, form_encoded(params_pairs(p)));
}

/// Every reply of the token endpoint forbids caching.
pub proof fn law_token_replies_are_not_cached(
    exchanged: Result<OidcTokens, Status>,
    refreshed: Result<TokenPair, Status>,
    code: Seq<char>,
)
    ensures
        exchange_view(exchanged).headers == seq![("cache-control"@, "no-store"@)],
        refreshed_view(refreshed).headers == seq![("cache-control"@, "no-store"@)],
        token_refusal(code).headers == seq![("cache-control"@, "no-store"@)],
{
}

// What the single steps of the flow are for.

/// A form carries each parameter as it is.
pub proof fn law_forms_carry_the_parameters(login: LoginForm, consent: ConsentForm)
    ensures
        login.carried().response_type == login.response_type,
        login.carried().client_id == login.client_id,
        login.carried().redirect_uri == login.redirect_uri,
        login.carried().scope == login.scope,
        login.carried().state == login.state,
        login.carried().code_challenge == login.code_challenge,
        login.carried().code_challenge_method == login.code_challenge_method,
        login.carried().nonce == login.nonce,
        consent.carried().response_type == consent.response_type,
        consent.carried().client_id == consent.client_id,
        consent.carried().redirect_uri == consent.redirect_uri,
        consent.carried().scope == consent.scope,
        consent.carried().state == consent.state,
        consent.carried().code_challenge == consent.code_challenge,
        consent.carried().code_challenge_method == consent.code_challenge_method,
        consent.carried().nonce == consent.nonce,
{
}

/// A redirect leads to the given location, with the pairs as its query, or behind the query
/// that it has.
pub proof fn law_redirects_add_to_the_query(uri: Seq<char>, pairs: Seq<(Seq<char>, Seq<char>)>)
    ensures
        uri.contains('?') ==> location_with(uri, pairs) == uri + "&"@ + form_encoded(pairs),
        !uri.contains('?') ==> location_with(uri, pairs) == uri + "?"@ + form_encoded(pairs),
{
}

/// The client gets its state back as it sent it, behind the parameter, and none where it sent
/// none.
pub proof fn law_state_comes_back(name: Seq<char>, value: Seq<char>, state: Seq<char>)
    ensures
        with_state(name, value, state)[0] == (name, value),
        state.len() == 0 ==> with_state(name, value, state).len() == 1,
        state.len() > 0 ==> with_state(name, value, state).len() == 2,
        state.len() > 0 ==> with_state(name, value, state)[1] == ("state"@, state),
{
}

/// An error, and a code, is sent to the client's own location, with its state.
pub proof fn law_client_is_told(p: AuthzParams, error: Seq<char>, code: String, status: Status)
    ensures
        redirect_error_view(p, error).status == 303,
        redirect_error_view(p, error).headers.len() == 1,
        redirect_error_view(p, error).headers[0] == (
            "location"@,
            location_with(p.redirect_uri@, with_state("error"@, error, p.state@)),
        ),
        redirect_error_view(p, error).body is Empty,
        code_reply(p, Ok(code)).status == 303,
        code_reply(p, Ok(code)).headers.len() == 1,
        code_reply(p, Ok(code)).headers[0] == (
            "location"@,
            location_with(p.redirect_uri@, with_state("code"@, code@, p.state@)),
        ),
        code_reply(p, Ok(code)).body is Empty,
        code_reply(p, Err(status)) == redirect_error_view(p, "server_error"@),
{
}

/// On the way back to the authorization page no parameter is lost: each is in the query under
/// its own name.
pub proof fn law_parameters_come_back(p: AuthzParams)
    ensures
        params_pairs(p).len() == 8,
        params_pairs(p)[0] == ("response_type"@, p.response_type@),
        params_pairs(p)[1] == ("client_id"@, p.client_id@),
        params_pairs(p)[2] == ("redirect_uri"@, p.redirect_uri@),
        params_pairs(p)[3] == ("scope"@, p.scope@),
        params_pairs(p)[4] == ("state"@, p.state@),
        params_pairs(p)[5] == ("code_challenge"@, p.code_challenge@),
        params_pairs(p)[6] == ("code_challenge_method"@, p.code_challenge_method@),
        params_pairs(p)[7] == ("nonce"@, p.nonce@),
        authorize_location(p) == "/authorize?"@ + form_encoded(params_pairs(p)),
{
}

/// A scope that was never granted is never covered: where one word of the scope text is
/// missing from what was granted, the whole is not covered.
pub proof fn law_every_scope_is_needed(granted: Seq<Seq<char>>, scope: Seq<char>, i: int)
    requires
        0 <= i < words(scope).len(),
        !granted.contains(words(scope)[i]),
    ensures
        !covers(granted, scope),
{
}

/// The same, word for word in the text: a word that was not granted spoils every scope text
/// in which it stands, wherever it stands.
pub proof fn law_no_scope_slips_in(
    granted: Seq<Seq<char>>,
    before: Seq<char>,
    word: Seq<char>,
    after: Seq<char>,
)
    requires
        word.len() > 0,
        forall|i: int| 0 <= i < word.len() ==> !is_space(#[trigger] word[i]),
        !granted.contains(word),
    ensures
        !covers(granted, word),
        !covers(granted, before + seq![' '] + word),
        !covers(granted, word + seq![' '] + after),
        !covers(granted, before + seq![' '] + (word + seq![' '] + after)),
{
    let own = seq![word];
    law_a_word_is_one(word);
    law_white_space_parts_words(before, ' ', word);
    law_white_space_parts_words(word, ' ', after);
    law_white_space_parts_words(before, ' ', word + seq![' '] + after);
    assert(words(word)[0] == word);
    let n = words(before).len() as int;
    let behind = words(before + seq![' '] + word);
    assert(behind[n] == word);
    let ahead = words(word + seq![' '] + after);
    assert(ahead[0] == word);
    let between = words(before + seq![' '] + (word + seq![' '] + after));
    assert(between[n] == word);
}

/// A scope text whose words were all granted is covered, unless it has none.
pub proof fn law_granted_scopes_are_covered(granted: Seq<Seq<char>>, scope: Seq<char>)
    requires
        forall|i: int|
            0 <= i < words(scope).len() ==> granted.contains(#[trigger] words(scope)[i]),
    ensures
        covers(granted, scope) <==> words(scope).len() > 0,
{
}

/// No code is asked for where one word of the scope is missing from the consent on record:
/// the user is shown the consent page.
pub proof fn law_missing_consent_is_asked_for(p: AuthzParams, a: AuthorizeAnswers, i: int)
    requires
        0 <= i < words(p.scope@).len(),
        match a.consent {
            Ok(scopes) => forall|k: int|
                0 <= k < scopes@.len() ==> (#[trigger] scopes@[k])@ != words(p.scope@)[i],
            Err(_) => true,
        },
    ensures
        !authorize_asks_code(p, a),
        p.response_type@ == "code"@ && a.client is Ok && registered(
            a.client->Ok_0,
            p.redirect_uri@,
        ) && a.session is Some ==> {
            &&& authorize_ends(p, a).status == 200
            &&& authorize_ends(p, a).body == BodyView::Html(
                consent_page_text(p, a.client->Ok_0.name@),
            )
        },
{
    let granted = granted_scopes(a.consent);
    let word = words(p.scope@)[i];
    if granted.contains(word) {
        let k = choose|k: int| 0 <= k < granted.len() && granted[k] == word;
        assert(a.consent->Ok_0@[k]@ == word);
    }
    law_every_scope_is_needed(granted, p.scope@, i);
}

/// A client registered a location exactly where it is one of those listed.
pub proof fn law_registered_is_listed(client: Client, uri: Seq<char>)
    ensures
        registered(client, uri) <==> exists|i: int|
            0 <= i < client.redirect_uris@.len() && (#[trigger] client.redirect_uris@[i])@ == uri,
{
    let listed = texts(client.redirect_uris@);
    if registered(client, uri) {
        let i = choose|i: int| 0 <= i < listed.len() && listed[i] == uri;
        assert(client.redirect_uris@[i]@ == uri);
    }
    if exists|i: int|
        0 <= i < client.redirect_uris@.len() && (#[trigger] client.redirect_uris@[i])@ == uri {
        let i = choose|i: int|
            0 <= i < client.redirect_uris@.len() && (#[trigger] client.redirect_uris@[i])@ == uri;
        assert(listed[i] == uri);
    }
}

/// What was granted is what the service answers, and nothing where it does not answer.
pub proof fn law_granted_scopes(scopes: Vec<String>, status: Status)
    ensures
        granted_scopes(Ok(scopes)).len() == scopes@.len(),
        forall|i: int|
            0 <= i < scopes@.len() ==> #[trigger] granted_scopes(Ok(scopes))[i] == scopes@[i]@,
        granted_scopes(Err(status)).len() == 0,
{
}

/// A code is asked for with the parameters of the request, and for the user of the session.
pub proof fn law_code_request(p: AuthzParams, uid: String)
    ensures
        code_request(p, uid).user_id == uid,
        code_request(p, uid).client_id == p.client_id,
        code_request(p, uid).redirect_uri == p.redirect_uri,
        code_request(p, uid).scope == p.scope,
        code_request(p, uid).code_challenge == p.code_challenge,
        code_request(p, uid).code_challenge_method == p.code_challenge_method,
        code_request(p, uid).nonce == p.nonce,
{
}

/// What each step of an authorization request refuses, and with what: any response type but
/// `code`, a client that is not known, a location that it did not register, a browser that is
/// not signed in, and a consent that does not cover the scope. Nothing else is refused.
pub proof fn law_refusals_of_a_request(
    p: AuthzParams,
    client: Result<Client, Status>,
    session: Option<Session>,
    name: Seq<char>,
    consent: Result<Vec<String>, Status>,
)
    ensures
        p.response_type@ == "code"@ ==> authorize_refusal(p) is None,
        p.response_type@ != "code"@ ==> authorize_refusal(p) == Some(
            html_view(400, "unsupported response_type (only 'code')"@),
        ),
        client is Err ==> client_refusal(p, client) == Some(html_view(400, "unknown client"@)),
        client is Ok && !registered(client->Ok_0, p.redirect_uri@) ==> client_refusal(p, client)
            == Some(html_view(400, "invalid redirect_uri"@)),
        client is Ok && registered(client->Ok_0, p.redirect_uri@) ==> client_refusal(
            p,
            client,
        ) is None,
        session is Some ==> session_refusal(p, session) is None,
        session is None ==> session_refusal(p, session) == Some(
            html_view(200, login_page_text(p, ""@)),
        ),
        covers(granted_scopes(consent), p.scope@) ==> consent_refusal(p, name, consent) is None,
        !covers(granted_scopes(consent), p.scope@) ==> consent_refusal(p, name, consent) == Some(
            html_view(200, consent_page_text(p, name)),
        ),
{
}

/// What an answer to the consent page is refused for, and with what: a client that is not
/// known, a location that it did not register, and a user who did not allow. Nothing else.
pub proof fn law_refusals_of_a_consent(
    p: AuthzParams,
    allowed: bool,
    client: Result<Client, Status>,
)
    ensures
        client is Err ==> allow_refusal(p, allowed, client) == Some(
            html_view(400, "invalid client"@),
        ),
        client is Ok && !registered(client->Ok_0, p.redirect_uri@) ==> allow_refusal(
            p,
            allowed,
            client,
        ) == Some(html_view(400, "invalid redirect_uri"@)),
        client is Ok && registered(client->Ok_0, p.redirect_uri@) && !allowed ==> allow_refusal(
            p,
            allowed,
            client,
        ) == Some(redirect_error_view(p, "access_denied"@)),
        client is Ok && registered(client->Ok_0, p.redirect_uri@) && allowed ==> allow_refusal(
            p,
            allowed,
            client,
        ) is None,
{
}

/// A request that nothing refuses ends with the code, at the client.
pub proof fn law_granted_requests_get_a_code(p: AuthzParams, a: AuthorizeAnswers, code: String)
    requires
        p.response_type@ == "code"@,
        a.client is Ok,
        registered(a.client->Ok_0, p.redirect_uri@),
        a.session is Some,
        words(p.scope@).len() > 0,
        forall|i: int|
            0 <= i < words(p.scope@).len() ==> granted_scopes(a.consent).contains(
                #[trigger] words(p.scope@)[i],
            ),
        a.code == Result::<String, Status>::Ok(code),
    ensures
        authorize_asks_code(p, a),
        authorize_ends(p, a) == redirect_view(
            location_with(p.redirect_uri@, with_state("code"@, code@, p.state@)),
        ),
{
}

/// A consent that the user gives ends with the code, at the client.
pub proof fn law_allowed_consents_get_a_code(f: ConsentForm, a: AuthorizeAnswers, code: String)
    requires
        f.action@ == "allow"@,
        a.session is Some,
        a.client is Ok,
        registered(a.client->Ok_0, f.redirect_uri@),
        a.code == Result::<String, Status>::Ok(code),
    ensures
        consent_ends(f, a) == redirect_view(
            location_with(f.redirect_uri@, with_state("code"@, code@, f.state@)),
        ),
{
}

/// A client that the form names goes by the form, with or without a secret and whatever the
/// header says; without a header of the basic scheme that can be read every client does.
pub proof fn law_form_names_the_client(
    client_id: Seq<char>,
    client_secret: Seq<char>,
    authorization: Option<Seq<char>>,
)
    ensures
        client_id.len() > 0 ==> chosen_creds(client_id, client_secret, authorization) == (
            client_id,
            client_secret,
        ),
        basic_creds(authorization) is None ==> chosen_creds(
            client_id,
            client_secret,
            authorization,
        ) == (client_id, client_secret),
        client_id.len() == 0 && basic_creds(authorization) is Some ==> chosen_creds(
            client_id,
            client_secret,
            authorization,
        ) == basic_creds(authorization)->0,
{
}

/// A header of the basic scheme that decodes to a name, a colon and a secret gives the two;
/// the secret may hold colons, and the name cannot. One that decodes to no text, or to a text
/// without a colon, gives nothing.
pub proof fn law_basic_scheme(encoded: Seq<char>, name: Seq<char>, secret: Seq<char>, data: Seq<u8>)
    requires
        base64_decoded(encoded) == Some(data),
        !name.contains(':'),
    ensures
        valid_utf8(data) && decode_utf8(data) == name + seq![':'] + secret ==> basic_creds(
            Some("Basic "@ + encoded),
        ) == Some((name, secret)),
        valid_utf8(data) && decode_utf8(data) == name ==> basic_creds(
            Some("Basic "@ + encoded),
        ) is None,
        !valid_utf8(data) ==> basic_creds(Some("Basic "@ + encoded)) is None,
{
    let header = "Basic "@ + encoded;
    law_starts_with(header, "Basic "@, encoded);
    assert(header.skip("Basic "@.len() as int) =~= encoded);
    let pair = name + seq![':'] + secret;
    lemma_position_is(pair, ':', name.len());
    assert(pair.take(name.len() as int) =~= name);
    assert(pair.skip(name.len() as int + 1) =~= secret);
    lemma_position(name, ':');
}

/// No header, one of another scheme, and one that cannot be decoded give no name and secret.
pub proof fn law_other_schemes_name_nobody(text: Seq<char>, encoded: Seq<char>)
    ensures
        basic_creds(None) is None,
        !starts_with(text, "Basic "@) ==> basic_creds(Some(text)) is None,
        base64_decoded(encoded) is None ==> basic_creds(Some("Basic "@ + encoded)) is None,
{
    let header = "Basic "@ + encoded;
    law_starts_with(header, "Basic "@, encoded);
    assert(header.skip("Basic "@.len() as int) =~= encoded);
}

/// A code that the service takes is answered with its tokens, each under its own name.
pub proof fn law_exchange_members(t: OidcTokens, status: Status)
    ensures
        exchange_view(Ok(t)).status == 200,
        exchange_view(Ok(t)).body is Json,
        ({
            let m = exchange_view(Ok(t)).body->Json_0->Object_0;
            &&& exchange_view(Ok(t)).body->Json_0 is Object
            &&& m.len() == 6
            &&& m.contains(("access_token"@, JsonView::Text(t.access_token@)))
            &&& m.contains(("id_token"@, JsonView::Text(t.id_token@)))
            &&& m.contains(("refresh_token"@, JsonView::Text(t.refresh_token@)))
            &&& m.contains(("token_type"@, JsonView::Text("Bearer"@)))
            &&& m.contains(("expires_in"@, t.expires_in@))
            &&& m.contains(("scope"@, JsonView::Text(t.scope@)))
        }),
        exchange_view(Err(status)) == token_refusal("invalid_grant"@),
{
    let m = exchange_view(Ok(t)).body->Json_0->Object_0;
    assert(m[0] == ("access_token"@, JsonView::Text(t.access_token@)));
    assert(m[1] == ("id_token"@, JsonView::Text(t.id_token@)));
    assert(m[2] == ("refresh_token"@, JsonView::Text(t.refresh_token@)));
    assert(m[3] == ("token_type"@, JsonView::Text("Bearer"@)));
    assert(m[4] == ("expires_in"@, t.expires_in@));
    assert(m[5] == ("scope"@, JsonView::Text(t.scope@)));
}

/// A refresh token that the service takes is answered with its tokens, each under its own name.
pub proof fn law_refreshed_members(t: TokenPair, status: Status)
    ensures
        refreshed_view(Ok(t)).status == 200,
        refreshed_view(Ok(t)).body is Json,
        ({
            let m = refreshed_view(Ok(t)).body->Json_0->Object_0;
            &&& refreshed_view(Ok(t)).body->Json_0 is Object
            &&& m.len() == 4
            &&& m.contains(("access_token"@, JsonView::Text(t.access_token@)))
            &&& m.contains(("refresh_token"@, JsonView::Text(t.refresh_token@)))
            &&& m.contains(("token_type"@, JsonView::Text("Bearer"@)))
            &&& m.contains(("expires_in"@, t.expires_in@))
        }),
        refreshed_view(Err(status)) == token_refusal("invalid_grant"@),
{
    let m = refreshed_view(Ok(t)).body->Json_0->Object_0;
    assert(m[0] == ("access_token"@, JsonView::Text(t.access_token@)));
    assert(m[1] == ("refresh_token"@, JsonView::Text(t.refresh_token@)));
    assert(m[2] == ("token_type"@, JsonView::Text("Bearer"@)));
    assert(m[3] == ("expires_in"@, t.expires_in@));
}

/// A refused token request is answered with status 400 and the code of the error alone.
pub proof fn law_token_refusals(code: Seq<char>)
    ensures
        token_refusal(code).status == 400,
        token_refusal(code).body is Json,
        token_refusal(code).body->Json_0 is Object,
        token_refusal(code).body->Json_0->Object_0.len() == 1,
        token_refusal(code).body->Json_0->Object_0[0] == ("error"@, JsonView::Text(code)),
{
}

} // verus!
