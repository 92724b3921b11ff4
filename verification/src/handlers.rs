//! The endpoints of the REST interface: for each the call that it makes to a service,
//! and the reply that it makes out of the answer.

use axum::http::HeaderMap;
use vstd::prelude::*;
use vstd::string::*;

use crate::authorize::Step;
use crate::error::{
    error_of, error_reply, forbidden_view, http_status, ApiError, ApiResult, Code, Status,
};
use crate::headers::header_text;
use crate::json::{list, list_of_texts, single, text_list, views, Fields, Json, JsonView};
use crate::messages::{
    ActivateTotpRequest, ApiKey, AssignRoleBulkRequest, AssignRoleBulkResponse, AssignRoleRequest,
    AuditEvent, CreateApiKeyRequest, CreateApiKeyResponse, CreateProfileRequest, CreateRoleRequest,
    DeleteRoleRequest, DeleteUserRequest, DevTokenResponse, DisableTotpRequest, EmailRequest,
    EnrollTotpRequest, EnrollTotpResponse, GetProfileRequest, GrantPermissionRequest,
    ListApiKeysRequest, ListAuditEventsRequest, ListPermissionsRequest, ListProfilesRequest,
    ListProfilesResponse, ListRolesRequest, LoginRequest, LoginTotpRequest, LogoutRequest,
    Permission, Profile, RefreshRequest, RegisterClientRequest, RegisterClientResponse,
    RegisterRequest, RegisterResponse, ResetPasswordRequest, RestoreUserRequest,
    RevokeApiKeyRequest, RevokePermissionRequest, RevokeRoleRequest, Role, TokenPair, TokenRequest,
    UpdateProfileRequest, UpdateRoleRequest,
};
use crate::metadata::metadata_values;
use crate::middleware::{attached, bearer, bearer_of, call_as, Call, Identity};
use crate::reply::{json_view, Reply, ReplyView, CREATED, OK};
use crate::text::{
    lemma_position, lemma_position_is, same, split_at_first, split_once, texts,
};

verus! {

// Request bodies and queries.

pub struct Credentials {
    pub email: String,
    pub password: String,
}

pub struct RefreshBody {
    pub refresh_token: String,
}

pub struct EmailBody {
    pub email: String,
}

pub struct TokenBody {
    pub token: String,
}

pub struct ResetPasswordBody {
    pub token: String,
    pub new_password: String,
}

pub struct AssignRoleBody {
    pub role: String,
}

pub struct CreateRoleBody {
    pub name: String,
    pub description: String,
}

pub struct UpdateRoleBody {
    pub description: String,
}

pub struct GrantPermissionBody {
    pub permission: String,
}

pub struct UpdateBody {
    pub display_name: Option<String>,
    pub bio: Option<String>,
    pub avatar_url: Option<String>,
    pub phone: Option<String>,
}

pub struct ListQuery {
    pub page: Option<i32>,
    pub page_size: Option<i32>,
    pub query: Option<String>,
    pub deleted: Option<bool>,
}

pub struct AuditQuery {
    pub limit: Option<i32>,
}

pub struct RegisterClientBody {
    pub name: String,
    pub redirect_uris: Vec<String>,
    pub scopes: Vec<String>,
    pub confidential: bool,
}

pub struct LoginTotpBody {
    pub mfa_token: String,
    pub code: String,
}

pub struct CodeBody {
    pub code: String,
}

pub struct CreateApiKeyBody {
    pub name: String,
    pub scopes: Vec<String>,
    pub ttl_seconds: i64,
}

pub struct BulkAssignBody {
    pub user_ids: Vec<String>,
}

// What the endpoints have in common.

/// The reply to a refusal by a service.
pub open spec fn refusal(status: Status) -> ReplyView {
    error_reply(error_of(status))
}

/// Passes on the refusal of a service.
pub fn refused(status: Status) -> (r: Reply)
    ensures
        r@ == refusal(status),
{
    ApiError::from(status).into_response()
}

/// Whether a call is made exactly if its caller holds a permission: in the caller's name
/// with the given message, and otherwise refused for want of that permission.
pub open spec fn allowed<R>(
    r: ApiResult<Call<R>>,
    caller: Identity,
    perm: Seq<char>,
    message: R,
) -> bool {
    match r {
        Ok(call) => caller.permits(perm) && call.is_for(caller@, message),
        Err(e) => !caller.permits(perm) && e@ == forbidden_view(perm),
    }
}

fn call_if_permitted<R>(caller: &Identity, perm: &str, message: R) -> (r: ApiResult<Call<R>>)
    ensures
        allowed(r, *caller, perm@, message),
{
    match caller.require(perm) {
        Ok(_) => Ok(call_as(caller, message)),
        Err(e) => Err(e),
    }
}

/// What is reported of a call that returns nothing.
pub open spec fn success_view() -> JsonView {
    JsonView::Object(seq![("success"@, JsonView::Bool(true))])
}

/// Reports that a call succeeded.
pub fn success_reply(answer: Result<(), Status>) -> (r: Reply)
    ensures
        match answer {
            Ok(_) => r@ == json_view(OK, success_view()),
            Err(s) => r@ == refusal(s),
        },
{
    match answer {
        Ok(_) => Reply::json(OK, single("success", Json::Bool(true))),
        Err(s) => refused(s),
    }
}

// Signing up and in.

/// Asks for a new account. Its profile is made by the user service, when it learns of the account.
pub fn register(body: Credentials) -> (r: RegisterRequest)
    ensures
        r == (RegisterRequest { email: body.email, password: body.password }),
{
    RegisterRequest { email: body.email, password: body.password }
}

/// The new account.
pub open spec fn registered_view(account: RegisterResponse) -> JsonView {
    JsonView::Object(
        seq![
            ("user_id"@, JsonView::Text(account.user_id@)),
            ("email"@, JsonView::Text(account.email@)),
        ],
    )
}

fn registered_json(account: RegisterResponse) -> (r: Json)
    ensures
        r@ == registered_view(account),
{
    let mut f = Fields::new();
    f.put_text("user_id", account.user_id);
    f.put_text("email", account.email);
    assert(JsonView::Object(f@) == registered_view(account)) by {
        assert(f@ =~= registered_view(account)->Object_0);
    }
    f.object()
}

/// Reports the new account.
pub fn register_reply(answer: Result<RegisterResponse, Status>) -> (r: Reply)
    ensures
        match answer {
            Ok(account) => r@ == json_view(CREATED, registered_view(account)),
            Err(s) => r@ == refusal(s),
        },
{
    match answer {
        Ok(account) => Reply::json(CREATED, registered_json(account)),
        Err(s) => refused(s),
    }
}

/// Asks for tokens in exchange for a password.
pub fn login(body: Credentials) -> (r: LoginRequest)
    ensures
        r == (LoginRequest { email: body.email, password: body.password }),
{
    LoginRequest { email: body.email, password: body.password }
}

/// Asks for new tokens in exchange for a refresh token.
pub fn refresh(body: RefreshBody) -> (r: RefreshRequest)
    ensures
        r == (RefreshRequest { refresh_token: body.refresh_token }),
{
    RefreshRequest { refresh_token: body.refresh_token }
}

/// Asks for tokens in exchange for the second factor.
pub fn login_totp(body: LoginTotpBody) -> (r: LoginTotpRequest)
    ensures
        r == (LoginTotpRequest { mfa_token: body.mfa_token, code: body.code }),
{
    LoginTotpRequest { mfa_token: body.mfa_token, code: body.code }
}

/// The tokens, or the challenge for a second factor in their place.
pub open spec fn token_pair_view(tokens: TokenPair) -> JsonView {
    if tokens.mfa_required {
        JsonView::Object(
            seq![
                ("mfa_required"@, JsonView::Bool(true)),
                ("mfa_token"@, JsonView::Text(tokens.mfa_token@)),
                ("token_type"@, JsonView::Text(tokens.token_type@)),
            ],
        )
    } else {
        JsonView::Object(
            seq![
                ("access_token"@, JsonView::Text(tokens.access_token@)),
                ("refresh_token"@, JsonView::Text(tokens.refresh_token@)),
                ("expires_in"@, tokens.expires_in@),
                ("token_type"@, JsonView::Text(tokens.token_type@)),
            ],
        )
    }
}

fn token_pair_json(tokens: TokenPair) -> (r: Json)
    ensures
        r@ == token_pair_view(tokens),
{
    let mut f = Fields::new();
    if tokens.mfa_required {
        f.put_bool("mfa_required", true);
        f.put_text("mfa_token", tokens.mfa_token);
        f.put_text("token_type", tokens.token_type);
    } else {
        f.put_text("access_token", tokens.access_token);
        f.put_text("refresh_token", tokens.refresh_token);
        f.put("expires_in", tokens.expires_in);
        f.put_text("token_type", tokens.token_type);
    }
    assert(JsonView::Object(f@) == token_pair_view(tokens)) by {
        assert(f@ =~= token_pair_view(tokens)->Object_0);
    }
    f.object()
}

/// Hands out the tokens of a login or a refresh.
pub fn token_pair_reply(answer: Result<TokenPair, Status>) -> (r: Reply)
    ensures
        match answer {
            Ok(tokens) => r@ == json_view(OK, token_pair_view(tokens)),
            Err(s) => r@ == refusal(s),
        },
{
    match answer {
        Ok(tokens) => Reply::json(OK, token_pair_json(tokens)),
        Err(s) => refused(s),
    }
}

/// The bearer token of a request, or the empty text.
pub open spec fn bearer_or_empty(headers: HeaderMap) -> Seq<char> {
    match bearer_of(header_text(headers, "authorization"@)) {
        Some(token) => token,
        None => Seq::empty(),
    }
}

fn bearer_from(headers: &HeaderMap) -> (r: String)
    ensures
        r@ == bearer_or_empty(*headers),
{
    match bearer(headers) {
        Some(token) => token,
        None => String::new(),
    }
}

/// Asks for the end of a session. The access token goes along, so that it can be denied
/// from then on.
pub fn logout(headers: &HeaderMap, body: RefreshBody) -> (r: LogoutRequest)
    ensures
        r.refresh_token == body.refresh_token,
        r.access_token@ == bearer_or_empty(*headers),
{
    LogoutRequest { refresh_token: body.refresh_token, access_token: bearer_from(headers) }
}

// Account recovery and verification.

/// Asks for a mail that verifies an address.
pub fn request_email_verification(body: EmailBody) -> (r: EmailRequest)
    ensures
        r == (EmailRequest { email: body.email }),
{
    EmailRequest { email: body.email }
}

/// Presents the token of a verification mail.
pub fn verify_email(body: TokenBody) -> (r: TokenRequest)
    ensures
        r == (TokenRequest { token: body.token }),
{
    TokenRequest { token: body.token }
}

/// Asks for a mail that resets a password.
pub fn request_password_reset(body: EmailBody) -> (r: EmailRequest)
    ensures
        r == (EmailRequest { email: body.email }),
{
    EmailRequest { email: body.email }
}

/// Sets a new password with the token of a reset mail.
pub fn reset_password(body: ResetPasswordBody) -> (r: ResetPasswordRequest)
    ensures
        r == (ResetPasswordRequest { token: body.token, new_password: body.new_password }),
{
    ResetPasswordRequest { token: body.token, new_password: body.new_password }
}

/// The outcome of a request for a mail; in development it shows the token.
pub open spec fn dev_token_view(outcome: DevTokenResponse) -> JsonView {
    if outcome.dev_token@.len() == 0 {
        JsonView::Object(seq![("success"@, JsonView::Bool(outcome.success))])
    } else {
        JsonView::Object(
            seq![
                ("success"@, JsonView::Bool(outcome.success)),
                ("dev_token"@, JsonView::Text(outcome.dev_token@)),
            ],
        )
    }
}

fn dev_token_json(outcome: DevTokenResponse) -> (r: Json)
    ensures
        r@ == dev_token_view(outcome),
{
    let mut f = Fields::new();
    f.put_bool("success", outcome.success);
    if !same(outcome.dev_token.as_str(), "") {
        f.put_text("dev_token", outcome.dev_token);
    }
    proof {
        reveal_strlit("");
        assert(outcome.dev_token@.len() == 0 ==> outcome.dev_token@ =~= ""@);
    }
    assert(JsonView::Object(f@) == dev_token_view(outcome)) by {
        assert(f@ =~= dev_token_view(outcome)->Object_0);
    }
    f.object()
}

/// Reports the outcome of a request for a mail.
pub fn dev_token_reply(answer: Result<DevTokenResponse, Status>) -> (r: Reply)
    ensures
        match answer {
            Ok(outcome) => r@ == json_view(OK, dev_token_view(outcome)),
            Err(s) => r@ == refusal(s),
        },
{
    match answer {
        Ok(outcome) => Reply::json(OK, dev_token_json(outcome)),
        Err(s) => refused(s),
    }
}

// The audit log.

/// Asks for the latest audit events; without a limit, with a limit of zero.
pub fn list_audit(identity: &Identity, q: AuditQuery) -> (r: ApiResult<
    Call<ListAuditEventsRequest>,
>)
    ensures
        allowed(
            r,
            *identity,
            "audit:read"@,
            (ListAuditEventsRequest {
                limit: match q.limit {
                    Some(limit) => limit,
                    None => 0,
                },
            }),
        ),
{
    let limit: i32 = match q.limit {
        Some(limit) => limit,
        None => 0,
    };
    call_if_permitted(identity, "audit:read", ListAuditEventsRequest { limit })
}

/// An audit event.
pub open spec fn audit_event_view(event: AuditEvent) -> JsonView {
    JsonView::Object(
        seq![
            ("id"@, JsonView::Text(event.id@)),
            ("actor_id"@, JsonView::Text(event.actor_id@)),
            ("actor_email"@, JsonView::Text(event.actor_email@)),
            ("action"@, JsonView::Text(event.action@)),
            ("target"@, JsonView::Text(event.target@)),
            ("detail"@, JsonView::Text(event.detail@)),
            ("created_at"@, event.created_at@),
        ],
    )
}

fn audit_event_json(event: AuditEvent) -> (r: Json)
    ensures
        r@ == audit_event_view(event),
{
    let mut f = Fields::new();
    f.put_text("id", event.id);
    f.put_text("actor_id", event.actor_id);
    f.put_text("actor_email", event.actor_email);
    f.put_text("action", event.action);
    f.put_text("target", event.target);
    f.put_text("detail", event.detail);
    f.put("created_at", event.created_at);
    assert(JsonView::Object(f@) == audit_event_view(event)) by {
        assert(f@ =~= audit_event_view(event)->Object_0);
    }
    f.object()
}

/// Audit events, in their order.
pub open spec fn audit_events_view(items: Seq<AuditEvent>) -> JsonView {
    JsonView::List(items.map_values(|item: AuditEvent| audit_event_view(item)))
}

fn audit_events_json(items: Vec<AuditEvent>) -> (r: Json)
    ensures
        r@ == audit_events_view(items@),
{
    let ghost all = items@;
    let mut out: Vec<Json> = Vec::new();
    for item in it: items
        invariant
            it.seq() == all,
            out@.len() == it.index(),
            forall|j: int| 0 <= j < out@.len() ==> (#[trigger] out@[j])@ == audit_event_view(all[j]),
    {
        out.push(audit_event_json(item));
    }
    assert(views(out@) =~= all.map_values(|item: AuditEvent| audit_event_view(item)));
    list(out)
}

/// Shows the audit events.
pub fn list_audit_reply(answer: Result<Vec<AuditEvent>, Status>) -> (r: Reply)
    ensures
        match answer {
            Ok(events) => r@ == json_view(OK, JsonView::Object(
                seq![("events"@, audit_events_view(events@))],
            )),
            Err(s) => r@ == refusal(s),
        },
{
    match answer {
        Ok(events) => Reply::json(OK, single("events", audit_events_json(events))),
        Err(s) => refused(s),
    }
}

// The caller.

/// What callers see of their own identity.
pub open spec fn own_identity_view(identity: Identity) -> JsonView {
    JsonView::Object(
        seq![
            ("user_id"@, JsonView::Text(identity.user_id@)),
            ("email"@, JsonView::Text(identity.email@)),
            ("roles"@, text_list(texts(identity.roles@))),
            ("permissions"@, text_list(texts(identity.permissions@))),
        ],
    )
}

fn own_identity_json(identity: Identity) -> (r: Json)
    ensures
        r@ == own_identity_view(identity),
{
    let mut f = Fields::new();
    f.put_text("user_id", identity.user_id);
    f.put_text("email", identity.email);
    f.put("roles", list_of_texts(identity.roles));
    f.put("permissions", list_of_texts(identity.permissions));
    assert(JsonView::Object(f@) == own_identity_view(identity)) by {
        assert(f@ =~= own_identity_view(identity)->Object_0);
    }
    f.object()
}

/// Shows callers their identity, roles and permissions.
pub fn get_identity(identity: Identity) -> (r: Reply)
    ensures
        r@ == json_view(OK, own_identity_view(identity)),
{
    Reply::json(OK, own_identity_json(identity))
}

/// The OpenID Connect claims of a caller.
pub open spec fn claims_view(identity: Identity) -> JsonView {
    JsonView::Object(
        seq![
            ("sub"@, JsonView::Text(identity.user_id@)),
            ("email"@, JsonView::Text(identity.email@)),
        ],
    )
}

fn claims_json(identity: Identity) -> (r: Json)
    ensures
        r@ == claims_view(identity),
{
    let mut f = Fields::new();
    f.put_text("sub", identity.user_id);
    f.put_text("email", identity.email);
    assert(JsonView::Object(f@) == claims_view(identity)) by {
        assert(f@ =~= claims_view(identity)->Object_0);
    }
    f.object()
}

/// Shows the claims behind a bearer token.
pub fn userinfo(identity: Identity) -> (r: Reply)
    ensures
        r@ == json_view(OK, claims_view(identity)),
{
    Reply::json(OK, claims_json(identity))
}

// OAuth clients.

/// Asks for a new OAuth client.
pub fn register_client(identity: &Identity, body: RegisterClientBody) -> (r: ApiResult<
    Call<RegisterClientRequest>,
>)
    ensures
        allowed(
            r,
            *identity,
            "role:write"@,
            (RegisterClientRequest {
                name: body.name,
                redirect_uris: body.redirect_uris,
                scopes: body.scopes,
                is_confidential: body.confidential,
            }),
        ),
{
    call_if_permitted(identity, "role:write", RegisterClientRequest {
        name: body.name,
        redirect_uris: body.redirect_uris,
        scopes: body.scopes,
        is_confidential: body.confidential,
    })
}

/// The credentials of a new client.
pub open spec fn client_view(client: RegisterClientResponse) -> JsonView {
    JsonView::Object(
        seq![
            ("client_id"@, JsonView::Text(client.client_id@)),
            ("client_secret"@, JsonView::Text(client.client_secret@)),
        ],
    )
}

fn client_json(client: RegisterClientResponse) -> (r: Json)
    ensures
        r@ == client_view(client),
{
    let mut f = Fields::new();
    f.put_text("client_id", client.client_id);
    f.put_text("client_secret", client.client_secret);
    assert(JsonView::Object(f@) == client_view(client)) by {
        assert(f@ =~= client_view(client)->Object_0);
    }
    f.object()
}

/// Hands out the credentials of a new client.
pub fn register_client_reply(answer: Result<RegisterClientResponse, Status>) -> (r: Reply)
    ensures
        match answer {
            Ok(client) => r@ == json_view(CREATED, client_view(client)),
            Err(s) => r@ == refusal(s),
        },
{
    match answer {
        Ok(client) => Reply::json(CREATED, client_json(client)),
        Err(s) => refused(s),
    }
}

// Profiles.

/// A profile.
pub open spec fn profile_view(profile: Profile) -> JsonView {
    JsonView::Object(
        seq![
            ("user_id"@, JsonView::Text(profile.user_id@)),
            ("display_name"@, JsonView::Text(profile.display_name@)),
            ("bio"@, JsonView::Text(profile.bio@)),
            ("avatar_url"@, JsonView::Text(profile.avatar_url@)),
            ("phone"@, JsonView::Text(profile.phone@)),
            ("created_at"@, profile.created_at@),
            ("updated_at"@, profile.updated_at@),
        ],
    )
}

fn profile_json(profile: Profile) -> (r: Json)
    ensures
        r@ == profile_view(profile),
{
    let mut f = Fields::new();
    f.put_text("user_id", profile.user_id);
    f.put_text("display_name", profile.display_name);
    f.put_text("bio", profile.bio);
    f.put_text("avatar_url", profile.avatar_url);
    f.put_text("phone", profile.phone);
    f.put("created_at", profile.created_at);
    f.put("updated_at", profile.updated_at);
    assert(JsonView::Object(f@) == profile_view(profile)) by {
        assert(f@ =~= profile_view(profile)->Object_0);
    }
    f.object()
}

/// Profiles, in their order.
pub open spec fn profiles_view(items: Seq<Profile>) -> JsonView {
    JsonView::List(items.map_values(|item: Profile| profile_view(item)))
}

fn profiles_json(items: Vec<Profile>) -> (r: Json)
    ensures
        r@ == profiles_view(items@),
{
    let ghost all = items@;
    let mut out: Vec<Json> = Vec::new();
    for item in it: items
        invariant
            it.seq() == all,
            out@.len() == it.index(),
            forall|j: int| 0 <= j < out@.len() ==> (#[trigger] out@[j])@ == profile_view(all[j]),
    {
        out.push(profile_json(item));
    }
    assert(views(out@) =~= all.map_values(|item: Profile| profile_view(item)));
    list(out)
}

/// Shows a profile.
pub fn profile_reply(answer: Result<Profile, Status>) -> (r: Reply)
    ensures
        match answer {
            Ok(profile) => r@ == json_view(OK, profile_view(profile)),
            Err(s) => r@ == refusal(s),
        },
{
    match answer {
        Ok(profile) => Reply::json(OK, profile_json(profile)),
        Err(s) => refused(s),
    }
}

/// Asks for the caller's own profile.
pub fn get_me(identity: &Identity) -> (r: Call<GetProfileRequest>)
    ensures
        r.message.user_id@ == identity@.user_id,
        r.is_for(identity@, r.message),
{
    call_as(identity, GetProfileRequest { user_id: identity.user_id.clone() })
}

/// The name that a profile starts with: the address up to its first `@`.
pub open spec fn display_name(email: Seq<char>) -> Seq<char> {
    match split_at_first(email, '@') {
        Some((local, _)) => local,
        None => email,
    }
}

/// Shows the caller's own profile. One that is missing is made first.
pub fn get_me_found(identity: &Identity, answer: Result<Profile, Status>) -> (r: Step<
    (),
    Call<CreateProfileRequest>,
>)
    ensures
        match answer {
            Ok(profile) => r is Done && r->Done_0@ == json_view(OK, profile_view(profile)),
            Err(s) => if s.code == Code::NotFound {
                &&& r matches Step::Ask(_, call)
                &&& call.message.user_id@ == identity@.user_id
                &&& call.message.display_name@ == display_name(identity@.email)
                &&& call.is_for(identity@, call.message)
            } else {
                r is Done && r->Done_0@ == refusal(s)
            },
        },
{
    match answer {
        Ok(profile) => Step::Done(Reply::json(OK, profile_json(profile))),
        Err(s) => {
            if s.code != Code::NotFound {
                return Step::Done(refused(s));
            }
            let name = match split_once(identity.email.as_str(), '@') {
                Some((local, _)) => local,
                None => identity.email.clone(),
            };
            let request = CreateProfileRequest {
                user_id: identity.user_id.clone(),
                display_name: name,
            };
            Step::Ask((), call_as(identity, request))
        },
    }
}

/// Asks for the profile of a user.
pub fn get_user(identity: &Identity, id: String) -> (r: ApiResult<Call<GetProfileRequest>>)
    ensures
        allowed(
            r,
            *identity,
            "user:read"@,
            (GetProfileRequest { user_id: id }),
        ),
{
    call_if_permitted(identity, "user:read", GetProfileRequest { user_id: id })
}

/// The page of profiles that a query asks for; what it leaves out is zero, empty or false.
pub open spec fn is_page_of(request: ListProfilesRequest, q: ListQuery) -> bool {
    &&& request.page == (match q.page {
        Some(page) => page,
        None => 0,
    })
    &&& request.page_size == (match q.page_size {
        Some(size) => size,
        None => 0,
    })
    &&& request.query@ == (match q.query {
        Some(query) => query@,
        None => Seq::empty(),
    })
    &&& request.deleted_only == (q.deleted == Some(true))
}

/// Asks for a page of profiles.
pub fn list_users(identity: &Identity, q: ListQuery) -> (r: ApiResult<Call<ListProfilesRequest>>)
    ensures
        match r {
            Ok(call) => {
                &&& is_page_of(call.message, q)
                &&& allowed(r, *identity, "user:read"@, call.message)
            },
            Err(e) => !identity.permits("user:read"@) && e@ == forbidden_view("user:read"@),
        },
{
    let page: i32 = match q.page {
        Some(page) => page,
        None => 0,
    };
    let page_size: i32 = match q.page_size {
        Some(size) => size,
        None => 0,
    };
    let query = match q.query {
        Some(query) => query,
        None => String::new(),
    };
    let deleted_only = match q.deleted {
        Some(deleted) => deleted,
        None => false,
    };
    call_if_permitted(
        identity,
        "user:read",
        ListProfilesRequest { page, page_size, query, deleted_only },
    )
}

/// A page of profiles.
pub open spec fn profile_page_view(page: ListProfilesResponse) -> JsonView {
    JsonView::Object(
        seq![
            ("profiles"@, profiles_view(page.profiles@)),
            ("total"@, page.total@),
            ("page"@, page.page@),
            ("page_size"@, page.page_size@),
        ],
    )
}

fn profile_page_json(page: ListProfilesResponse) -> (r: Json)
    ensures
        r@ == profile_page_view(page),
{
    let mut f = Fields::new();
    f.put("profiles", profiles_json(page.profiles));
    f.put("total", page.total);
    f.put("page", page.page);
    f.put("page_size", page.page_size);
    assert(JsonView::Object(f@) == profile_page_view(page)) by {
        assert(f@ =~= profile_page_view(page)->Object_0);
    }
    f.object()
}

/// Shows a page of profiles.
pub fn list_users_reply(answer: Result<ListProfilesResponse, Status>) -> (r: Reply)
    ensures
        match answer {
            Ok(page) => r@ == json_view(OK, profile_page_view(page)),
            Err(s) => r@ == refusal(s),
        },
{
    match answer {
        Ok(page) => Reply::json(OK, profile_page_json(page)),
        Err(s) => refused(s),
    }
}

/// The permission that a change of a profile takes: one for the caller's own, another for
/// everybody else's.
pub open spec fn update_permission(own: bool) -> Seq<char> {
    if own {
        "profile:write"@
    } else {
        "user:write"@
    }
}

/// Asks for a change of a profile.
pub fn update_user(identity: &Identity, id: String, body: UpdateBody) -> (r: ApiResult<
    Call<UpdateProfileRequest>,
>)
    ensures
        allowed(
            r,
            *identity,
            update_permission(id@ == identity@.user_id),
            (UpdateProfileRequest {
                user_id: id,
                display_name: body.display_name,
                bio: body.bio,
                avatar_url: body.avatar_url,
                phone: body.phone,
            }),
        ),
{
    if same(id.as_str(), identity.user_id.as_str()) {
        if !identity.has_permission("profile:write") {
            return Err(ApiError::forbidden("profile:write"));
        }
    } else if !identity.has_permission("user:write") {
        return Err(ApiError::forbidden("user:write"));
    }
    Ok(
        call_as(
            identity,
            UpdateProfileRequest {
                user_id: id,
                display_name: body.display_name,
                bio: body.bio,
                avatar_url: body.avatar_url,
                phone: body.phone,
            },
        ),
    )
}

/// Whether a deletion is for good: only where the query says so.
pub open spec fn is_hard(hard: Option<String>) -> bool {
    match hard {
        Some(value) => value@ == "true"@,
        None => false,
    }
}

/// Reads from the value of the query parameter `hard` whether a deletion is for good.
pub fn hard_delete(hard: &Option<String>) -> (r: bool)
    ensures
        r == is_hard(*hard),
{
    match hard {
        Some(value) => same(value.as_str(), "true"),
        None => false,
    }
}

/// Asks for the deletion of a user: recoverable, unless it is for good.
pub fn delete_user(identity: &Identity, id: String, hard: bool) -> (r: ApiResult<
    Call<DeleteUserRequest>,
>)
    ensures
        allowed(r, *identity, "user:delete"@, (DeleteUserRequest { user_id: id, hard })),
{
    call_if_permitted(identity, "user:delete", DeleteUserRequest { user_id: id, hard })
}

/// What is reported of a deletion.
pub open spec fn deleted_view(hard: bool) -> JsonView {
    JsonView::Object(seq![("success"@, JsonView::Bool(true)), ("hard"@, JsonView::Bool(hard))])
}

/// Reports a deletion.
pub fn delete_user_reply(hard: bool, answer: Result<(), Status>) -> (r: Reply)
    ensures
        match answer {
            Ok(_) => r@ == json_view(OK, deleted_view(hard)),
            Err(s) => r@ == refusal(s),
        },
{
    match answer {
        Ok(_) => {
            let mut f = Fields::new();
            f.put_bool("success", true);
            f.put_bool("hard", hard);
            assert(f@ =~= deleted_view(hard)->Object_0);
            Reply::json(OK, f.object())
        },
        Err(s) => refused(s),
    }
}

/// Asks to take back the deletion of a user.
pub fn restore_user(identity: &Identity, id: String) -> (r: ApiResult<Call<RestoreUserRequest>>)
    ensures
        allowed(
            r,
            *identity,
            "user:delete"@,
            (RestoreUserRequest { user_id: id }),
        ),
{
    call_if_permitted(identity, "user:delete", RestoreUserRequest { user_id: id })
}

// The second factor.

/// Asks for a second factor.
pub fn enroll_totp(identity: &Identity) -> (r: Call<EnrollTotpRequest>)
    ensures
        r.is_for(identity@, (EnrollTotpRequest {})),
{
    call_as(identity, EnrollTotpRequest {})
}

/// A second factor that is not active yet.
pub open spec fn enrolment_view(factor: EnrollTotpResponse) -> JsonView {
    JsonView::Object(
        seq![
            ("secret"@, JsonView::Text(factor.secret@)),
            ("otpauth_uri"@, JsonView::Text(factor.otpauth_uri@)),
            ("recovery_codes"@, text_list(texts(factor.recovery_codes@))),
        ],
    )
}

fn enrolment_json(factor: EnrollTotpResponse) -> (r: Json)
    ensures
        r@ == enrolment_view(factor),
{
    let mut f = Fields::new();
    f.put_text("secret", factor.secret);
    f.put_text("otpauth_uri", factor.otpauth_uri);
    f.put("recovery_codes", list_of_texts(factor.recovery_codes));
    assert(JsonView::Object(f@) == enrolment_view(factor)) by {
        assert(f@ =~= enrolment_view(factor)->Object_0);
    }
    f.object()
}

/// Hands out a second factor.
pub fn enroll_totp_reply(answer: Result<EnrollTotpResponse, Status>) -> (r: Reply)
    ensures
        match answer {
            Ok(factor) => r@ == json_view(OK, enrolment_view(factor)),
            Err(s) => r@ == refusal(s),
        },
{
    match answer {
        Ok(factor) => Reply::json(OK, enrolment_json(factor)),
        Err(s) => refused(s),
    }
}

/// Asks to activate the second factor.
pub fn activate_totp(identity: &Identity, body: CodeBody) -> (r: Call<ActivateTotpRequest>)
    ensures
        r.is_for(identity@, (ActivateTotpRequest { code: body.code })),
{
    call_as(identity, ActivateTotpRequest { code: body.code })
}

/// Asks to give up the second factor.
pub fn disable_totp(identity: &Identity, body: CodeBody) -> (r: Call<DisableTotpRequest>)
    ensures
        r.is_for(identity@, (DisableTotpRequest { code: body.code })),
{
    call_as(identity, DisableTotpRequest { code: body.code })
}

// API keys.

/// Asks for a new API key.
pub fn create_api_key(identity: &Identity, body: CreateApiKeyBody) -> (r: Call<CreateApiKeyRequest>)
    ensures
        r.is_for(identity@, (CreateApiKeyRequest {
            name: body.name,
            scopes: body.scopes,
            ttl_seconds: body.ttl_seconds,
        })),
{
    call_as(identity, CreateApiKeyRequest {
        name: body.name,
        scopes: body.scopes,
        ttl_seconds: body.ttl_seconds,
    })
}

/// An API key, without its secret.
pub open spec fn api_key_view(key: ApiKey) -> JsonView {
    JsonView::Object(
        seq![
            ("id"@, JsonView::Text(key.id@)),
            ("name"@, JsonView::Text(key.name@)),
            ("scopes"@, text_list(texts(key.scopes@))),
            ("created_at"@, key.created_at@),
            ("expires_at"@, key.expires_at@),
            ("last_used_at"@, key.last_used_at@),
        ],
    )
}

fn api_key_json(key: ApiKey) -> (r: Json)
    ensures
        r@ == api_key_view(key),
{
    let mut f = Fields::new();
    f.put_text("id", key.id);
    f.put_text("name", key.name);
    f.put("scopes", list_of_texts(key.scopes));
    f.put("created_at", key.created_at);
    f.put("expires_at", key.expires_at);
    f.put("last_used_at", key.last_used_at);
    assert(JsonView::Object(f@) == api_key_view(key)) by {
        assert(f@ =~= api_key_view(key)->Object_0);
    }
    f.object()
}

/// API keys, in their order.
pub open spec fn api_keys_view(items: Seq<ApiKey>) -> JsonView {
    JsonView::List(items.map_values(|item: ApiKey| api_key_view(item)))
}

fn api_keys_json(items: Vec<ApiKey>) -> (r: Json)
    ensures
        r@ == api_keys_view(items@),
{
    let ghost all = items@;
    let mut out: Vec<Json> = Vec::new();
    for item in it: items
        invariant
            it.seq() == all,
            out@.len() == it.index(),
            forall|j: int| 0 <= j < out@.len() ==> (#[trigger] out@[j])@ == api_key_view(all[j]),
    {
        out.push(api_key_json(item));
    }
    assert(views(out@) =~= all.map_values(|item: ApiKey| api_key_view(item)));
    list(out)
}

/// A new API key with its secret.
pub open spec fn new_api_key_view(made: CreateApiKeyResponse) -> JsonView {
    JsonView::Object(
        seq![
            ("secret"@, JsonView::Text(made.secret@)),
            (
                "key"@,
                match made.key {
                    Some(key) => api_key_view(key),
                    None => JsonView::Null,
                },
            ),
        ],
    )
}

fn new_api_key_json(made: CreateApiKeyResponse) -> (r: Json)
    ensures
        r@ == new_api_key_view(made),
{
    let key = match made.key {
        Some(key) => api_key_json(key),
        None => Json::Null,
    };
    let mut f = Fields::new();
    f.put_text("secret", made.secret);
    f.put("key", key);
    assert(JsonView::Object(f@) == new_api_key_view(made)) by {
        assert(f@ =~= new_api_key_view(made)->Object_0);
    }
    f.object()
}

/// Hands out a new API key.
pub fn create_api_key_reply(answer: Result<CreateApiKeyResponse, Status>) -> (r: Reply)
    ensures
        match answer {
            Ok(made) => r@ == json_view(CREATED, new_api_key_view(made)),
            Err(s) => r@ == refusal(s),
        },
{
    match answer {
        Ok(made) => Reply::json(CREATED, new_api_key_json(made)),
        Err(s) => refused(s),
    }
}

/// Asks for the caller's API keys.
pub fn list_api_keys(identity: &Identity) -> (r: Call<ListApiKeysRequest>)
    ensures
        r.is_for(identity@, (ListApiKeysRequest {})),
{
    call_as(identity, ListApiKeysRequest {})
}

/// Shows the caller's API keys.
pub fn list_api_keys_reply(answer: Result<Vec<ApiKey>, Status>) -> (r: Reply)
    ensures
        match answer {
            Ok(keys) => r@ == json_view(OK, JsonView::Object(
                seq![("keys"@, api_keys_view(keys@))],
            )),
            Err(s) => r@ == refusal(s),
        },
{
    match answer {
        Ok(keys) => Reply::json(OK, single("keys", api_keys_json(keys))),
        Err(s) => refused(s),
    }
}

/// Asks to revoke an API key.
pub fn revoke_api_key(identity: &Identity, id: String) -> (r: Call<RevokeApiKeyRequest>)
    ensures
        r.is_for(identity@, (RevokeApiKeyRequest { id })),
{
    call_as(identity, RevokeApiKeyRequest { id })
}

// Roles and permissions.

/// Asks for every permission that there is. The call carries no identity.
pub fn list_permissions(identity: &Identity) -> (r: ApiResult<ListPermissionsRequest>)
    ensures
        match r {
            Ok(request) => identity.permits("role:read"@) && request == (ListPermissionsRequest {}),
            Err(e) => !identity.permits("role:read"@) && e@ == forbidden_view("role:read"@),
        },
{
    match identity.require("role:read") {
        Ok(_) => Ok(ListPermissionsRequest {}),
        Err(e) => Err(e),
    }
}

/// A permission.
pub open spec fn permission_view(permission: Permission) -> JsonView {
    JsonView::Object(
        seq![
            ("id"@, JsonView::Text(permission.id@)),
            ("name"@, JsonView::Text(permission.name@)),
            ("description"@, JsonView::Text(permission.description@)),
        ],
    )
}

fn permission_json(permission: Permission) -> (r: Json)
    ensures
        r@ == permission_view(permission),
{
    let mut f = Fields::new();
    f.put_text("id", permission.id);
    f.put_text("name", permission.name);
    f.put_text("description", permission.description);
    assert(JsonView::Object(f@) == permission_view(permission)) by {
        assert(f@ =~= permission_view(permission)->Object_0);
    }
    f.object()
}

/// Permissions, in their order.
pub open spec fn permissions_view(items: Seq<Permission>) -> JsonView {
    JsonView::List(items.map_values(|item: Permission| permission_view(item)))
}

fn permissions_json(items: Vec<Permission>) -> (r: Json)
    ensures
        r@ == permissions_view(items@),
{
    let ghost all = items@;
    let mut out: Vec<Json> = Vec::new();
    for item in it: items
        invariant
            it.seq() == all,
            out@.len() == it.index(),
            forall|j: int| 0 <= j < out@.len() ==> (#[trigger] out@[j])@ == permission_view(all[j]),
    {
        out.push(permission_json(item));
    }
    assert(views(out@) =~= all.map_values(|item: Permission| permission_view(item)));
    list(out)
}

/// Shows the permissions.
pub fn list_permissions_reply(answer: Result<Vec<Permission>, Status>) -> (r: Reply)
    ensures
        match answer {
            Ok(permissions) => r@ == json_view(OK, JsonView::Object(
                seq![("permissions"@, permissions_view(permissions@))],
            )),
            Err(s) => r@ == refusal(s),
        },
{
    match answer {
        Ok(permissions) => Reply::json(OK, single("permissions", permissions_json(permissions))),
        Err(s) => refused(s),
    }
}

/// Asks for every role. The call carries no identity.
pub fn list_roles(identity: &Identity) -> (r: ApiResult<ListRolesRequest>)
    ensures
        match r {
            Ok(request) => identity.permits("role:read"@) && request == (ListRolesRequest {}),
            Err(e) => !identity.permits("role:read"@) && e@ == forbidden_view("role:read"@),
        },
{
    match identity.require("role:read") {
        Ok(_) => Ok(ListRolesRequest {}),
        Err(e) => Err(e),
    }
}

/// A role with its permissions.
pub open spec fn role_view(role: Role) -> JsonView {
    JsonView::Object(
        seq![
            ("id"@, JsonView::Text(role.id@)),
            ("name"@, JsonView::Text(role.name@)),
            ("description"@, JsonView::Text(role.description@)),
            ("permissions"@, text_list(texts(role.permissions@))),
        ],
    )
}

fn role_json(role: Role) -> (r: Json)
    ensures
        r@ == role_view(role),
{
    let mut f = Fields::new();
    f.put_text("id", role.id);
    f.put_text("name", role.name);
    f.put_text("description", role.description);
    f.put("permissions", list_of_texts(role.permissions));
    assert(JsonView::Object(f@) == role_view(role)) by {
        assert(f@ =~= role_view(role)->Object_0);
    }
    f.object()
}

/// Roles, in their order.
pub open spec fn roles_view(items: Seq<Role>) -> JsonView {
    JsonView::List(items.map_values(|item: Role| role_view(item)))
}

fn roles_json(items: Vec<Role>) -> (r: Json)
    ensures
        r@ == roles_view(items@),
{
    let ghost all = items@;
    let mut out: Vec<Json> = Vec::new();
    for item in it: items
        invariant
            it.seq() == all,
            out@.len() == it.index(),
            forall|j: int| 0 <= j < out@.len() ==> (#[trigger] out@[j])@ == role_view(all[j]),
    {
        out.push(role_json(item));
    }
    assert(views(out@) =~= all.map_values(|item: Role| role_view(item)));
    list(out)
}

/// Shows the roles.
pub fn list_roles_reply(answer: Result<Vec<Role>, Status>) -> (r: Reply)
    ensures
        match answer {
            Ok(roles) => r@ == json_view(OK, JsonView::Object(
                seq![("roles"@, roles_view(roles@))],
            )),
            Err(s) => r@ == refusal(s),
        },
{
    match answer {
        Ok(roles) => Reply::json(OK, single("roles", roles_json(roles))),
        Err(s) => refused(s),
    }
}

/// Asks for a new role.
pub fn create_role(identity: &Identity, body: CreateRoleBody) -> (r: ApiResult<
    Call<CreateRoleRequest>,
>)
    ensures
        allowed(
            r,
            *identity,
            "role:write"@,
            (CreateRoleRequest { name: body.name, description: body.description }),
        ),
{
    call_if_permitted(
        identity,
        "role:write",
        CreateRoleRequest { name: body.name, description: body.description },
    )
}

/// A role without its permissions.
pub open spec fn bare_role_view(role: Role) -> JsonView {
    JsonView::Object(
        seq![
            ("id"@, JsonView::Text(role.id@)),
            ("name"@, JsonView::Text(role.name@)),
            ("description"@, JsonView::Text(role.description@)),
        ],
    )
}

fn bare_role_json(role: Role) -> (r: Json)
    ensures
        r@ == bare_role_view(role),
{
    let mut f = Fields::new();
    f.put_text("id", role.id);
    f.put_text("name", role.name);
    f.put_text("description", role.description);
    assert(JsonView::Object(f@) == bare_role_view(role)) by {
        assert(f@ =~= bare_role_view(role)->Object_0);
    }
    f.object()
}

/// Shows a new role.
pub fn create_role_reply(answer: Result<Role, Status>) -> (r: Reply)
    ensures
        match answer {
            Ok(role) => r@ == json_view(CREATED, bare_role_view(role)),
            Err(s) => r@ == refusal(s),
        },
{
    match answer {
        Ok(role) => Reply::json(CREATED, bare_role_json(role)),
        Err(s) => refused(s),
    }
}

/// Asks for a change of a role.
pub fn update_role(identity: &Identity, name: String, body: UpdateRoleBody) -> (r: ApiResult<
    Call<UpdateRoleRequest>,
>)
    ensures
        allowed(
            r,
            *identity,
            "role:write"@,
            (UpdateRoleRequest { name, description: body.description }),
        ),
{
    call_if_permitted(
        identity,
        "role:write",
        UpdateRoleRequest { name, description: body.description },
    )
}

/// Shows a changed role.
pub fn update_role_reply(answer: Result<Role, Status>) -> (r: Reply)
    ensures
        match answer {
            Ok(role) => r@ == json_view(OK, bare_role_view(role)),
            Err(s) => r@ == refusal(s),
        },
{
    match answer {
        Ok(role) => Reply::json(OK, bare_role_json(role)),
        Err(s) => refused(s),
    }
}

/// Asks for the deletion of a role.
pub fn delete_role(identity: &Identity, name: String) -> (r: ApiResult<Call<DeleteRoleRequest>>)
    ensures
        allowed(
            r,
            *identity,
            "role:write"@,
            (DeleteRoleRequest { name }),
        ),
{
    call_if_permitted(identity, "role:write", DeleteRoleRequest { name })
}

/// Asks to give a role a permission.
pub fn grant_permission(identity: &Identity, name: String, body: GrantPermissionBody) -> (r: ApiResult<
    Call<GrantPermissionRequest>,
>)
    ensures
        allowed(
            r,
            *identity,
            "role:write"@,
            (GrantPermissionRequest { role_name: name, permission_name: body.permission }),
        ),
{
    call_if_permitted(
        identity,
        "role:write",
        GrantPermissionRequest { role_name: name, permission_name: body.permission },
    )
}

/// Asks to take a permission from a role.
pub fn revoke_permission(identity: &Identity, name: String, perm: String) -> (r: ApiResult<
    Call<RevokePermissionRequest>,
>)
    ensures
        allowed(
            r,
            *identity,
            "role:write"@,
            (RevokePermissionRequest { role_name: name, permission_name: perm }),
        ),
{
    call_if_permitted(
        identity,
        "role:write",
        RevokePermissionRequest { role_name: name, permission_name: perm },
    )
}

/// Asks to give a user a role.
pub fn assign_role(identity: &Identity, id: String, body: AssignRoleBody) -> (r: ApiResult<
    Call<AssignRoleRequest>,
>)
    ensures
        allowed(
            r,
            *identity,
            "role:assign"@,
            (AssignRoleRequest { user_id: id, role_name: body.role }),
        ),
{
    call_if_permitted(
        identity,
        "role:assign",
        AssignRoleRequest { user_id: id, role_name: body.role },
    )
}

/// Asks to give many users a role.
pub fn assign_role_bulk(identity: &Identity, name: String, body: BulkAssignBody) -> (r: ApiResult<
    Call<AssignRoleBulkRequest>,
>)
    ensures
        allowed(
            r,
            *identity,
            "role:assign"@,
            (AssignRoleBulkRequest { role_name: name, user_ids: body.user_ids }),
        ),
{
    call_if_permitted(
        identity,
        "role:assign",
        AssignRoleBulkRequest { role_name: name, user_ids: body.user_ids },
    )
}

/// How many users got a role, and which did not.
pub open spec fn assigned_view(outcome: AssignRoleBulkResponse) -> JsonView {
    JsonView::Object(
        seq![
            ("assigned"@, outcome.assigned@),
            ("failed"@, outcome.failed@),
        ],
    )
}

fn assigned_json(outcome: AssignRoleBulkResponse) -> (r: Json)
    ensures
        r@ == assigned_view(outcome),
{
    let mut f = Fields::new();
    f.put("assigned", outcome.assigned);
    f.put("failed", outcome.failed);
    assert(JsonView::Object(f@) == assigned_view(outcome)) by {
        assert(f@ =~= assigned_view(outcome)->Object_0);
    }
    f.object()
}

/// Reports how many users got a role.
pub fn assign_role_bulk_reply(answer: Result<AssignRoleBulkResponse, Status>) -> (r: Reply)
    ensures
        match answer {
            Ok(outcome) => r@ == json_view(OK, assigned_view(outcome)),
            Err(s) => r@ == refusal(s),
        },
{
    match answer {
        Ok(outcome) => Reply::json(OK, assigned_json(outcome)),
        Err(s) => refused(s),
    }
}

/// Asks to take a role from a user.
pub fn revoke_role(identity: &Identity, id: String, role: String) -> (r: ApiResult<
    Call<RevokeRoleRequest>,
>)
    ensures
        allowed(
            r,
            *identity,
            "role:assign"@,
            (RevokeRoleRequest { user_id: id, role_name: role }),
        ),
{
    call_if_permitted(identity, "role:assign", RevokeRoleRequest { user_id: id, role_name: role })
}

/// A login that is not complete hands out no token: where a second factor is asked for,
/// the reply holds the challenge and nothing that gives access.
pub proof fn law_challenge_holds_no_token(tokens: TokenPair)
    requires
        tokens.mfa_required,
    ensures
        forall|i: int|
            0 <= i < token_pair_view(tokens)->Object_0.len() ==> {
                &&& (#[trigger] token_pair_view(tokens)->Object_0[i]).0 != "access_token"@
                &&& token_pair_view(tokens)->Object_0[i].0 != "refresh_token"@
            },
{
    reveal_strlit("mfa_required");
    reveal_strlit("mfa_token");
    reveal_strlit("token_type");
    reveal_strlit("access_token");
    reveal_strlit("refresh_token");
    assert("mfa_required"@[0] != "access_token"@[0]);
    assert("mfa_token"@.len() == 9 && "token_type"@.len() == 10);
    assert("mfa_required"@.len() == 12 && "access_token"@.len() == 12);
    assert("refresh_token"@.len() == 13);
}

// What the endpoints are for.

/// A refusal of a service is answered as an error, with the status of its code.
pub proof fn law_refusal(s: Status)
    ensures
        refusal(s) == error_reply(error_of(s)),
        refusal(s).status == http_status(s.code),
{
}

/// A call goes out exactly where the caller holds the permission. It then carries the message
/// as it is and the caller's identity; otherwise the answer is 403 and names the permission.
pub proof fn law_calls_need_the_permission<R>(
    r: ApiResult<Call<R>>,
    caller: Identity,
    perm: Seq<char>,
    message: R,
)
    requires
        allowed(r, caller, perm, message),
    ensures
        r is Ok <==> caller.permits(perm),
        r is Ok ==> r->Ok_0.message == message,
        r is Ok ==> metadata_values(r->Ok_0.metadata) == attached(Map::empty(), caller@),
        r is Err ==> r->Err_0.code == 403,
        r is Err ==> r->Err_0.message@ == "permission denied: "@ + perm,
{
}

/// Success is reported as such, and so is a deletion, with whether it was for good.
pub proof fn law_success_members(hard: bool)
    ensures
        success_view() is Object,
        success_view()->Object_0.len() == 1,
        success_view()->Object_0[0] == ("success"@, JsonView::Bool(true)),
        deleted_view(hard) is Object,
        deleted_view(hard)->Object_0.len() == 2,
        deleted_view(hard)->Object_0.contains(("success"@, JsonView::Bool(true))),
        deleted_view(hard)->Object_0.contains(("hard"@, JsonView::Bool(hard))),
{
    assert(deleted_view(hard)->Object_0[0] == ("success"@, JsonView::Bool(true)));
    assert(deleted_view(hard)->Object_0[1] == ("hard"@, JsonView::Bool(hard)));
}

/// A login that is complete hands out its tokens, whatever else the service sent along, and
/// makes no challenge.
pub proof fn law_complete_login_hands_out_tokens(tokens: TokenPair)
    requires
        !tokens.mfa_required,
    ensures
        token_pair_view(tokens) is Object,
        token_pair_view(tokens)->Object_0.len() == 4,
        token_pair_view(tokens)->Object_0.contains(
            ("access_token"@, JsonView::Text(tokens.access_token@)),
        ),
        token_pair_view(tokens)->Object_0.contains(
            ("refresh_token"@, JsonView::Text(tokens.refresh_token@)),
        ),
        token_pair_view(tokens)->Object_0.contains(("expires_in"@, tokens.expires_in@)),
        token_pair_view(tokens)->Object_0.contains(
            ("token_type"@, JsonView::Text(tokens.token_type@)),
        ),
        forall|i: int|
            0 <= i < token_pair_view(tokens)->Object_0.len() ==> {
                &&& (#[trigger] token_pair_view(tokens)->Object_0[i]).0 != "mfa_required"@
                &&& token_pair_view(tokens)->Object_0[i].0 != "mfa_token"@
            },
{
    let m = token_pair_view(tokens)->Object_0;
    assert(m[0] == ("access_token"@, JsonView::Text(tokens.access_token@)));
    assert(m[1] == ("refresh_token"@, JsonView::Text(tokens.refresh_token@)));
    assert(m[2] == ("expires_in"@, tokens.expires_in@));
    assert(m[3] == ("token_type"@, JsonView::Text(tokens.token_type@)));
    reveal_strlit("mfa_required");
    reveal_strlit("mfa_token");
    reveal_strlit("token_type");
    reveal_strlit("access_token");
    reveal_strlit("refresh_token");
    reveal_strlit("expires_in");
    assert("mfa_required"@[0] != "access_token"@[0]);
    assert("mfa_token"@.len() == 9 && "token_type"@.len() == 10 && "expires_in"@.len() == 10);
    assert("mfa_required"@.len() == 12 && "access_token"@.len() == 12);
    assert("refresh_token"@.len() == 13);
}

/// A login that asks for a second factor says so, and hands over the token of the challenge.
pub proof fn law_challenge_members(tokens: TokenPair)
    requires
        tokens.mfa_required,
    ensures
        token_pair_view(tokens) is Object,
        token_pair_view(tokens)->Object_0.len() == 3,
        token_pair_view(tokens)->Object_0.contains(("mfa_required"@, JsonView::Bool(true))),
        token_pair_view(tokens)->Object_0.contains(
            ("mfa_token"@, JsonView::Text(tokens.mfa_token@)),
        ),
        token_pair_view(tokens)->Object_0.contains(
            ("token_type"@, JsonView::Text(tokens.token_type@)),
        ),
{
    let m = token_pair_view(tokens)->Object_0;
    assert(m[0] == ("mfa_required"@, JsonView::Bool(true)));
    assert(m[1] == ("mfa_token"@, JsonView::Text(tokens.mfa_token@)));
    assert(m[2] == ("token_type"@, JsonView::Text(tokens.token_type@)));
}

/// A logout passes on the bearer token of the request where it has one, and nothing else.
pub proof fn law_logout_token(headers: HeaderMap)
    ensures
        match bearer_of(header_text(headers, "authorization"@)) {
            Some(token) => bearer_or_empty(headers) == token,
            None => bearer_or_empty(headers).len() == 0,
        },
{
}

/// The outcome of a request for a mail is reported as the service reports it; the token of
/// development is shown exactly where there is one.
pub proof fn law_dev_token_members(outcome: DevTokenResponse)
    ensures
        dev_token_view(outcome) is Object,
        dev_token_view(outcome)->Object_0.contains(("success"@, JsonView::Bool(outcome.success))),
        outcome.dev_token@.len() == 0 ==> dev_token_view(outcome)->Object_0.len() == 1,
        outcome.dev_token@.len() > 0 ==> dev_token_view(outcome)->Object_0.len() == 2,
        outcome.dev_token@.len() > 0 ==> dev_token_view(outcome)->Object_0.contains(
            ("dev_token"@, JsonView::Text(outcome.dev_token@)),
        ),
{
    let m = dev_token_view(outcome)->Object_0;
    assert(m[0] == ("success"@, JsonView::Bool(outcome.success)));
    if outcome.dev_token@.len() > 0 {
        assert(m[1] == ("dev_token"@, JsonView::Text(outcome.dev_token@)));
    }
}

/// A new account is shown by its name and address.
pub proof fn law_registered_members(account: RegisterResponse)
    ensures
        registered_view(account) is Object,
        ({
            let m = registered_view(account)->Object_0;
            &&& m.len() == 2
            &&& m.contains(("user_id"@, JsonView::Text(account.user_id@)))
            &&& m.contains(("email"@, JsonView::Text(account.email@)))
        }),
{
    let m = registered_view(account)->Object_0;
    assert(m[0] == ("user_id"@, JsonView::Text(account.user_id@)));
    assert(m[1] == ("email"@, JsonView::Text(account.email@)));
}

/// An audit event is shown with all that it holds.
pub proof fn law_audit_event_members(event: AuditEvent)
    ensures
        audit_event_view(event) is Object,
        ({
            let m = audit_event_view(event)->Object_0;
            &&& m.len() == 7
            &&& m.contains(("id"@, JsonView::Text(event.id@)))
            &&& m.contains(("actor_id"@, JsonView::Text(event.actor_id@)))
            &&& m.contains(("actor_email"@, JsonView::Text(event.actor_email@)))
            &&& m.contains(("action"@, JsonView::Text(event.action@)))
            &&& m.contains(("target"@, JsonView::Text(event.target@)))
            &&& m.contains(("detail"@, JsonView::Text(event.detail@)))
            &&& m.contains(("created_at"@, event.created_at@))
        }),
{
    let m = audit_event_view(event)->Object_0;
    assert(m[0] == ("id"@, JsonView::Text(event.id@)));
    assert(m[1] == ("actor_id"@, JsonView::Text(event.actor_id@)));
    assert(m[2] == ("actor_email"@, JsonView::Text(event.actor_email@)));
    assert(m[3] == ("action"@, JsonView::Text(event.action@)));
    assert(m[4] == ("target"@, JsonView::Text(event.target@)));
    assert(m[5] == ("detail"@, JsonView::Text(event.detail@)));
    assert(m[6] == ("created_at"@, event.created_at@));
}

/// Every audit event is shown, in its place.
pub proof fn law_audit_events_are_all_shown(items: Seq<AuditEvent>)
    ensures
        audit_events_view(items) is List,
        audit_events_view(items)->List_0.len() == items.len(),
        forall|i: int|
            0 <= i < items.len() ==> audit_event_view(items[i])
                == #[trigger] audit_events_view(items)->List_0[i],
{
}

/// Callers see their name, address, roles and permissions.
pub proof fn law_own_identity_members(identity: Identity)
    ensures
        own_identity_view(identity) is Object,
        ({
            let m = own_identity_view(identity)->Object_0;
            &&& m.len() == 4
            &&& m.contains(("user_id"@, JsonView::Text(identity.user_id@)))
            &&& m.contains(("email"@, JsonView::Text(identity.email@)))
            &&& m.contains(("roles"@, text_list(texts(identity.roles@))))
            &&& m.contains(("permissions"@, text_list(texts(identity.permissions@))))
        }),
{
    let m = own_identity_view(identity)->Object_0;
    assert(m[0] == ("user_id"@, JsonView::Text(identity.user_id@)));
    assert(m[1] == ("email"@, JsonView::Text(identity.email@)));
    assert(m[2] == ("roles"@, text_list(texts(identity.roles@))));
    assert(m[3] == ("permissions"@, text_list(texts(identity.permissions@))));
}

/// The claims of a caller are its name and address.
pub proof fn law_claims_members(identity: Identity)
    ensures
        claims_view(identity) is Object,
        ({
            let m = claims_view(identity)->Object_0;
            &&& m.len() == 2
            &&& m.contains(("sub"@, JsonView::Text(identity.user_id@)))
            &&& m.contains(("email"@, JsonView::Text(identity.email@)))
        }),
{
    let m = claims_view(identity)->Object_0;
    assert(m[0] == ("sub"@, JsonView::Text(identity.user_id@)));
    assert(m[1] == ("email"@, JsonView::Text(identity.email@)));
}

/// A new client gets its name and secret.
pub proof fn law_client_members(client: RegisterClientResponse)
    ensures
        client_view(client) is Object,
        ({
            let m = client_view(client)->Object_0;
            &&& m.len() == 2
            &&& m.contains(("client_id"@, JsonView::Text(client.client_id@)))
            &&& m.contains(("client_secret"@, JsonView::Text(client.client_secret@)))
        }),
{
    let m = client_view(client)->Object_0;
    assert(m[0] == ("client_id"@, JsonView::Text(client.client_id@)));
    assert(m[1] == ("client_secret"@, JsonView::Text(client.client_secret@)));
}

/// A profile is shown with all that it holds.
pub proof fn law_profile_members(profile: Profile)
    ensures
        profile_view(profile) is Object,
        ({
            let m = profile_view(profile)->Object_0;
            &&& m.len() == 7
            &&& m.contains(("user_id"@, JsonView::Text(profile.user_id@)))
            &&& m.contains(("display_name"@, JsonView::Text(profile.display_name@)))
            &&& m.contains(("bio"@, JsonView::Text(profile.bio@)))
            &&& m.contains(("avatar_url"@, JsonView::Text(profile.avatar_url@)))
            &&& m.contains(("phone"@, JsonView::Text(profile.phone@)))
            &&& m.contains(("created_at"@, profile.created_at@))
            &&& m.contains(("updated_at"@, profile.updated_at@))
        }),
{
    let m = profile_view(profile)->Object_0;
    assert(m[0] == ("user_id"@, JsonView::Text(profile.user_id@)));
    assert(m[1] == ("display_name"@, JsonView::Text(profile.display_name@)));
    assert(m[2] == ("bio"@, JsonView::Text(profile.bio@)));
    assert(m[3] == ("avatar_url"@, JsonView::Text(profile.avatar_url@)));
    assert(m[4] == ("phone"@, JsonView::Text(profile.phone@)));
    assert(m[5] == ("created_at"@, profile.created_at@));
    assert(m[6] == ("updated_at"@, profile.updated_at@));
}

/// Every profile of a page is shown, in its place.
pub proof fn law_profiles_are_all_shown(items: Seq<Profile>)
    ensures
        profiles_view(items) is List,
        profiles_view(items)->List_0.len() == items.len(),
        forall|i: int|
            0 <= i < items.len() ==> profile_view(items[i])
                == #[trigger] profiles_view(items)->List_0[i],
{
}

/// A page of profiles shows every profile of the page in its place, by its own name, and the
/// counters as the service sent them.
pub proof fn law_profile_page_members(page: ListProfilesResponse)
    ensures
        profile_page_view(page) is Object,
        profile_page_view(page)->Object_0.len() == 4,
        profile_page_view(page)->Object_0.contains(("total"@, page.total@)),
        profile_page_view(page)->Object_0.contains(("page"@, page.page@)),
        profile_page_view(page)->Object_0.contains(("page_size"@, page.page_size@)),
        exists|shown: Seq<JsonView>|
            {
                &&& #[trigger] profile_page_view(page)->Object_0.contains(
                    ("profiles"@, JsonView::List(shown)),
                )
                &&& shown.len() == page.profiles@.len()
                &&& forall|i: int|
                    0 <= i < shown.len() ==> {
                        &&& #[trigger] shown[i] is Object
                        &&& shown[i]->Object_0.contains(
                            ("user_id"@, JsonView::Text(page.profiles@[i].user_id@)),
                        )
                        &&& shown[i] == profile_view(page.profiles@[i])
                    }
            },
{
    let m = profile_page_view(page)->Object_0;
    assert(m[1] == ("total"@, page.total@));
    assert(m[2] == ("page"@, page.page@));
    assert(m[3] == ("page_size"@, page.page_size@));
    let shown = profiles_view(page.profiles@)->List_0;
    assert(m[0] == ("profiles"@, JsonView::List(shown)));
    assert(m.contains(m[0]));
    assert(profile_page_view(page)->Object_0.contains(("profiles"@, JsonView::List(shown))));
    assert forall|i: int| 0 <= i < shown.len() implies {
        &&& #[trigger] shown[i] is Object
        &&& shown[i]->Object_0.contains(
            ("user_id"@, JsonView::Text(page.profiles@[i].user_id@)),
        )
        &&& shown[i] == profile_view(page.profiles@[i])
    } by {
        law_profile_members(page.profiles@[i]);
    }
}

/// A profile starts with what stands before the first `@` of the address, or with all of an
/// address that has none.
pub proof fn law_display_name(local: Seq<char>, domain: Seq<char>)
    requires
        !local.contains('@'),
    ensures
        display_name(local + seq!['@'] + domain) == local,
        display_name(local) == local,
{
    let email = local + seq!['@'] + domain;
    lemma_position_is(email, '@', local.len());
    assert(email.take(local.len() as int) =~= local);
    lemma_position(local, '@');
}

/// A page is asked for with what the query says; what it leaves out is zero, empty or false.
pub proof fn law_page_request(request: ListProfilesRequest, q: ListQuery)
    requires
        is_page_of(request, q),
    ensures
        q.page is Some ==> request.page == q.page->0,
        q.page is None ==> request.page == 0,
        q.page_size is Some ==> request.page_size == q.page_size->0,
        q.page_size is None ==> request.page_size == 0,
        q.query is Some ==> request.query@ == q.query->0@,
        q.query is None ==> request.query@.len() == 0,
        q.deleted is Some ==> request.deleted_only == q.deleted->0,
        q.deleted is None ==> !request.deleted_only,
{
}

/// Callers change their own profile with one permission, and those of others with another.
pub proof fn law_update_permissions()
    ensures
        update_permission(true) == "profile:write"@,
        update_permission(false) == "user:write"@,
{
}

/// A deletion is for good exactly where the query says `true`.
pub proof fn law_hard_delete(value: String)
    ensures
        is_hard(Some(value)) <==> value@ == "true"@,
        !is_hard(None),
{
}

/// A second factor is handed out with its recovery codes.
pub proof fn law_enrolment_members(factor: EnrollTotpResponse)
    ensures
        enrolment_view(factor) is Object,
        ({
            let m = enrolment_view(factor)->Object_0;
            &&& m.len() == 3
            &&& m.contains(("secret"@, JsonView::Text(factor.secret@)))
            &&& m.contains(("otpauth_uri"@, JsonView::Text(factor.otpauth_uri@)))
            &&& m.contains(("recovery_codes"@, text_list(texts(factor.recovery_codes@))))
        }),
{
    let m = enrolment_view(factor)->Object_0;
    assert(m[0] == ("secret"@, JsonView::Text(factor.secret@)));
    assert(m[1] == ("otpauth_uri"@, JsonView::Text(factor.otpauth_uri@)));
    assert(m[2] == ("recovery_codes"@, text_list(texts(factor.recovery_codes@))));
}

/// An API key is shown with all that it holds.
pub proof fn law_api_key_members(key: ApiKey)
    ensures
        api_key_view(key) is Object,
        ({
            let m = api_key_view(key)->Object_0;
            &&& m.len() == 6
            &&& m.contains(("id"@, JsonView::Text(key.id@)))
            &&& m.contains(("name"@, JsonView::Text(key.name@)))
            &&& m.contains(("scopes"@, text_list(texts(key.scopes@))))
            &&& m.contains(("created_at"@, key.created_at@))
            &&& m.contains(("expires_at"@, key.expires_at@))
            &&& m.contains(("last_used_at"@, key.last_used_at@))
        }),
{
    let m = api_key_view(key)->Object_0;
    assert(m[0] == ("id"@, JsonView::Text(key.id@)));
    assert(m[1] == ("name"@, JsonView::Text(key.name@)));
    assert(m[2] == ("scopes"@, text_list(texts(key.scopes@))));
    assert(m[3] == ("created_at"@, key.created_at@));
    assert(m[4] == ("expires_at"@, key.expires_at@));
    assert(m[5] == ("last_used_at"@, key.last_used_at@));
}

/// Every API key is shown, in its place.
pub proof fn law_api_keys_are_all_shown(items: Seq<ApiKey>)
    ensures
        api_keys_view(items) is List,
        api_keys_view(items)->List_0.len() == items.len(),
        forall|i: int|
            0 <= i < items.len() ==> api_key_view(items[i])
                == #[trigger] api_keys_view(items)->List_0[i],
{
}

/// A new API key comes with its secret; a key that the service left out is null.
pub proof fn law_new_api_key_members(made: CreateApiKeyResponse)
    ensures
        new_api_key_view(made) is Object,
        new_api_key_view(made)->Object_0.len() == 2,
        new_api_key_view(made)->Object_0.contains(("secret"@, JsonView::Text(made.secret@))),
        made.key is Some ==> new_api_key_view(made)->Object_0.contains(
            ("key"@, api_key_view(made.key->0)),
        ),
        made.key is None ==> new_api_key_view(made)->Object_0.contains(("key"@, JsonView::Null)),
{
    let m = new_api_key_view(made)->Object_0;
    assert(m[0] == ("secret"@, JsonView::Text(made.secret@)));
    assert(m[1].0 == "key"@);
    assert(m.contains(m[1]));
}

/// A permission is shown with all that it holds.
pub proof fn law_permission_members(permission: Permission)
    ensures
        permission_view(permission) is Object,
        ({
            let m = permission_view(permission)->Object_0;
            &&& m.len() == 3
            &&& m.contains(("id"@, JsonView::Text(permission.id@)))
            &&& m.contains(("name"@, JsonView::Text(permission.name@)))
            &&& m.contains(("description"@, JsonView::Text(permission.description@)))
        }),
{
    let m = permission_view(permission)->Object_0;
    assert(m[0] == ("id"@, JsonView::Text(permission.id@)));
    assert(m[1] == ("name"@, JsonView::Text(permission.name@)));
    assert(m[2] == ("description"@, JsonView::Text(permission.description@)));
}

/// Every permission is shown, in its place.
pub proof fn law_permissions_are_all_shown(items: Seq<Permission>)
    ensures
        permissions_view(items) is List,
        permissions_view(items)->List_0.len() == items.len(),
        forall|i: int|
            0 <= i < items.len() ==> permission_view(items[i])
                == #[trigger] permissions_view(items)->List_0[i],
{
}

/// A role is shown with its permissions.
pub proof fn law_role_members(role: Role)
    ensures
        role_view(role) is Object,
        ({
            let m = role_view(role)->Object_0;
            &&& m.len() == 4
            &&& m.contains(("id"@, JsonView::Text(role.id@)))
            &&& m.contains(("name"@, JsonView::Text(role.name@)))
            &&& m.contains(("description"@, JsonView::Text(role.description@)))
            &&& m.contains(("permissions"@, text_list(texts(role.permissions@))))
        }),
{
    let m = role_view(role)->Object_0;
    assert(m[0] == ("id"@, JsonView::Text(role.id@)));
    assert(m[1] == ("name"@, JsonView::Text(role.name@)));
    assert(m[2] == ("description"@, JsonView::Text(role.description@)));
    assert(m[3] == ("permissions"@, text_list(texts(role.permissions@))));
}

/// Every role is shown, in its place.
pub proof fn law_roles_are_all_shown(items: Seq<Role>)
    ensures
        roles_view(items) is List,
        roles_view(items)->List_0.len() == items.len(),
        forall|i: int|
            0 <= i < items.len() ==> role_view(items[i])
                == #[trigger] roles_view(items)->List_0[i],
{
}

/// A role that was made or changed is shown without its permissions.
pub proof fn law_bare_role_members(role: Role)
    ensures
        bare_role_view(role) is Object,
        ({
            let m = bare_role_view(role)->Object_0;
            &&& m.len() == 3
            &&& m.contains(("id"@, JsonView::Text(role.id@)))
            &&& m.contains(("name"@, JsonView::Text(role.name@)))
            &&& m.contains(("description"@, JsonView::Text(role.description@)))
        }),
{
    let m = bare_role_view(role)->Object_0;
    assert(m[0] == ("id"@, JsonView::Text(role.id@)));
    assert(m[1] == ("name"@, JsonView::Text(role.name@)));
    assert(m[2] == ("description"@, JsonView::Text(role.description@)));
}

/// An assignment to many users is reported as the service reports it.
pub proof fn law_assigned_members(outcome: AssignRoleBulkResponse)
    ensures
        assigned_view(outcome) is Object,
        ({
            let m = assigned_view(outcome)->Object_0;
            &&& m.len() == 2
            &&& m.contains(("assigned"@, outcome.assigned@))
            &&& m.contains(("failed"@, outcome.failed@))
        }),
{
    let m = assigned_view(outcome)->Object_0;
    assert(m[0] == ("assigned"@, outcome.assigned@));
    assert(m[1] == ("failed"@, outcome.failed@));
}

} // verus!
