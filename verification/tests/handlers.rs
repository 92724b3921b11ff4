use axum::http::{HeaderMap, HeaderValue};
use gateway::authorize::Step;
use gateway::error::{ApiResult, Code, Status};
use gateway::handlers::{
    activate_totp, assign_role, assign_role_bulk, assign_role_bulk_reply, create_api_key,
    create_api_key_reply, create_role, create_role_reply, delete_role, delete_user,
    delete_user_reply, dev_token_reply, disable_totp, enroll_totp, enroll_totp_reply,
    get_identity, get_me, get_me_found, get_user, grant_permission, hard_delete, list_api_keys,
    list_api_keys_reply, list_audit, list_audit_reply, list_permissions, list_permissions_reply,
    list_roles, list_roles_reply, list_users, list_users_reply, login, login_totp, logout,
    profile_reply, refresh, register, register_client, register_client_reply, register_reply,
    request_email_verification, request_password_reset, reset_password, restore_user,
    revoke_api_key, revoke_permission, revoke_role, success_reply, token_pair_reply, update_role,
    update_role_reply, update_user, userinfo, verify_email, AssignRoleBody, AuditQuery,
    BulkAssignBody, CodeBody, CreateApiKeyBody, CreateRoleBody, Credentials, EmailBody,
    GrantPermissionBody, ListQuery, LoginTotpBody, RefreshBody, RegisterClientBody,
    ResetPasswordBody, TokenBody, UpdateBody, UpdateRoleBody,
};
use gateway::json::Json;
use gateway::messages::{
    ApiKey, AssignRoleBulkResponse, AuditEvent, CreateApiKeyResponse, DevTokenResponse,
    EnrollTotpResponse, ListProfilesResponse, Permission, Profile, RegisterClientResponse,
    RegisterResponse, Role, TokenPair,
};
use gateway::middleware::{Call, Identity};
use gateway::reply::{Body, Reply};

fn s(text: &str) -> String {
    text.to_string()
}

fn list(texts: &[&str]) -> Vec<String> {
    texts.iter().map(|t| s(t)).collect()
}

fn caller(permissions: &[&str]) -> Identity {
    Identity {
        user_id: s("u1"),
        email: s("ann@b.c"),
        roles: list(&["admin"]),
        permissions: list(permissions),
        tenant_id: s("t1"),
        project_id: s("p1"),
    }
}

fn render(j: &Json) -> String {
    match j {
        Json::Null => s("null"),
        Json::Bool(b) => format!("{b}"),
        Json::Number(n) => format!("{n}"),
        Json::Text(t) => format!("'{t}'"),
        Json::List(items) => {
            format!("[{}]", items.iter().map(render).collect::<Vec<_>>().join(","))
        }
        Json::Object(entries) => format!(
            "{{{}}}",
            entries.iter().map(|(k, v)| format!("{k}:{}", render(v))).collect::<Vec<_>>().join(",")
        ),
    }
}

fn shown(reply: &Reply) -> (u16, String) {
    assert!(reply.headers.is_empty());
    match &reply.body {
        Body::Json(j) => (reply.status, render(j)),
        _ => panic!("not JSON"),
    }
}

fn refusal() -> Status {
    Status { code: Code::NotFound, message: s("no such user") }
}

fn is_refusal(reply: &Reply) {
    assert_eq!(shown(reply), (404, s("{error:'no such user'}")));
}

/// The message of a call that is made in the caller's name.
fn sent<R>(call: Call<R>) -> R {
    let get = |key: &str| call.metadata.get(key).map(|v| v.to_str().unwrap().to_string());
    assert_eq!(get("x-user-id"), Some(s("u1")));
    assert_eq!(get("x-user-email"), Some(s("ann@b.c")));
    assert_eq!(get("x-tenant-id"), Some(s("t1")));
    assert_eq!(get("x-project-id"), Some(s("p1")));
    assert_eq!(call.metadata.len(), 5);
    call.message
}

fn permitted<T>(r: ApiResult<T>) -> T {
    match r {
        Ok(value) => value,
        Err(e) => panic!("{}", e.message),
    }
}

fn forbidden<T>(r: ApiResult<T>, perm: &str) {
    match r {
        Err(e) => assert_eq!((e.code, e.message), (403, format!("permission denied: {perm}"))),
        Ok(_) => panic!("permitted"),
    }
}

fn credentials() -> Credentials {
    Credentials { email: s("a@b.c"), password: s("pw") }
}

#[test]
fn an_account_is_registered() {
    let q = register(credentials());
    assert_eq!((q.email.as_str(), q.password.as_str()), ("a@b.c", "pw"));
    let made = RegisterResponse { user_id: s("u1"), email: s("a@b.c") };
    assert_eq!(shown(&register_reply(Ok(made))), (201, s("{user_id:'u1',email:'a@b.c'}")));
    is_refusal(&register_reply(Err(refusal())));
}

#[test]
fn a_login_puts_the_credentials_to_the_service() {
    let q = login(credentials());
    assert_eq!((q.email.as_str(), q.password.as_str()), ("a@b.c", "pw"));
    assert_eq!(refresh(RefreshBody { refresh_token: s("rt") }).refresh_token, "rt");
    let q = login_totp(LoginTotpBody { mfa_token: s("m"), code: s("123") });
    assert_eq!((q.mfa_token.as_str(), q.code.as_str()), ("m", "123"));
}

fn tokens(mfa_required: bool) -> TokenPair {
    TokenPair {
        access_token: s("at"),
        refresh_token: s("rt"),
        expires_in: Json::Number(900),
        token_type: s("Bearer"),
        mfa_required,
        mfa_token: s("m"),
    }
}

#[test]
fn a_complete_login_hands_out_tokens() {
    assert_eq!(
        shown(&token_pair_reply(Ok(tokens(false)))),
        (
            200,
            s("{access_token:'at',refresh_token:'rt',expires_in:900,token_type:'Bearer'}")
        )
    );
    is_refusal(&token_pair_reply(Err(refusal())));
}

#[test]
fn a_challenge_holds_no_token() {
    assert_eq!(
        shown(&token_pair_reply(Ok(tokens(true)))),
        (200, s("{mfa_required:true,mfa_token:'m',token_type:'Bearer'}"))
    );
}

#[test]
fn a_logout_passes_the_access_token_on() {
    let mut headers = HeaderMap::new();
    headers.insert("authorization", HeaderValue::from_static("bearer at"));
    let q = logout(&headers, RefreshBody { refresh_token: s("rt") });
    assert_eq!((q.refresh_token.as_str(), q.access_token.as_str()), ("rt", "at"));
    let q = logout(&HeaderMap::new(), RefreshBody { refresh_token: s("rt") });
    assert_eq!((q.refresh_token.as_str(), q.access_token.as_str()), ("rt", ""));
}

#[test]
fn recovery_puts_the_request_to_the_service() {
    assert_eq!(request_email_verification(EmailBody { email: s("e") }).email, "e");
    assert_eq!(request_password_reset(EmailBody { email: s("e") }).email, "e");
    assert_eq!(verify_email(TokenBody { token: s("t") }).token, "t");
    let q = reset_password(ResetPasswordBody { token: s("t"), new_password: s("p") });
    assert_eq!((q.token.as_str(), q.new_password.as_str()), ("t", "p"));
}

#[test]
fn the_development_token_is_shown_where_there_is_one() {
    let reply = |success, dev_token: &str| {
        shown(&dev_token_reply(Ok(DevTokenResponse { success, dev_token: s(dev_token) })))
    };
    assert_eq!(reply(true, ""), (200, s("{success:true}")));
    assert_eq!(reply(false, ""), (200, s("{success:false}")));
    assert_eq!(reply(true, "t"), (200, s("{success:true,dev_token:'t'}")));
    is_refusal(&dev_token_reply(Err(refusal())));
}

#[test]
fn success_is_reported() {
    assert_eq!(shown(&success_reply(Ok(()))), (200, s("{success:true}")));
    is_refusal(&success_reply(Err(refusal())));
}

#[test]
fn the_audit_log_takes_a_permission() {
    let q = |limit| AuditQuery { limit };
    let auditor = caller(&["audit:read"]);
    assert_eq!(sent(permitted(list_audit(&auditor, q(Some(7))))).limit, 7);
    assert_eq!(sent(permitted(list_audit(&auditor, q(None)))).limit, 0);
    forbidden(list_audit(&caller(&["role:read"]), q(None)), "audit:read");
}

#[test]
fn the_audit_log_is_shown() {
    let event = |id: &str| AuditEvent {
        id: s(id),
        actor_id: s("u1"),
        actor_email: s("e"),
        action: s("a"),
        target: s("t"),
        detail: s("d"),
        created_at: Json::Number(-3),
    };
    assert_eq!(
        shown(&list_audit_reply(Ok(vec![event("1"), event("2")]))),
        (
            200,
            s("{events:[\
               {id:'1',actor_id:'u1',actor_email:'e',action:'a',target:'t',detail:'d',created_at:-3},\
               {id:'2',actor_id:'u1',actor_email:'e',action:'a',target:'t',detail:'d',created_at:-3}\
               ]}")
        )
    );
    assert_eq!(shown(&list_audit_reply(Ok(vec![]))), (200, s("{events:[]}")));
    is_refusal(&list_audit_reply(Err(refusal())));
}

#[test]
fn callers_see_themselves() {
    assert_eq!(
        shown(&get_identity(caller(&["x", "y"]))),
        (200, s("{user_id:'u1',email:'ann@b.c',roles:['admin'],permissions:['x','y']}"))
    );
    assert_eq!(shown(&userinfo(caller(&[]))), (200, s("{sub:'u1',email:'ann@b.c'}")));
}

#[test]
fn a_client_is_registered() {
    let body = || RegisterClientBody {
        name: s("web"),
        redirect_uris: list(&["https://a"]),
        scopes: list(&["openid"]),
        confidential: true,
    };
    let q = sent(permitted(register_client(&caller(&["role:write"]), body())));
    assert_eq!(q.name, "web");
    assert_eq!(q.redirect_uris, list(&["https://a"]));
    assert_eq!(q.scopes, list(&["openid"]));
    assert!(q.is_confidential);
    forbidden(register_client(&caller(&["role:read"]), body()), "role:write");
    let made = RegisterClientResponse { client_id: s("c"), client_secret: s("x") };
    assert_eq!(
        shown(&register_client_reply(Ok(made))),
        (201, s("{client_id:'c',client_secret:'x'}"))
    );
    is_refusal(&register_client_reply(Err(refusal())));
}

fn profile(id: &str) -> Profile {
    Profile {
        user_id: s(id),
        display_name: s("Ann"),
        bio: s("b"),
        avatar_url: s("a"),
        phone: s("1"),
        created_at: Json::Number(5),
        updated_at: Json::Null,
    }
}

const ANN: &str = "{user_id:'u1',display_name:'Ann',bio:'b',avatar_url:'a',phone:'1',\
                   created_at:5,updated_at:null}";

#[test]
fn the_own_profile_is_shown() {
    let me = caller(&[]);
    assert_eq!(sent(get_me(&me)).user_id, "u1");
    match get_me_found(&me, Ok(profile("u1"))) {
        Step::Done(reply) => assert_eq!(shown(&reply), (200, s(ANN))),
        Step::Ask(_, _) => panic!("asked"),
    }
}

#[test]
fn a_missing_own_profile_is_made() {
    for (email, name) in
        [("ann@b.c", "ann"), ("a@b@c", "a"), ("ann", "ann"), ("@b.c", ""), ("", "")]
    {
        let mut me = caller(&[]);
        me.email = s(email);
        match get_me_found(&me, Err(refusal())) {
            Step::Ask((), call) => {
                assert_eq!(call.message.user_id, "u1");
                assert_eq!(call.message.display_name, name);
                assert_eq!(call.metadata.get("x-user-id").unwrap().to_str().unwrap(), "u1");
            }
            Step::Done(_) => panic!("done"),
        }
    }
    assert_eq!(shown(&profile_reply(Ok(profile("u1")))), (200, s(ANN)));
}

#[test]
fn another_failure_is_passed_on() {
    let failure = Status { code: Code::Unavailable, message: s("down") };
    match get_me_found(&caller(&[]), Err(failure)) {
        Step::Done(reply) => assert_eq!(shown(&reply), (500, s("{error:'internal error'}"))),
        Step::Ask(_, _) => panic!("asked"),
    }
}

#[test]
fn a_profile_takes_a_permission() {
    assert_eq!(sent(permitted(get_user(&caller(&["user:read"]), s("u2")))).user_id, "u2");
    forbidden(get_user(&caller(&[]), s("u1")), "user:read");
    is_refusal(&profile_reply(Err(refusal())));
}

#[test]
fn a_page_of_profiles_is_asked_for() {
    let reader = caller(&["user:read"]);
    let all = ListQuery {
        page: Some(2),
        page_size: Some(50),
        query: Some(s("an")),
        deleted: Some(true),
    };
    let q = sent(permitted(list_users(&reader, all)));
    assert_eq!((q.page, q.page_size, q.query.as_str(), q.deleted_only), (2, 50, "an", true));
    let none = || ListQuery { page: None, page_size: None, query: None, deleted: None };
    let q = sent(permitted(list_users(&reader, none())));
    assert_eq!((q.page, q.page_size, q.query.as_str(), q.deleted_only), (0, 0, "", false));
    forbidden(list_users(&caller(&[]), none()), "user:read");
}

#[test]
fn a_page_of_profiles_is_shown() {
    let page = ListProfilesResponse {
        profiles: vec![profile("u1")],
        total: Json::Number(41),
        page: Json::Number(2),
        page_size: Json::Number(20),
    };
    assert_eq!(
        shown(&list_users_reply(Ok(page))),
        (200, format!("{{profiles:[{ANN}],total:41,page:2,page_size:20}}"))
    );
    is_refusal(&list_users_reply(Err(refusal())));
}

#[test]
fn own_and_foreign_profiles_take_different_permissions() {
    let body = || UpdateBody {
        display_name: Some(s("New")),
        bio: None,
        avatar_url: Some(String::new()),
        phone: None,
    };
    let q = sent(permitted(update_user(&caller(&["profile:write"]), s("u1"), body())));
    assert_eq!(q.user_id, "u1");
    assert_eq!(q.display_name, Some(s("New")));
    assert_eq!(q.bio, None);
    assert_eq!(q.avatar_url, Some(String::new()));
    assert_eq!(q.phone, None);
    let q = sent(permitted(update_user(&caller(&["user:write"]), s("u2"), body())));
    assert_eq!(q.user_id, "u2");
    forbidden(update_user(&caller(&["user:write"]), s("u1"), body()), "profile:write");
    forbidden(update_user(&caller(&["profile:write"]), s("u2"), body()), "user:write");
}

#[test]
fn a_deletion_is_recoverable_unless_asked_otherwise() {
    assert!(hard_delete(&Some(s("true"))));
    assert!(!hard_delete(&Some(s("True"))));
    assert!(!hard_delete(&Some(s("1"))));
    assert!(!hard_delete(&None));
    let admin = caller(&["user:delete"]);
    let q = sent(permitted(delete_user(&admin, s("u2"), true)));
    assert_eq!((q.user_id.as_str(), q.hard), ("u2", true));
    assert!(!sent(permitted(delete_user(&admin, s("u2"), false))).hard);
    forbidden(delete_user(&caller(&["user:write"]), s("u2"), false), "user:delete");
    assert_eq!(shown(&delete_user_reply(true, Ok(()))), (200, s("{success:true,hard:true}")));
    assert_eq!(shown(&delete_user_reply(false, Ok(()))), (200, s("{success:true,hard:false}")));
    is_refusal(&delete_user_reply(true, Err(refusal())));
    assert_eq!(sent(permitted(restore_user(&admin, s("u2")))).user_id, "u2");
    forbidden(restore_user(&caller(&[]), s("u2")), "user:delete");
}

#[test]
fn the_second_factor_is_the_callers_own() {
    let me = caller(&[]);
    sent(enroll_totp(&me));
    assert_eq!(sent(activate_totp(&me, CodeBody { code: s("1") })).code, "1");
    assert_eq!(sent(disable_totp(&me, CodeBody { code: s("2") })).code, "2");
    let factor = EnrollTotpResponse {
        secret: s("S"),
        otpauth_uri: s("otpauth://x"),
        recovery_codes: list(&["r1", "r2"]),
    };
    assert_eq!(
        shown(&enroll_totp_reply(Ok(factor))),
        (200, s("{secret:'S',otpauth_uri:'otpauth://x',recovery_codes:['r1','r2']}"))
    );
    is_refusal(&enroll_totp_reply(Err(refusal())));
}

fn key() -> ApiKey {
    ApiKey {
        id: s("k1"),
        name: s("ci"),
        scopes: list(&["user:read"]),
        created_at: Json::Number(1),
        expires_at: Json::Number(2),
        last_used_at: Json::Number(0),
    }
}

const CI: &str =
    "{id:'k1',name:'ci',scopes:['user:read'],created_at:1,expires_at:2,last_used_at:0}";

#[test]
fn a_key_is_made_listed_and_revoked() {
    let me = caller(&[]);
    let body = CreateApiKeyBody { name: s("ci"), scopes: list(&["user:read"]), ttl_seconds: -1 };
    let q = sent(create_api_key(&me, body));
    assert_eq!((q.name.as_str(), q.ttl_seconds), ("ci", -1));
    assert_eq!(q.scopes, list(&["user:read"]));
    let made = |key| CreateApiKeyResponse { secret: s("iamk_x"), key };
    assert_eq!(
        shown(&create_api_key_reply(Ok(made(Some(key()))))),
        (201, format!("{{secret:'iamk_x',key:{CI}}}"))
    );
    assert_eq!(
        shown(&create_api_key_reply(Ok(made(None)))),
        (201, s("{secret:'iamk_x',key:null}"))
    );
    is_refusal(&create_api_key_reply(Err(refusal())));
    sent(list_api_keys(&me));
    assert_eq!(
        shown(&list_api_keys_reply(Ok(vec![key(), key()]))),
        (200, format!("{{keys:[{CI},{CI}]}}"))
    );
    is_refusal(&list_api_keys_reply(Err(refusal())));
    assert_eq!(sent(revoke_api_key(&me, s("k1"))).id, "k1");
}

#[test]
fn permissions_are_listed() {
    permitted(list_permissions(&caller(&["role:read"])));
    forbidden(list_permissions(&caller(&["role:write"])), "role:read");
    let permission = Permission { id: s("1"), name: s("user:read"), description: s("d") };
    assert_eq!(
        shown(&list_permissions_reply(Ok(vec![permission]))),
        (200, s("{permissions:[{id:'1',name:'user:read',description:'d'}]}"))
    );
    is_refusal(&list_permissions_reply(Err(refusal())));
}

fn role() -> Role {
    Role { id: s("1"), name: s("dev"), description: s("d"), permissions: list(&["x"]) }
}

#[test]
fn roles_are_listed() {
    permitted(list_roles(&caller(&["role:read"])));
    forbidden(list_roles(&caller(&[])), "role:read");
    assert_eq!(
        shown(&list_roles_reply(Ok(vec![role()]))),
        (200, s("{roles:[{id:'1',name:'dev',description:'d',permissions:['x']}]}"))
    );
    is_refusal(&list_roles_reply(Err(refusal())));
}

#[test]
fn a_role_is_made_changed_and_deleted() {
    let admin = caller(&["role:write"]);
    let nobody = caller(&["role:read"]);
    let body = || CreateRoleBody { name: s("dev"), description: s("d") };
    let q = sent(permitted(create_role(&admin, body())));
    assert_eq!((q.name.as_str(), q.description.as_str()), ("dev", "d"));
    forbidden(create_role(&nobody, body()), "role:write");
    assert_eq!(
        shown(&create_role_reply(Ok(role()))),
        (201, s("{id:'1',name:'dev',description:'d'}"))
    );
    is_refusal(&create_role_reply(Err(refusal())));
    let body = || UpdateRoleBody { description: s("e") };
    let q = sent(permitted(update_role(&admin, s("dev"), body())));
    assert_eq!((q.name.as_str(), q.description.as_str()), ("dev", "e"));
    forbidden(update_role(&nobody, s("dev"), body()), "role:write");
    assert_eq!(
        shown(&update_role_reply(Ok(role()))),
        (200, s("{id:'1',name:'dev',description:'d'}"))
    );
    is_refusal(&update_role_reply(Err(refusal())));
    assert_eq!(sent(permitted(delete_role(&admin, s("dev")))).name, "dev");
    forbidden(delete_role(&nobody, s("dev")), "role:write");
}

#[test]
fn permissions_are_granted_and_revoked() {
    let admin = caller(&["role:write"]);
    let body = || GrantPermissionBody { permission: s("x") };
    let q = sent(permitted(grant_permission(&admin, s("dev"), body())));
    assert_eq!((q.role_name.as_str(), q.permission_name.as_str()), ("dev", "x"));
    forbidden(grant_permission(&caller(&[]), s("dev"), body()), "role:write");
    let q = sent(permitted(revoke_permission(&admin, s("dev"), s("x"))));
    assert_eq!((q.role_name.as_str(), q.permission_name.as_str()), ("dev", "x"));
    forbidden(revoke_permission(&caller(&[]), s("dev"), s("x")), "role:write");
}

#[test]
fn roles_are_assigned_and_revoked() {
    let admin = caller(&["role:assign"]);
    let nobody = caller(&["role:write"]);
    let body = || AssignRoleBody { role: s("dev") };
    let q = sent(permitted(assign_role(&admin, s("u2"), body())));
    assert_eq!((q.user_id.as_str(), q.role_name.as_str()), ("u2", "dev"));
    forbidden(assign_role(&nobody, s("u2"), body()), "role:assign");
    let body = || BulkAssignBody { user_ids: list(&["u2", "u3"]) };
    let q = sent(permitted(assign_role_bulk(&admin, s("dev"), body())));
    assert_eq!(q.role_name, "dev");
    assert_eq!(q.user_ids, list(&["u2", "u3"]));
    forbidden(assign_role_bulk(&nobody, s("dev"), body()), "role:assign");
    let outcome = AssignRoleBulkResponse {
        assigned: Json::Number(1),
        failed: Json::List(vec![Json::Text(s("u3"))]),
    };
    assert_eq!(
        shown(&assign_role_bulk_reply(Ok(outcome))),
        (200, s("{assigned:1,failed:['u3']}"))
    );
    is_refusal(&assign_role_bulk_reply(Err(refusal())));
    let q = sent(permitted(revoke_role(&admin, s("u2"), s("dev"))));
    assert_eq!((q.user_id.as_str(), q.role_name.as_str()), ("u2", "dev"));
    forbidden(revoke_role(&nobody, s("u2"), s("dev")), "role:assign");
}
