//! The routes of the gateway: which endpoint stands where, and what guards it.

use vstd::prelude::*;
use vstd::string::*;

use crate::json::{single, Json, JsonView};
use crate::reply::{json_view, Reply, OK};

verus! {

/// The most bytes that the body of a request may have.
pub const MAX_BODY: usize = 1048576;

/// The HTTP methods that the gateway answers to.
#[derive(Clone, Copy, PartialEq, Eq, Structural)]
pub enum Method {
    Get,
    Post,
    Patch,
    Delete,
}

/// What a request passes before it reaches its endpoint.
#[derive(Clone, Copy, PartialEq, Eq, Structural)]
pub enum Guard {
    /// Nothing.
    Open,
    /// The rate limit of its client address.
    RateLimited,
    /// Authentication.
    Authenticated,
}

/// The endpoints of the gateway.
#[derive(Clone, Copy, PartialEq, Eq, Structural)]
pub enum Endpoint {
    Healthz,
    OpenApi,
    DocsIndex,
    DocsIndexSlash,
    DocsStyle,
    DocsBundle,
    DocsPreset,
    Discovery,
    Jwks,
    Authorize,
    AuthorizeLogin,
    AuthorizeConsent,
    Token,
    Register,
    Login,
    LoginTotp,
    Refresh,
    RequestEmailVerification,
    VerifyEmail,
    RequestPasswordReset,
    ResetPassword,
    Logout,
    GetIdentity,
    Userinfo,
    RegisterClient,
    ListPermissions,
    ListAudit,
    GetMe,
    GetUser,
    UpdateUser,
    DeleteUser,
    ListUsers,
    ListRoles,
    CreateRole,
    UpdateRole,
    DeleteRole,
    GrantPermission,
    RevokePermission,
    AssignRole,
    RevokeRole,
    AssignRoleBulk,
    RestoreUser,
    EnrollTotp,
    ActivateTotp,
    DisableTotp,
    ListApiKeys,
    CreateApiKey,
    RevokeApiKey,
}

impl Endpoint {
    /// The pattern of the paths that lead to the endpoint.
    pub open spec fn at(self) -> Seq<char> {
        match self {
            Endpoint::Healthz => "/healthz"@,
            Endpoint::OpenApi => "/openapi.yaml"@,
            Endpoint::DocsIndex => "/docs"@,
            Endpoint::DocsIndexSlash => "/docs/"@,
            Endpoint::DocsStyle => "/docs/swagger-ui.css"@,
            Endpoint::DocsBundle => "/docs/swagger-ui-bundle.js"@,
            Endpoint::DocsPreset => "/docs/swagger-ui-standalone-preset.js"@,
            Endpoint::Discovery => "/.well-known/openid-configuration"@,
            Endpoint::Jwks => "/.well-known/jwks.json"@,
            Endpoint::Authorize => "/authorize"@,
            Endpoint::AuthorizeLogin => "/authorize/login"@,
            Endpoint::AuthorizeConsent => "/authorize/consent"@,
            Endpoint::Token => "/token"@,
            Endpoint::Register => "/auth/register"@,
            Endpoint::Login => "/auth/login"@,
            Endpoint::LoginTotp => "/auth/login/totp"@,
            Endpoint::Refresh => "/auth/refresh"@,
            Endpoint::RequestEmailVerification => "/auth/verify-email/request"@,
            Endpoint::VerifyEmail => "/auth/verify-email"@,
            Endpoint::RequestPasswordReset => "/auth/password-reset/request"@,
            Endpoint::ResetPassword => "/auth/password-reset"@,
            Endpoint::Logout => "/auth/logout"@,
            Endpoint::GetIdentity => "/me"@,
            Endpoint::Userinfo => "/userinfo"@,
            Endpoint::RegisterClient => "/oauth/clients"@,
            Endpoint::ListPermissions => "/permissions"@,
            Endpoint::ListAudit => "/audit"@,
            Endpoint::GetMe => "/users/me"@,
            Endpoint::GetUser => "/users/:id"@,
            Endpoint::UpdateUser => "/users/:id"@,
            Endpoint::DeleteUser => "/users/:id"@,
            Endpoint::ListUsers => "/users"@,
            Endpoint::ListRoles => "/roles"@,
            Endpoint::CreateRole => "/roles"@,
            Endpoint::UpdateRole => "/roles/:name"@,
            Endpoint::DeleteRole => "/roles/:name"@,
            Endpoint::GrantPermission => "/roles/:name/permissions"@,
            Endpoint::RevokePermission => "/roles/:name/permissions/:perm"@,
            Endpoint::AssignRole => "/users/:id/roles"@,
            Endpoint::RevokeRole => "/users/:id/roles/:role"@,
            Endpoint::AssignRoleBulk => "/roles/:name/assignments"@,
            Endpoint::RestoreUser => "/users/:id/restore"@,
            Endpoint::EnrollTotp => "/auth/2fa/enroll"@,
            Endpoint::ActivateTotp => "/auth/2fa/activate"@,
            Endpoint::DisableTotp => "/auth/2fa/disable"@,
            Endpoint::ListApiKeys => "/api-keys"@,
            Endpoint::CreateApiKey => "/api-keys"@,
            Endpoint::RevokeApiKey => "/api-keys/:id"@,
        }
    }

    pub fn path(self) -> (r: &'static str)
        ensures
            r@ == self.at(),
    {
        match self {
            Endpoint::Healthz => "/healthz",
            Endpoint::OpenApi => "/openapi.yaml",
            Endpoint::DocsIndex => "/docs",
            Endpoint::DocsIndexSlash => "/docs/",
            Endpoint::DocsStyle => "/docs/swagger-ui.css",
            Endpoint::DocsBundle => "/docs/swagger-ui-bundle.js",
            Endpoint::DocsPreset => "/docs/swagger-ui-standalone-preset.js",
            Endpoint::Discovery => "/.well-known/openid-configuration",
            Endpoint::Jwks => "/.well-known/jwks.json",
            Endpoint::Authorize => "/authorize",
            Endpoint::AuthorizeLogin => "/authorize/login",
            Endpoint::AuthorizeConsent => "/authorize/consent",
            Endpoint::Token => "/token",
            Endpoint::Register => "/auth/register",
            Endpoint::Login => "/auth/login",
            Endpoint::LoginTotp => "/auth/login/totp",
            Endpoint::Refresh => "/auth/refresh",
            Endpoint::RequestEmailVerification => "/auth/verify-email/request",
            Endpoint::VerifyEmail => "/auth/verify-email",
            Endpoint::RequestPasswordReset => "/auth/password-reset/request",
            Endpoint::ResetPassword => "/auth/password-reset",
            Endpoint::Logout => "/auth/logout",
            Endpoint::GetIdentity => "/me",
            Endpoint::Userinfo => "/userinfo",
            Endpoint::RegisterClient => "/oauth/clients",
            Endpoint::ListPermissions => "/permissions",
            Endpoint::ListAudit => "/audit",
            Endpoint::GetMe => "/users/me",
            Endpoint::GetUser => "/users/:id",
            Endpoint::UpdateUser => "/users/:id",
            Endpoint::DeleteUser => "/users/:id",
            Endpoint::ListUsers => "/users",
            Endpoint::ListRoles => "/roles",
            Endpoint::CreateRole => "/roles",
            Endpoint::UpdateRole => "/roles/:name",
            Endpoint::DeleteRole => "/roles/:name",
            Endpoint::GrantPermission => "/roles/:name/permissions",
            Endpoint::RevokePermission => "/roles/:name/permissions/:perm",
            Endpoint::AssignRole => "/users/:id/roles",
            Endpoint::RevokeRole => "/users/:id/roles/:role",
            Endpoint::AssignRoleBulk => "/roles/:name/assignments",
            Endpoint::RestoreUser => "/users/:id/restore",
            Endpoint::EnrollTotp => "/auth/2fa/enroll",
            Endpoint::ActivateTotp => "/auth/2fa/activate",
            Endpoint::DisableTotp => "/auth/2fa/disable",
            Endpoint::ListApiKeys => "/api-keys",
            Endpoint::CreateApiKey => "/api-keys",
            Endpoint::RevokeApiKey => "/api-keys/:id",
        }
    }

    /// The method of the requests that the endpoint answers.
    pub open spec fn takes(self) -> Method {
        match self {
            Endpoint::Healthz
            | Endpoint::OpenApi
            | Endpoint::DocsIndex
            | Endpoint::DocsIndexSlash
            | Endpoint::DocsStyle
            | Endpoint::DocsBundle
            | Endpoint::DocsPreset
            | Endpoint::Discovery
            | Endpoint::Jwks
            | Endpoint::Authorize
            | Endpoint::GetIdentity
            | Endpoint::Userinfo
            | Endpoint::ListPermissions
            | Endpoint::ListAudit
            | Endpoint::GetMe
            | Endpoint::GetUser
            | Endpoint::ListUsers
            | Endpoint::ListRoles
            | Endpoint::ListApiKeys => Method::Get,
            Endpoint::UpdateUser
            | Endpoint::UpdateRole => Method::Patch,
            Endpoint::DeleteUser
            | Endpoint::DeleteRole
            | Endpoint::RevokePermission
            | Endpoint::RevokeRole
            | Endpoint::RevokeApiKey => Method::Delete,
            _ => Method::Post,
        }
    }

    pub fn method(self) -> (r: Method)
        ensures
            r == self.takes(),
    {
        match self {
            Endpoint::Healthz
            | Endpoint::OpenApi
            | Endpoint::DocsIndex
            | Endpoint::DocsIndexSlash
            | Endpoint::DocsStyle
            | Endpoint::DocsBundle
            | Endpoint::DocsPreset
            | Endpoint::Discovery
            | Endpoint::Jwks
            | Endpoint::Authorize
            | Endpoint::GetIdentity
            | Endpoint::Userinfo
            | Endpoint::ListPermissions
            | Endpoint::ListAudit
            | Endpoint::GetMe
            | Endpoint::GetUser
            | Endpoint::ListUsers
            | Endpoint::ListRoles
            | Endpoint::ListApiKeys => Method::Get,
            Endpoint::UpdateUser
            | Endpoint::UpdateRole => Method::Patch,
            Endpoint::DeleteUser
            | Endpoint::DeleteRole
            | Endpoint::RevokePermission
            | Endpoint::RevokeRole
            | Endpoint::RevokeApiKey => Method::Delete,
            _ => Method::Post,
        }
    }

    /// What a request to the endpoint passes first: whatever is neither public nor a way to
    /// sign in or recover an account is behind authentication.
    pub open spec fn behind(self) -> Guard {
        match self {
            Endpoint::Healthz
            | Endpoint::OpenApi
            | Endpoint::DocsIndex
            | Endpoint::DocsIndexSlash
            | Endpoint::DocsStyle
            | Endpoint::DocsBundle
            | Endpoint::DocsPreset
            | Endpoint::Discovery
            | Endpoint::Jwks
            | Endpoint::Authorize
            | Endpoint::AuthorizeLogin
            | Endpoint::AuthorizeConsent
            | Endpoint::Token => Guard::Open,
            Endpoint::Register
            | Endpoint::Login
            | Endpoint::LoginTotp
            | Endpoint::Refresh
            | Endpoint::RequestEmailVerification
            | Endpoint::VerifyEmail
            | Endpoint::RequestPasswordReset
            | Endpoint::ResetPassword => Guard::RateLimited,
            _ => Guard::Authenticated,
        }
    }

    pub fn guard(self) -> (r: Guard)
        ensures
            r == self.behind(),
    {
        match self {
            Endpoint::Healthz
            | Endpoint::OpenApi
            | Endpoint::DocsIndex
            | Endpoint::DocsIndexSlash
            | Endpoint::DocsStyle
            | Endpoint::DocsBundle
            | Endpoint::DocsPreset
            | Endpoint::Discovery
            | Endpoint::Jwks
            | Endpoint::Authorize
            | Endpoint::AuthorizeLogin
            | Endpoint::AuthorizeConsent
            | Endpoint::Token => Guard::Open,
            Endpoint::Register
            | Endpoint::Login
            | Endpoint::LoginTotp
            | Endpoint::Refresh
            | Endpoint::RequestEmailVerification
            | Endpoint::VerifyEmail
            | Endpoint::RequestPasswordReset
            | Endpoint::ResetPassword => Guard::RateLimited,
            _ => Guard::Authenticated,
        }
    }

    spec fn place(self) -> int {
        match self {
            Endpoint::Healthz => 0,
            Endpoint::OpenApi => 1,
            Endpoint::DocsIndex => 2,
            Endpoint::DocsIndexSlash => 3,
            Endpoint::DocsStyle => 4,
            Endpoint::DocsBundle => 5,
            Endpoint::DocsPreset => 6,
            Endpoint::Discovery => 7,
            Endpoint::Jwks => 8,
            Endpoint::Authorize => 9,
            Endpoint::AuthorizeLogin => 10,
            Endpoint::AuthorizeConsent => 11,
            Endpoint::Token => 12,
            Endpoint::Register => 13,
            Endpoint::Login => 14,
            Endpoint::LoginTotp => 15,
            Endpoint::Refresh => 16,
            Endpoint::RequestEmailVerification => 17,
            Endpoint::VerifyEmail => 18,
            Endpoint::RequestPasswordReset => 19,
            Endpoint::ResetPassword => 20,
            Endpoint::Logout => 21,
            Endpoint::GetIdentity => 22,
            Endpoint::Userinfo => 23,
            Endpoint::RegisterClient => 24,
            Endpoint::ListPermissions => 25,
            Endpoint::ListAudit => 26,
            Endpoint::GetMe => 27,
            Endpoint::GetUser => 28,
            Endpoint::UpdateUser => 29,
            Endpoint::DeleteUser => 30,
            Endpoint::ListUsers => 31,
            Endpoint::ListRoles => 32,
            Endpoint::CreateRole => 33,
            Endpoint::UpdateRole => 34,
            Endpoint::DeleteRole => 35,
            Endpoint::GrantPermission => 36,
            Endpoint::RevokePermission => 37,
            Endpoint::AssignRole => 38,
            Endpoint::RevokeRole => 39,
            Endpoint::AssignRoleBulk => 40,
            Endpoint::RestoreUser => 41,
            Endpoint::EnrollTotp => 42,
            Endpoint::ActivateTotp => 43,
            Endpoint::DisableTotp => 44,
            Endpoint::ListApiKeys => 45,
            Endpoint::CreateApiKey => 46,
            Endpoint::RevokeApiKey => 47,
        }
    }
}

/// The endpoints that are served: every one, once.
pub fn build() -> (r: Vec<Endpoint>)
    ensures
        forall|e: Endpoint| r@.contains(e),
        r@.no_duplicates(),
{
    let mut r = vec![Endpoint::Healthz];
    let mut docs = crate::docs::routes();
    r.append(&mut docs);
    let mut oidc = crate::oidc::routes();
    r.append(&mut oidc);
    let mut authorize = crate::authorize::routes();
    r.append(&mut authorize);
    let mut rest = vec![
        Endpoint::Register,
        Endpoint::Login,
        Endpoint::LoginTotp,
        Endpoint::Refresh,
        Endpoint::RequestEmailVerification,
        Endpoint::VerifyEmail,
        Endpoint::RequestPasswordReset,
        Endpoint::ResetPassword,
        Endpoint::Logout,
        Endpoint::GetIdentity,
        Endpoint::Userinfo,
        Endpoint::RegisterClient,
        Endpoint::ListPermissions,
        Endpoint::ListAudit,
        Endpoint::GetMe,
        Endpoint::GetUser,
        Endpoint::UpdateUser,
        Endpoint::DeleteUser,
        Endpoint::ListUsers,
        Endpoint::ListRoles,
        Endpoint::CreateRole,
        Endpoint::UpdateRole,
        Endpoint::DeleteRole,
        Endpoint::GrantPermission,
        Endpoint::RevokePermission,
        Endpoint::AssignRole,
        Endpoint::RevokeRole,
        Endpoint::AssignRoleBulk,
        Endpoint::RestoreUser,
        Endpoint::EnrollTotp,
        Endpoint::ActivateTotp,
        Endpoint::DisableTotp,
        Endpoint::ListApiKeys,
        Endpoint::CreateApiKey,
        Endpoint::RevokeApiKey,
    ];
    r.append(&mut rest);
    assert forall|e: Endpoint| r@.contains(e) by {
        assert(r@[e.place()] == e);
    }
    assert(forall|i: int| 0 <= i < r@.len() ==> (#[trigger] r@[i]).place() == i);
    r
}

/// What the health check answers.
pub open spec fn healthy_view() -> JsonView {
    JsonView::Object(seq![("status"@, JsonView::Text("ok"@))])
}

/// Answers the health check.
pub fn healthz() -> (r: Reply)
    ensures
        r@ == json_view(OK, healthy_view()),
{
    Reply::json(OK, single("status", Json::Text("ok".to_owned())))
}

/// No two endpoints answer the same requests: with the same method, they stand at
/// different paths.
pub proof fn law_routes_do_not_collide(a: Endpoint, b: Endpoint)
    requires
        a != b,
        a.takes() == b.takes(),
    ensures
        a.at() != b.at(),
{
    reveal_strlit("/.well-known/jwks.json");
    reveal_strlit("/.well-known/openid-configuration");
    reveal_strlit("/api-keys");
    reveal_strlit("/api-keys/:id");
    reveal_strlit("/audit");
    reveal_strlit("/auth/2fa/activate");
    reveal_strlit("/auth/2fa/disable");
    reveal_strlit("/auth/2fa/enroll");
    reveal_strlit("/auth/login");
    reveal_strlit("/auth/login/totp");
    reveal_strlit("/auth/logout");
    reveal_strlit("/auth/password-reset");
    reveal_strlit("/auth/password-reset/request");
    reveal_strlit("/auth/refresh");
    reveal_strlit("/auth/register");
    reveal_strlit("/auth/verify-email");
    reveal_strlit("/auth/verify-email/request");
    reveal_strlit("/authorize");
    reveal_strlit("/authorize/consent");
    reveal_strlit("/authorize/login");
    reveal_strlit("/docs");
    reveal_strlit("/docs/");
    reveal_strlit("/docs/swagger-ui-bundle.js");
    reveal_strlit("/docs/swagger-ui-standalone-preset.js");
    reveal_strlit("/docs/swagger-ui.css");
    reveal_strlit("/healthz");
    reveal_strlit("/me");
    reveal_strlit("/oauth/clients");
    reveal_strlit("/openapi.yaml");
    reveal_strlit("/permissions");
    reveal_strlit("/roles");
    reveal_strlit("/roles/:name");
    reveal_strlit("/roles/:name/assignments");
    reveal_strlit("/roles/:name/permissions");
    reveal_strlit("/roles/:name/permissions/:perm");
    reveal_strlit("/token");
    reveal_strlit("/userinfo");
    reveal_strlit("/users");
    reveal_strlit("/users/:id");
    reveal_strlit("/users/:id/restore");
    reveal_strlit("/users/:id/roles");
    reveal_strlit("/users/:id/roles/:role");
    reveal_strlit("/users/me");
    assert("/.well-known/jwks.json"@.len() == 22);
    assert("/.well-known/openid-configuration"@.len() == 33);
    assert("/api-keys"@.len() == 9);
    assert("/api-keys/:id"@.len() == 13);
    assert("/audit"@.len() == 6);
    assert("/auth/2fa/activate"@.len() == 18);
    assert("/auth/2fa/disable"@.len() == 17);
    assert("/auth/2fa/enroll"@.len() == 16);
    assert("/auth/login"@.len() == 11);
    assert("/auth/login/totp"@.len() == 16);
    assert("/auth/logout"@.len() == 12);
    assert("/auth/password-reset"@.len() == 20);
    assert("/auth/password-reset/request"@.len() == 28);
    assert("/auth/refresh"@.len() == 13);
    assert("/auth/register"@.len() == 14);
    assert("/auth/verify-email"@.len() == 18);
    assert("/auth/verify-email/request"@.len() == 26);
    assert("/authorize"@.len() == 10);
    assert("/authorize/consent"@.len() == 18);
    assert("/authorize/login"@.len() == 16);
    assert("/docs"@.len() == 5);
    assert("/docs/"@.len() == 6);
    assert("/docs/swagger-ui-bundle.js"@.len() == 26);
    assert("/docs/swagger-ui-standalone-preset.js"@.len() == 37);
    assert("/docs/swagger-ui.css"@.len() == 20);
    assert("/healthz"@.len() == 8);
    assert("/me"@.len() == 3);
    assert("/oauth/clients"@.len() == 14);
    assert("/openapi.yaml"@.len() == 13);
    assert("/permissions"@.len() == 12);
    assert("/roles"@.len() == 6);
    assert("/roles/:name"@.len() == 12);
    assert("/roles/:name/assignments"@.len() == 24);
    assert("/roles/:name/permissions"@.len() == 24);
    assert("/roles/:name/permissions/:perm"@.len() == 30);
    assert("/token"@.len() == 6);
    assert("/userinfo"@.len() == 9);
    assert("/users"@.len() == 6);
    assert("/users/:id"@.len() == 10);
    assert("/users/:id/restore"@.len() == 18);
    assert("/users/:id/roles"@.len() == 16);
    assert("/users/:id/roles/:role"@.len() == 22);
    assert("/users/me"@.len() == 9);
    assert("/api-keys"@[1] != "/userinfo"@[1]);
    assert("/api-keys"@[1] != "/users/me"@[1]);
    assert("/audit"@[1] != "/docs/"@[1]);
    assert("/audit"@[1] != "/roles"@[1]);
    assert("/audit"@[1] != "/users"@[1]);
    assert("/authorize"@[1] != "/users/:id"@[1]);
    assert("/docs/"@[1] != "/roles"@[1]);
    assert("/docs/"@[1] != "/users"@[1]);
    assert("/roles"@[1] != "/users"@[1]);
    assert("/userinfo"@[5] != "/users/me"@[5]);
    assert("/auth/2fa/activate"@[6] != "/auth/verify-email"@[6]);
    assert("/auth/2fa/activate"@[5] != "/authorize/consent"@[5]);
    assert("/auth/2fa/activate"@[1] != "/users/:id/restore"@[1]);
    assert("/auth/2fa/enroll"@[6] != "/auth/login/totp"@[6]);
    assert("/auth/2fa/enroll"@[5] != "/authorize/login"@[5]);
    assert("/auth/2fa/enroll"@[1] != "/users/:id/roles"@[1]);
    assert("/auth/login/totp"@[5] != "/authorize/login"@[5]);
    assert("/auth/login/totp"@[1] != "/users/:id/roles"@[1]);
    assert("/auth/register"@[1] != "/oauth/clients"@[1]);
    assert("/auth/verify-email"@[5] != "/authorize/consent"@[5]);
    assert("/auth/verify-email"@[1] != "/users/:id/restore"@[1]);
    assert("/authorize/consent"@[1] != "/users/:id/restore"@[1]);
    assert("/authorize/login"@[1] != "/users/:id/roles"@[1]);
    assert("/roles"@[1] != "/token"@[1]);
    assert("/roles/:name/assignments"@[13] != "/roles/:name/permissions"@[13]);
}

/// Each endpoint stands where callers look for it: at its path, with its method, behind its
/// guard.
pub proof fn law_endpoints_stand_in_their_places()
    ensures
        Endpoint::Healthz.at() == "/healthz"@,
        Endpoint::Healthz.takes() == Method::Get,
        Endpoint::Healthz.behind() == Guard::Open,
        Endpoint::OpenApi.at() == "/openapi.yaml"@,
        Endpoint::OpenApi.takes() == Method::Get,
        Endpoint::OpenApi.behind() == Guard::Open,
        Endpoint::DocsIndex.at() == "/docs"@,
        Endpoint::DocsIndex.takes() == Method::Get,
        Endpoint::DocsIndex.behind() == Guard::Open,
        Endpoint::DocsIndexSlash.at() == "/docs/"@,
        Endpoint::DocsIndexSlash.takes() == Method::Get,
        Endpoint::DocsIndexSlash.behind() == Guard::Open,
        Endpoint::DocsStyle.at() == "/docs/swagger-ui.css"@,
        Endpoint::DocsStyle.takes() == Method::Get,
        Endpoint::DocsStyle.behind() == Guard::Open,
        Endpoint::DocsBundle.at() == "/docs/swagger-ui-bundle.js"@,
        Endpoint::DocsBundle.takes() == Method::Get,
        Endpoint::DocsBundle.behind() == Guard::Open,
        Endpoint::DocsPreset.at() == "/docs/swagger-ui-standalone-preset.js"@,
        Endpoint::DocsPreset.takes() == Method::Get,
        Endpoint::DocsPreset.behind() == Guard::Open,
        Endpoint::Discovery.at() == "/.well-known/openid-configuration"@,
        Endpoint::Discovery.takes() == Method::Get,
        Endpoint::Discovery.behind() == Guard::Open,
        Endpoint::Jwks.at() == "/.well-known/jwks.json"@,
        Endpoint::Jwks.takes() == Method::Get,
        Endpoint::Jwks.behind() == Guard::Open,
        Endpoint::Authorize.at() == "/authorize"@,
        Endpoint::Authorize.takes() == Method::Get,
        Endpoint::Authorize.behind() == Guard::Open,
        Endpoint::AuthorizeLogin.at() == "/authorize/login"@,
        Endpoint::AuthorizeLogin.takes() == Method::Post,
        Endpoint::AuthorizeLogin.behind() == Guard::Open,
        Endpoint::AuthorizeConsent.at() == "/authorize/consent"@,
        Endpoint::AuthorizeConsent.takes() == Method::Post,
        Endpoint::AuthorizeConsent.behind() == Guard::Open,
        Endpoint::Token.at() == "/token"@,
        Endpoint::Token.takes() == Method::Post,
        Endpoint::Token.behind() == Guard::Open,
        Endpoint::Register.at() == "/auth/register"@,
        Endpoint::Register.takes() == Method::Post,
        Endpoint::Register.behind() == Guard::RateLimited,
        Endpoint::Login.at() == "/auth/login"@,
        Endpoint::Login.takes() == Method::Post,
        Endpoint::Login.behind() == Guard::RateLimited,
        Endpoint::LoginTotp.at() == "/auth/login/totp"@,
        Endpoint::LoginTotp.takes() == Method::Post,
        Endpoint::LoginTotp.behind() == Guard::RateLimited,
        Endpoint::Refresh.at() == "/auth/refresh"@,
        Endpoint::Refresh.takes() == Method::Post,
        Endpoint::Refresh.behind() == Guard::RateLimited,
        Endpoint::RequestEmailVerification.at() == "/auth/verify-email/request"@,
        Endpoint::RequestEmailVerification.takes() == Method::Post,
        Endpoint::RequestEmailVerification.behind() == Guard::RateLimited,
        Endpoint::VerifyEmail.at() == "/auth/verify-email"@,
        Endpoint::VerifyEmail.takes() == Method::Post,
        Endpoint::VerifyEmail.behind() == Guard::RateLimited,
        Endpoint::RequestPasswordReset.at() == "/auth/password-reset/request"@,
        Endpoint::RequestPasswordReset.takes() == Method::Post,
        Endpoint::RequestPasswordReset.behind() == Guard::RateLimited,
        Endpoint::ResetPassword.at() == "/auth/password-reset"@,
        Endpoint::ResetPassword.takes() == Method::Post,
        Endpoint::ResetPassword.behind() == Guard::RateLimited,
        Endpoint::Logout.at() == "/auth/logout"@,
        Endpoint::Logout.takes() == Method::Post,
        Endpoint::Logout.behind() == Guard::Authenticated,
        Endpoint::GetIdentity.at() == "/me"@,
        Endpoint::GetIdentity.takes() == Method::Get,
        Endpoint::GetIdentity.behind() == Guard::Authenticated,
        Endpoint::Userinfo.at() == "/userinfo"@,
        Endpoint::Userinfo.takes() == Method::Get,
        Endpoint::Userinfo.behind() == Guard::Authenticated,
        Endpoint::RegisterClient.at() == "/oauth/clients"@,
        Endpoint::RegisterClient.takes() == Method::Post,
        Endpoint::RegisterClient.behind() == Guard::Authenticated,
        Endpoint::ListPermissions.at() == "/permissions"@,
        Endpoint::ListPermissions.takes() == Method::Get,
        Endpoint::ListPermissions.behind() == Guard::Authenticated,
        Endpoint::ListAudit.at() == "/audit"@,
        Endpoint::ListAudit.takes() == Method::Get,
        Endpoint::ListAudit.behind() == Guard::Authenticated,
        Endpoint::GetMe.at() == "/users/me"@,
        Endpoint::GetMe.takes() == Method::Get,
        Endpoint::GetMe.behind() == Guard::Authenticated,
        Endpoint::GetUser.at() == "/users/:id"@,
        Endpoint::GetUser.takes() == Method::Get,
        Endpoint::GetUser.behind() == Guard::Authenticated,
        Endpoint::UpdateUser.at() == "/users/:id"@,
        Endpoint::UpdateUser.takes() == Method::Patch,
        Endpoint::UpdateUser.behind() == Guard::Authenticated,
        Endpoint::DeleteUser.at() == "/users/:id"@,
        Endpoint::DeleteUser.takes() == Method::Delete,
        Endpoint::DeleteUser.behind() == Guard::Authenticated,
        Endpoint::ListUsers.at() == "/users"@,
        Endpoint::ListUsers.takes() == Method::Get,
        Endpoint::ListUsers.behind() == Guard::Authenticated,
        Endpoint::ListRoles.at() == "/roles"@,
        Endpoint::ListRoles.takes() == Method::Get,
        Endpoint::ListRoles.behind() == Guard::Authenticated,
        Endpoint::CreateRole.at() == "/roles"@,
        Endpoint::CreateRole.takes() == Method::Post,
        Endpoint::CreateRole.behind() == Guard::Authenticated,
        Endpoint::UpdateRole.at() == "/roles/:name"@,
        Endpoint::UpdateRole.takes() == Method::Patch,
        Endpoint::UpdateRole.behind() == Guard::Authenticated,
        Endpoint::DeleteRole.at() == "/roles/:name"@,
        Endpoint::DeleteRole.takes() == Method::Delete,
        Endpoint::DeleteRole.behind() == Guard::Authenticated,
        Endpoint::GrantPermission.at() == "/roles/:name/permissions"@,
        Endpoint::GrantPermission.takes() == Method::Post,
        Endpoint::GrantPermission.behind() == Guard::Authenticated,
        Endpoint::RevokePermission.at() == "/roles/:name/permissions/:perm"@,
        Endpoint::RevokePermission.takes() == Method::Delete,
        Endpoint::RevokePermission.behind() == Guard::Authenticated,
        Endpoint::AssignRole.at() == "/users/:id/roles"@,
        Endpoint::AssignRole.takes() == Method::Post,
        Endpoint::AssignRole.behind() == Guard::Authenticated,
        Endpoint::RevokeRole.at() == "/users/:id/roles/:role"@,
        Endpoint::RevokeRole.takes() == Method::Delete,
        Endpoint::RevokeRole.behind() == Guard::Authenticated,
        Endpoint::AssignRoleBulk.at() == "/roles/:name/assignments"@,
        Endpoint::AssignRoleBulk.takes() == Method::Post,
        Endpoint::AssignRoleBulk.behind() == Guard::Authenticated,
        Endpoint::RestoreUser.at() == "/users/:id/restore"@,
        Endpoint::RestoreUser.takes() == Method::Post,
        Endpoint::RestoreUser.behind() == Guard::Authenticated,
        Endpoint::EnrollTotp.at() == "/auth/2fa/enroll"@,
        Endpoint::EnrollTotp.takes() == Method::Post,
        Endpoint::EnrollTotp.behind() == Guard::Authenticated,
        Endpoint::ActivateTotp.at() == "/auth/2fa/activate"@,
        Endpoint::ActivateTotp.takes() == Method::Post,
        Endpoint::ActivateTotp.behind() == Guard::Authenticated,
        Endpoint::DisableTotp.at() == "/auth/2fa/disable"@,
        Endpoint::DisableTotp.takes() == Method::Post,
        Endpoint::DisableTotp.behind() == Guard::Authenticated,
        Endpoint::ListApiKeys.at() == "/api-keys"@,
        Endpoint::ListApiKeys.takes() == Method::Get,
        Endpoint::ListApiKeys.behind() == Guard::Authenticated,
        Endpoint::CreateApiKey.at() == "/api-keys"@,
        Endpoint::CreateApiKey.takes() == Method::Post,
        Endpoint::CreateApiKey.behind() == Guard::Authenticated,
        Endpoint::RevokeApiKey.at() == "/api-keys/:id"@,
        Endpoint::RevokeApiKey.takes() == Method::Delete,
        Endpoint::RevokeApiKey.behind() == Guard::Authenticated,
{
}

/// The health check says that all is well.
pub proof fn law_healthy_members()
    ensures
        healthy_view() is Object,
        healthy_view()->Object_0.len() == 1,
        healthy_view()->Object_0[0] == ("status"@, JsonView::Text("ok"@)),
{
}

} // verus!
