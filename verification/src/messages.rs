//! The messages that go to and come from the services behind the gateway.
//!
//! Counters and timestamps are carried as the JSON value they have in a reply: the
//! gateway passes them on and never reads them.

use vstd::prelude::*;

use crate::json::Json;

verus! {

// Requests to the auth service.

pub struct RegisterRequest {
    pub email: String,
    pub password: String,
}

pub struct LoginRequest {
    pub email: String,
    pub password: String,
}

pub struct RefreshRequest {
    pub refresh_token: String,
}

pub struct LogoutRequest {
    pub refresh_token: String,
    pub access_token: String,
}

pub struct EmailRequest {
    pub email: String,
}

pub struct TokenRequest {
    pub token: String,
}

pub struct ResetPasswordRequest {
    pub token: String,
    pub new_password: String,
}

pub struct ListAuditEventsRequest {
    pub limit: i32,
}

pub struct RegisterClientRequest {
    pub name: String,
    pub redirect_uris: Vec<String>,
    pub scopes: Vec<String>,
    pub is_confidential: bool,
}

pub struct ListPermissionsRequest {}

pub struct DeleteUserRequest {
    pub user_id: String,
    pub hard: bool,
}

pub struct RestoreUserRequest {
    pub user_id: String,
}

pub struct LoginTotpRequest {
    pub mfa_token: String,
    pub code: String,
}

pub struct EnrollTotpRequest {}

pub struct ActivateTotpRequest {
    pub code: String,
}

pub struct DisableTotpRequest {
    pub code: String,
}

pub struct CreateApiKeyRequest {
    pub name: String,
    pub scopes: Vec<String>,
    pub ttl_seconds: i64,
}

pub struct ListApiKeysRequest {}

pub struct RevokeApiKeyRequest {
    pub id: String,
}

pub struct ListRolesRequest {}

pub struct CreateRoleRequest {
    pub name: String,
    pub description: String,
}

pub struct UpdateRoleRequest {
    pub name: String,
    pub description: String,
}

pub struct DeleteRoleRequest {
    pub name: String,
}

pub struct GrantPermissionRequest {
    pub role_name: String,
    pub permission_name: String,
}

pub struct RevokePermissionRequest {
    pub role_name: String,
    pub permission_name: String,
}

pub struct AssignRoleRequest {
    pub user_id: String,
    pub role_name: String,
}

pub struct AssignRoleBulkRequest {
    pub role_name: String,
    pub user_ids: Vec<String>,
}

pub struct RevokeRoleRequest {
    pub user_id: String,
    pub role_name: String,
}

pub struct GetClientRequest {
    pub client_id: String,
}

pub struct GetConsentRequest {
    pub user_id: String,
    pub client_id: String,
}

pub struct SaveConsentRequest {
    pub user_id: String,
    pub client_id: String,
    pub scopes: Vec<String>,
}

pub struct CreateAuthorizationCodeRequest {
    pub client_id: String,
    pub user_id: String,
    pub redirect_uri: String,
    pub scope: String,
    pub code_challenge: String,
    pub code_challenge_method: String,
    pub nonce: String,
}

pub struct ExchangeAuthorizationCodeRequest {
    pub client_id: String,
    pub client_secret: String,
    pub code: String,
    pub redirect_uri: String,
    pub code_verifier: String,
}

pub struct ValidateTokenRequest {
    pub access_token: String,
}

pub struct ValidateApiKeyRequest {
    pub api_key: String,
}

pub struct GetJwksRequest {}

// Requests to the user service.

pub struct GetProfileRequest {
    pub user_id: String,
}

pub struct CreateProfileRequest {
    pub user_id: String,
    pub display_name: String,
}

pub struct ListProfilesRequest {
    pub page: i32,
    pub page_size: i32,
    pub query: String,
    pub deleted_only: bool,
}

pub struct UpdateProfileRequest {
    pub user_id: String,
    pub display_name: Option<String>,
    pub bio: Option<String>,
    pub avatar_url: Option<String>,
    pub phone: Option<String>,
}

// Responses.

pub struct RegisterResponse {
    pub user_id: String,
    pub email: String,
}

pub struct TokenPair {
    pub access_token: String,
    pub refresh_token: String,
    pub expires_in: Json,
    pub token_type: String,
    pub mfa_required: bool,
    pub mfa_token: String,
}

pub struct DevTokenResponse {
    pub success: bool,
    pub dev_token: String,
}

pub struct AuditEvent {
    pub id: String,
    pub actor_id: String,
    pub actor_email: String,
    pub action: String,
    pub target: String,
    pub detail: String,
    pub created_at: Json,
}

pub struct RegisterClientResponse {
    pub client_id: String,
    pub client_secret: String,
}

pub struct Permission {
    pub id: String,
    pub name: String,
    pub description: String,
}

pub struct EnrollTotpResponse {
    pub secret: String,
    pub otpauth_uri: String,
    pub recovery_codes: Vec<String>,
}

pub struct ApiKey {
    pub id: String,
    pub name: String,
    pub scopes: Vec<String>,
    pub created_at: Json,
    pub expires_at: Json,
    pub last_used_at: Json,
}

pub struct CreateApiKeyResponse {
    pub secret: String,
    pub key: Option<ApiKey>,
}

pub struct Role {
    pub id: String,
    pub name: String,
    pub description: String,
    pub permissions: Vec<String>,
}

pub struct AssignRoleBulkResponse {
    pub assigned: Json,
    pub failed: Json,
}

pub struct Client {
    pub name: String,
    pub redirect_uris: Vec<String>,
}

pub struct ValidateTokenResponse {
    pub user_id: String,
    pub email: String,
    pub roles: Vec<String>,
    pub permissions: Vec<String>,
    pub tenant_id: String,
    pub project_id: String,
}

pub struct ValidateApiKeyResponse {
    pub user_id: String,
    pub email: String,
    pub scopes: Vec<String>,
}

pub struct OidcTokens {
    pub access_token: String,
    pub id_token: String,
    pub refresh_token: String,
    pub expires_in: Json,
    pub scope: String,
}

pub struct Jwk {
    pub kty: String,
    pub key_use: String,
    pub alg: String,
    pub kid: String,
    pub n: String,
    pub e: String,
}

pub struct Profile {
    pub user_id: String,
    pub display_name: String,
    pub bio: String,
    pub avatar_url: String,
    pub phone: String,
    pub created_at: Json,
    pub updated_at: Json,
}

pub struct ListProfilesResponse {
    pub profiles: Vec<Profile>,
    pub total: Json,
    pub page: Json,
    pub page_size: Json,
}

} // verus!
