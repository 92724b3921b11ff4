//! Who the caller is: authentication, permissions, and how the caller's identity
//! travels to the services.

use axum::http::HeaderMap;
use tonic::metadata::MetadataMap;
use vstd::prelude::*;
use vstd::string::*;
use vstd::utf8::*;

use crate::error::{forbidden_view, ApiError, ApiErrorView, Status};
use crate::headers::{has_room, header, header_text};
use crate::messages::{
    ValidateApiKeyRequest, ValidateApiKeyResponse, ValidateTokenRequest, ValidateTokenResponse,
};
use crate::metadata::{
    empty_metadata, is_metadata_text, metadata_values, no_values, set_text, with_text,
};
use crate::reply::UNAUTHORIZED;
use crate::text::{
    has_text, join, joined, law_split_once, lemma_position, lemma_position_is, lower,
    same_ignoring_case, split_at_first, split_once, starts_with, strip_prefix, texts, trim,
    trimmed,
};

verus! {

/// The authenticated caller.
#[derive(Clone)]
pub struct Identity {
    pub user_id: String,
    pub email: String,
    pub roles: Vec<String>,
    pub permissions: Vec<String>,
    /// The tenant that the token is bound to.
    pub tenant_id: String,
    /// The project that the token is bound to; empty for the whole tenant.
    pub project_id: String,
}

/// What an identity stands for.
pub struct IdentityView {
    pub user_id: Seq<char>,
    pub email: Seq<char>,
    pub roles: Seq<Seq<char>>,
    pub permissions: Seq<Seq<char>>,
    pub tenant_id: Seq<char>,
    pub project_id: Seq<char>,
}

impl View for Identity {
    type V = IdentityView;

    open spec fn view(&self) -> IdentityView {
        IdentityView {
            user_id: self.user_id@,
            email: self.email@,
            roles: texts(self.roles@),
            permissions: texts(self.permissions@),
            tenant_id: self.tenant_id@,
            project_id: self.project_id@,
        }
    }
}

impl Identity {
    /// Whether the caller holds a permission.
    pub open spec fn permits(&self, perm: Seq<char>) -> bool {
        self@.permissions.contains(perm)
    }

    pub fn has_permission(&self, perm: &str) -> (r: bool)
        ensures
            r == self.permits(perm@),
    {
        has_text(&self.permissions, perm)
    }

    pub fn require(&self, perm: &str) -> (r: Result<(), ApiError>)
        ensures
            match r {
                Ok(_) => self.permits(perm@),
                Err(e) => !self.permits(perm@) && e@ == forbidden_view(perm@),
            },
    {
        if self.has_permission(perm) {
            Ok(())
        } else {
            Err(ApiError::forbidden(perm))
        }
    }
}

/// The metadata after the first `n` parts of a caller's identity were attached, in their order.
pub open spec fn first_attached(
    values: Map<Seq<char>, Seq<Seq<u8>>>,
    id: IdentityView,
    n: int,
) -> Map<Seq<char>, Seq<Seq<u8>>> {
    let v1 = if n >= 1 {
        with_text(values, "x-user-id"@, id.user_id)
    } else {
        values
    };
    let v2 = if n >= 2 {
        with_text(v1, "x-user-email"@, id.email)
    } else {
        v1
    };
    let v3 = if n >= 3 {
        with_text(v2, "x-user-permissions"@, joined(id.permissions, ","@))
    } else {
        v2
    };
    let v4 = if n >= 4 {
        with_text(v3, "x-tenant-id"@, id.tenant_id)
    } else {
        v3
    };
    if n >= 5 {
        with_text(v4, "x-project-id"@, id.project_id)
    } else {
        v4
    }
}

/// The metadata after a caller's identity was attached.
pub open spec fn attached(
    values: Map<Seq<char>, Seq<Seq<u8>>>,
    id: IdentityView,
) -> Map<Seq<char>, Seq<Seq<u8>>> {
    first_attached(values, id, 5)
}

/// Attaches the caller's identity to an outgoing request, so that the services can read it.
/// Stops, and says so, at the first part that the metadata cannot take any more.
pub fn attach_identity(metadata: &mut MetadataMap, id: &Identity) -> (done: bool)
    ensures
        has_room(metadata_values(*old(metadata)), 5) ==> done,
        done ==> metadata_values(*final(metadata)) == attached(
            metadata_values(*old(metadata)),
            id@,
        ),
        !done ==> exists|n: int|
            0 <= n < 5 && metadata_values(*final(metadata)) == #[trigger] first_attached(
                metadata_values(*old(metadata)),
                id@,
                n,
            ),
{
    proof {
        reveal_strlit("x-user-id");
        reveal_strlit("x-user-email");
        reveal_strlit("x-user-permissions");
        reveal_strlit("x-tenant-id");
        reveal_strlit("x-project-id");
    }
    let ghost values = metadata_values(*metadata);
    if !set_text(metadata, "x-user-id", id.user_id.as_str()) {
        assert(metadata_values(*metadata) == first_attached(values, id@, 0));
        return false;
    }
    if !set_text(metadata, "x-user-email", id.email.as_str()) {
        assert(metadata_values(*metadata) == first_attached(values, id@, 1));
        return false;
    }
    let permissions = join(&id.permissions, ",");
    if !set_text(metadata, "x-user-permissions", permissions.as_str()) {
        assert(metadata_values(*metadata) == first_attached(values, id@, 2));
        return false;
    }
    if !set_text(metadata, "x-tenant-id", id.tenant_id.as_str()) {
        assert(metadata_values(*metadata) == first_attached(values, id@, 3));
        return false;
    }
    if !set_text(metadata, "x-project-id", id.project_id.as_str()) {
        assert(metadata_values(*metadata) == first_attached(values, id@, 4));
        return false;
    }
    true
}

/// A call to a service: its message, and the metadata that goes with it.
pub struct Call<R> {
    pub message: R,
    pub metadata: MetadataMap,
}

impl<R> Call<R> {
    /// Whether the call carries a message in the name of a caller, and nothing else.
    pub open spec fn is_for(&self, caller: IdentityView, message: R) -> bool {
        &&& self.message == message
        &&& metadata_values(self.metadata) == attached(no_values(), caller)
    }
}

/// A call in the name of the caller.
pub fn call_as<R>(caller: &Identity, message: R) -> (r: Call<R>)
    ensures
        r.is_for(caller@, message),
{
    let mut metadata = empty_metadata();
    attach_identity(&mut metadata, caller);
    Call { message, metadata }
}

/// The token in the text of an authorization header: what follows the bearer scheme.
pub open spec fn bearer_of(authorization: Option<Seq<char>>) -> Option<Seq<char>> {
    match authorization {
        Some(text) => match split_at_first(text, ' ') {
            Some((scheme, value)) => if lower(scheme) == lower("bearer"@) {
                Some(trimmed(value))
            } else {
                None
            },
            None => None,
        },
        None => None,
    }
}

/// The bearer token of a request.
pub fn bearer(headers: &HeaderMap) -> (r: Option<String>)
    ensures
        match r {
            Some(token) => bearer_of(header_text(*headers, "authorization"@)) == Some(token@),
            None => bearer_of(header_text(*headers, "authorization"@)) is None,
        },
{
    proof {
        reveal_strlit("authorization");
    }
    match header(headers, "authorization") {
        Some(text) => match split_once(text.as_str(), ' ') {
            Some((scheme, value)) => if same_ignoring_case(scheme.as_str(), "bearer") {
                Some(trim(value.as_str()))
            } else {
                None
            },
            None => None,
        },
        None => None,
    }
}

/// What a caller presents: the question to put to the auth service.
pub enum Credential {
    ApiKey(ValidateApiKeyRequest),
    AccessToken(ValidateTokenRequest),
}

/// The error of a request that is not authenticated.
pub open spec fn unauthorized_view(message: Seq<char>) -> ApiErrorView {
    ApiErrorView { code: UNAUTHORIZED, message }
}

/// Reads off a request how it is to be authenticated. Tokens that begin with `iamk_` are
/// API keys, and everything else is an access token.
pub fn auth(headers: &HeaderMap) -> (r: Result<Credential, ApiError>)
    ensures
        match (r, bearer_of(header_text(*headers, "authorization"@))) {
            (Ok(Credential::ApiKey(request)), Some(token)) => {
                &&& starts_with(token, "iamk_"@)
                &&& request.api_key@ == token
            },
            (Ok(Credential::AccessToken(request)), Some(token)) => {
                &&& !starts_with(token, "iamk_"@)
                &&& request.access_token@ == token
            },
            (Err(e), None) => e@ == unauthorized_view("missing bearer token"@),
            _ => false,
        },
{
    match bearer(headers) {
        Some(token) => if strip_prefix(token.as_str(), "iamk_").is_some() {
            Ok(Credential::ApiKey(ValidateApiKeyRequest { api_key: token }))
        } else {
            Ok(Credential::AccessToken(ValidateTokenRequest { access_token: token }))
        },
        None => Err(ApiError::new(UNAUTHORIZED, "missing bearer token".to_owned())),
    }
}

/// The identity behind an API key: its scopes act as the caller's permissions.
pub fn api_key_identity(answer: Result<ValidateApiKeyResponse, Status>) -> (r: Result<
    Identity,
    ApiError,
>)
    ensures
        match (answer, r) {
            (Ok(owner), Ok(id)) => id@ == (IdentityView {
                user_id: owner.user_id@,
                email: owner.email@,
                roles: Seq::empty(),
                permissions: texts(owner.scopes@),
                tenant_id: Seq::empty(),
                project_id: Seq::empty(),
            }),
            (Err(_), Err(e)) => e@ == unauthorized_view("invalid api key"@),
            _ => false,
        },
{
    match answer {
        Ok(owner) => {
            let id = Identity {
                user_id: owner.user_id,
                email: owner.email,
                roles: Vec::new(),
                permissions: owner.scopes,
                tenant_id: String::new(),
                project_id: String::new(),
            };
            assert(id@.roles =~= Seq::empty());
            Ok(id)
        },
        Err(_) => Err(ApiError::new(UNAUTHORIZED, "invalid api key".to_owned())),
    }
}

/// The identity behind an access token.
pub fn token_identity(answer: Result<ValidateTokenResponse, Status>) -> (r: Result<
    Identity,
    ApiError,
>)
    ensures
        match (answer, r) {
            (Ok(claims), Ok(id)) => id@ == (IdentityView {
                user_id: claims.user_id@,
                email: claims.email@,
                roles: texts(claims.roles@),
                permissions: texts(claims.permissions@),
                tenant_id: claims.tenant_id@,
                project_id: claims.project_id@,
            }),
            (Err(_), Err(e)) => e@ == unauthorized_view("invalid or expired token"@),
            _ => false,
        },
{
    match answer {
        Ok(claims) => Ok(
            Identity {
                user_id: claims.user_id,
                email: claims.email,
                roles: claims.roles,
                permissions: claims.permissions,
                tenant_id: claims.tenant_id,
                project_id: claims.project_id,
            },
        ),
        Err(_) => Err(ApiError::new(UNAUTHORIZED, "invalid or expired token".to_owned())),
    }
}

/// The identity that authentication left with a request; without one the request is refused.
pub fn authenticated_caller(found: Option<Identity>) -> (r: Result<Identity, ApiError>)
    ensures
        match (found, r) {
            (Some(id), Ok(caller)) => caller == id,
            (None, Err(e)) => e@ == unauthorized_view("unauthenticated"@),
            _ => false,
        },
{
    match found {
        Some(id) => Ok(id),
        None => Err(ApiError::new(UNAUTHORIZED, "unauthenticated".to_owned())),
    }
}

/// The services learn who the caller is: each part of the identity that can travel stands
/// alone under its key, and nothing else stands in the metadata.
pub proof fn law_identity_arrives(id: IdentityView)
    ensures
        ({
            let sent = attached(no_values(), id);
            let permissions = joined(id.permissions, ","@);
            &&& arrives(sent, "x-user-id"@, id.user_id)
            &&& arrives(sent, "x-user-email"@, id.email)
            &&& arrives(sent, "x-user-permissions"@, permissions)
            &&& arrives(sent, "x-tenant-id"@, id.tenant_id)
            &&& arrives(sent, "x-project-id"@, id.project_id)
            &&& forall|key: Seq<char>| #[trigger]
                sent.contains_key(key) ==> key == "x-user-id"@ || key == "x-user-email"@ || key
                    == "x-user-permissions"@ || key == "x-tenant-id"@ || key == "x-project-id"@
        }),
{
    reveal_strlit("x-user-id");
    reveal_strlit("x-user-email");
    reveal_strlit("x-user-permissions");
    reveal_strlit("x-tenant-id");
    reveal_strlit("x-project-id");
    assert("x-user-id"@.len() == 9 && "x-user-permissions"@.len() == 18);
    assert("x-user-email"@.len() == 12 && "x-project-id"@.len() == 12);
    assert("x-user-email"@[2] != "x-project-id"@[2]);
    assert("x-tenant-id"@.len() == 11);
}

/// Whether metadata holds a text alone under a key where the text can travel, and nothing
/// under that key where it cannot.
pub open spec fn arrives(
    sent: Map<Seq<char>, Seq<Seq<u8>>>,
    key: Seq<char>,
    text: Seq<char>,
) -> bool {
    if is_metadata_text(text) {
        sent.contains_key(key) && sent[key] == seq![encode_utf8(text)]
    } else {
        !sent.contains_key(key)
    }
}

/// An identity stands for its parts, lists in their order.
pub proof fn law_identity_view(id: Identity)
    ensures
        id@.user_id == id.user_id@,
        id@.email == id.email@,
        id@.tenant_id == id.tenant_id@,
        id@.project_id == id.project_id@,
        id@.roles.len() == id.roles@.len(),
        forall|i: int| 0 <= i < id.roles@.len() ==> #[trigger] id@.roles[i] == id.roles@[i]@,
        id@.permissions.len() == id.permissions@.len(),
        forall|i: int|
            0 <= i < id.permissions@.len() ==> #[trigger] id@.permissions[i]
                == id.permissions@[i]@,
{
}

/// A caller holds a permission exactly where it is one of those listed.
pub proof fn law_permission_is_listed(id: Identity, perm: Seq<char>)
    ensures
        id.permits(perm) <==> exists|i: int|
            0 <= i < id.permissions@.len() && (#[trigger] id.permissions@[i])@ == perm,
{
    if id.permits(perm) {
        let i = choose|i: int| 0 <= i < id@.permissions.len() && id@.permissions[i] == perm;
        assert(id.permissions@[i]@ == perm);
    }
    if exists|i: int| 0 <= i < id.permissions@.len() && (#[trigger] id.permissions@[i])@ == perm {
        let i = choose|i: int|
            0 <= i < id.permissions@.len() && (#[trigger] id.permissions@[i])@ == perm;
        assert(id@.permissions[i] == perm);
    }
}

/// Each part of an identity that can travel replaces what stood under its key, one that
/// cannot leaves it as it was, and no other key is touched.
pub proof fn law_identity_is_added(
    values: Map<Seq<char>, Seq<Seq<u8>>>,
    id: IdentityView,
    other: Seq<char>,
)
    requires
        other != "x-user-id"@,
        other != "x-user-email"@,
        other != "x-user-permissions"@,
        other != "x-tenant-id"@,
        other != "x-project-id"@,
    ensures
        ({
            let sent = attached(values, id);
            let permissions = joined(id.permissions, ","@);
            &&& is_metadata_text(id.user_id) ==> sent.contains_key("x-user-id"@)
                && sent["x-user-id"@] == seq![encode_utf8(id.user_id)]
            &&& is_metadata_text(id.email) ==> sent.contains_key("x-user-email"@)
                && sent["x-user-email"@] == seq![encode_utf8(id.email)]
            &&& is_metadata_text(permissions) ==> sent.contains_key("x-user-permissions"@)
                && sent["x-user-permissions"@] == seq![encode_utf8(permissions)]
            &&& is_metadata_text(id.tenant_id) ==> sent.contains_key("x-tenant-id"@)
                && sent["x-tenant-id"@] == seq![encode_utf8(id.tenant_id)]
            &&& is_metadata_text(id.project_id) ==> sent.contains_key("x-project-id"@)
                && sent["x-project-id"@] == seq![encode_utf8(id.project_id)]
            &&& !is_metadata_text(id.user_id) ==> sent.contains_key("x-user-id"@)
                == values.contains_key("x-user-id"@)
            &&& !is_metadata_text(id.email) ==> sent.contains_key("x-user-email"@)
                == values.contains_key("x-user-email"@)
            &&& !is_metadata_text(permissions) ==> sent.contains_key("x-user-permissions"@)
                == values.contains_key("x-user-permissions"@)
            &&& !is_metadata_text(id.tenant_id) ==> sent.contains_key("x-tenant-id"@)
                == values.contains_key("x-tenant-id"@)
            &&& !is_metadata_text(id.project_id) ==> sent.contains_key("x-project-id"@)
                == values.contains_key("x-project-id"@)
            &&& sent.contains_key(other) == values.contains_key(other)
            &&& values.contains_key(other) ==> sent[other] == values[other]
        }),
{
    reveal_strlit("x-user-id");
    reveal_strlit("x-user-email");
    reveal_strlit("x-user-permissions");
    reveal_strlit("x-tenant-id");
    reveal_strlit("x-project-id");
    assert("x-user-id"@.len() == 9 && "x-user-permissions"@.len() == 18);
    assert("x-user-email"@.len() == 12 && "x-project-id"@.len() == 12);
    assert("x-user-email"@[2] != "x-project-id"@[2]);
    assert("x-tenant-id"@.len() == 11);
}

/// A call in a caller's name carries the message as it is, and the identity of that caller
/// and nothing else.
pub proof fn law_call_is_for<R>(call: Call<R>, caller: IdentityView, message: R)
    ensures
        call.is_for(caller, message) <==> {
            &&& call.message == message
            &&& metadata_values(call.metadata) == attached(Map::empty(), caller)
        },
{
}

/// A header of the bearer scheme, in any letter case, holds the token behind the first
/// space, without white space around it; any other scheme, a header without a space, and no
/// header at all hold none.
pub proof fn law_bearer(scheme: Seq<char>, value: Seq<char>)
    requires
        !scheme.contains(' '),
    ensures
        lower(scheme) == "bearer"@ ==> bearer_of(Some(scheme + seq![' '] + value)) == Some(
            trimmed(value),
        ),
        lower(scheme) != "bearer"@ ==> bearer_of(Some(scheme + seq![' '] + value)) is None,
        bearer_of(Some(scheme)) is None,
        bearer_of(None) is None,
{
    let text = scheme + seq![' '] + value;
    law_split_once(text, ' ');
    law_split_once(scheme, ' ');
    lemma_position_is(text, ' ', scheme.len());
    assert(text.take(scheme.len() as int) =~= scheme);
    assert(text.skip(scheme.len() as int + 1) =~= value);
    lemma_position(scheme, ' ');
    reveal_strlit("bearer");
    assert(lower("bearer"@) =~= "bearer"@);
}

/// A request that is not authenticated is answered with status 401 and the reason.
pub proof fn law_unauthorized(message: Seq<char>)
    ensures
        unauthorized_view(message).code == 401,
        unauthorized_view(message).message == message,
{
}

/// The parts of an identity are attached one after the other, each under its own key.
pub proof fn law_identity_comes_in_order(values: Map<Seq<char>, Seq<Seq<u8>>>, id: IdentityView)
    ensures
        first_attached(values, id, 0) == values,
        first_attached(values, id, 1) == with_text(values, "x-user-id"@, id.user_id),
        first_attached(values, id, 2) == with_text(
            first_attached(values, id, 1),
            "x-user-email"@,
            id.email,
        ),
        first_attached(values, id, 3) == with_text(
            first_attached(values, id, 2),
            "x-user-permissions"@,
            joined(id.permissions, ","@),
        ),
        first_attached(values, id, 4) == with_text(
            first_attached(values, id, 3),
            "x-tenant-id"@,
            id.tenant_id,
        ),
        attached(values, id) == with_text(
            first_attached(values, id, 4),
            "x-project-id"@,
            id.project_id,
        ),
{
}

} // verus!
