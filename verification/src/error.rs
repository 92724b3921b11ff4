//! The gateway's error and how the errors of the services map onto it.

use vstd::prelude::*;
use vstd::std_specs::convert::FromSpecImpl;
use vstd::string::*;

use crate::json::{single, Json, JsonView};
use crate::reply::{
    json_view, Reply, ReplyView, BAD_REQUEST, CONFLICT, FORBIDDEN, INTERNAL_SERVER_ERROR,
    NOT_FOUND, UNAUTHORIZED,
};

verus! {

/// The codes with which a gRPC call ends.
#[derive(Clone, Copy, PartialEq, Eq, Structural)]
pub enum Code {
    /// Success.
    Okay,
    Cancelled,
    Unknown,
    InvalidArgument,
    DeadlineExceeded,
    NotFound,
    AlreadyExists,
    PermissionDenied,
    ResourceExhausted,
    FailedPrecondition,
    Aborted,
    OutOfRange,
    Unimplemented,
    Internal,
    Unavailable,
    DataLoss,
    Unauthenticated,
}

/// How a service refused a call.
pub struct Status {
    pub code: Code,
    pub message: String,
}

/// An error that is sent to the caller: an HTTP status and a message.
pub struct ApiError {
    pub code: u16,
    pub message: String,
}

/// What an error stands for.
pub struct ApiErrorView {
    pub code: u16,
    pub message: Seq<char>,
}

impl View for ApiError {
    type V = ApiErrorView;

    open spec fn view(&self) -> ApiErrorView {
        ApiErrorView { code: self.code, message: self.message@ }
    }
}

pub type ApiResult<T> = Result<T, ApiError>;

/// The refusal for want of a permission.
pub open spec fn forbidden_view(perm: Seq<char>) -> ApiErrorView {
    ApiErrorView { code: FORBIDDEN, message: "permission denied: "@ + perm }
}

/// The HTTP status of a gRPC code.
pub open spec fn http_status(code: Code) -> u16 {
    match code {
        Code::InvalidArgument => BAD_REQUEST,
        Code::Unauthenticated => UNAUTHORIZED,
        Code::PermissionDenied => FORBIDDEN,
        Code::NotFound => NOT_FOUND,
        Code::AlreadyExists => CONFLICT,
        Code::FailedPrecondition => CONFLICT,
        _ => INTERNAL_SERVER_ERROR,
    }
}

/// The error for a refusal by a service: its message is passed on only with a status
/// that is meant for clients.
pub open spec fn error_of(status: Status) -> ApiErrorView {
    ApiErrorView {
        code: http_status(status.code),
        message: if http_status(status.code) == INTERNAL_SERVER_ERROR {
            "internal error"@
        } else {
            status.message@
        },
    }
}

impl ApiError {
    pub fn new(code: u16, message: String) -> (r: Self)
        ensures
            r.code == code,
            r.message == message,
    {
        ApiError { code, message }
    }

    pub fn forbidden(perm: &str) -> (r: Self)
        ensures
            r@ == forbidden_view(perm@),
    {
        let mut message = "permission denied: ".to_owned();
        message.append(perm);
        ApiError::new(FORBIDDEN, message)
    }

    pub fn bad_request(message: String) -> (r: Self)
        ensures
            r.code == BAD_REQUEST,
            r.message == message,
    {
        ApiError::new(BAD_REQUEST, message)
    }

    /// The reply that carries the error.
    pub fn into_response(self) -> (r: Reply)
        ensures
            r@ == error_reply(self@),
    {
        Reply::json(self.code, single("error", Json::Text(self.message)))
    }
}

/// The reply that carries an error.
pub open spec fn error_reply(e: ApiErrorView) -> ReplyView {
    json_view(e.code, JsonView::Object(seq![("error"@, JsonView::Text(e.message))]))
}

impl From<Status> for ApiError {
    fn from(s: Status) -> (r: Self)
        ensures
            r@ == error_of(s),
    {
        let code = match s.code {
            Code::InvalidArgument => BAD_REQUEST,
            Code::Unauthenticated => UNAUTHORIZED,
            Code::PermissionDenied => FORBIDDEN,
            Code::NotFound => NOT_FOUND,
            Code::AlreadyExists => CONFLICT,
            Code::FailedPrecondition => CONFLICT,
            _ => INTERNAL_SERVER_ERROR,
        };
        let message = if code == INTERNAL_SERVER_ERROR {
            "internal error".to_owned()
        } else {
            s.message
        };
        ApiError::new(code, message)
    }
}

impl FromSpecImpl<Status> for ApiError {
    open spec fn obeys_from_spec() -> bool {
        false
    }

    open spec fn from_spec(s: Status) -> ApiError {
        arbitrary()
    }
}

/// What went wrong inside never reaches a client: of the codes that are not meant for
/// clients, any two refusals are answered alike, whatever they say.
pub proof fn law_internal_detail_stays_inside(a: Status, b: Status)
    requires
        http_status(a.code) == INTERNAL_SERVER_ERROR,
        http_status(b.code) == INTERNAL_SERVER_ERROR,
    ensures
        error_reply(error_of(a)) == error_reply(error_of(b)),
        error_of(a).message == "internal error"@,
{
}

/// A refusal that is meant for clients reaches them with its message and a status that
/// blames the request.
pub proof fn law_client_errors_are_passed_on(s: Status)
    requires
        http_status(s.code) != INTERNAL_SERVER_ERROR,
    ensures
        error_of(s).message == s.message@,
        400 <= error_of(s).code < 500,
{
}

/// The HTTP status of each way in which a service refuses.
pub proof fn law_http_statuses()
    ensures
        http_status(Code::InvalidArgument) == 400,
        http_status(Code::Unauthenticated) == 401,
        http_status(Code::PermissionDenied) == 403,
        http_status(Code::NotFound) == 404,
        http_status(Code::AlreadyExists) == 409,
        http_status(Code::FailedPrecondition) == 409,
        http_status(Code::Okay) == 500,
        http_status(Code::Cancelled) == 500,
        http_status(Code::Unknown) == 500,
        http_status(Code::DeadlineExceeded) == 500,
        http_status(Code::ResourceExhausted) == 500,
        http_status(Code::Aborted) == 500,
        http_status(Code::OutOfRange) == 500,
        http_status(Code::Unimplemented) == 500,
        http_status(Code::Internal) == 500,
        http_status(Code::Unavailable) == 500,
        http_status(Code::DataLoss) == 500,
{
}

/// A refusal has the status of its code, and its message only where that is not 500.
pub proof fn law_refusals(s: Status)
    ensures
        error_of(s).code == http_status(s.code),
        error_of(s).code == 500 ==> error_of(s).message == "internal error"@,
        error_of(s).code != 500 ==> error_of(s).message == s.message@,
{
}

/// An error is answered with its status and its message, as the one member `error`.
pub proof fn law_error_replies(e: ApiError, perm: Seq<char>)
    ensures
        e@.code == e.code,
        e@.message == e.message@,
        error_reply(e@).status == e.code,
        error_reply(e@).headers.len() == 0,
        error_reply(e@).body is Json,
        error_reply(e@).body->Json_0 is Object,
        error_reply(e@).body->Json_0->Object_0.len() == 1,
        error_reply(e@).body->Json_0->Object_0[0] == ("error"@, JsonView::Text(e.message@)),
        forbidden_view(perm).code == 403,
        forbidden_view(perm).message == "permission denied: "@ + perm,
{
}

} // verus!
