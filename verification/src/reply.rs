//! What is sent back to the caller.

use vstd::prelude::*;
use vstd::string::*;

use crate::codec::pair_texts;
use crate::json::{Json, JsonView};

verus! {

pub const OK: u16 = 200;

pub const CREATED: u16 = 201;

pub const SEE_OTHER: u16 = 303;

pub const BAD_REQUEST: u16 = 400;

pub const UNAUTHORIZED: u16 = 401;

pub const FORBIDDEN: u16 = 403;

pub const NOT_FOUND: u16 = 404;

pub const CONFLICT: u16 = 409;

pub const TOO_MANY_REQUESTS: u16 = 429;

pub const INTERNAL_SERVER_ERROR: u16 = 500;

/// The body of a reply.
pub enum Body {
    Empty,
    Json(Json),
    Html(String),
}

/// What a body stands for.
pub enum BodyView {
    Empty,
    Json(JsonView),
    Html(Seq<char>),
}

impl View for Body {
    type V = BodyView;

    open spec fn view(&self) -> BodyView {
        match self {
            Body::Empty => BodyView::Empty,
            Body::Json(j) => BodyView::Json(j@),
            Body::Html(h) => BodyView::Html(h@),
        }
    }
}

/// A reply: its status, the headers that are set on it, and its body.
pub struct Reply {
    pub status: u16,
    pub headers: Vec<(String, String)>,
    pub body: Body,
}

/// What a reply stands for.
pub struct ReplyView {
    pub status: u16,
    pub headers: Seq<(Seq<char>, Seq<char>)>,
    pub body: BodyView,
}

impl View for Reply {
    type V = ReplyView;

    open spec fn view(&self) -> ReplyView {
        ReplyView { status: self.status, headers: pair_texts(self.headers@), body: self.body@ }
    }
}

/// A JSON reply.
pub open spec fn json_view(status: u16, body: JsonView) -> ReplyView {
    ReplyView { status, headers: Seq::empty(), body: BodyView::Json(body) }
}

/// An HTML reply.
pub open spec fn html_view(status: u16, page: Seq<char>) -> ReplyView {
    ReplyView { status, headers: Seq::empty(), body: BodyView::Html(page) }
}

/// A redirect that makes the browser get another location.
pub open spec fn redirect_view(location: Seq<char>) -> ReplyView {
    ReplyView {
        status: SEE_OTHER,
        headers: seq![("location"@, location)],
        body: BodyView::Empty,
    }
}

/// The reply with one more header.
pub open spec fn with_header_view(reply: ReplyView, name: Seq<char>, value: Seq<char>) -> ReplyView {
    ReplyView { headers: reply.headers.push((name, value)), ..reply }
}

impl Reply {
    /// Answers with a JSON body.
    pub fn json(status: u16, body: Json) -> (r: Self)
        ensures
            r@ == json_view(status, body@),
    {
        let r = Reply { status, headers: Vec::new(), body: Body::Json(body) };
        assert(r@.headers =~= Seq::empty());
        r
    }

    /// Answers with an HTML page.
    pub fn html(status: u16, page: String) -> (r: Self)
        ensures
            r@ == html_view(status, page@),
    {
        let r = Reply { status, headers: Vec::new(), body: Body::Html(page) };
        assert(r@.headers =~= Seq::empty());
        r
    }

    /// Sends the browser to another location.
    pub fn redirect(location: String) -> (r: Self)
        ensures
            r@ == redirect_view(location@),
    {
        let mut headers: Vec<(String, String)> = Vec::new();
        headers.push(("location".to_owned(), location));
        let r = Reply { status: SEE_OTHER, headers, body: Body::Empty };
        assert(r@.headers =~= seq![("location"@, location@)]);
        r
    }

    /// Adds a header.
    pub fn with_header(self, name: &str, value: String) -> (r: Self)
        ensures
            r@ == with_header_view(self@, name@, value@),
    {
        let mut headers = self.headers;
        headers.push((name.to_owned(), value));
        let r = Reply { status: self.status, headers, body: self.body };
        assert(r@.headers =~= self@.headers.push((name@, value@)));
        r
    }
}

/// A reply stands for its status, its headers in their order, and its body.
pub proof fn law_reply_view(reply: Reply, json: Json, page: String)
    ensures
        reply@.status == reply.status,
        reply@.headers.len() == reply.headers@.len(),
        forall|i: int|
            0 <= i < reply.headers@.len() ==> #[trigger] reply@.headers[i] == (
                reply.headers@[i].0@,
                reply.headers@[i].1@,
            ),
        reply@.body == reply.body@,
        Body::Empty@ == BodyView::Empty,
        Body::Json(json)@ == BodyView::Json(json@),
        Body::Html(page)@ == BodyView::Html(page@),
{
}

/// What a reply is made of is what it holds: JSON and pages come with their status and no
/// header, a redirect with status 303 and its location alone.
pub proof fn law_replies(status: u16, json: JsonView, page: Seq<char>, location: Seq<char>)
    ensures
        json_view(status, json).status == status,
        json_view(status, json).headers.len() == 0,
        json_view(status, json).body == BodyView::Json(json),
        html_view(status, page).status == status,
        html_view(status, page).headers.len() == 0,
        html_view(status, page).body == BodyView::Html(page),
        redirect_view(location).status == 303,
        redirect_view(location).headers.len() == 1,
        redirect_view(location).headers[0] == ("location"@, location),
        redirect_view(location).body is Empty,
{
}

/// A header that is added comes behind those that are there, and nothing else changes.
pub proof fn law_header_is_added(reply: ReplyView, name: Seq<char>, value: Seq<char>)
    ensures
        ({
            let r = with_header_view(reply, name, value);
            &&& r.status == reply.status
            &&& r.body == reply.body
            &&& r.headers.len() == reply.headers.len() + 1
            &&& r.headers.last() == (name, value)
            &&& forall|i: int|
                0 <= i < reply.headers.len() ==> #[trigger] r.headers[i] == reply.headers[i]
        }),
{
}

/// The statuses have the numbers that HTTP gives them.
pub proof fn law_status_numbers()
    ensures
        OK == 200,
        CREATED == 201,
        SEE_OTHER == 303,
        BAD_REQUEST == 400,
        UNAUTHORIZED == 401,
        FORBIDDEN == 403,
        NOT_FOUND == 404,
        CONFLICT == 409,
        TOO_MANY_REQUESTS == 429,
        INTERNAL_SERVER_ERROR == 500,
{
}

} // verus!
