use vstd::prelude::*;

verus! {

/// The HTTP statuses the service answers with.
#[derive(Clone, Copy, Debug, PartialEq, Eq, Structural)]
pub enum Status {
    Success,
    BadRequest,
    NotFound,
    InternalServerError,
}

/// Numeric code of a status.
pub open spec fn status_code(s: Status) -> u16 {
    match s {
        Status::Success => 200,
        Status::BadRequest => 400,
        Status::NotFound => 404,
        Status::InternalServerError => 500,
    }
}

impl Status {
    pub fn code(&self) -> (r: u16)
        ensures
            r == status_code(*self),
    {
        match self {
            Status::Success => 200,
            Status::BadRequest => 400,
            Status::NotFound => 404,
            Status::InternalServerError => 500,
        }
    }
}

/// What a response carries.
pub enum Body {
    /// Plain UTF-8 text.
    Text(String),
    /// The bytes of a stored file.
    Data(Vec<u8>),
    /// Names of stored files, sent as `{"files": [...], "count": N}`.
    Listing(Vec<String>),
}

/// A response: status, body and, for a download, the `Content-Disposition` value.
pub struct Reply {
    pub status: Status,
    pub body: Body,
    pub disposition: Option<String>,
}

pub enum BodyView {
    Text(Seq<char>),
    Data(Seq<u8>),
    Listing(Seq<Seq<char>>),
}

pub struct ReplyView {
    pub status: Status,
    pub body: BodyView,
    pub disposition: Option<Seq<char>>,
}

impl View for Body {
    type V = BodyView;

    open spec fn view(&self) -> BodyView {
        match self {
            Body::Text(t) => BodyView::Text(t@),
            Body::Data(d) => BodyView::Data(d@),
            Body::Listing(names) => BodyView::Listing(names.deep_view()),
        }
    }
}

impl View for Reply {
    type V = ReplyView;

    open spec fn view(&self) -> ReplyView {
        ReplyView {
            status: self.status,
            body: self.body@,
            disposition: match self.disposition {
                Some(d) => Some(d@),
                None => None,
            },
        }
    }
}

/// A plain-text response without a `Content-Disposition` header.
pub open spec fn text_view(status: Status, t: Seq<char>) -> ReplyView {
    ReplyView { status, body: BodyView::Text(t), disposition: None }
}

pub fn text_reply(status: Status, t: String) -> (r: Reply)
    ensures
        r@ == text_view(status, t@),
{
    Reply { status, body: Body::Text(t), disposition: None }
}

} // verus!
