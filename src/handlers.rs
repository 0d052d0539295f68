use vstd::prelude::*;

use crate::rejection::{outcome_view, Failure};
use crate::reply::{text_reply, text_view, Body, BodyView, Reply, ReplyView, Status};
use crate::text::{concat2, concat3};

verus! {

/// Largest request body an upload accepts: 100 MiB.
pub const UPLOAD_LIMIT: u64 = 104857600;

/// Outcome of the size check on an upload whose body is `len` bytes long.
pub open spec fn size_check(len: int) -> Result<(), Failure> {
    if len <= UPLOAD_LIMIT {
        Ok(())
    } else {
        Err(Failure::PayloadTooLarge)
    }
}

/// Admits an upload body of `len` bytes, or refuses it as too large.
pub fn check_upload_size(len: u64) -> (r: Result<(), Failure>)
    ensures
        r == size_check(len as int),
{
    if len <= UPLOAD_LIMIT {
        Ok(())
    } else {
        Err(Failure::PayloadTooLarge)
    }
}

/// The next move of a handler after the existence check: answer at once, or go
/// on to the file-system operation.
pub enum Step {
    Answer(Reply),
    Proceed,
}

impl View for Step {
    type V = Option<ReplyView>;

    /// `None` stands for going on.
    open spec fn view(&self) -> Option<ReplyView> {
        match self {
            Step::Answer(r) => Some(r@),
            Step::Proceed => None,
        }
    }
}

/// Text of the response to a name that is not stored.
pub open spec fn not_found_text(name: Seq<char>) -> Seq<char> {
    "File '"@ + name + "' not found"@
}

/// Response to a name that is not stored.
pub open spec fn not_found_view(name: Seq<char>) -> ReplyView {
    text_view(Status::NotFound, not_found_text(name))
}

fn not_found(filename: &str) -> (r: Reply)
    ensures
        r@ == not_found_view(filename@),
{
    text_reply(Status::NotFound, concat3("File '", filename, "' not found"))
}

/// Result of an upload of `name`, once the write was made (`written`) or failed.
pub open spec fn upload_view(name: Seq<char>, written: bool) -> Result<ReplyView, Failure> {
    if written {
        Ok(text_view(Status::Success, "Successfully uploaded: "@ + name))
    } else {
        Err(Failure::FileError)
    }
}

/// Answers an upload of `filename` after the file was created and written,
/// or after that failed.
pub fn upload_file(filename: &str, written: bool) -> (r: Result<Reply, Failure>)
    ensures
        outcome_view(r) == upload_view(filename@, written),
{
    if written {
        Ok(text_reply(Status::Success, concat2("Successfully uploaded: ", filename)))
    } else {
        Err(Failure::FileError)
    }
}

/// A character that a header value may hold: a tab, or any character from the
/// space on other than DEL (a character past ASCII is made of bytes from 0x80 on).
pub open spec fn header_char(c: char) -> bool {
    c == '\t' || (c as u32 >= 32 && c as u32 != 127)
}

/// Text that can be sent as a header value.
pub open spec fn header_text(s: Seq<char>) -> bool {
    forall|i: int| 0 <= i < s.len() ==> #[trigger] header_char(s[i])
}

/// Relies on `http::HeaderValue::from_str` (re-exported by warp): it succeeds
/// exactly when every byte of the text is a tab, or is at least 32 and not 127.
#[verifier::external_body]
fn header_value_accepts(s: &str) -> (r: bool)
    ensures
        r == header_text(s@),
{
    warp::http::HeaderValue::from_str(s).is_ok()
}

/// The `Content-Disposition` value that names the file in a download.
pub open spec fn named_attachment(name: Seq<char>) -> Seq<char> {
    "attachment; filename=\""@ + name + "\""@
}

/// `Content-Disposition` value for a download of `name`: the file named when
/// that makes a valid header value, a bare `attachment` otherwise.
pub open spec fn disposition_of(name: Seq<char>) -> Seq<char> {
    if header_text(named_attachment(name)) {
        named_attachment(name)
    } else {
        "attachment"@
    }
}

pub fn content_disposition(filename: &str) -> (r: String)
    ensures
        r@ == disposition_of(filename@),
{
    let named = concat3("attachment; filename=\"", filename, "\"");
    if header_value_accepts(named.as_str()) {
        named
    } else {
        "attachment".to_owned()
    }
}

/// First move of a download or a delete of `name`, given whether the path exists.
pub open spec fn start_view(name: Seq<char>, exists: bool) -> Option<ReplyView> {
    if exists {
        None
    } else {
        Some(not_found_view(name))
    }
}

/// First move of a download of `filename`: answer "not found" where nothing is
/// stored under that name, else go on and read it.
pub fn download_start(filename: &str, exists: bool) -> (r: Step)
    ensures
        r@ == start_view(filename@, exists),
{
    if exists {
        Step::Proceed
    } else {
        Step::Answer(not_found(filename))
    }
}

/// Result of a download of `name` once the file was read (`Some` of its
/// bytes) or the open or the read failed (`None`).
pub open spec fn download_view(name: Seq<char>, read: Option<Seq<u8>>) -> Result<ReplyView, Failure> {
    match read {
        Some(data) => Ok(
            ReplyView {
                status: Status::Success,
                body: BodyView::Data(data),
                disposition: Some(disposition_of(name)),
            },
        ),
        None => Err(Failure::FileError),
    }
}

/// Answers a download of `filename` with the bytes that were read, or with a
/// file error where the read failed.
pub fn download_file(filename: &str, read: Option<Vec<u8>>) -> (r: Result<Reply, Failure>)
    ensures
        outcome_view(r) == download_view(
            filename@,
            match read {
                Some(d) => Some(d@),
                None => None,
            },
        ),
{
    match read {
        Some(data) => Ok(
            Reply {
                status: Status::Success,
                body: Body::Data(data),
                disposition: Some(content_disposition(filename)),
            },
        ),
        None => Err(Failure::FileError),
    }
}

/// First move of a delete of `filename`: answer "not found" where nothing is
/// stored under that name, else go on and remove it.
pub fn delete_start(filename: &str, exists: bool) -> (r: Step)
    ensures
        r@ == start_view(filename@, exists),
{
    if exists {
        Step::Proceed
    } else {
        Step::Answer(not_found(filename))
    }
}

/// Result of a delete of `name` once the removal was made or failed.
pub open spec fn delete_view(name: Seq<char>, removed: bool) -> Result<ReplyView, Failure> {
    if removed {
        Ok(text_view(Status::Success, "File '"@ + name + "' deleted successfully"@))
    } else {
        Err(Failure::FileError)
    }
}

/// Answers a delete of `filename` after the file was removed, or after that failed.
pub fn delete_file(filename: &str, removed: bool) -> (r: Result<Reply, Failure>)
    ensures
        outcome_view(r) == delete_view(filename@, removed),
{
    if removed {
        Ok(text_reply(Status::Success, concat3("File '", filename, "' deleted successfully")))
    } else {
        Err(Failure::FileError)
    }
}

} // verus!
