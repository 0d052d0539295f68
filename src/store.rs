use vstd::prelude::*;

use crate::handlers::{
    delete_view, disposition_of, download_view, not_found_view, size_check, start_view,
    upload_view, UPLOAD_LIMIT,
};
use crate::rejection::{rejection_view, response_view, Failure};
use crate::reply::{BodyView, ReplyView, Status};

verus! {

/// What a name directly inside the storage root holds.
pub enum Node {
    File(Seq<u8>),
    Folder,
}

/// The storage root: each name directly inside it, with what it holds.
pub type Tree = Map<Seq<char>, Node>;

/// What reading `name` gives: its bytes where it is a regular file.
pub open spec fn read_of(t: Tree, name: Seq<char>) -> Option<Seq<u8>> {
    if t.contains_key(name) && t[name] is File {
        Some(t[name]->File_0)
    } else {
        None
    }
}

/// Whether a file can be created or truncated at `name`: not where a folder stands.
pub open spec fn writable(t: Tree, name: Seq<char>) -> bool {
    !(t.contains_key(name) && t[name] is Folder)
}

/// An upload of `body` under `name` on `t`: the root after it, and the response.
pub open spec fn upload(t: Tree, name: Seq<char>, body: Seq<u8>) -> (Tree, ReplyView) {
    match size_check(body.len() as int) {
        Err(f) => (t, rejection_view(f)),
        Ok(_) => {
            let written = writable(t, name);
            let after = if written {
                t.insert(name, Node::File(body))
            } else {
                t
            };
            (after, response_view(upload_view(name, written)))
        },
    }
}

/// The response to a download of `name` on `t`.
pub open spec fn download(t: Tree, name: Seq<char>) -> ReplyView {
    match start_view(name, t.contains_key(name)) {
        Some(r) => r,
        None => response_view(download_view(name, read_of(t, name))),
    }
}

/// A delete of `name` on `t`: the root after it, and the response.
pub open spec fn delete(t: Tree, name: Seq<char>) -> (Tree, ReplyView) {
    match start_view(name, t.contains_key(name)) {
        Some(r) => (t, r),
        None => {
            let removed = t[name] is File;
            let after = if removed {
                t.remove(name)
            } else {
                t
            };
            (after, response_view(delete_view(name, removed)))
        },
    }
}

/// The successful response to a download of a file holding `data`.
pub open spec fn data_view(name: Seq<char>, data: Seq<u8>) -> ReplyView {
    ReplyView {
        status: Status::Success,
        body: BodyView::Data(data),
        disposition: Some(disposition_of(name)),
    }
}

/// A download right after an upload of `body` under `name` returns `body`,
/// wherever the upload is within the size limit and no folder holds the name.
pub proof fn lemma_upload_then_download(t: Tree, name: Seq<char>, body: Seq<u8>)
    requires
        body.len() <= UPLOAD_LIMIT,
        writable(t, name),
    ensures
        download(upload(t, name, body).0, name) == data_view(name, body),
{
    let after = upload(t, name, body).0;
    assert(after == t.insert(name, Node::File(body)));
    assert(read_of(after, name) == Some(body));
}

/// Of two uploads under one name, a download afterwards returns the second body.
pub proof fn lemma_last_upload_wins(t: Tree, name: Seq<char>, first: Seq<u8>, second: Seq<u8>)
    requires
        first.len() <= UPLOAD_LIMIT,
        second.len() <= UPLOAD_LIMIT,
        writable(t, name),
    ensures
        download(upload(upload(t, name, first).0, name, second).0, name) == data_view(name, second),
{
    let mid = upload(t, name, first).0;
    assert(mid == t.insert(name, Node::File(first)));
    assert(writable(mid, name));
    lemma_upload_then_download(mid, name, second);
}

/// After an upload and a delete of `name`, a download answers "not found", and
/// so does a second delete, which changes nothing.
pub proof fn lemma_delete_hides(t: Tree, name: Seq<char>, body: Seq<u8>)
    requires
        body.len() <= UPLOAD_LIMIT,
        writable(t, name),
    ensures
        ({
            let gone = delete(upload(t, name, body).0, name).0;
            &&& download(gone, name) == not_found_view(name)
            &&& delete(gone, name) == (gone, not_found_view(name))
        }),
{
    let stored = upload(t, name, body).0;
    assert(stored == t.insert(name, Node::File(body)));
    let gone = delete(stored, name).0;
    assert(gone == stored.remove(name));
    assert(!gone.contains_key(name));
}

/// An upload over the size limit is answered with a 400-class failure and
/// leaves the storage root as it was.
pub proof fn lemma_oversized_upload(t: Tree, name: Seq<char>, body: Seq<u8>)
    requires
        body.len() > UPLOAD_LIMIT,
    ensures
        upload(t, name, body) == (t, rejection_view(Failure::PayloadTooLarge)),
        upload(t, name, body).1.status == Status::BadRequest,
{
}

} // verus!
