use vstd::prelude::*;

use crate::rejection::{outcome_view, Failure};
use crate::reply::{Body, BodyView, Reply, ReplyView, Status};

verus! {

/// One entry of the storage directory, as the directory read reported it.
pub struct Entry {
    /// The entry's name; `None` where the entry could not be read or its name
    /// is not valid UTF-8.
    pub name: Option<String>,
    /// Whether the entry is a regular file.
    pub is_file: bool,
}

pub struct EntryView {
    pub name: Option<Seq<char>>,
    pub is_file: bool,
}

impl View for Entry {
    type V = EntryView;

    open spec fn view(&self) -> EntryView {
        EntryView {
            name: match self.name {
                Some(n) => Some(n@),
                None => None,
            },
            is_file: self.is_file,
        }
    }
}

/// Lexicographic order of names, character by character (the order of their
/// UTF-8 bytes).
pub open spec fn name_le(a: Seq<char>, b: Seq<char>) -> bool
    decreases a.len(),
{
    if a.len() == 0 {
        true
    } else if b.len() == 0 {
        false
    } else if a[0] != b[0] {
        (a[0] as u32) < (b[0] as u32)
    } else {
        name_le(a.drop_first(), b.drop_first())
    }
}

pub open spec fn sorted_names(s: Seq<Seq<char>>) -> bool {
    forall|i: int, j: int| 0 <= i < j < s.len() ==> name_le(#[trigger] s[i], #[trigger] s[j])
}

/// Names of the entries that are regular files with a readable name, in the
/// order of the entries.
pub open spec fn file_entries(e: Seq<EntryView>) -> Seq<Seq<char>>
    decreases e.len(),
{
    if e.len() == 0 {
        Seq::empty()
    } else {
        let rest = file_entries(e.drop_last());
        let last = e.last();
        if last.is_file && last.name is Some {
            rest.push(last.name->0)
        } else {
            rest
        }
    }
}

pub open spec fn entries_view(v: Seq<Entry>) -> Seq<EntryView> {
    v.map_values(|x: Entry| x@)
}

/// Relies on `slice::sort` on strings: a stable sort that leaves the same
/// strings in ascending order, and strings are ordered by their bytes.
#[verifier::external_body]
fn sort_strings(v: &mut Vec<String>)
    ensures
        final(v).deep_view().to_multiset() == old(v).deep_view().to_multiset(),
        sorted_names(final(v).deep_view()),
{
    v.sort()
}

/// Names of the regular files among `entries`, sorted.
pub fn file_names(entries: &Vec<Entry>) -> (r: Vec<String>)
    ensures
        r.deep_view().to_multiset() == file_entries(entries_view(entries@)).to_multiset(),
        sorted_names(r.deep_view()),
{
    let mut names: Vec<String> = Vec::new();
    let mut i: usize = 0;
    while i < entries.len()
        invariant
            i <= entries@.len(),
            names.deep_view() == file_entries(entries_view(entries@.subrange(0, i as int))),
        decreases entries@.len() - i,
    {
        let e = &entries[i];
        proof {
            let s = entries@.subrange(0, i as int + 1);
            assert(entries_view(s).drop_last() == entries_view(entries@.subrange(0, i as int)));
        }
        if e.is_file {
            match &e.name {
                Some(n) => names.push(n.clone()),
                None => {},
            }
        }
        proof {
            assert(names.deep_view() == file_entries(entries_view(entries@.subrange(0, i as int + 1))));
        }
        i = i + 1;
    }
    assert(entries@.subrange(0, entries@.len() as int) == entries@);
    sort_strings(&mut names);
    names
}

/// `names` is the sorted list of the regular files among `e`.
pub open spec fn lists(e: Seq<EntryView>, names: Seq<Seq<char>>) -> bool {
    &&& names.to_multiset() == file_entries(e).to_multiset()
    &&& sorted_names(names)
}

/// An entry that is a regular file named `n`.
pub open spec fn file_entry_named(e: EntryView, n: Seq<char>) -> bool {
    e.is_file && e.name == Some(n)
}

proof fn lemma_file_entries_contains(e: Seq<EntryView>, n: Seq<char>)
    ensures
        file_entries(e).contains(n) <==> exists|k: int|
            0 <= k < e.len() && #[trigger] file_entry_named(e[k], n),
    decreases e.len(),
{
    if e.len() > 0 {
        let init = e.drop_last();
        lemma_file_entries_contains(init, n);
        if file_entries(e).contains(n) {
            if !file_entries(init).contains(n) {
                let last = e.last();
                assert(last.is_file && last.name is Some);
                let i = choose|i: int| 0 <= i < file_entries(e).len() && file_entries(e)[i] == n;
                assert(i == file_entries(init).len());
                assert(file_entry_named(e[e.len() - 1], n));
            } else {
                let k = choose|k: int| 0 <= k < init.len() && #[trigger] file_entry_named(init[k], n);
                assert(file_entry_named(e[k], n));
            }
        }
        if exists|k: int| 0 <= k < e.len() && #[trigger] file_entry_named(e[k], n) {
            let k = choose|k: int| 0 <= k < e.len() && #[trigger] file_entry_named(e[k], n);
            if k < e.len() - 1 {
                assert(file_entry_named(init[k], n));
                let j = choose|j: int| 0 <= j < file_entries(init).len() && file_entries(init)[j] == n;
                assert(file_entries(e)[j] == n);
            } else {
                assert(file_entries(e) == file_entries(init).push(n));
                assert(file_entries(e)[file_entries(init).len() as int] == n);
            }
        }
    }
}

/// A listing holds a name exactly when some entry of the directory read is a
/// regular file of that name: a subdirectory or any other entry that is not a
/// regular file never shows in it by its own name.
pub proof fn lemma_listing_only_files(e: Seq<EntryView>, names: Seq<Seq<char>>, n: Seq<char>)
    requires
        lists(e, names),
    ensures
        names.contains(n) <==> exists|k: int|
            0 <= k < e.len() && #[trigger] file_entry_named(e[k], n),
{
    broadcast use vstd::seq_lib::to_multiset_contains;

    lemma_file_entries_contains(e, n);
    assert(names.contains(n) <==> names.to_multiset().count(n) > 0);
    assert(file_entries(e).contains(n) <==> file_entries(e).to_multiset().count(n) > 0);
}

/// `r` answers a listing of a directory read that gave `read` (`None`: the
/// read failed).
pub open spec fn list_answers(read: Option<Seq<EntryView>>, r: Result<ReplyView, Failure>) -> bool {
    match read {
        None => r == Err::<ReplyView, Failure>(Failure::FileError),
        Some(e) => match r {
            Ok(v) => v.status == Status::Success && v.disposition is None && match v.body {
                BodyView::Listing(names) => lists(e, names),
                _ => false,
            },
            Err(_) => false,
        },
    }
}

/// Answers a listing with the sorted names of the regular files that the
/// directory read found, or with a file error where the read failed.
pub fn list_files(read: Option<Vec<Entry>>) -> (r: Result<Reply, Failure>)
    ensures
        list_answers(
            match read {
                Some(e) => Some(entries_view(e@)),
                None => None,
            },
            outcome_view(r),
        ),
{
    match read {
        Some(entries) => {
            let names = file_names(&entries);
            Ok(Reply { status: Status::Success, body: Body::Listing(names), disposition: None })
        },
        None => Err(Failure::FileError),
    }
}

} // verus!
