//! Parsing a variable's value into entries, and routing each entry to the kind of
//! admission it gets.
use vstd::prelude::*;

use crate::remote::{parsed_url, Location, LocationView};

verus! {

/// The separator of entries in a path variable on Unix-like hosts.
pub const UNIX_SEPARATOR: char = ':';

/// The separator of entries in a path variable on Windows hosts.
pub const WINDOWS_SEPARATOR: char = ';';

/// The pieces of `s` between occurrences of `d`, left to right. There is always one more
/// piece than there are separators; pieces may be empty.
pub open spec fn segments(s: Seq<char>, d: char) -> Seq<Seq<char>>
    decreases s.len(),
{
    if s.len() == 0 {
        seq![Seq::empty()]
    } else {
        let before = segments(s.drop_last(), d);
        if s.last() == d {
            before.push(Seq::empty())
        } else {
            before.update(before.len() - 1, before.last().push(s.last()))
        }
    }
}

/// Every string splits into at least one piece.
pub proof fn lemma_segments_nonempty(s: Seq<char>, d: char)
    ensures
        segments(s, d).len() >= 1,
    decreases s.len(),
{
    if s.len() > 0 {
        lemma_segments_nonempty(s.drop_last(), d);
    }
}

/// Splits `value` at every `separator`, keeping empty pieces.
pub fn split_entries(value: &str, separator: char) -> (parts: Vec<String>)
    ensures
        parts@.len() == segments(value@, separator).len(),
        forall|i: int| 0 <= i < parts@.len() ==> #[trigger] parts@[i]@ == segments(value@, separator)[i],
{
    let n = value.unicode_len();
    let mut parts: Vec<String> = Vec::new();
    let mut start: usize = 0;
    let mut i: usize = 0;
    assert(value@.take(0) =~= Seq::<char>::empty());
    while i < n
        invariant
            n == value@.len(),
            start <= i <= n,
            segments(value@.take(i as int), separator).len() == parts@.len() + 1,
            forall|k: int| 0 <= k < parts@.len() ==> #[trigger] parts@[k]@ == segments(value@.take(i as int), separator)[k],
            segments(value@.take(i as int), separator).last() == value@.subrange(start as int, i as int),
        decreases n - i,
    {
        let c = value.get_char(i);
        let ghost prefix = value@.take(i as int);
        assert(value@.take(i + 1).drop_last() =~= prefix);
        if c == separator {
            let piece = value.substring_char(start, i);
            parts.push(String::from_str(piece));
            start = i + 1;
            assert(value@.subrange(start as int, i + 1) =~= Seq::<char>::empty());
        } else {
            assert(value@.subrange(start as int, i + 1) =~= value@.subrange(start as int, i as int).push(c));
        }
        i = i + 1;
    }
    assert(value@.take(n as int) =~= value@);
    let piece = value.substring_char(start, n);
    parts.push(String::from_str(piece));
    parts
}

/// Where an entry of a path goes once classified.
pub enum Entry {
    /// A directory path, to be checked on the host before admission.
    Directory(String),
    /// A web base location, admitted as it is.
    Remote(Location),
}

/// What an entry is classified as, over plain values.
pub enum EntryView {
    Directory(Seq<char>),
    Remote(LocationView),
}

impl View for Entry {
    type V = EntryView;

    open spec fn view(&self) -> EntryView {
        match self {
            Entry::Directory(d) => EntryView::Directory(d@),
            Entry::Remote(u) => EntryView::Remote(u@),
        }
    }
}

/// An entry that parses as an `http` or `https` URL is a web base location; one that parses
/// as a `file` URL names the directory of its path; anything else is a directory path as
/// written.
pub open spec fn classify_spec(entry: Seq<char>) -> EntryView {
    match parsed_url(entry) {
        Some(v) => if v.scheme == "http"@ || v.scheme == "https"@ {
            EntryView::Remote(v)
        } else if v.scheme == "file"@ {
            EntryView::Directory(v.path)
        } else {
            EntryView::Directory(entry)
        },
        None => EntryView::Directory(entry),
    }
}

/// Classifies one entry of a path; never fails.
pub fn classify(entry: &str) -> (r: Entry)
    ensures
        r@ == classify_spec(entry@),
{
    match Location::parse(entry) {
        Some(u) => {
            let scheme = String::from_str(u.scheme());
            if scheme == String::from_str("http") || scheme == String::from_str("https") {
                Entry::Remote(u)
            } else if scheme == String::from_str("file") {
                Entry::Directory(String::from_str(u.path()))
            } else {
                Entry::Directory(String::from_str(entry))
            }
        },
        None => Entry::Directory(String::from_str(entry)),
    }
}

} // verus!
