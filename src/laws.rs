//! Properties that relate several operations of a search path.
use vstd::prelude::*;

use crate::entries::{lemma_segments_nonempty, segments};
use crate::host::{status_of, variable_value, DirectoryStatus, Host};
use crate::lookup::{
    after_listing, after_response, not_found, reachable, resume_directories, scan, searches_directories,
    searches_urls, FileType, Listing, ScanView, StepView, WaitingView,
};
use crate::remote::LocationView;
use crate::simpath::{contains_spec, empty_path, with_directory, with_entries, with_entry, with_variable, SimpathView};

verus! {

/// A directory that exists, is a directory and can be listed is, once added, contained in
/// the search path under its canonical form.
pub proof fn lemma_admitted_directory_is_contained(p: SimpathView, dir: Seq<char>, dirs: Seq<DirectoryStatus>)
    requires
        status_of(dirs, dir) is Some,
        status_of(dirs, dir)->0.exists,
        status_of(dirs, dir)->0.is_dir,
        status_of(dirs, dir)->0.readable,
        status_of(dirs, dir)->0.canonical is Some,
    ensures
        contains_spec(with_directory(p, dir, dirs), status_of(dirs, dir)->0.canonical->0@),
{
    let after = with_directory(p, dir, dirs);
    let c = status_of(dirs, dir)->0.canonical->0@;
    assert(after.directories[after.directories.len() - 1] == c);
}

/// Adding a path that does not exist changes nothing: the number of directories stays the
/// same, and a search path that did not contain the path still does not.
pub proof fn lemma_missing_directory_is_ignored(p: SimpathView, dir: Seq<char>, dirs: Seq<DirectoryStatus>)
    requires
        status_of(dirs, dir) is None || !status_of(dirs, dir)->0.exists,
        !contains_spec(p, dir),
    ensures
        with_directory(p, dir, dirs).directories.len() == p.directories.len(),
        !contains_spec(with_directory(p, dir, dirs), dir),
{
    assert(with_directory(p, dir, dirs) == p);
}

/// With directories `a` then `b` admitted, a lookup lists `a` first, and a match in `a`
/// ends it: `b` is never consulted.
pub proof fn lemma_first_directory_wins(
    p: SimpathView,
    a: Seq<char>,
    b: Seq<char>,
    dirs: Seq<DirectoryStatus>,
    name: Seq<char>,
    kind: FileType,
    listing: Listing,
)
    requires
        p.directories.len() == 0,
        status_of(dirs, a) is Some,
        status_of(dirs, a)->0.exists && status_of(dirs, a)->0.is_dir && status_of(dirs, a)->0.readable,
        status_of(dirs, a)->0.canonical is Some,
        status_of(dirs, b) is Some,
        status_of(dirs, b)->0.exists && status_of(dirs, b)->0.is_dir && status_of(dirs, b)->0.readable,
        status_of(dirs, b)->0.canonical is Some,
        searches_directories(kind),
        scan(listing.children@, name, kind) is Hit,
    ensures
        ({
            let q = with_directory(with_directory(p, a, dirs), b, dirs);
            &&& q.directories == seq![status_of(dirs, a)->0.canonical->0@, status_of(dirs, b)->0.canonical->0@]
            &&& resume_directories(q, name, kind, 0) == (
                WaitingView::Listing(0),
                StepView::List(status_of(dirs, a)->0.canonical->0@),
            )
            &&& after_listing(q, name, kind, 0, listing) == (
                WaitingView::Finished,
                StepView::Done(Ok(scan(listing.children@, name, kind)->Hit_0)),
            )
        }),
{
    let q = with_directory(with_directory(p, a, dirs), b, dirs);
    assert(q.directories =~= seq![status_of(dirs, a)->0.canonical->0@, status_of(dirs, b)->0.canonical->0@]);
}

/// A piece without the separator splits into itself alone.
pub proof fn lemma_segments_single(s: Seq<char>, d: char)
    requires
        !s.contains(d),
    ensures
        segments(s, d) == seq![s],
    decreases s.len(),
{
    if s.len() > 0 {
        assert(!s.drop_last().contains(d)) by {
            if s.drop_last().contains(d) {
                let k = choose|k: int| 0 <= k < s.drop_last().len() && s.drop_last()[k] == d;
                assert(s[k] == d);
            }
        }
        lemma_segments_single(s.drop_last(), d);
        assert(s.last() != d) by {
            assert(s[s.len() - 1] == s.last());
        }
        assert(s.drop_last().push(s.last()) =~= s);
        assert(seq![s.drop_last()].update(0, s.drop_last().push(s.last())) =~= seq![s]);
    } else {
        assert(s =~= Seq::<char>::empty());
    }
}

/// Splitting `s`, a separator and `t` gives the pieces of `s` followed by those of `t`.
pub proof fn lemma_segments_join(s: Seq<char>, d: char, t: Seq<char>)
    ensures
        segments(s.push(d) + t, d) == segments(s, d) + segments(t, d),
    decreases t.len(),
{
    lemma_segments_nonempty(s, d);
    lemma_segments_nonempty(t, d);
    if t.len() == 0 {
        assert(s.push(d) + t =~= s.push(d));
        assert(s.push(d).drop_last() =~= s);
        assert(segments(s, d) + seq![Seq::<char>::empty()] =~= segments(s, d).push(Seq::empty()));
    } else {
        let u = t.drop_last();
        let c = t.last();
        lemma_segments_join(s, d, u);
        lemma_segments_nonempty(u, d);
        assert((s.push(d) + t).drop_last() =~= s.push(d) + u);
        assert((s.push(d) + t).last() == c);
        let left = segments(s, d);
        let right = segments(u, d);
        if c == d {
            assert((left + right).push(Seq::empty()) =~= left + right.push(Seq::empty()));
        } else {
            let whole = left + right;
            assert(whole.update(whole.len() - 1, whole.last().push(c)) =~= left + right.update(
                right.len() - 1,
                right.last().push(c),
            ));
        }
    }
}

/// A variable whose value is `a`, the separator, `b`, the separator and `c`, none of the
/// three holding the separator, gives three attempts at admission: `a`, then `b`, then `c`.
pub proof fn lemma_three_entries_in_order(
    p: SimpathView,
    var: Seq<char>,
    d: char,
    host: Host,
    a: Seq<char>,
    b: Seq<char>,
    c: Seq<char>,
)
    requires
        !a.contains(d),
        !b.contains(d),
        !c.contains(d),
        variable_value(host.variables@, var) == Some(a.push(d) + b.push(d) + c),
    ensures
        segments(a.push(d) + b.push(d) + c, d) == seq![a, b, c],
        with_variable(p, var, d, host) == with_entry(
            with_entry(with_entry(p, a, host.directories@), b, host.directories@),
            c,
            host.directories@,
        ),
{
    lemma_segments_single(a, d);
    lemma_segments_single(b, d);
    lemma_segments_single(c, d);
    assert(a.push(d) + b.push(d) + c =~= a.push(d) + (b.push(d) + c));
    lemma_segments_join(b, d, c);
    lemma_segments_join(a, d, b.push(d) + c);
    let pieces = seq![a, b, c];
    assert(segments(a.push(d) + b.push(d) + c, d) =~= pieces);
    let dirs = host.directories@;
    assert(pieces.drop_last() =~= seq![a, b]);
    assert(seq![a, b].drop_last() =~= seq![a]);
    assert(seq![a].drop_last() =~= Seq::<Seq<char>>::empty());
    assert(with_entries(p, Seq::empty(), dirs) == p);
    assert(seq![a].last() == a);
    assert(seq![a, b].last() == b);
    assert(pieces.last() == c);
    assert(with_entries(p, seq![a], dirs) == with_entry(p, a, dirs));
    assert(with_entries(p, seq![a, b], dirs) == with_entry(with_entry(p, a, dirs), b, dirs));
}

/// A search path built from a variable that the host does not have is empty.
pub proof fn lemma_absent_variable_gives_empty_path(var: Seq<char>, separator: char, host: Host)
    requires
        variable_value(host.variables@, var) is None,
    ensures
        with_variable(empty_path(var, separator), var, separator, host) == empty_path(var, separator),
        empty_path(var, separator).directories.len() == 0,
        empty_path(var, separator).urls.len() == 0,
{
}

/// A lookup that finds nothing fails with "not found", naming the kind and the name asked for
/// and the search path: at once on a search path with nothing to search, after a clean miss
/// in the last directory where no web location is searched, and after the last web
/// location failed to answer.
pub proof fn lemma_nothing_found(
    p: SimpathView,
    name: Seq<char>,
    kind: FileType,
    listing: Listing,
    u: LocationView,
    code: Option<u32>,
)
    ensures
        (p.directories.len() == 0 || !searches_directories(kind)) && (p.urls.len() == 0 || !searches_urls(kind))
            ==> resume_directories(p, name, kind, 0) == (WaitingView::Finished, not_found(p, name, kind)),
        p.directories.len() > 0 && scan(listing.children@, name, kind) is Miss && listing.failure is None
            && (p.urls.len() == 0 || !searches_urls(kind)) ==> after_listing(
            p,
            name,
            kind,
            p.directories.len() - 1,
            listing,
        ) == (WaitingView::Finished, not_found(p, name, kind)),
        p.urls.len() > 0 && !reachable(code) ==> after_response(p, name, kind, p.urls.len() - 1, u, code) == (
            WaitingView::Finished,
            not_found(p, name, kind),
        ),
        not_found(p, name, kind) == StepView::Done(Err(crate::lookup::LookupErrorView::NotFound {
            file_type: kind,
            name,
            search_path: p.name,
        })),
{
}

} // verus!
