//! The search path itself: its entries and how they are admitted.
use vstd::prelude::*;

use crate::entries::{classify, classify_spec, segments, split_entries, Entry, EntryView};
use crate::host::{admitted_form, status_of, variable_value, DirectoryStatus, Host};
use crate::remote::{parsed_url, Location, LocationView};

verus! {

/// Whether two path strings name the same path once compared component by component.
pub uninterp spec fn same_path(a: Seq<char>, b: Seq<char>) -> bool;

/// Relies on `==` of `std::path::Path`, which compares two paths by their components.
/// A path is the same path as itself.
#[verifier::external_body]
fn paths_equal(a: &str, b: &str) -> (r: bool)
    ensures
        r == same_path(a@, b@),
        a@ == b@ ==> r,
{
    std::path::Path::new(a) == std::path::Path::new(b)
}

/// An ordered collection of directories and web base locations in which names are looked up.
#[derive(Debug)]
pub struct Simpath {
    separator: char,
    name: String,
    directories: Vec<String>,
    urls: Vec<Location>,
}

/// A search path as plain values.
pub struct SimpathView {
    pub separator: char,
    pub name: Seq<char>,
    /// Canonical forms of the admitted directories, in the order of admission.
    pub directories: Seq<Seq<char>>,
    /// The admitted web base locations, in the order of admission.
    pub urls: Seq<LocationView>,
}

impl View for Simpath {
    type V = SimpathView;

    closed spec fn view(&self) -> SimpathView {
        SimpathView {
            separator: self.separator,
            name: self.name@,
            directories: self.directories@.map_values(|d: String| d@),
            urls: self.urls@.map_values(|u: Location| u@),
        }
    }
}

/// A search path with no entries.
pub open spec fn empty_path(name: Seq<char>, separator: char) -> SimpathView {
    SimpathView { separator, name, directories: Seq::empty(), urls: Seq::empty() }
}

/// `p` after an attempt to admit the directory `dir`.
pub open spec fn with_directory(p: SimpathView, dir: Seq<char>, dirs: Seq<DirectoryStatus>) -> SimpathView {
    match admitted_form(status_of(dirs, dir)) {
        Some(c) => SimpathView { directories: p.directories.push(c), ..p },
        None => p,
    }
}

/// `p` after admitting the web base location `u`.
pub open spec fn with_url(p: SimpathView, u: LocationView) -> SimpathView {
    SimpathView { urls: p.urls.push(u), ..p }
}

/// `p` after an attempt to admit `entry`, routed by its classification.
pub open spec fn with_entry(p: SimpathView, entry: Seq<char>, dirs: Seq<DirectoryStatus>) -> SimpathView {
    match classify_spec(entry) {
        EntryView::Directory(d) => with_directory(p, d, dirs),
        EntryView::Remote(u) => with_url(p, u),
    }
}

/// `p` after attempts to admit each of `entries`, first to last.
pub open spec fn with_entries(p: SimpathView, entries: Seq<Seq<char>>, dirs: Seq<DirectoryStatus>) -> SimpathView
    decreases entries.len(),
{
    if entries.len() == 0 {
        p
    } else {
        with_entry(with_entries(p, entries.drop_last(), dirs), entries.last(), dirs)
    }
}

/// `p` after admitting the entries of the variable `var`, split at `separator`; unchanged
/// where the host has no such variable.
pub open spec fn with_variable(p: SimpathView, var: Seq<char>, separator: char, host: Host) -> SimpathView {
    match variable_value(host.variables@, var) {
        Some(v) => with_entries(p, segments(v, separator), host.directories@),
        None => p,
    }
}

/// Whether two path strings are the same string, or name the same path component by component.
pub open spec fn names_same_path(a: Seq<char>, b: Seq<char>) -> bool {
    a == b || same_path(a, b)
}

/// Whether `entry` names an admitted directory, or parses as an admitted web base location.
pub open spec fn contains_spec(p: SimpathView, entry: Seq<char>) -> bool {
    (exists|i: int| 0 <= i < p.directories.len() && names_same_path(#[trigger] p.directories[i], entry))
    || match parsed_url(entry) {
        Some(v) => exists|j: int| 0 <= j < p.urls.len() && (#[trigger] p.urls[j]).text == v.text,
        None => false,
    }
}

/// What is wrong with an admitted directory when it is checked again.
#[derive(Debug, PartialEq)]
pub enum PathError {
    /// The directory no longer exists.
    DoesNotExist(String),
    /// The directory exists but cannot be listed.
    CannotRead(String),
}

pub enum PathErrorView {
    DoesNotExist(Seq<char>),
    CannotRead(Seq<char>),
}

impl View for PathError {
    type V = PathErrorView;

    open spec fn view(&self) -> PathErrorView {
        match self {
            PathError::DoesNotExist(d) => PathErrorView::DoesNotExist(d@),
            PathError::CannotRead(d) => PathErrorView::CannotRead(d@),
        }
    }
}

/// What is wrong with the admitted directory `dir` now, if anything: it is gone where the
/// host says it does not exist (or was not asked about it), and unreadable where it exists
/// but is not a directory that can be listed.
pub open spec fn violation(dir: Seq<char>, dirs: Seq<DirectoryStatus>) -> Option<PathErrorView> {
    match status_of(dirs, dir) {
        Some(st) => if !st.exists {
            Some(PathErrorView::DoesNotExist(dir))
        } else if !(st.is_dir && st.readable) {
            Some(PathErrorView::CannotRead(dir))
        } else {
            None
        },
        None => Some(PathErrorView::DoesNotExist(dir)),
    }
}

/// The violations of `dirs`, in their order.
pub open spec fn violations(entries: Seq<Seq<char>>, dirs: Seq<DirectoryStatus>) -> Seq<PathErrorView>
    decreases entries.len(),
{
    if entries.len() == 0 {
        Seq::empty()
    } else {
        let before = violations(entries.drop_last(), dirs);
        match violation(entries.last(), dirs) {
            Some(e) => before.push(e),
            None => before,
        }
    }
}

/// `items` quoted and separated by commas.
pub open spec fn quoted_items(items: Seq<Seq<char>>) -> Seq<char>
    decreases items.len(),
{
    if items.len() == 0 {
        Seq::empty()
    } else if items.len() == 1 {
        "\""@ + items[0] + "\""@
    } else {
        quoted_items(items.drop_last()) + ", \""@ + items.last() + "\""@
    }
}

/// How a search path is shown to a person.
pub open spec fn description(p: SimpathView) -> Seq<char> {
    "Search Path '"@ + p.name + "': Directories: ["@ + quoted_items(p.directories) + "], URLs: ["@
        + quoted_items(p.urls.map_values(|u: LocationView| u.text)) + "]"@
}

/// Appends `items` to `out`, quoted and separated by commas.
fn push_quoted(out: &mut String, items: &Vec<String>)
    ensures
        final(out)@ == old(out)@ + quoted_items(items@.map_values(|d: String| d@)),
{
    let ghost all = items@.map_values(|d: String| d@);
    let mut i: usize = 0;
    assert(all.take(0) =~= Seq::<Seq<char>>::empty());
    assert(old(out)@ + Seq::<char>::empty() =~= old(out)@);
    while i < items.len()
        invariant
            i <= items@.len(),
            all == items@.map_values(|d: String| d@),
            out@ == old(out)@ + quoted_items(all.take(i as int)),
        decreases items@.len() - i,
    {
        assert(all.take(i + 1).drop_last() =~= all.take(i as int));
        assert(all.take(i + 1).last() == items@[i as int]@);
        if i > 0 {
            out.append(", \"");
        } else {
            out.append("\"");
        }
        out.append(items[i].as_str());
        out.append("\"");
        assert(out@ =~= old(out)@ + quoted_items(all.take(i + 1)));
        i = i + 1;
    }
    assert(all.take(i as int) =~= all);
}

/// The serializations of `urls`, in order.
fn url_texts(urls: &Vec<Location>) -> (r: Vec<String>)
    ensures
        r@.map_values(|d: String| d@) == urls@.map_values(|u: Location| u@).map_values(|u: LocationView| u.text),
{
    let mut r: Vec<String> = Vec::new();
    let mut i: usize = 0;
    while i < urls.len()
        invariant
            i <= urls@.len(),
            r@.len() == i,
            forall|k: int| 0 <= k < i ==> #[trigger] r@[k]@ == urls@[k]@.text,
        decreases urls@.len() - i,
    {
        r.push(String::from_str(urls[i].as_str()));
        i = i + 1;
    }
    assert(r@.map_values(|d: String| d@) =~= urls@.map_values(|u: Location| u@).map_values(|u: LocationView| u.text));
    r
}

impl Simpath {
    /// A search path named `var_name`, with the host's conventional separator, filled from
    /// the host's variable of that name. Where the host has no such variable it is empty.
    pub fn new(var_name: &str, host: &Host) -> (r: Simpath)
        ensures
            r@ == with_variable(empty_path(var_name@, host.separator), var_name@, host.separator, *host),
    {
        Simpath::new_with_separator(var_name, host.separator, host)
    }

    /// A search path named `var_name` that separates entries with `separator`, filled from
    /// the host's variable of that name.
    pub fn new_with_separator(var_name: &str, separator: char, host: &Host) -> (r: Simpath)
        ensures
            r@ == with_variable(empty_path(var_name@, separator), var_name@, separator, *host),
    {
        let mut search_path = Simpath {
            separator,
            name: String::from_str(var_name),
            directories: Vec::new(),
            urls: Vec::new(),
        };
        proof {
            assert(search_path@.directories =~= Seq::<Seq<char>>::empty());
            assert(search_path@.urls =~= Seq::<LocationView>::empty());
        }
        search_path.add_from_env_var(var_name, host);
        search_path
    }

    /// The separator used to split the entries of a variable.
    pub fn separator(&self) -> (r: char)
        ensures
            r == self@.separator,
    {
        self.separator
    }

    /// The name of the search path; it may be empty.
    pub fn name(&self) -> (r: &str)
        ensures
            r@ == self@.name,
    {
        self.name.as_str()
    }

    /// The admitted directories, in canonical form and in the order of admission.
    pub fn directories(&self) -> (r: &Vec<String>)
        ensures
            r@.map_values(|d: String| d@) == self@.directories,
    {
        &self.directories
    }

    /// The admitted web base locations, in the order of admission.
    pub fn urls(&self) -> (r: &Vec<Location>)
        ensures
            r@.map_values(|u: Location| u@) == self@.urls,
    {
        &self.urls
    }

    /// Admits `entry`: a web base location where it parses as an `http` or `https` URL, the
    /// path of a `file` URL as a directory, and otherwise the entry itself as a directory.
    pub fn add(&mut self, entry: &str, host: &Host)
        ensures
            final(self)@ == with_entry(old(self)@, entry@, host.directories@),
    {
        match classify(entry) {
            Entry::Directory(d) => self.add_directory(d.as_str(), host),
            Entry::Remote(u) => self.add_url(&u),
        }
    }

    /// Admits the directory `dir` in canonical form if the host says it exists, is a
    /// directory and can be listed; otherwise does nothing.
    pub fn add_directory(&mut self, dir: &str, host: &Host)
        ensures
            final(self)@ == with_directory(old(self)@, dir@, host.directories@),
    {
        match host.admitted(dir) {
            Some(c) => {
                self.directories.push(c);
                assert(self@.directories =~= old(self)@.directories.push(c@));
            },
            None => {},
        }
    }

    /// Admits the web base location `url`.
    pub fn add_url(&mut self, url: &Location)
        ensures
            final(self)@ == with_url(old(self)@, url@),
    {
        self.urls.push(url.clone());
        assert(self@.urls =~= old(self)@.urls.push(url@));
    }

    /// Whether `entry` is the path of an admitted directory, or parses as an admitted web
    /// base location.
    pub fn contains(&self, entry: &str) -> (r: bool)
        ensures
            r == contains_spec(self@, entry@),
    {
        let mut i: usize = 0;
        while i < self.directories.len()
            invariant
                i <= self.directories@.len(),
                forall|k: int| 0 <= k < i ==> !names_same_path(#[trigger] self@.directories[k], entry@),
            decreases self.directories@.len() - i,
        {
            if paths_equal(self.directories[i].as_str(), entry) {
                assert(names_same_path(self@.directories[i as int], entry@));
                return true;
            }
            i = i + 1;
        }
        match Location::parse(entry) {
            Some(u) => {
                let mut j: usize = 0;
                while j < self.urls.len()
                    invariant
                        j <= self.urls@.len(),
                        parsed_url(entry@) == Some(u@),
                        forall|k: int| 0 <= k < j ==> (#[trigger] self@.urls[k]).text != u@.text,
                    decreases self.urls@.len() - j,
                {
                    if self.urls[j] == u {
                        assert(self@.urls[j as int].text == u@.text);
                        return true;
                    }
                    j = j + 1;
                }
                false
            },
            None => false,
        }
    }

    /// Checks every admitted directory again against the host, and reports, in order, each
    /// one that is gone or can no longer be listed. Nothing is removed.
    pub fn validate(&self, host: &Host) -> (r: Vec<PathError>)
        ensures
            r@.map_values(|e: PathError| e@) == violations(self@.directories, host.directories@),
    {
        let ghost all = self@.directories;
        let mut r: Vec<PathError> = Vec::new();
        let mut i: usize = 0;
        assert(all.take(0) =~= Seq::<Seq<char>>::empty());
        assert(r@.map_values(|e: PathError| e@) =~= Seq::<PathErrorView>::empty());
        while i < self.directories.len()
            invariant
                i <= self.directories@.len(),
                all == self@.directories,
                r@.map_values(|e: PathError| e@) == violations(all.take(i as int), host.directories@),
            decreases self.directories@.len() - i,
        {
            assert(all.take(i + 1).drop_last() =~= all.take(i as int));
            assert(all.take(i + 1).last() == self.directories@[i as int]@);
            let dir = &self.directories[i];
            let found = match host.directory(dir.as_str()) {
                Some(st) => if !st.exists {
                    Some(PathError::DoesNotExist(dir.clone()))
                } else if !(st.is_dir && st.readable) {
                    Some(PathError::CannotRead(dir.clone()))
                } else {
                    None
                },
                None => Some(PathError::DoesNotExist(dir.clone())),
            };
            match found {
                Some(e) => {
                    let ghost before = r@.map_values(|e: PathError| e@);
                    r.push(e);
                    assert(r@.map_values(|e: PathError| e@) =~= before.push(e@));
                },
                None => {},
            }
            i = i + 1;
        }
        assert(all.take(i as int) =~= all);
        r
    }

    /// The search path as text for a person: its name, its directories and its web base
    /// locations.
    pub fn to_string(&self) -> (r: String)
        ensures
            r@ == description(self@),
    {
        let mut out = String::from_str("Search Path '");
        out.append(self.name.as_str());
        out.append("': Directories: [");
        push_quoted(&mut out, &self.directories);
        out.append("], URLs: [");
        let texts = url_texts(&self.urls);
        push_quoted(&mut out, &texts);
        out.append("]");
        assert(out@ =~= description(self@));
        out
    }

    /// Admits, in order, the entries of the host's variable `var_name`, split at this search
    /// path's separator; does nothing where the host has no such variable.
    pub fn add_from_env_var(&mut self, var_name: &str, host: &Host)
        ensures
            final(self)@ == with_variable(old(self)@, var_name@, old(self)@.separator, *host),
    {
        let separator = self.separator;
        self.add_from_env_var_with_separator(var_name, separator, host);
    }

    /// Admits, in order, the entries of the host's variable `var_name`, split at `separator`.
    /// The search path's own separator is left as it is.
    pub fn add_from_env_var_with_separator(&mut self, var_name: &str, separator: char, host: &Host)
        ensures
            final(self)@ == with_variable(old(self)@, var_name@, separator, *host),
    {
        match host.variable(var_name) {
            Some(value) => {
                let parts = split_entries(value.as_str(), separator);
                let ghost entries = segments(value@, separator);
                let mut i: usize = 0;
                assert(entries.take(0) =~= Seq::<Seq<char>>::empty());
                while i < parts.len()
                    invariant
                        i <= parts@.len(),
                        parts@.len() == entries.len(),
                        forall|k: int| 0 <= k < parts@.len() ==> #[trigger] parts@[k]@ == entries[k],
                        self@ == with_entries(old(self)@, entries.take(i as int), host.directories@),
                    decreases parts@.len() - i,
                {
                    assert(entries.take(i + 1).drop_last() =~= entries.take(i as int));
                    self.add(parts[i].as_str(), host);
                    i = i + 1;
                }
                assert(entries.take(i as int) =~= entries);
            },
            None => {},
        }
    }
}

} // verus!
