//! Looking a name up in a search path, first match wins.
//!
//! A lookup is driven from outside: each step either asks for the listing of one directory,
//! asks whether one web location answers, or ends the lookup. Directories are searched in
//! the order of admission, then, where the requested kind allows it, web base locations.
use vstd::prelude::*;

use crate::remote::{joined_url, Location, LocationView};
use crate::simpath::{Simpath, SimpathView};

verus! {

/// The kind of entry a lookup asks for.
#[derive(Clone, Copy, Debug, PartialEq, Eq, Structural)]
pub enum FileType {
    /// A regular file in one of the directories.
    File,
    /// A directory in one of the directories.
    Directory,
    /// A resource under one of the web base locations.
    Resource,
    /// Anything in one of the directories, or else a resource.
    Any,
}

/// What the filesystem says a child of a directory is.
#[derive(Clone, Copy, Debug, PartialEq, Eq, Structural)]
pub enum EntryKind {
    Directory,
    File,
    Other,
}

/// One child of a listed directory.
pub struct Child {
    /// The child's file name; `None` where it is not valid Unicode.
    pub name: Option<String>,
    /// The child's full path.
    pub path: String,
    /// What the child is, or why its metadata could not be read.
    pub kind: Result<EntryKind, String>,
}

/// The children of one directory, in the order the filesystem gave them. `failure` holds the
/// error that stopped the listing early, or that kept the directory from being opened.
pub struct Listing {
    pub children: Vec<Child>,
    pub failure: Option<String>,
}

/// Where a lookup found what it was asked for.
#[derive(Debug, PartialEq)]
pub enum FoundType {
    File(String),
    Directory(String),
    Resource(Location),
}

/// Why a lookup found nothing.
#[derive(Debug, PartialEq)]
pub enum LookupError {
    /// Every entry was searched and none matched.
    NotFound { file_type: FileType, name: String, search_path: String },
    /// The filesystem failed while a directory was searched.
    Io(String),
    /// The name could not be resolved against the web base location `base`.
    InvalidName { base: String, name: String },
}

/// What a lookup asks for next, or how it ended.
#[derive(Debug)]
pub enum Step {
    /// List the children of this directory and hand them to `Lookup::listed`.
    List(String),
    /// Ask whether this location answers and hand the status code to `Lookup::probed`.
    Probe(Location),
    /// The lookup is over.
    Done(Result<FoundType, LookupError>),
}

pub enum FoundView {
    File(Seq<char>),
    Directory(Seq<char>),
    Resource(LocationView),
}

pub enum LookupErrorView {
    NotFound { file_type: FileType, name: Seq<char>, search_path: Seq<char> },
    Io(Seq<char>),
    InvalidName { base: Seq<char>, name: Seq<char> },
}

pub enum StepView {
    List(Seq<char>),
    Probe(LocationView),
    Done(Result<FoundView, LookupErrorView>),
}

impl View for FoundType {
    type V = FoundView;

    open spec fn view(&self) -> FoundView {
        match self {
            FoundType::File(p) => FoundView::File(p@),
            FoundType::Directory(p) => FoundView::Directory(p@),
            FoundType::Resource(u) => FoundView::Resource(u@),
        }
    }
}

impl View for LookupError {
    type V = LookupErrorView;

    open spec fn view(&self) -> LookupErrorView {
        match self {
            LookupError::NotFound { file_type, name, search_path } => LookupErrorView::NotFound {
                file_type: *file_type,
                name: name@,
                search_path: search_path@,
            },
            LookupError::Io(m) => LookupErrorView::Io(m@),
            LookupError::InvalidName { base, name } => LookupErrorView::InvalidName { base: base@, name: name@ },
        }
    }
}

impl View for Step {
    type V = StepView;

    open spec fn view(&self) -> StepView {
        match self {
            Step::List(d) => StepView::List(d@),
            Step::Probe(u) => StepView::Probe(u@),
            Step::Done(Ok(f)) => StepView::Done(Ok(f@)),
            Step::Done(Err(e)) => StepView::Done(Err(e@)),
        }
    }
}

/// What a lookup waits for.
enum Waiting {
    /// The listing of the directory at this index.
    Listing(usize),
    /// The answer of the location built from the web base location at this index.
    Response(usize, Location),
    /// Nothing: the lookup is over.
    Finished,
}

pub enum WaitingView {
    Listing(int),
    Response(int, LocationView),
    Finished,
}

/// A lookup in progress.
pub struct Lookup<'a> {
    search: &'a Simpath,
    name: String,
    file_type: FileType,
    waiting: Waiting,
}

pub struct LookupView {
    pub search: SimpathView,
    pub name: Seq<char>,
    pub file_type: FileType,
    pub waiting: WaitingView,
}

impl<'a> Lookup<'a> {
    /// The index a lookup waits on is an index of the search path's entries.
    #[verifier::type_invariant]
    spec fn waits_within(self) -> bool {
        match self.waiting {
            Waiting::Listing(i) => i < self.search@.directories.len(),
            Waiting::Response(j, _) => j < self.search@.urls.len(),
            Waiting::Finished => true,
        }
    }
}

impl<'a> View for Lookup<'a> {
    type V = LookupView;

    closed spec fn view(&self) -> LookupView {
        LookupView {
            search: self.search@,
            name: self.name@,
            file_type: self.file_type,
            waiting: match self.waiting {
                Waiting::Listing(i) => WaitingView::Listing(i as int),
                Waiting::Response(j, u) => WaitingView::Response(j as int, u@),
                Waiting::Finished => WaitingView::Finished,
            },
        }
    }
}

/// Whether a lookup for `kind` searches the directories.
pub open spec fn searches_directories(kind: FileType) -> bool {
    kind != FileType::Resource
}

/// Whether a lookup for `kind` searches the web base locations.
pub open spec fn searches_urls(kind: FileType) -> bool {
    kind == FileType::Resource || kind == FileType::Any
}

/// Whether a child of kind `ek` is what a lookup for `kind` wants.
pub open spec fn accepts(kind: FileType, ek: EntryKind) -> bool {
    kind == FileType::Any
        || (kind == FileType::Directory && ek == EntryKind::Directory)
        || (kind == FileType::File && ek == EntryKind::File)
}

/// A child whose name is exactly `name`.
pub open spec fn named(c: Child, name: Seq<char>) -> bool {
    c.name is Some && c.name->0@ == name
}

/// How a match in a directory is reported: as a directory where one was asked for, else as
/// a file.
pub open spec fn found_child(c: Child, kind: FileType) -> FoundView {
    if kind == FileType::Directory {
        FoundView::Directory(c.path@)
    } else {
        FoundView::File(c.path@)
    }
}

/// The outcome of searching one listing.
pub enum ScanView {
    Hit(FoundView),
    Broken(Seq<char>),
    Miss,
}

/// The children are taken in order; the first one named `name` whose metadata is
/// unreadable breaks the search, and the first one named `name` of an accepted kind is
/// the match.
pub open spec fn scan(children: Seq<Child>, name: Seq<char>, kind: FileType) -> ScanView
    decreases children.len(),
{
    if children.len() == 0 {
        ScanView::Miss
    } else {
        let c = children[0];
        if named(c, name) {
            match c.kind {
                Err(m) => ScanView::Broken(m@),
                Ok(ek) => if accepts(kind, ek) {
                    ScanView::Hit(found_child(c, kind))
                } else {
                    scan(children.drop_first(), name, kind)
                },
            }
        } else {
            scan(children.drop_first(), name, kind)
        }
    }
}

/// A location answers when its status code is a success (200 to 299); a redirect counts
/// as not being there.
pub open spec fn reachable(code: Option<u32>) -> bool {
    code matches Some(c) && 200 <= c <= 299
}

/// The failure reported when nothing matched.
pub open spec fn not_found(p: SimpathView, name: Seq<char>, kind: FileType) -> StepView {
    StepView::Done(Err(LookupErrorView::NotFound { file_type: kind, name, search_path: p.name }))
}

/// What follows once the web base locations before index `j` gave nothing.
pub open spec fn resume_urls(p: SimpathView, name: Seq<char>, kind: FileType, j: int) -> (WaitingView, StepView) {
    if searches_urls(kind) && 0 <= j < p.urls.len() {
        match joined_url(p.urls[j].text, name) {
            Some(u) => (WaitingView::Response(j, u), StepView::Probe(u)),
            None => (
                WaitingView::Finished,
                StepView::Done(Err(LookupErrorView::InvalidName { base: p.urls[j].text, name })),
            ),
        }
    } else {
        (WaitingView::Finished, not_found(p, name, kind))
    }
}

/// What follows once the directories before index `i` gave nothing.
pub open spec fn resume_directories(p: SimpathView, name: Seq<char>, kind: FileType, i: int) -> (WaitingView, StepView) {
    if searches_directories(kind) && 0 <= i < p.directories.len() {
        (WaitingView::Listing(i), StepView::List(p.directories[i]))
    } else {
        resume_urls(p, name, kind, 0)
    }
}

/// What follows the listing of the directory at index `i`.
pub open spec fn after_listing(p: SimpathView, name: Seq<char>, kind: FileType, i: int, listing: Listing) -> (WaitingView, StepView) {
    match scan(listing.children@, name, kind) {
        ScanView::Hit(f) => (WaitingView::Finished, StepView::Done(Ok(f))),
        ScanView::Broken(m) => (WaitingView::Finished, StepView::Done(Err(LookupErrorView::Io(m)))),
        ScanView::Miss => match listing.failure {
            Some(m) => (WaitingView::Finished, StepView::Done(Err(LookupErrorView::Io(m@)))),
            None => resume_directories(p, name, kind, i + 1),
        },
    }
}

/// What follows the answer `code` of the location `u`, built from the web base location at
/// index `j`.
pub open spec fn after_response(p: SimpathView, name: Seq<char>, kind: FileType, j: int, u: LocationView, code: Option<u32>) -> (WaitingView, StepView) {
    if reachable(code) {
        (WaitingView::Finished, StepView::Done(Ok(FoundView::Resource(u))))
    } else {
        resume_urls(p, name, kind, j + 1)
    }
}

/// Whether a status code means that the resource is there.
pub fn is_reachable(code: Option<u32>) -> (r: bool)
    ensures
        r == reachable(code),
{
    match code {
        Some(c) => 200 <= c && c <= 299,
        None => false,
    }
}

/// Searches one listing for the first child named `name` of the kind asked for.
pub fn scan_children(children: &Vec<Child>, name: &String, kind: FileType) -> (r: Option<Result<FoundType, String>>)
    ensures
        match scan(children@, name@, kind) {
            ScanView::Hit(f) => r matches Some(Ok(x)) && x@ == f,
            ScanView::Broken(m) => r matches Some(Err(x)) && x@ == m,
            ScanView::Miss => r is None,
        },
{
    let mut i: usize = 0;
    assert(children@.skip(0) =~= children@);
    while i < children.len()
        invariant
            i <= children@.len(),
            scan(children@, name@, kind) == scan(children@.skip(i as int), name@, kind),
        decreases children@.len() - i,
    {
        assert(children@.skip(i as int).drop_first() =~= children@.skip(i + 1));
        let c = &children[i];
        let is_named = match &c.name {
            Some(n) => *n == *name,
            None => false,
        };
        if is_named {
            match &c.kind {
                Err(m) => {
                    return Some(Err(m.clone()));
                },
                Ok(ek) => {
                    let ek = *ek;
                    if kind == FileType::Any || (kind == FileType::Directory && ek == EntryKind::Directory)
                        || (kind == FileType::File && ek == EntryKind::File) {
                        if kind == FileType::Directory {
                            return Some(Ok(FoundType::Directory(c.path.clone())));
                        } else {
                            return Some(Ok(FoundType::File(c.path.clone())));
                        }
                    }
                },
            }
        }
        i = i + 1;
    }
    None
}

impl Simpath {
    /// Starts a lookup of `file_name` for an entry of kind `file_type`, and gives its first step.
    pub fn find_type(&self, file_name: &str, file_type: FileType) -> (r: (Lookup<'_>, Step))
        ensures
            r.0@.search == self@,
            r.0@.name == file_name@,
            r.0@.file_type == file_type,
            (r.0@.waiting, r.1@) == resume_directories(self@, file_name@, file_type, 0),
    {
        let mut lookup = Lookup {
            search: self,
            name: String::from_str(file_name),
            file_type,
            waiting: Waiting::Finished,
        };
        let step = lookup.resume_directories(0);
        (lookup, step)
    }

    /// Starts a lookup of `file_name` for an entry of any kind.
    pub fn find(&self, file_name: &str) -> (r: (Lookup<'_>, Step))
        ensures
            r.0@.search == self@,
            r.0@.name == file_name@,
            r.0@.file_type == FileType::Any,
            (r.0@.waiting, r.1@) == resume_directories(self@, file_name@, FileType::Any, 0),
    {
        self.find_type(file_name, FileType::Any)
    }
}

impl<'a> Lookup<'a> {
    /// Asks for the first web base location at or after index `j` that the name can be
    /// resolved against, or ends the lookup.
    fn resume_urls(&mut self, j: usize) -> (r: Step)
        requires
            j <= old(self)@.search.urls.len(),
        ensures
            final(self)@.search == old(self)@.search,
            final(self)@.name == old(self)@.name,
            final(self)@.file_type == old(self)@.file_type,
            (final(self)@.waiting, r@) == resume_urls(old(self)@.search, old(self)@.name, old(self)@.file_type, j as int),
    {
        let urls = self.search.urls();
        let ghost p = self.search@;
        if (self.file_type == FileType::Resource || self.file_type == FileType::Any) && j < urls.len() {
            assert(urls@.map_values(|u: Location| u@)[j as int] == urls@[j as int]@);
            let base = &urls[j];
            match base.join(self.name.as_str()) {
                Some(u) => {
                    self.waiting = Waiting::Response(j, u.clone());
                    Step::Probe(u)
                },
                None => {
                    self.waiting = Waiting::Finished;
                    Step::Done(Err(LookupError::InvalidName {
                        base: String::from_str(base.as_str()),
                        name: self.name.clone(),
                    }))
                },
            }
        } else {
            self.waiting = Waiting::Finished;
            Step::Done(Err(LookupError::NotFound {
                file_type: self.file_type,
                name: self.name.clone(),
                search_path: String::from_str(self.search.name()),
            }))
        }
    }

    /// Asks for the listing of the directory at index `i`, or goes on to the web base
    /// locations.
    fn resume_directories(&mut self, i: usize) -> (r: Step)
        requires
            i <= old(self)@.search.directories.len(),
        ensures
            final(self)@.search == old(self)@.search,
            final(self)@.name == old(self)@.name,
            final(self)@.file_type == old(self)@.file_type,
            (final(self)@.waiting, r@) == resume_directories(old(self)@.search, old(self)@.name, old(self)@.file_type, i as int),
    {
        let dirs = self.search.directories();
        if self.file_type != FileType::Resource && i < dirs.len() {
            assert(dirs@.map_values(|d: String| d@)[i as int] == dirs@[i as int]@);
            self.waiting = Waiting::Listing(i);
            Step::List(dirs[i].clone())
        } else {
            self.resume_urls(0)
        }
    }

    /// Whether the lookup waits for the listing of a directory.
    pub fn awaits_listing(&self) -> (r: bool)
        ensures
            r == self@.waiting is Listing,
    {
        match self.waiting {
            Waiting::Listing(_) => true,
            _ => false,
        }
    }

    /// Whether the lookup waits for the answer of a web location.
    pub fn awaits_response(&self) -> (r: bool)
        ensures
            r == self@.waiting is Response,
    {
        match self.waiting {
            Waiting::Response(_, _) => true,
            _ => false,
        }
    }

    /// Hands over the listing of the directory that the last step asked for.
    pub fn listed(&mut self, listing: &Listing) -> (r: Step)
        requires
            old(self)@.waiting is Listing,
        ensures
            final(self)@.search == old(self)@.search,
            final(self)@.name == old(self)@.name,
            final(self)@.file_type == old(self)@.file_type,
            (final(self)@.waiting, r@) == after_listing(
                old(self)@.search,
                old(self)@.name,
                old(self)@.file_type,
                old(self)@.waiting->Listing_0,
                *listing,
            ),
    {
        let i = match self.waiting {
            Waiting::Listing(i) => i,
            _ => 0,
        };
        proof {
            use_type_invariant(&*self);
        }
        match scan_children(&listing.children, &self.name, self.file_type) {
            Some(Ok(found)) => {
                self.waiting = Waiting::Finished;
                Step::Done(Ok(found))
            },
            Some(Err(m)) => {
                self.waiting = Waiting::Finished;
                Step::Done(Err(LookupError::Io(m)))
            },
            None => match &listing.failure {
                Some(m) => {
                    self.waiting = Waiting::Finished;
                    Step::Done(Err(LookupError::Io(m.clone())))
                },
                None => {
                    let count = self.search.directories().len();
                    assert(i < count);
                    self.resume_directories(i + 1)
                },
            },
        }
    }

    /// Hands over the status code with which the location of the last step answered, or
    /// `None` where the request failed.
    pub fn probed(&mut self, code: Option<u32>) -> (r: Step)
        requires
            old(self)@.waiting is Response,
        ensures
            final(self)@.search == old(self)@.search,
            final(self)@.name == old(self)@.name,
            final(self)@.file_type == old(self)@.file_type,
            (final(self)@.waiting, r@) == after_response(
                old(self)@.search,
                old(self)@.name,
                old(self)@.file_type,
                old(self)@.waiting->Response_0,
                old(self)@.waiting->Response_1,
                code,
            ),
    {
        proof {
            use_type_invariant(&*self);
        }
        let mut waiting = Waiting::Finished;
        std::mem::swap(&mut waiting, &mut self.waiting);
        match waiting {
            Waiting::Response(j, u) => if is_reachable(code) {
                Step::Done(Ok(FoundType::Resource(u)))
            } else {
                let count = self.search.urls().len();
                assert(j < count);
                self.resume_urls(j + 1)
            },
            // Not reached: the lookup waits for an answer here.
            _ => Step::Done(Ok(FoundType::File(String::new()))),
        }
    }
}

} // verus!
