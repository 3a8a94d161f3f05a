//! Web locations: a library-owned URL type, built only by the `url` crate's parser.
use vstd::prelude::*;

verus! {

#[verifier::external_type_specification]
#[verifier::external_body]
pub struct ExOutsideUrl(url::Url);

/// Relies on the `Clone` that `url::Url` derives.
pub assume_specification[ <url::Url as Clone>::clone ](u: &url::Url) -> url::Url;

/// What the logic reads of a parsed URL: its serialization, its scheme and its path.
pub struct LocationView {
    pub text: Seq<char>,
    pub scheme: Seq<char>,
    pub path: Seq<char>,
}

/// The parts of the absolute URL that the `url` crate parses from `s`, if it parses one.
pub uninterp spec fn parsed_url(s: Seq<char>) -> Option<LocationView>;

/// The parts of the URL that the `url` crate builds by resolving `input` against the
/// URL serialized as `base`, if it can.
pub uninterp spec fn joined_url(base: Seq<char>, input: Seq<char>) -> Option<LocationView>;

/// An absolute URL, as parsed by the `url` crate.
#[derive(Debug)]
pub struct Location {
    parsed: url::Url,
    text: String,
    scheme: String,
    path: String,
}

impl View for Location {
    type V = LocationView;

    closed spec fn view(&self) -> LocationView {
        LocationView { text: self.text@, scheme: self.scheme@, path: self.path@ }
    }
}

/// Relies on `url::Url::parse`, and on `as_str`, `scheme` and `path` of its result:
/// the outcome depends on the input string alone.
#[verifier::external_body]
fn parse_outside(s: &str) -> (r: Option<Location>)
    ensures
        r matches Some(u) ==> parsed_url(s@) == Some(u@),
        r is None ==> parsed_url(s@) is None,
{
    url::Url::parse(s).ok().map(|u| Location {
        text: u.as_str().to_string(),
        scheme: u.scheme().to_string(),
        path: u.path().to_string(),
        parsed: u,
    })
}

/// Relies on `url::Url::join`, and on `as_str`, `scheme` and `path` of its result: a URL is
/// determined by its serialization, so the outcome depends on `base@.text` and `input` alone.
#[verifier::external_body]
fn join_outside(base: &Location, input: &str) -> (r: Option<Location>)
    ensures
        r matches Some(u) ==> joined_url(base@.text, input@) == Some(u@),
        r is None ==> joined_url(base@.text, input@) is None,
{
    base.parsed.join(input).ok().map(|u| Location {
        text: u.as_str().to_string(),
        scheme: u.scheme().to_string(),
        path: u.path().to_string(),
        parsed: u,
    })
}

impl Location {
    /// Parses an absolute URL; `None` where the `url` crate refuses the string.
    pub fn parse(s: &str) -> (r: Option<Location>)
        ensures
            r matches Some(u) ==> parsed_url(s@) == Some(u@),
            r is None ==> parsed_url(s@) is None,
    {
        parse_outside(s)
    }

    /// Resolves `input` against this URL, as a browser resolves a link on a page.
    pub fn join(&self, input: &str) -> (r: Option<Location>)
        ensures
            r matches Some(u) ==> joined_url(self@.text, input@) == Some(u@),
            r is None ==> joined_url(self@.text, input@) is None,
    {
        join_outside(self, input)
    }

    /// The serialization of this URL.
    pub fn as_str(&self) -> (r: &str)
        ensures
            r@ == self@.text,
    {
        self.text.as_str()
    }

    /// The scheme, lower-cased and without the `:`.
    pub fn scheme(&self) -> (r: &str)
        ensures
            r@ == self@.scheme,
    {
        self.scheme.as_str()
    }

    /// The path: for a web URL, `/` followed by slash-separated segments.
    pub fn path(&self) -> (r: &str)
        ensures
            r@ == self@.path,
    {
        self.path.as_str()
    }
}

/// Two URLs are equal when their serializations are.
impl PartialEq for Location {
    fn eq(&self, other: &Location) -> (r: bool) {
        self.text == other.text
    }
}

impl vstd::std_specs::cmp::PartialEqSpecImpl for Location {
    open spec fn obeys_eq_spec() -> bool {
        true
    }

    open spec fn eq_spec(&self, other: &Location) -> bool {
        self@.text == other@.text
    }
}

impl Eq for Location {}

impl Clone for Location {
    fn clone(&self) -> (r: Location)
        ensures
            r@ == self@,
    {
        Location {
            parsed: self.parsed.clone(),
            text: self.text.clone(),
            scheme: self.scheme.clone(),
            path: self.path.clone(),
        }
    }
}

} // verus!
