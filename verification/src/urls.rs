//! Addresses. Every address, local or remote, is a URL held as text. The
//! `url` crate does the parsing, joining and normalizing behind trusted
//! wrappers; what those return is named by uninterpreted functions of the
//! input text, so that contracts can speak of the results exactly.

use vstd::prelude::*;
use vstd::string::StringExecFns;

verus! {

/// An address: the serialization of a URL. Values produced by the parsing
/// wrappers hold the `url` crate's normalized form.
#[derive(Debug)]
pub struct UrlBuf {
    pub text: String,
}

impl View for UrlBuf {
    type V = Seq<char>;

    open spec fn view(&self) -> Seq<char> {
        self.text@
    }
}

impl UrlBuf {
    /// Wraps address text as it stands, without parsing it.
    pub fn from_string(text: String) -> (r: UrlBuf)
        ensures
            r@ == text@,
    {
        UrlBuf { text }
    }

    /// A copy of the address.
    pub fn dup(&self) -> (r: UrlBuf)
        ensures
            r@ == self@,
    {
        UrlBuf { text: self.text.clone() }
    }

    /// The address text.
    pub fn as_str(&self) -> (r: &str)
        ensures
            r@ == self@,
    {
        self.text.as_str()
    }

    /// Hands the address text out.
    pub fn into_string(self) -> (r: String)
        ensures
            r@ == self@,
    {
        self.text
    }

    /// Compares two addresses by their text.
    pub fn same_as(&self, other: &UrlBuf) -> (r: bool)
        ensures
            r == (self@ == other@),
    {
        self.text == other.text
    }
}

/// How parsing or joining an address can fail.
#[derive(Clone, Copy, Debug, PartialEq, Eq, Structural)]
pub enum UrlErrorKind {
    /// The text is a relative reference and no base was supplied.
    RelativeWithoutBase,
    /// The text is not a URL at all, or joining failed.
    Invalid,
}

/// The normalized serialization of `s` when it parses as an absolute URL.
pub uninterp spec fn url_parse_ok(s: Seq<char>) -> Option<Seq<char>>;

/// Whether parsing `s` fails for want of a base, rather than outright.
pub uninterp spec fn url_relative(s: Seq<char>) -> bool;

/// The normalized serialization of `rel` joined against the base `base`.
pub uninterp spec fn url_join(base: Seq<char>, rel: Seq<char>) -> Option<Seq<char>>;

/// The scheme and domain of the address, serialized as `scheme://domain`.
pub uninterp spec fn url_scheme_host(s: Seq<char>) -> Option<Seq<char>>;

/// The last segment of the address's path, when the URL can be a base.
pub uninterp spec fn url_last_segment(s: Seq<char>) -> Option<Seq<char>>;

/// The filesystem path that a `file://` address denotes, on the Unix
/// systems the library targets.
pub uninterp spec fn file_path_of(s: Seq<char>) -> Option<Seq<char>>;

/// Relies on url::Url::parse: parses an absolute URL and yields its
/// normalized serialization; a relative reference fails with the
/// distinguished `RelativeWithoutBase` error.
#[verifier::external_body]
pub fn parse_abs_url(s: &str) -> (r: Result<UrlBuf, UrlErrorKind>)
    ensures
        match r {
            Ok(u) => url_parse_ok(s@) == Some(u@),
            Err(k) => url_parse_ok(s@) is None && (k == UrlErrorKind::RelativeWithoutBase
                <==> url_relative(s@)),
        },
{
    match url::Url::parse(s) {
        Ok(u) => Ok(UrlBuf { text: u.as_str().to_string() }),
        Err(url::ParseError::RelativeUrlWithoutBase) => Err(UrlErrorKind::RelativeWithoutBase),
        Err(_) => Err(UrlErrorKind::Invalid),
    }
}

/// Relies on url::Url::parse and url::Url::join: joins `rel` against the
/// reparsed base address and yields the normalized serialization.
#[verifier::external_body]
pub(crate) fn join_url(base: &UrlBuf, rel: &str) -> (r: Result<UrlBuf, UrlErrorKind>)
    ensures
        match r {
            Ok(u) => url_join(base@, rel@) == Some(u@),
            Err(_) => url_join(base@, rel@) is None,
        },
{
    let b = match url::Url::parse(&base.text) {
        Ok(b) => b,
        Err(_) => return Err(UrlErrorKind::Invalid),
    };
    match b.join(rel) {
        Ok(u) => Ok(UrlBuf { text: u.as_str().to_string() }),
        Err(url::ParseError::RelativeUrlWithoutBase) => Err(UrlErrorKind::RelativeWithoutBase),
        Err(_) => Err(UrlErrorKind::Invalid),
    }
}

/// Relies on url::Url::parse, scheme and domain: the scheme and domain of
/// the address, formatted as `scheme://domain` and reparsed. Nothing comes
/// back when the address does not parse or its host is not a domain.
#[verifier::external_body]
pub(crate) fn scheme_host_url(u: &UrlBuf) -> (r: Option<UrlBuf>)
    ensures
        match r {
            Some(d) => url_scheme_host(u@) == Some(d@),
            None => url_scheme_host(u@) is None,
        },
{
    let p = match url::Url::parse(&u.text) {
        Ok(p) => p,
        Err(_) => return None,
    };
    let d = match p.domain() {
        Some(d) => d,
        None => return None,
    };
    let t = format!("{}://{}", p.scheme(), d);
    match url::Url::parse(&t) {
        Ok(x) => Some(UrlBuf { text: x.as_str().to_string() }),
        Err(_) => None,
    }
}

/// Relies on url::Url::parse and path_segments: the last segment of the
/// address's path, or nothing when the URL cannot be a base.
#[verifier::external_body]
pub(crate) fn url_last_path_segment(u: &UrlBuf) -> (r: Option<String>)
    ensures
        match r {
            Some(s) => url_last_segment(u@) == Some(s@),
            None => url_last_segment(u@) is None,
        },
{
    let p = match url::Url::parse(&u.text) {
        Ok(p) => p,
        Err(_) => return None,
    };
    let segs = match p.path_segments() {
        Some(s) => s,
        None => return None,
    };
    segs.last().map(|s| s.to_string())
}

/// Relies on url::Url::parse and to_file_path: the filesystem path that a
/// `file://` address denotes, when there is one and it is text. The
/// conversion is the Unix one; other systems are outside the library's
/// scope.
#[verifier::external_body]
pub fn url_to_file_path(u: &UrlBuf) -> (r: Option<String>)
    ensures
        match r {
            Some(p) => file_path_of(u@) == Some(p@),
            None => file_path_of(u@) is None,
        },
{
    let p = match url::Url::parse(&u.text) {
        Ok(p) => p,
        Err(_) => return None,
    };
    match p.to_file_path() {
        Ok(pb) => pb.into_os_string().into_string().ok(),
        Err(()) => None,
    }
}

/// The outcome of resolving `href` against `base`: an absolute parse when
/// it succeeds; a join against the base when the reference is relative;
/// otherwise the parse failure.
pub open spec fn parse_href_spec(href: Seq<char>, base: Seq<char>) -> Result<
    Seq<char>,
    UrlErrorKind,
> {
    if url_parse_ok(href) is Some {
        Ok(url_parse_ok(href)->0)
    } else if url_relative(href) {
        match url_join(base, href) {
            Some(t) => Ok(t),
            None => Err(UrlErrorKind::Invalid),
        }
    } else {
        Err(UrlErrorKind::Invalid)
    }
}

/// Resolves `href` to an address: an absolute parse if possible, a join
/// against `base_url` if the reference is relative, and an error otherwise.
pub fn parse_href(href: &str, base_url: &UrlBuf) -> (r: Result<UrlBuf, UrlErrorKind>)
    ensures
        match r {
            Ok(u) => parse_href_spec(href@, base_url@) == Ok::<Seq<char>, UrlErrorKind>(u@),
            Err(k) => parse_href_spec(href@, base_url@) == Err::<Seq<char>, UrlErrorKind>(k),
        },
{
    match parse_abs_url(href) {
        Ok(u) => Ok(u),
        Err(UrlErrorKind::RelativeWithoutBase) => match join_url(base_url, href) {
            Ok(u) => Ok(u),
            Err(_) => Err(UrlErrorKind::Invalid),
        },
        Err(UrlErrorKind::Invalid) => Err(UrlErrorKind::Invalid),
    }
}

/// Converts a filesystem path string to a `file://` address.
pub fn str_to_file_url(s: &str) -> (r: Result<UrlBuf, UrlErrorKind>)
    ensures
        match r {
            Ok(u) => url_parse_ok("file://"@ + s@) == Some(u@),
            Err(_) => url_parse_ok("file://"@ + s@) is None,
        },
{
    let mut t: String = "file://".to_owned();
    t.append(s);
    parse_abs_url(t.as_str())
}

} // verus!
