//! Atom feeds and OpenSearch descriptors.
//!
//! The `atom_syndication` crate parses feed bodies and the `roxmltree`
//! crate parses descriptor documents, both behind trusted wrappers that
//! hand the library plain values. What a parse yields is a function of
//! the input alone, so each parsing wrapper's result bears a name
//! (`feed_links_of`, `feed_entries_of`, `xml_els_of`) that the callers'
//! contracts go through; the functions that take the parsed values as
//! arguments carry the exact reading logic.

use vstd::prelude::*;

use crate::model::{AtomEntry, AtomEntryV, AtomLink, AtomLinkV};
use crate::text::{has_sub, str_eq, str_has_sub};
use crate::urls::{parse_href, parse_href_spec, url_scheme_host, UrlBuf};

verus! {

#[verifier::external_type_specification]
#[verifier::external_body]
pub struct ExAtomXmlEntry(atom_syndication::Entry);

#[verifier::external_type_specification]
#[verifier::external_body]
pub struct ExAtomXmlLink(atom_syndication::Link);

/// The feed-level links of `body` read as an Atom feed, as plain values;
/// nothing when the bytes are no Atom feed.
pub uninterp spec fn feed_links_of(body: Seq<u8>) -> Option<Seq<AtomLinkV>>;

/// The entries of `body` read as an Atom feed, as plain values; nothing
/// when the bytes are no Atom feed.
pub uninterp spec fn feed_entries_of(body: Seq<u8>) -> Option<Seq<AtomEntryV>>;

/// Relies on atom_syndication::Feed::read_from and the link accessors
/// below: parses bytes as an Atom feed and reads its feed-level links
/// into plain values. The result depends on the bytes alone; a failure
/// carries the parser's words.
#[verifier::external_body]
pub(crate) fn parse_feed_links(body: &[u8]) -> (r: Result<Vec<AtomLink>, String>)
    ensures
        match r {
            Ok(ls) => feed_links_of(body@) == Some(crate::model::links_view(ls@)),
            Err(_) => feed_links_of(body@) is None,
        },
{
    match atom_syndication::Feed::read_from(body) {
        Ok(f) => Ok(f.links().iter().map(to_atom_link).collect()),
        Err(e) => Err(format!("{}", e)),
    }
}

/// Relies on atom_syndication::Feed::read_from and the entry accessors
/// below: parses bytes as an Atom feed and reads its entries into plain
/// values. The result depends on the bytes alone; a failure carries the
/// parser's words.
#[verifier::external_body]
pub(crate) fn parse_feed_entries(body: &[u8]) -> (r: Result<Vec<AtomEntry>, String>)
    ensures
        match r {
            Ok(es) => feed_entries_of(body@) == Some(crate::model::atom_entries_view(es@)),
            Err(_) => feed_entries_of(body@) is None,
        },
{
    match atom_syndication::Feed::read_from(body) {
        Ok(f) => Ok(f.entries().iter().map(to_atom_entry).collect()),
        Err(e) => Err(format!("{}", e)),
    }
}

/// Relies on atom_syndication::Link::href.
#[verifier::external_body]
pub(crate) fn link_href(l: &atom_syndication::Link) -> (r: String)
{
    l.href().to_string()
}

/// Relies on atom_syndication::Link::rel.
#[verifier::external_body]
pub(crate) fn link_rel(l: &atom_syndication::Link) -> (r: String)
{
    l.rel().to_string()
}

/// Relies on atom_syndication::Link::mime_type.
#[verifier::external_body]
pub(crate) fn link_mime(l: &atom_syndication::Link) -> (r: Option<String>)
{
    l.mime_type().map(|m| m.to_string())
}

/// Relies on atom_syndication::Entry::title.
#[verifier::external_body]
pub(crate) fn entry_title(e: &atom_syndication::Entry) -> (r: String)
{
    e.title().to_string()
}

/// Relies on atom_syndication::Entry::authors: the authors' names.
#[verifier::external_body]
pub(crate) fn entry_author_names(e: &atom_syndication::Entry) -> (r: Vec<String>)
{
    e.authors().iter().map(|a| a.name.clone()).collect()
}

/// Relies on atom_syndication::Entry::summary.
#[verifier::external_body]
pub(crate) fn entry_summary(e: &atom_syndication::Entry) -> (r: Option<String>)
{
    e.summary().map(|s| s.to_string())
}

/// Relies on atom_syndication::Entry::content and Content::value: the
/// content's value, when the entry has a content with one.
#[verifier::external_body]
pub(crate) fn entry_content_value(e: &atom_syndication::Entry) -> (r: Option<String>)
{
    e.content().and_then(|c| c.value()).map(|v| v.to_string())
}

/// Relies on atom_syndication::Entry::categories and Category::label: the
/// categories' labels, an absent label read as empty.
#[verifier::external_body]
pub(crate) fn entry_category_labels(e: &atom_syndication::Entry) -> (r: Vec<String>)
{
    e.categories().iter().map(|c| c.label().unwrap_or("").to_string()).collect()
}

/// Relies on atom_syndication::Entry::links.
#[verifier::external_body]
pub(crate) fn entry_links(e: &atom_syndication::Entry) -> (r: Vec<atom_syndication::Link>)
{
    e.links().to_vec()
}

/// Reads one feed link into plain values.
pub(crate) fn to_atom_link(l: &atom_syndication::Link) -> AtomLink {
    AtomLink { href: link_href(l), rel: link_rel(l), mime_type: link_mime(l) }
}

/// Reads a list of feed links into plain values.
fn convert_links(ls: &Vec<atom_syndication::Link>) -> Vec<AtomLink> {
    let mut out: Vec<AtomLink> = Vec::new();
    let mut i: usize = 0;
    while i < ls.len()
        decreases ls.len() - i,
    {
        out.push(to_atom_link(&ls[i]));
        i += 1;
    }
    out
}

/// Reads one feed entry into plain values.
pub(crate) fn to_atom_entry(e: &atom_syndication::Entry) -> AtomEntry {
    AtomEntry {
        title: entry_title(e),
        authors: entry_author_names(e),
        summary: entry_summary(e),
        content: entry_content_value(e),
        categories: entry_category_labels(e),
        links: convert_links(&entry_links(e)),
    }
}

/// An element of an XML document: its tag name and its attributes.
#[derive(Debug)]
pub struct XmlElement {
    pub name: String,
    pub attrs: Vec<(String, String)>,
}

/// The view of an XML element.
#[verifier::ext_equal]
pub struct XmlElementV {
    pub name: Seq<char>,
    pub attrs: Seq<(Seq<char>, Seq<char>)>,
}

impl View for XmlElement {
    type V = XmlElementV;

    open spec fn view(&self) -> XmlElementV {
        XmlElementV {
            name: self.name@,
            attrs: self.attrs@.map_values(|p: (String, String)| (p.0@, p.1@)),
        }
    }
}

/// The views of a sequence of elements.
pub open spec fn els_view(els: Seq<XmlElement>) -> Seq<XmlElementV> {
    els.map_values(|e: XmlElement| e@)
}

/// The descendant nodes of `text` read as an XML document, each as its
/// tag name and attributes, in document order; nothing when the text is
/// not XML.
pub uninterp spec fn xml_els_of(text: Seq<char>) -> Option<Seq<XmlElementV>>;

/// Relies on roxmltree::Document::parse and its node accessors: every
/// descendant node of the document, as its tag name and attributes, in
/// document order. The result depends on the text alone; nothing comes
/// back when the text is not XML.
#[verifier::external_body]
pub(crate) fn xml_elements(text: &str) -> (r: Option<Vec<XmlElement>>)
    ensures
        match r {
            Some(els) => xml_els_of(text@) == Some(els_view(els@)),
            None => xml_els_of(text@) is None,
        },
{
    let doc = match roxmltree::Document::parse(text) {
        Ok(d) => d,
        Err(_) => return None,
    };
    Some(
        doc.descendants().map(
            |n| XmlElement {
                name: n.tag_name().name().to_string(),
                attrs: n.attributes().map(
                    |a| (a.name().to_string(), a.value().to_string()),
                ).collect(),
            },
        ).collect(),
    )
}

/// The value of the first attribute named `key`.
pub open spec fn attr_of(attrs: Seq<(Seq<char>, Seq<char>)>, key: Seq<char>) -> Option<Seq<char>>
    decreases attrs.len(),
{
    if attrs.len() == 0 {
        None
    } else if attrs[0].0 == key {
        Some(attrs[0].1)
    } else {
        attr_of(attrs.skip(1), key)
    }
}

/// Looks an attribute up by name, as `attr_of` describes.
pub fn get_attr(el: &XmlElement, key: &str) -> (r: Option<String>)
    ensures
        match r {
            Some(v) => attr_of(el@.attrs, key@) == Some(v@),
            None => attr_of(el@.attrs, key@) is None,
        },
{
    let mut i: usize = 0;
    proof {
        assert(el@.attrs.skip(0) =~= el@.attrs);
    }
    while i < el.attrs.len()
        invariant
            i <= el.attrs@.len(),
            attr_of(el@.attrs, key@) == attr_of(el@.attrs.skip(i as int), key@),
        decreases el.attrs@.len() - i,
    {
        proof {
            assert(el@.attrs.skip(i as int)[0] == el@.attrs[i as int]);
            assert(el@.attrs.skip(i as int).skip(1) =~= el@.attrs.skip(i + 1));
        }
        if str_eq(el.attrs[i].0.as_str(), key) {
            return Some(el.attrs[i].1.clone());
        }
        i += 1;
    }
    assert(el@.attrs.skip(el.attrs@.len() as int) =~= Seq::<(Seq<char>, Seq<char>)>::empty());
    None
}

/// An OpenSearch descriptor element that advertises an Atom search URL:
/// a `Url` element whose `type` names an Atom feed.
pub open spec fn is_osd_url_el(el: XmlElementV) -> bool {
    el.name == "Url"@ && (attr_of(el.attrs, "type"@) matches Some(t) && has_sub(
        t,
        "application/atom+xml"@,
    ))
}

/// The search template of the elements at or after `i`: the `template`
/// attribute of the first Atom-typed `Url` element.
pub open spec fn osd_template_from(els: Seq<XmlElementV>, i: int) -> Option<Seq<char>>
    decreases els.len() - i,
    when 0 <= i <= els.len()
{
    if i >= els.len() {
        None
    } else if is_osd_url_el(els[i]) {
        attr_of(els[i].attrs, "template"@)
    } else {
        osd_template_from(els, i + 1)
    }
}

/// The search template that an OpenSearch descriptor advertises.
pub open spec fn osd_template_spec(els: Seq<XmlElementV>) -> Option<Seq<char>> {
    osd_template_from(els, 0)
}

/// Finds the search template in a descriptor's elements, as
/// `osd_template_spec` describes.
pub fn parse_osd(els: &Vec<XmlElement>) -> (r: Option<String>)
    ensures
        match r {
            Some(t) => osd_template_spec(els_view(els@)) == Some(t@),
            None => osd_template_spec(els_view(els@)) is None,
        },
{
    let ghost ev = els_view(els@);
    let mut i: usize = 0;
    while i < els.len()
        invariant
            ev == els_view(els@),
            i <= els@.len(),
            ev.len() == els@.len(),
            osd_template_spec(ev) == osd_template_from(ev, i as int),
        decreases els@.len() - i,
    {
        assert(els@[i as int]@ == ev[i as int]);
        let el = &els[i];
        if str_eq(el.name.as_str(), "Url") {
            match get_attr(el, "type") {
                Some(t) => {
                    if str_has_sub(t.as_str(), "application/atom+xml") {
                        assert(is_osd_url_el(ev[i as int]));
                        return get_attr(el, "template");
                    }
                },
                None => {},
            }
        }
        assert(!is_osd_url_el(ev[i as int]));
        i += 1;
    }
    None
}

/// A feed link that advertises an OpenSearch descriptor.
pub open spec fn is_search_link(l: AtomLinkV) -> bool {
    l.rel == "search"@ && (l.mime_type matches Some(m) && has_sub(m, "opensearchdescription"@))
}

/// The position of the first search link at or after `i`, or `-1`.
pub open spec fn search_link_from(links: Seq<AtomLinkV>, i: int) -> int
    decreases links.len() - i,
    when 0 <= i <= links.len()
{
    if i >= links.len() {
        -1
    } else if is_search_link(links[i]) {
        i
    } else {
        search_link_from(links, i + 1)
    }
}

/// The address of a feed's OpenSearch descriptor: the first search
/// link's reference, resolved against the catalog domain; nothing when
/// there is no search link or the resolution fails.
pub open spec fn search_link_target(links: Seq<AtomLinkV>, domain: Seq<char>) -> Option<
    Seq<char>,
> {
    let k = search_link_from(links, 0);
    if k < 0 {
        None
    } else {
        match parse_href_spec(links[k].href, domain) {
            Ok(t) => Some(t),
            Err(_) => None,
        }
    }
}

/// Finds the first search link of a feed and resolves its reference
/// against the catalog domain, as `search_link_target` describes. Any
/// failure yields nothing, never an error.
pub fn find_search_link(links: &Vec<AtomLink>, domain: &UrlBuf) -> (r: Option<UrlBuf>)
    ensures
        ({
            let t = search_link_target(crate::model::links_view(links@), domain@);
            match r {
                Some(u) => t == Some(u@),
                None => t is None,
            }
        }),
{
    let ghost lv = crate::model::links_view(links@);
    let mut i: usize = 0;
    while i < links.len()
        invariant
            lv == crate::model::links_view(links@),
            i <= links@.len(),
            lv.len() == links@.len(),
            search_link_from(lv, 0) == search_link_from(lv, i as int),
        decreases links@.len() - i,
    {
        assert(links@[i as int]@ == lv[i as int]);
        let l = &links[i];
        let mut is_search = false;
        if str_eq(l.rel.as_str(), "search") {
            match &l.mime_type {
                Some(m) => {
                    if str_has_sub(m.as_str(), "opensearchdescription") {
                        is_search = true;
                    }
                },
                None => {},
            }
        }
        if is_search {
            assert(is_search_link(lv[i as int]));
            assert(search_link_from(lv, 0) == i as int);
            return match parse_href(l.href.as_str(), domain) {
                Ok(u) => Some(u),
                Err(_) => None,
            };
        }
        assert(!is_search_link(lv[i as int]));
        i += 1;
    }
    None
}

/// What applying a fetched OpenSearch descriptor leaves as the search
/// template: the descriptor's Atom template, resolved against the scheme
/// and domain of the base address; nothing on any failure — text that is
/// no XML, a base without a domain, a descriptor without an Atom
/// template, or a resolution error.
pub open spec fn osd_outcome(text: Seq<char>, base: Seq<char>) -> Option<Seq<char>> {
    match xml_els_of(text) {
        None => None,
        Some(els) => match url_scheme_host(base) {
            None => None,
            Some(d) => match osd_template_spec(els) {
                None => None,
                Some(t) => match parse_href_spec(t, d) {
                    Ok(u) => Some(u),
                    Err(_) => None,
                },
            },
        },
    }
}

/// Resolves the search template of a descriptor against the catalog
/// domain. Any failure yields nothing, never an error.
pub fn osd_search_url(els: &Vec<XmlElement>, domain: &UrlBuf) -> (r: Option<UrlBuf>)
    ensures
        ({
            let t = osd_template_spec(els_view(els@));
            match r {
                Some(u) => t is Some && parse_href_spec(t->0, domain@) == Ok::<
                    Seq<char>,
                    crate::urls::UrlErrorKind,
                >(u@),
                None => t is None || parse_href_spec(t->0, domain@) is Err,
            }
        }),
{
    match parse_osd(els) {
        None => None,
        Some(t) => match parse_href(t.as_str(), domain) {
            Ok(u) => Some(u),
            Err(_) => None,
        },
    }
}

} // verus!
