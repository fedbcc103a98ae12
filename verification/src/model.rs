//! The entry model: what a row of the directory view is, and how an OPDS
//! entry is derived from an Atom entry.
//!
//! Each Atom link is resolved against the catalog domain and classified by
//! its mime-type: a link typed `application/atom+xml` makes the entry
//! navigable, a link typed as an image names its cover, and every other
//! link is a download. A link relation that names an unsupported
//! acquisition kind (borrow, buy, subscribe, sample) marks the entry.

use vstd::prelude::*;
use vstd::string::StringExecFns;

use crate::errors::OpdsError;
use crate::text::{has_sub, join_strings, join_with, str_has_sub, views_of};
use crate::urls::{parse_href, parse_href_spec, UrlBuf};

verus! {

/// A link of an Atom entry or feed, as plain values.
#[derive(Debug)]
pub struct AtomLink {
    pub href: String,
    pub rel: String,
    pub mime_type: Option<String>,
}

/// The view of a link.
#[verifier::ext_equal]
pub struct AtomLinkV {
    pub href: Seq<char>,
    pub rel: Seq<char>,
    pub mime_type: Option<Seq<char>>,
}

impl View for AtomLink {
    type V = AtomLinkV;

    open spec fn view(&self) -> AtomLinkV {
        AtomLinkV {
            href: self.href@,
            rel: self.rel@,
            mime_type: match self.mime_type {
                Some(m) => Some(m@),
                None => None,
            },
        }
    }
}

/// An entry of an Atom feed, as plain values.
#[derive(Debug)]
pub struct AtomEntry {
    pub title: String,
    pub authors: Vec<String>,
    pub summary: Option<String>,
    pub content: Option<String>,
    pub categories: Vec<String>,
    pub links: Vec<AtomLink>,
}

/// The view of an Atom entry.
#[verifier::ext_equal]
pub struct AtomEntryV {
    pub title: Seq<char>,
    pub authors: Seq<Seq<char>>,
    pub summary: Option<Seq<char>>,
    pub content: Option<Seq<char>>,
    pub categories: Seq<Seq<char>>,
    pub links: Seq<AtomLinkV>,
}

/// The views of a sequence of links.
pub open spec fn links_view(ls: Seq<AtomLink>) -> Seq<AtomLinkV> {
    ls.map_values(|l: AtomLink| l@)
}

/// The views of a sequence of Atom entries.
pub open spec fn atom_entries_view(es: Seq<AtomEntry>) -> Seq<AtomEntryV> {
    es.map_values(|e: AtomEntry| e@)
}

/// The view of an optional string.
pub open spec fn opt_view(o: Option<String>) -> Option<Seq<char>> {
    match o {
        Some(s) => Some(s@),
        None => None,
    }
}

/// The view of an optional address.
pub open spec fn opt_url_view(o: Option<UrlBuf>) -> Option<Seq<char>> {
    match o {
        Some(u) => Some(u@),
        None => None,
    }
}

impl View for AtomEntry {
    type V = AtomEntryV;

    open spec fn view(&self) -> AtomEntryV {
        AtomEntryV {
            title: self.title@,
            authors: views_of(self.authors@),
            summary: opt_view(self.summary),
            content: opt_view(self.content),
            categories: views_of(self.categories@),
            links: links_view(self.links@),
        }
    }
}

/// What an OPDS entry holds once derived.
#[derive(Debug)]
pub struct EntryData {
    pub title: String,
    pub details: String,
    pub author: Option<String>,
    pub unsupported: Option<String>,
    pub downloads: Vec<(UrlBuf, String)>,
    pub image: Option<UrlBuf>,
    pub href: Option<UrlBuf>,
}

/// The view of `EntryData`.
#[verifier::ext_equal]
pub struct EntryDataV {
    pub title: Seq<char>,
    pub details: Seq<char>,
    pub author: Option<Seq<char>>,
    pub unsupported: Option<Seq<char>>,
    pub downloads: Seq<(Seq<char>, Seq<char>)>,
    pub image: Option<Seq<char>>,
    pub href: Option<Seq<char>>,
}

/// The views of a download list.
pub open spec fn downloads_view(d: Seq<(UrlBuf, String)>) -> Seq<(Seq<char>, Seq<char>)> {
    d.map_values(|p: (UrlBuf, String)| (p.0@, p.1@))
}

impl View for EntryData {
    type V = EntryDataV;

    open spec fn view(&self) -> EntryDataV {
        EntryDataV {
            title: self.title@,
            details: self.details@,
            author: opt_view(self.author),
            unsupported: opt_view(self.unsupported),
            downloads: downloads_view(self.downloads@),
            image: opt_url_view(self.image),
            href: opt_url_view(self.href),
        }
    }
}

/// A row of the directory view: a local file, a local directory, or a
/// derived OPDS entry.
#[derive(Debug)]
pub enum EntryType {
    File(String, UrlBuf),
    Directory(String, UrlBuf),
    OPDSEntry(EntryData),
}

/// The view of `EntryType`.
#[verifier::ext_equal]
pub enum EntryV {
    File(Seq<char>, Seq<char>),
    Directory(Seq<char>, Seq<char>),
    Opds(EntryDataV),
}

impl View for EntryType {
    type V = EntryV;

    open spec fn view(&self) -> EntryV {
        match self {
            EntryType::File(t, u) => EntryV::File(t@, u@),
            EntryType::Directory(t, u) => EntryV::Directory(t@, u@),
            EntryType::OPDSEntry(d) => EntryV::Opds(d@),
        }
    }
}

/// The title of an entry.
pub open spec fn title_of(e: EntryV) -> Seq<char> {
    match e {
        EntryV::File(t, _) => t,
        EntryV::Directory(t, _) => t,
        EntryV::Opds(d) => d.title,
    }
}

/// Retrieves the title of an entry.
pub fn get_title_for_entry(e: &EntryType) -> (r: String)
    ensures
        r@ == title_of(e@),
{
    match e {
        EntryType::File(t, _) => t.clone(),
        EntryType::Directory(t, _) => t.clone(),
        EntryType::OPDSEntry(d) => d.title.clone(),
    }
}

/// The views of a list of entries.
pub open spec fn entries_view(s: Seq<EntryType>) -> Seq<EntryV> {
    s.map_values(|e: EntryType| e@)
}

/// Copies an optional address.
pub fn dup_opt_url(o: &Option<UrlBuf>) -> (r: Option<UrlBuf>)
    ensures
        opt_url_view(r) == opt_url_view(*o),
{
    match o {
        Some(u) => Some(u.dup()),
        None => None,
    }
}

/// Copies a download list.
pub fn dup_downloads(d: &Vec<(UrlBuf, String)>) -> (r: Vec<(UrlBuf, String)>)
    ensures
        downloads_view(r@) == downloads_view(d@),
{
    let mut out: Vec<(UrlBuf, String)> = Vec::new();
    let mut i: usize = 0;
    while i < d.len()
        invariant
            i <= d@.len(),
            out@.len() == i,
            forall|j: int|
                0 <= j < i ==> (#[trigger] out@[j]).0@ == d@[j].0@ && out@[j].1@ == d@[j].1@,
        decreases d@.len() - i,
    {
        out.push((d[i].0.dup(), d[i].1.clone()));
        i += 1;
    }
    assert(downloads_view(out@) =~= downloads_view(d@));
    out
}

/// Copies an entry, view for view.
pub fn dup_entry(e: &EntryType) -> (r: EntryType)
    ensures
        r@ == e@,
{
    match e {
        EntryType::File(t, u) => EntryType::File(t.clone(), u.dup()),
        EntryType::Directory(t, u) => EntryType::Directory(t.clone(), u.dup()),
        EntryType::OPDSEntry(d) => {
            let copy = EntryData {
                title: d.title.clone(),
                details: d.details.clone(),
                author: crate::text::dup_opt_string(&d.author),
                unsupported: crate::text::dup_opt_string(&d.unsupported),
                downloads: dup_downloads(&d.downloads),
                image: dup_opt_url(&d.image),
                href: dup_opt_url(&d.href),
            };
            assert(copy@ =~= d@);
            EntryType::OPDSEntry(copy)
        },
    }
}

/// Copies a list of entries, view for view.
pub fn dup_entries(v: &Vec<EntryType>) -> (r: Vec<EntryType>)
    ensures
        entries_view(r@) == entries_view(v@),
{
    let mut out: Vec<EntryType> = Vec::new();
    let mut i: usize = 0;
    while i < v.len()
        invariant
            i <= v@.len(),
            out@.len() == i,
            forall|j: int| 0 <= j < i ==> (#[trigger] out@[j])@ == v@[j]@,
        decreases v@.len() - i,
    {
        out.push(dup_entry(&v[i]));
        i += 1;
    }
    assert(entries_view(out@) =~= entries_view(v@));
    out
}

/// The comma-joined author names, absent when there are none.
pub open spec fn author_spec(authors: Seq<Seq<char>>) -> Option<Seq<char>> {
    if authors.len() == 0 {
        None
    } else {
        Some(join_with(authors, ","@))
    }
}

/// The details text of an entry: the summary, the content value and the
/// comma-joined category labels, each present only when the entry has it.
pub open spec fn details_spec(e: AtomEntryV) -> Seq<char> {
    (match e.summary {
        Some(s) => "Summary: "@ + s + "\n\n"@,
        None => Seq::empty(),
    }) + (match e.content {
        Some(c) => c + "\n"@,
        None => Seq::empty(),
    }) + (if e.categories.len() > 0 {
        "Categories: "@ + join_with(e.categories, ","@)
    } else {
        Seq::empty()
    })
}

/// Whether a link relation names an acquisition kind the library does not
/// support: borrowing, buying, subscribing or sampling.
pub open spec fn is_unsupported_rel(rel: Seq<char>) -> bool {
    has_sub(rel, "acquisition"@) && (has_sub(rel, "borrow"@) || has_sub(rel, "buy"@) || has_sub(
        rel,
        "subscribe"@,
    ) || has_sub(rel, "sample"@))
}

/// Checks a link relation, as `is_unsupported_rel` describes.
pub fn check_unsupported_rel(rel: &str) -> (r: bool)
    ensures
        r == is_unsupported_rel(rel@),
{
    str_has_sub(rel, "acquisition") && (str_has_sub(rel, "borrow") || str_has_sub(rel, "buy")
        || str_has_sub(rel, "subscribe") || str_has_sub(rel, "sample"))
}

/// What the walk over an entry's links accumulates.
#[verifier::ext_equal]
pub struct LinkAcc {
    pub downloads: Seq<(Seq<char>, Seq<char>)>,
    pub image: Option<Seq<char>>,
    pub href: Option<Seq<char>>,
    pub unsupported: Option<Seq<char>>,
}

/// The accumulator before any link is seen.
pub open spec fn empty_acc() -> LinkAcc {
    LinkAcc { downloads: Seq::empty(), image: None, href: None, unsupported: None }
}

/// One link's contribution: its href is resolved against the domain, an
/// unsupported acquisition relation overwrites the mark, and the link
/// lands in href, image or the downloads by its mime-type, which every
/// link must carry.
pub open spec fn link_step(acc: LinkAcc, l: AtomLinkV, domain: Seq<char>) -> Result<
    LinkAcc,
    OpdsError,
> {
    match parse_href_spec(l.href, domain) {
        Err(_) => Err(OpdsError::BadUrl),
        Ok(h) => {
            let unsupported = if is_unsupported_rel(l.rel) {
                Some(l.rel)
            } else {
                acc.unsupported
            };
            match l.mime_type {
                None => Err(OpdsError::MissingMime),
                Some(mt) => Ok(
                    if has_sub(mt, "application/atom+xml"@) {
                        LinkAcc {
                            downloads: acc.downloads,
                            image: acc.image,
                            href: Some(h),
                            unsupported,
                        }
                    } else if has_sub(mt, "image"@) {
                        LinkAcc {
                            downloads: acc.downloads,
                            image: Some(h),
                            href: acc.href,
                            unsupported,
                        }
                    } else {
                        LinkAcc {
                            downloads: acc.downloads.push((h, mt)),
                            image: acc.image,
                            href: acc.href,
                            unsupported,
                        }
                    },
                ),
            }
        },
    }
}

/// The walk over the links from position `i` on, starting from `acc`.
pub open spec fn links_fold_from(
    links: Seq<AtomLinkV>,
    i: int,
    acc: LinkAcc,
    domain: Seq<char>,
) -> Result<LinkAcc, OpdsError>
    decreases links.len() - i,
    when 0 <= i <= links.len()
{
    if i >= links.len() {
        Ok(acc)
    } else {
        match link_step(acc, links[i], domain) {
            Err(e) => Err(e),
            Ok(a2) => links_fold_from(links, i + 1, a2, domain),
        }
    }
}

/// The walk over all links of an entry.
pub open spec fn links_fold(links: Seq<AtomLinkV>, domain: Seq<char>) -> Result<
    LinkAcc,
    OpdsError,
> {
    links_fold_from(links, 0, empty_acc(), domain)
}

/// A link that the walk can always place: it carries a mime-type and its
/// reference resolves against the domain.
pub open spec fn link_ok(l: AtomLinkV, domain: Seq<char>) -> bool {
    l.mime_type is Some && parse_href_spec(l.href, domain) is Ok
}

/// The resolved reference of a link.
pub open spec fn resolved(l: AtomLinkV, domain: Seq<char>) -> Seq<char> {
    parse_href_spec(l.href, domain)->Ok_0
}

/// A link typed as an Atom feed: following it navigates.
pub open spec fn is_nav_link(l: AtomLinkV) -> bool {
    l.mime_type matches Some(m) && has_sub(m, "application/atom+xml"@)
}

/// A link typed as an image (and not as a feed): the entry's cover.
pub open spec fn is_image_link(l: AtomLinkV) -> bool {
    l.mime_type matches Some(m) && !has_sub(m, "application/atom+xml"@) && has_sub(m, "image"@)
}

/// A link typed as anything else: a download.
pub open spec fn is_download_link(l: AtomLinkV) -> bool {
    l.mime_type matches Some(m) && !has_sub(m, "application/atom+xml"@) && !has_sub(m, "image"@)
}

/// The classes of links whose last occurrence the walk keeps.
pub enum LinkClass {
    Nav,
    Image,
    Unsup,
}

/// Whether a link falls in a class.
pub open spec fn in_class(l: AtomLinkV, k: LinkClass) -> bool {
    match k {
        LinkClass::Nav => is_nav_link(l),
        LinkClass::Image => is_image_link(l),
        LinkClass::Unsup => is_unsupported_rel(l.rel),
    }
}

/// The position of the last link in class `k` at or after `i`, or `-1`.
pub open spec fn last_in_class_from(links: Seq<AtomLinkV>, i: int, k: LinkClass) -> int
    decreases links.len() - i,
    when 0 <= i <= links.len()
{
    if i >= links.len() {
        -1
    } else {
        let r = last_in_class_from(links, i + 1, k);
        if r >= 0 {
            r
        } else if in_class(links[i], k) {
            i
        } else {
            -1
        }
    }
}

/// The resolved download pairs of the links at or after `i`, in order.
pub open spec fn downloads_from(links: Seq<AtomLinkV>, i: int, domain: Seq<char>) -> Seq<
    (Seq<char>, Seq<char>),
>
    decreases links.len() - i,
    when 0 <= i <= links.len()
{
    if i >= links.len() {
        Seq::empty()
    } else {
        let rest = downloads_from(links, i + 1, domain);
        if is_download_link(links[i]) {
            seq![(resolved(links[i], domain), links[i].mime_type->0)] + rest
        } else {
            rest
        }
    }
}

proof fn lemma_fold_characterize(links: Seq<AtomLinkV>, i: int, acc: LinkAcc, domain: Seq<char>)
    requires
        0 <= i <= links.len(),
        forall|j: int| i <= j < links.len() ==> link_ok(#[trigger] links[j], domain),
    ensures
        links_fold_from(links, i, acc, domain) matches Ok(res) && ({
            let ln = last_in_class_from(links, i, LinkClass::Nav);
            let li = last_in_class_from(links, i, LinkClass::Image);
            let lu = last_in_class_from(links, i, LinkClass::Unsup);
            &&& res.downloads == acc.downloads + downloads_from(links, i, domain)
            &&& res.href == if ln >= 0 {
                Some(resolved(links[ln], domain))
            } else {
                acc.href
            }
            &&& res.image == if li >= 0 {
                Some(resolved(links[li], domain))
            } else {
                acc.image
            }
            &&& res.unsupported == if lu >= 0 {
                Some(links[lu].rel)
            } else {
                acc.unsupported
            }
        }),
    decreases links.len() - i,
{
    if i >= links.len() {
        assert(acc.downloads + downloads_from(links, i, domain) =~= acc.downloads);
    } else {
        let l = links[i];
        let a2 = link_step(acc, l, domain)->Ok_0;
        lemma_fold_characterize(links, i + 1, a2, domain);
        let res = links_fold_from(links, i, acc, domain)->Ok_0;
        if is_download_link(l) {
            let pair = (resolved(l, domain), l.mime_type->0);
            assert(a2.downloads == acc.downloads.push(pair));
            assert(acc.downloads.push(pair) + downloads_from(links, i + 1, domain)
                =~= acc.downloads + (seq![pair] + downloads_from(links, i + 1, domain)));
        } else {
            assert(a2.downloads == acc.downloads);
        }
    }
}

/// Law: the derivation is total on well-formed links. When every link of
/// an entry carries a mime-type and resolves against the domain, the walk
/// succeeds; its downloads are exactly the resolved pairs of the links
/// typed neither as a feed nor as an image, in order; its navigation
/// target is the last feed-typed link, resolved; its image is the last
/// image-typed link, resolved.
pub proof fn lemma_derivation_total(links: Seq<AtomLinkV>, domain: Seq<char>)
    requires
        forall|j: int| 0 <= j < links.len() ==> link_ok(#[trigger] links[j], domain),
    ensures
        links_fold(links, domain) matches Ok(res) && ({
            let ln = last_in_class_from(links, 0, LinkClass::Nav);
            let li = last_in_class_from(links, 0, LinkClass::Image);
            let lu = last_in_class_from(links, 0, LinkClass::Unsup);
            &&& res.downloads == downloads_from(links, 0, domain)
            &&& res.href == if ln >= 0 {
                Some(resolved(links[ln], domain))
            } else {
                None::<Seq<char>>
            }
            &&& res.image == if li >= 0 {
                Some(resolved(links[li], domain))
            } else {
                None::<Seq<char>>
            }
            &&& res.unsupported == if lu >= 0 {
                Some(links[lu].rel)
            } else {
                None::<Seq<char>>
            }
        }),
{
    lemma_fold_characterize(links, 0, empty_acc(), domain);
    assert(empty_acc().downloads + downloads_from(links, 0, domain) =~= downloads_from(
        links,
        0,
        domain,
    ));
}

proof fn lemma_unsup_from(links: Seq<AtomLinkV>, i: int, acc: LinkAcc, domain: Seq<char>)
    requires
        0 <= i <= links.len(),
        links_fold_from(links, i, acc, domain) is Ok,
        acc.unsupported is Some || exists|j: int|
            i <= j < links.len() && is_unsupported_rel(#[trigger] links[j].rel),
    ensures
        links_fold_from(links, i, acc, domain)->Ok_0.unsupported is Some,
    decreases links.len() - i,
{
    if i >= links.len() {
    } else {
        let a2 = link_step(acc, links[i], domain)->Ok_0;
        if acc.unsupported is Some || is_unsupported_rel(links[i].rel) {
            assert(a2.unsupported is Some);
            lemma_unsup_from(links, i + 1, a2, domain);
        } else {
            let j = choose|j: int|
                i <= j < links.len() && is_unsupported_rel(#[trigger] links[j].rel);
            assert(i + 1 <= j < links.len());
            lemma_unsup_from(links, i + 1, a2, domain);
        }
    }
}

/// Law: a link whose relation names an unsupported acquisition kind marks
/// the derived entry, whenever the walk succeeds at all.
pub proof fn lemma_unsupported_marked(links: Seq<AtomLinkV>, domain: Seq<char>, j: int)
    requires
        0 <= j < links.len(),
        is_unsupported_rel(links[j].rel),
        links_fold(links, domain) is Ok,
    ensures
        links_fold(links, domain)->Ok_0.unsupported is Some,
{
    lemma_unsup_from(links, 0, empty_acc(), domain);
}

/// What deriving an OPDS entry yields: the entry's title, details and
/// authors together with the walked links.
pub open spec fn derive_entry_spec(e: AtomEntryV, domain: Seq<char>) -> Result<
    EntryDataV,
    OpdsError,
> {
    match links_fold(e.links, domain) {
        Err(err) => Err(err),
        Ok(acc) => Ok(
            EntryDataV {
                title: e.title,
                details: details_spec(e),
                author: author_spec(e.authors),
                unsupported: acc.unsupported,
                downloads: acc.downloads,
                image: acc.image,
                href: acc.href,
            },
        ),
    }
}

/// Every entry of the sequence derives without error.
pub open spec fn derives_all(es: Seq<AtomEntryV>, domain: Seq<char>) -> bool {
    forall|j: int| 0 <= j < es.len() ==> derive_entry_spec(#[trigger] es[j], domain) is Ok
}

/// The entries a feed's entries derive to, in feed order.
pub open spec fn derived_entries(es: Seq<AtomEntryV>, domain: Seq<char>) -> Seq<EntryV> {
    es.map_values(|e: AtomEntryV| EntryV::Opds(derive_entry_spec(e, domain)->Ok_0))
}

/// Law: the derivation is total on well-formed Atom entries — when every
/// link carries a mime-type and resolves against the domain, deriving
/// the entry succeeds.
pub proof fn lemma_entry_total(e: AtomEntryV, domain: Seq<char>)
    requires
        forall|j: int| 0 <= j < e.links.len() ==> link_ok(#[trigger] e.links[j], domain),
    ensures
        derive_entry_spec(e, domain) is Ok,
{
    lemma_derivation_total(e.links, domain);
}

/// Law: an entry with a link whose relation names an unsupported
/// acquisition kind comes out marked, whenever the derivation succeeds
/// at all.
pub proof fn lemma_entry_unsupported(e: AtomEntryV, domain: Seq<char>, j: int)
    requires
        0 <= j < e.links.len(),
        is_unsupported_rel(e.links[j].rel),
        derive_entry_spec(e, domain) is Ok,
    ensures
        derive_entry_spec(e, domain)->Ok_0.unsupported is Some,
{
    lemma_unsupported_marked(e.links, domain, j);
}

/// Derives an OPDS entry from an Atom entry, as `derive_entry_spec`
/// describes, resolving link references against `base_url`.
pub fn process_opds_entry(entry: &AtomEntry, base_url: &UrlBuf) -> (r: Result<
    EntryType,
    OpdsError,
>)
    ensures
        match r {
            Ok(et) => derive_entry_spec(entry@, base_url@) is Ok && et@ == EntryV::Opds(
                derive_entry_spec(entry@, base_url@)->Ok_0,
            ),
            Err(e) => derive_entry_spec(entry@, base_url@) == Err::<EntryDataV, OpdsError>(e),
        },
{
    let ghost links = links_view(entry.links@);
    let ghost domain = base_url@;
    let mut downloads: Vec<(UrlBuf, String)> = Vec::new();
    let mut image: Option<UrlBuf> = None;
    let mut f_href: Option<UrlBuf> = None;
    let mut unsupported: Option<String> = None;
    let mut i: usize = 0;
    proof {
        assert(LinkAcc {
            downloads: downloads_view(downloads@),
            image: opt_url_view(image),
            href: opt_url_view(f_href),
            unsupported: opt_view(unsupported),
        } =~= empty_acc());
    }
    while i < entry.links.len()
        invariant
            links == links_view(entry.links@),
            domain == base_url@,
            i <= entry.links@.len(),
            links.len() == entry.links@.len(),
            links_fold(links, domain) == links_fold_from(
                links,
                i as int,
                LinkAcc {
                    downloads: downloads_view(downloads@),
                    image: opt_url_view(image),
                    href: opt_url_view(f_href),
                    unsupported: opt_view(unsupported),
                },
                domain,
            ),
        decreases entry.links@.len() - i,
    {
        let ghost acc = LinkAcc {
            downloads: downloads_view(downloads@),
            image: opt_url_view(image),
            href: opt_url_view(f_href),
            unsupported: opt_view(unsupported),
        };
        let l = &entry.links[i];
        assert(l@ == links[i as int]);
        let h = match parse_href(l.href.as_str(), base_url) {
            Ok(h) => h,
            Err(_) => {
                assert(link_step(acc, links[i as int], domain) == Err::<LinkAcc, OpdsError>(
                    OpdsError::BadUrl,
                ));
                return Err(OpdsError::BadUrl);
            },
        };
        if check_unsupported_rel(l.rel.as_str()) {
            unsupported = Some(l.rel.clone());
        }
        match &l.mime_type {
            None => {
                assert(link_step(acc, links[i as int], domain) == Err::<LinkAcc, OpdsError>(
                    OpdsError::MissingMime,
                ));
                return Err(OpdsError::MissingMime);
            },
            Some(mt) => {
                if str_has_sub(mt.as_str(), "application/atom+xml") {
                    f_href = Some(h);
                } else if str_has_sub(mt.as_str(), "image") {
                    image = Some(h);
                } else {
                    downloads.push((h, mt.clone()));
                }
            },
        }
        proof {
            let acc2 = LinkAcc {
                downloads: downloads_view(downloads@),
                image: opt_url_view(image),
                href: opt_url_view(f_href),
                unsupported: opt_view(unsupported),
            };
            assert(link_step(acc, links[i as int], domain) matches Ok(a) && a =~= acc2) by {
                assert(downloads_view(downloads@) =~= downloads_view(downloads@));
                if links[i as int].mime_type matches Some(m) && !has_sub(
                    m,
                    "application/atom+xml"@,
                ) && !has_sub(m, "image"@) {
                    assert(downloads_view(downloads@) =~= acc.downloads.push(
                        (downloads@.last().0@, downloads@.last().1@),
                    ));
                }
            }
        }
        i += 1;
    }
    let acc_final: Ghost<LinkAcc> = Ghost(
        LinkAcc {
            downloads: downloads_view(downloads@),
            image: opt_url_view(image),
            href: opt_url_view(f_href),
            unsupported: opt_view(unsupported),
        },
    );
    assert(links_fold(links, domain) == Ok::<LinkAcc, OpdsError>(acc_final@));

    let author: Option<String> = if entry.authors.len() == 0 {
        None
    } else {
        Some(join_strings(&entry.authors, ","))
    };

    let mut details: String = String::new();
    match &entry.summary {
        Some(s) => {
            details.append("Summary: ");
            details.append(s.as_str());
            details.append("\n\n");
        },
        None => {},
    }
    match &entry.content {
        Some(c) => {
            details.append(c.as_str());
            details.append("\n");
        },
        None => {},
    }
    if entry.categories.len() > 0 {
        details.append("Categories: ");
        let cats = join_strings(&entry.categories, ",");
        details.append(cats.as_str());
    }
    assert(details@ =~= details_spec(entry@));

    let data = EntryData {
        title: entry.title.clone(),
        author,
        details,
        unsupported,
        downloads,
        image,
        href: f_href,
    };
    proof {
        assert(derive_entry_spec(entry@, base_url@) matches Ok(d) && d =~= data@);
    }
    Ok(EntryType::OPDSEntry(data))
}

} // verus!
