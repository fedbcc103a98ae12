//! Connections: the navigable surface over the local download directory
//! and over remote OPDS catalogs.
//!
//! Both kinds keep a history stack of addresses. Navigating pushes the
//! target unconditionally; going back pops, and fails on an empty stack.
//! The remote kind also keeps an unbounded page cache keyed by address
//! and, when the server advertises one, a search URL template.
//!
//! Fetching itself — reading a directory, an HTTP GET — stays outside
//! the library: what was fetched comes in as an argument (a directory
//! listing, a response body), and everything decided about it here is
//! verified.

use vstd::prelude::*;
use vstd::string::StringExecFns;

use crate::errors::OpdsError;
use crate::feed::{
    feed_entries_of, feed_links_of, find_search_link, osd_outcome, osd_search_url,
    parse_feed_entries, parse_feed_links, search_link_target, xml_elements,
};
use crate::headers::{cd_filename, extract_filename_from_content_disposition};
use crate::model::{
    derive_entry_spec, derived_entries, derives_all, dup_entries, entries_view, opt_view,
    process_opds_entry, title_of, EntryType, EntryV,
};
use crate::server::Server;
use crate::text::{chars_vec, contains_sub, has_sub, replace_all, replace_sub, string_from_chars};
use crate::urls::{
    parse_abs_url, url_last_path_segment, url_last_segment, url_parse_ok, url_scheme_host, UrlBuf,
};

verus! {

/// The views of a history stack.
pub open spec fn urls_view(h: Seq<UrlBuf>) -> Seq<Seq<char>> {
    h.map_values(|u: UrlBuf| u@)
}

/// One name of a directory listing, marked as file or directory.
#[derive(Debug)]
pub struct LocalEntry {
    pub name: String,
    pub is_file: bool,
}

/// The view of a listing name.
#[verifier::ext_equal]
pub struct LocalEntryV {
    pub name: Seq<char>,
    pub is_file: bool,
}

impl View for LocalEntry {
    type V = LocalEntryV;

    open spec fn view(&self) -> LocalEntryV {
        LocalEntryV { name: self.name@, is_file: self.is_file }
    }
}

/// The views of a listing.
pub open spec fn listing_view(l: Seq<LocalEntry>) -> Seq<LocalEntryV> {
    l.map_values(|e: LocalEntry| e@)
}

/// The address of a listing name below a directory.
pub open spec fn local_child(addr: Seq<char>, name: Seq<char>) -> Seq<char> {
    addr + "/"@ + name
}

/// The entry a listing name becomes: a file or directory at
/// `addr`/`name`, titled by the name.
pub open spec fn local_entry_spec(addr: Seq<char>, le: LocalEntryV) -> EntryV {
    if le.is_file {
        EntryV::File(le.name, local_child(addr, le.name))
    } else {
        EntryV::Directory(le.name, local_child(addr, le.name))
    }
}

/// The page of a directory: its listing, entry for entry, in order.
pub open spec fn local_page_spec(addr: Seq<char>, listing: Seq<LocalEntryV>) -> Seq<EntryV> {
    listing.map_values(|le: LocalEntryV| local_entry_spec(addr, le))
}

/// The entries of a local search: the page entries whose title holds the
/// query, in order.
pub open spec fn local_search_spec(
    addr: Seq<char>,
    listing: Seq<LocalEntryV>,
    q: Seq<char>,
) -> Seq<EntryV>
    decreases listing.len(),
{
    if listing.len() == 0 {
        Seq::empty()
    } else {
        let e = local_entry_spec(addr, listing[0]);
        let rest = local_search_spec(addr, listing.skip(1), q);
        if has_sub(title_of(e), q) {
            seq![e] + rest
        } else {
            rest
        }
    }
}

/// Builds the entry for one listing name.
fn build_local_entry(addr: &UrlBuf, le: &LocalEntry) -> (r: EntryType)
    ensures
        r@ == local_entry_spec(addr@, le@),
{
    let mut t: String = addr.as_str().to_owned();
    t.append("/");
    t.append(le.name.as_str());
    let u = UrlBuf::from_string(t);
    if le.is_file {
        EntryType::File(le.name.clone(), u)
    } else {
        EntryType::Directory(le.name.clone(), u)
    }
}

/// The connection to the local download directory.
#[derive(Debug)]
pub struct LocalConnection {
    pub history: Vec<UrlBuf>,
    pub init_dir: UrlBuf,
}

impl LocalConnection {
    /// The history stack, as address text.
    pub open spec fn hist(self) -> Seq<Seq<char>> {
        urls_view(self.history@)
    }

    /// The current address: the top of the history, or the download
    /// directory when the history is empty.
    pub open spec fn cur(self) -> Seq<char> {
        if self.hist().len() == 0 {
            self.init_dir@
        } else {
            self.hist().last()
        }
    }

    /// A fresh connection rooted at the download directory.
    pub fn new(init_dir: UrlBuf) -> (r: LocalConnection)
        ensures
            r.history@.len() == 0,
            r.init_dir == init_dir,
    {
        LocalConnection { history: Vec::new(), init_dir }
    }

    /// The current address, as `cur` describes.
    pub fn current_address(&self) -> (r: UrlBuf)
        ensures
            r@ == self.cur(),
    {
        let n = self.history.len();
        if n == 0 {
            self.init_dir.dup()
        } else {
            self.history[n - 1].dup()
        }
    }

    /// Pushes the target on the history, unconditionally: on a failed
    /// page read the caller may go back, or leave the address visible.
    pub fn navigate_to(&mut self, addr: &UrlBuf)
        ensures
            final(self).hist() == old(self).hist().push(addr@),
            final(self).init_dir == old(self).init_dir,
    {
        self.history.push(addr.dup());
        assert(urls_view(self.history@) =~= urls_view(old(self).history@).push(addr@));
    }

    /// Pops the history and yields the address to re-read; fails when
    /// the history is empty.
    pub fn back(&mut self) -> (r: Result<UrlBuf, OpdsError>)
        ensures
            final(self).init_dir == old(self).init_dir,
            old(self).history@.len() == 0 ==> final(self).history@ == old(self).history@ && (
            r matches Err(e) && e is LocalRoot),
            old(self).history@.len() > 0 ==> final(self).hist() == old(self).hist().drop_last()
                && (r matches Ok(u) && u@ == final(self).cur()),
    {
        if self.history.len() == 0 {
            return Err(OpdsError::LocalRoot);
        }
        self.history.pop();
        assert(urls_view(self.history@) =~= urls_view(old(self).history@).drop_last());
        Ok(self.current_address())
    }

    /// The page of a directory, built from its listing.
    pub fn get_page(addr: &UrlBuf, listing: &Vec<LocalEntry>) -> (r: Vec<EntryType>)
        ensures
            entries_view(r@) == local_page_spec(addr@, listing_view(listing@)),
    {
        let mut out: Vec<EntryType> = Vec::new();
        let mut i: usize = 0;
        while i < listing.len()
            invariant
                i <= listing@.len(),
                out@.len() == i,
                forall|j: int|
                    0 <= j < i ==> (#[trigger] out@[j])@ == local_entry_spec(
                        addr@,
                        listing@[j]@,
                    ),
            decreases listing@.len() - i,
        {
            out.push(build_local_entry(addr, &listing[i]));
            i += 1;
        }
        assert(entries_view(out@) =~= local_page_spec(addr@, listing_view(listing@)));
        out
    }

    /// Searches the current directory: re-reads it — pushing the address
    /// on the history, so that going back undoes the search — and keeps
    /// the entries whose title holds the query.
    pub fn search(&mut self, query: &str, listing: &Vec<LocalEntry>) -> (r: Vec<EntryType>)
        ensures
            final(self).hist() == old(self).hist().push(old(self).cur()),
            final(self).init_dir == old(self).init_dir,
            entries_view(r@) == local_search_spec(
                old(self).cur(),
                listing_view(listing@),
                query@,
            ),
    {
        let cur = self.current_address();
        self.navigate_to(&cur);
        let ghost lv = listing_view(listing@);
        let qv = chars_vec(query);
        let mut out: Vec<EntryType> = Vec::new();
        let mut i: usize = 0;
        proof {
            assert(lv.skip(0) =~= lv);
        }
        while i < listing.len()
            invariant
                cur@ == old(self).cur(),
                qv@ == query@,
                lv == listing_view(listing@),
                i <= listing@.len(),
                lv.len() == listing@.len(),
                local_search_spec(cur@, lv, query@) == entries_view(out@) + local_search_spec(
                    cur@,
                    lv.skip(i as int),
                    query@,
                ),
            decreases listing@.len() - i,
        {
            let ghost pre = entries_view(out@);
            proof {
                assert(lv.skip(i as int)[0] == lv[i as int]);
                assert(lv.skip(i as int).skip(1) =~= lv.skip(i + 1));
            }
            let nv = chars_vec(listing[i].name.as_str());
            let e = build_local_entry(&cur, &listing[i]);
            if contains_sub(&nv, &qv) {
                assert(title_of(local_entry_spec(cur@, lv[i as int])) == lv[i as int].name);
                out.push(e);
                proof {
                    assert(entries_view(out@) =~= pre.push(
                        local_entry_spec(cur@, lv[i as int]),
                    ));
                    assert(pre + (seq![local_entry_spec(cur@, lv[i as int])]
                        + local_search_spec(cur@, lv.skip(i + 1), query@)) =~= pre.push(
                        local_entry_spec(cur@, lv[i as int]),
                    ) + local_search_spec(cur@, lv.skip(i + 1), query@));
                }
            } else {
                assert(title_of(local_entry_spec(cur@, lv[i as int])) == lv[i as int].name);
            }
            i += 1;
        }
        proof {
            assert(lv.skip(lv.len() as int) =~= Seq::<LocalEntryV>::empty());
            assert(entries_view(out@) + Seq::<EntryV>::empty() =~= entries_view(out@));
        }
        out
    }

    /// Cover bytes for a local entry: none yet, always empty.
    pub fn get_image_bytes(&self, addr: &UrlBuf) -> (r: Vec<u8>)
        ensures
            r@ == Seq::<u8>::empty(),
    {
        let _ = addr;
        Vec::new()
    }
}

/// The page cached under an address: the first stored pair that carries
/// the address, newest first.
pub open spec fn cache_lookup(c: Seq<(UrlBuf, Vec<EntryType>)>, key: Seq<char>) -> Option<
    Seq<EntryV>,
>
    decreases c.len(),
{
    if c.len() == 0 {
        None
    } else if c[0].0@ == key {
        Some(entries_view(c[0].1@))
    } else {
        cache_lookup(c.skip(1), key)
    }
}

/// A connection to a remote OPDS catalog.
#[derive(Debug)]
pub struct OnlineConnection {
    /// The server's base URL and username.
    pub server_info: Server,
    pub history: Vec<UrlBuf>,
    /// Pages already fetched, newest first, never invalidated.
    pub cache: Vec<(UrlBuf, Vec<EntryType>)>,
    /// The password read from the credential store, when there is one.
    pub password: Option<String>,
    /// The search URL template, once discovery found one.
    pub search_url: Option<String>,
}

impl OnlineConnection {
    /// The history stack, as address text.
    pub open spec fn hist(self) -> Seq<Seq<char>> {
        urls_view(self.history@)
    }

    /// The current address: the top of the history, or the server's base
    /// URL when the history is empty.
    pub open spec fn cur(self) -> Seq<char> {
        if self.hist().len() == 0 {
            self.server_info.base_url@
        } else {
            self.hist().last()
        }
    }

    /// Opens a connection from the fetched body of the server's base
    /// URL: succeeds exactly when the body parses as an Atom feed.
    /// Beside the connection comes the address of the server's
    /// OpenSearch descriptor — the first search link of the feed,
    /// resolved against the catalog domain — or nothing when discovery
    /// fails at any step; fetching the descriptor and calling
    /// `apply_search_descriptor` completes search discovery.
    pub fn new(server: Server, password: Option<String>, body: &[u8]) -> (r: Result<
        (OnlineConnection, Option<UrlBuf>),
        OpdsError,
    >)
        ensures
            match r {
                Ok((c, osd)) => feed_links_of(body@) is Some && c.history@.len() == 0
                    && c.cache@.len() == 0 && c.server_info == server && c.password == password
                    && c.search_url is None && ({
                    let links = feed_links_of(body@)->0;
                    match url_scheme_host(server@.base_url) {
                        Some(d) => match osd {
                            Some(u) => search_link_target(links, d) == Some(u@),
                            None => search_link_target(links, d) is None,
                        },
                        None => osd is None,
                    }
                }),
                Err(e) => e is FeedParse && feed_links_of(body@) is None,
            },
    {
        let links = match parse_feed_links(body) {
            Ok(ls) => ls,
            Err(m) => return Err(OpdsError::FeedParse(m)),
        };
        let osd = match server.get_domain() {
            Some(d) => find_search_link(&links, &d),
            None => None,
        };
        Ok(
            (
                OnlineConnection {
                    server_info: server,
                    history: Vec::new(),
                    cache: Vec::new(),
                    password,
                    search_url: None,
                },
                osd,
            ),
        )
    }

    /// Reads a fetched OpenSearch descriptor and stores the search
    /// template it advertises — the descriptor's Atom template, resolved
    /// against the catalog domain, as `osd_outcome` describes; on any
    /// failure the connection keeps no search capability.
    pub fn apply_search_descriptor(&mut self, body: &str)
        ensures
            final(self).server_info == old(self).server_info,
            final(self).history@ == old(self).history@,
            final(self).cache@ == old(self).cache@,
            final(self).password == old(self).password,
            opt_view(final(self).search_url) == osd_outcome(
                body@,
                old(self).server_info.base_url@,
            ),
    {
        let found: Option<UrlBuf> = match xml_elements(body) {
            None => None,
            Some(els) => match self.server_info.get_domain() {
                Some(d) => osd_search_url(&els, &d),
                None => None,
            },
        };
        self.search_url = match found {
            Some(u) => Some(u.into_string()),
            None => None,
        };
    }

    /// The current address, as `cur` describes.
    pub fn current_address(&self) -> (r: UrlBuf)
        ensures
            r@ == self.cur(),
    {
        let n = self.history.len();
        if n == 0 {
            self.server_info.base_url.dup()
        } else {
            self.history[n - 1].dup()
        }
    }

    /// Pushes the target on the history, unconditionally.
    pub fn navigate_to(&mut self, addr: &UrlBuf)
        ensures
            final(self).hist() == old(self).hist().push(addr@),
            final(self).server_info == old(self).server_info,
            final(self).cache@ == old(self).cache@,
            final(self).password == old(self).password,
            final(self).search_url == old(self).search_url,
    {
        self.history.push(addr.dup());
        assert(urls_view(self.history@) =~= urls_view(old(self).history@).push(addr@));
    }

    /// Pops the history and yields the address to re-fetch; fails when
    /// the history is empty.
    pub fn back(&mut self) -> (r: Result<UrlBuf, OpdsError>)
        ensures
            final(self).server_info == old(self).server_info,
            final(self).cache@ == old(self).cache@,
            final(self).password == old(self).password,
            final(self).search_url == old(self).search_url,
            old(self).history@.len() == 0 ==> final(self).history@ == old(self).history@ && (
            r matches Err(e) && e is RemoteRoot),
            old(self).history@.len() > 0 ==> final(self).hist() == old(self).hist().drop_last()
                && (r matches Ok(u) && u@ == final(self).cur()),
    {
        if self.history.len() == 0 {
            return Err(OpdsError::RemoteRoot);
        }
        self.history.pop();
        assert(urls_view(self.history@) =~= urls_view(old(self).history@).drop_last());
        Ok(self.current_address())
    }

    /// The cached page under an address, when one is stored: then no
    /// request is needed at all.
    pub fn get_page_cached(&self, addr: &UrlBuf) -> (r: Option<&Vec<EntryType>>)
        ensures
            match r {
                Some(v) => cache_lookup(self.cache@, addr@) == Some(entries_view(v@)),
                None => cache_lookup(self.cache@, addr@) is None,
            },
    {
        let mut i: usize = 0;
        proof {
            assert(self.cache@.skip(0) =~= self.cache@);
        }
        while i < self.cache.len()
            invariant
                i <= self.cache@.len(),
                cache_lookup(self.cache@, addr@) == cache_lookup(
                    self.cache@.skip(i as int),
                    addr@,
                ),
            decreases self.cache@.len() - i,
        {
            proof {
                assert(self.cache@.skip(i as int)[0] == self.cache@[i as int]);
                assert(self.cache@.skip(i as int).skip(1) =~= self.cache@.skip(i + 1));
            }
            if self.cache[i].0.same_as(addr) {
                return Some(&self.cache[i].1);
            }
            i += 1;
        }
        assert(self.cache@.skip(self.cache@.len() as int) =~= Seq::<(
            UrlBuf,
            Vec<EntryType>,
        )>::empty());
        None
    }

    /// Reads a fetched page body for an address that is not yet cached —
    /// `get_page` checks the cache first, and the cache is never
    /// invalidated. Succeeds exactly when the server's base URL has a
    /// domain, the body parses as an Atom feed, and every feed entry
    /// derives; then the returned page holds the derived entries, in
    /// feed order, and is stored in the cache under the address. On any
    /// failure the connection is unchanged, and the failure names the
    /// first thing that went wrong.
    pub fn page_fetched(&mut self, addr: &UrlBuf, body: &[u8]) -> (r: Result<
        Vec<EntryType>,
        OpdsError,
    >)
        requires
            cache_lookup(old(self).cache@, addr@) is None,
        ensures
            final(self).history@ == old(self).history@,
            final(self).server_info == old(self).server_info,
            final(self).password == old(self).password,
            final(self).search_url == old(self).search_url,
            ({
                let dom = url_scheme_host(old(self).server_info.base_url@);
                &&& (r is Ok <==> dom is Some && feed_entries_of(body@) is Some && derives_all(
                    feed_entries_of(body@)->0,
                    dom->0,
                ))
                &&& match r {
                    Ok(v) => entries_view(v@) == derived_entries(
                        feed_entries_of(body@)->0,
                        dom->0,
                    ) && final(self).cache@.len() == old(self).cache@.len() + 1 && final(self).cache@.skip(1) == old(self).cache@ && final(self).cache@[0].0@ == addr@
                        && cache_lookup(final(self).cache@, addr@) == Some(entries_view(v@)),
                    Err(e) => final(self).cache@ == old(self).cache@ && (dom is None
                        ==> e is NoDomain) && (dom is Some && feed_entries_of(body@) is None
                        ==> e is FeedParse) && (dom is Some && feed_entries_of(body@) is Some
                        ==> (exists|j: int|
                        0 <= j < feed_entries_of(body@)->0.len() && derive_entry_spec(
                            #[trigger] feed_entries_of(body@)->0[j],
                            dom->0,
                        ) == Err::<crate::model::EntryDataV, OpdsError>(e) && (forall|k: int|
                            0 <= k < j ==> derive_entry_spec(
                                #[trigger] feed_entries_of(body@)->0[k],
                                dom->0,
                            ) is Ok))),
                }
            }),
    {
        let ghost dom = url_scheme_host(self.server_info.base_url@);
        let domain = match self.server_info.get_domain() {
            Some(d) => d,
            None => return Err(OpdsError::NoDomain),
        };
        let raw = match parse_feed_entries(body) {
            Ok(es) => es,
            Err(m) => return Err(OpdsError::FeedParse(m)),
        };
        let ghost ev = feed_entries_of(body@)->0;
        assert(ev == crate::model::atom_entries_view(raw@));
        let mut entries: Vec<EntryType> = Vec::new();
        let mut i: usize = 0;
        while i < raw.len()
            invariant
                dom == url_scheme_host(self.server_info.base_url@),
                dom is Some && domain@ == dom->0,
                feed_entries_of(body@) == Some(ev),
                ev == crate::model::atom_entries_view(raw@),
                i <= raw@.len(),
                ev.len() == raw@.len(),
                entries@.len() == i,
                forall|k: int|
                    0 <= k < i ==> derive_entry_spec(#[trigger] ev[k], dom->0) is Ok,
                forall|k: int|
                    0 <= k < i ==> (#[trigger] entries@[k])@ == EntryV::Opds(
                        derive_entry_spec(ev[k], dom->0)->Ok_0,
                    ),
            decreases raw@.len() - i,
        {
            assert(raw@[i as int]@ == ev[i as int]);
            match process_opds_entry(&raw[i], &domain) {
                Ok(et) => entries.push(et),
                Err(e) => {
                    proof {
                        assert(feed_entries_of(body@)->0 == ev);
                        assert(derive_entry_spec(feed_entries_of(body@)->0[i as int], dom->0)
                            == Err::<crate::model::EntryDataV, OpdsError>(e));
                        assert(forall|k: int|
                            0 <= k < i ==> derive_entry_spec(
                                #[trigger] feed_entries_of(body@)->0[k],
                                dom->0,
                            ) is Ok);
                        assert(!derives_all(feed_entries_of(body@)->0, dom->0));
                    }
                    return Err(e);
                },
            }
            i += 1;
        }
        assert(entries_view(entries@) =~= derived_entries(ev, dom->0));
        let copy = dup_entries(&entries);
        self.cache.insert(0, (addr.dup(), copy));
        proof {
            assert(self.cache@.skip(1) =~= old(self).cache@);
        }
        Ok(entries)
    }

    /// Substitutes the query for `{searchTerms}` in the search template
    /// — literally, with no encoding — parses the result and navigates
    /// to it, yielding the address to fetch. Fails when the server has
    /// no search template, or when the substituted text is no URL.
    pub fn search(&mut self, query: &str) -> (r: Result<UrlBuf, OpdsError>)
        ensures
            final(self).server_info == old(self).server_info,
            final(self).cache@ == old(self).cache@,
            final(self).password == old(self).password,
            final(self).search_url == old(self).search_url,
            old(self).search_url is None ==> final(self).history@ == old(self).history@ && (
            r matches Err(e) && e is SearchDisabled),
            old(self).search_url matches Some(t) ==> ({
                let target = replace_sub(t@, "{searchTerms}"@, query@);
                match url_parse_ok(target) {
                    Some(n) => r matches Ok(u) && u@ == n && final(self).hist() == old(self).hist().push(n),
                    None => final(self).history@ == old(self).history@ && (r matches Err(e)
                        && e is BadUrl),
                }
            }),
    {
        let template: String = match &self.search_url {
            None => return Err(OpdsError::SearchDisabled),
            Some(t) => t.clone(),
        };
        let tv = chars_vec(template.as_str());
        let pat = chars_vec("{searchTerms}");
        let qv = chars_vec(query);
        let target_chars = replace_all(&tv, &pat, &qv);
        let target = string_from_chars(&target_chars);
        match parse_abs_url(target.as_str()) {
            Err(_) => Err(OpdsError::BadUrl),
            Ok(u) => {
                let out = u.dup();
                self.navigate_to(&u);
                Ok(out)
            },
        }
    }
}

/// The filename a download gets: the `Content-Disposition` filename when
/// the header holds one, else the last segment of the URL's path, else
/// the supplied fallback (in practice a timestamp).
pub fn derive_download_filename(cd: Option<&str>, url: &UrlBuf, fallback: &str) -> (r: String)
    ensures
        ({
            let from_cd: Option<Seq<char>> = match cd {
                Some(c) => cd_filename(c@),
                None => None,
            };
            match from_cd {
                Some(f) => r@ == f,
                None => match url_last_segment(url@) {
                    Some(s) => r@ == s,
                    None => r@ == fallback@,
                },
            }
        }),
{
    if let Some(c) = cd {
        if let Some(f) = extract_filename_from_content_disposition(c) {
            return f;
        }
    }
    match url_last_path_segment(url) {
        Some(s) => s,
        None => fallback.to_owned(),
    }
}

/// A connection of either kind, behind one navigable surface.
#[derive(Debug)]
pub enum Connection {
    Local(LocalConnection),
    Online(OnlineConnection),
}

impl Connection {
    /// The history stack, as address text.
    pub open spec fn hist(self) -> Seq<Seq<char>> {
        match self {
            Connection::Local(c) => c.hist(),
            Connection::Online(c) => c.hist(),
        }
    }

    /// The connection's origin: the download directory, or the server's
    /// base URL.
    pub open spec fn origin(self) -> Seq<char> {
        match self {
            Connection::Local(c) => c.init_dir@,
            Connection::Online(c) => c.server_info.base_url@,
        }
    }

    /// The current address: the top of the history, or the origin.
    pub open spec fn cur(self) -> Seq<char> {
        if self.hist().len() == 0 {
            self.origin()
        } else {
            self.hist().last()
        }
    }

    /// Whether this is the local connection.
    pub open spec fn is_local(self) -> bool {
        self matches Connection::Local(_)
    }

    /// The current address, as `cur` describes.
    pub fn current_address(&self) -> (r: UrlBuf)
        ensures
            r@ == self.cur(),
    {
        match self {
            Connection::Local(c) => c.current_address(),
            Connection::Online(c) => c.current_address(),
        }
    }

    /// Pushes the target on the history, unconditionally.
    pub fn navigate_to(&mut self, addr: &UrlBuf)
        ensures
            final(self).hist() == old(self).hist().push(addr@),
            final(self).origin() == old(self).origin(),
            final(self).is_local() == old(self).is_local(),
    {
        match self {
            Connection::Local(c) => c.navigate_to(addr),
            Connection::Online(c) => c.navigate_to(addr),
        }
    }

    /// Pops the history and yields the address to re-read; fails when
    /// the history is empty.
    pub fn back(&mut self) -> (r: Result<UrlBuf, OpdsError>)
        ensures
            final(self).origin() == old(self).origin(),
            final(self).is_local() == old(self).is_local(),
            old(self).hist().len() == 0 ==> final(self).hist() == old(self).hist() && (
            r matches Err(e) && (old(self).is_local() ==> e is LocalRoot) && (
            !old(self).is_local() ==> e is RemoteRoot)),
            old(self).hist().len() > 0 ==> final(self).hist() == old(self).hist().drop_last()
                && (r matches Ok(u) && u@ == final(self).cur()),
    {
        match self {
            Connection::Local(c) => c.back(),
            Connection::Online(c) => c.back(),
        }
    }
}

/// Law: after a navigation, the current address is the navigated URL.
pub proof fn lemma_navigate_then_current(pre: Connection, post: Connection, u: Seq<char>)
    requires
        post.hist() == pre.hist().push(u),
    ensures
        post.cur() == u,
{
}

/// Law: navigating to one address, then to a second, then going back
/// lands on the first address again.
pub proof fn lemma_navigate_navigate_back(
    c0: Connection,
    c1: Connection,
    c2: Connection,
    c3: Connection,
    u1: Seq<char>,
    u2: Seq<char>,
)
    requires
        c1.hist() == c0.hist().push(u1),
        c2.hist() == c1.hist().push(u2),
        c3.hist() == c2.hist().drop_last(),
    ensures
        c3.cur() == u1,
{
    assert(c3.hist() =~= c1.hist());
    assert(c3.hist().last() == u1);
}

/// Law: the page cache is consistent. A page stored under an address is
/// exactly what a later lookup of that address answers — so a second
/// `get_page` of the same address is served from the cache and makes no
/// request — and storing a page touches no other address.
pub proof fn lemma_cache_round_trip(
    c: Seq<(UrlBuf, Vec<EntryType>)>,
    key: UrlBuf,
    page: Vec<EntryType>,
    other: Seq<char>,
)
    ensures
        cache_lookup(seq![(key, page)] + c, key@) == Some(entries_view(page@)),
        other != key@ ==> cache_lookup(seq![(key, page)] + c, other) == cache_lookup(c, other),
{
    let c2 = seq![(key, page)] + c;
    assert(c2[0] == (key, page));
    assert(c2.skip(1) =~= c);
}

} // verus!

