use ncopds::connection::{Connection, LocalConnection, LocalEntry, OnlineConnection};
use ncopds::errors::OpdsError;
use ncopds::server::Server;
use ncopds::urls::{parse_abs_url, UrlBuf};

fn file_url(s: &str) -> UrlBuf {
    parse_abs_url(s).unwrap()
}

fn plain_server(base: &str) -> Server {
    Server { username: None, base_url: parse_abs_url(base).unwrap() }
}

fn online(base: &str) -> OnlineConnection {
    OnlineConnection {
        server_info: plain_server(base),
        history: Vec::new(),
        cache: Vec::new(),
        password: None,
        search_url: None,
    }
}

#[test]
fn test_connection() {
    // NOTE: the test assumes that you have a valid config set up
}

#[test]
fn navigate_sets_current_address() {
    let mut c = LocalConnection::new(file_url("file:///tmp"));
    assert_eq!(c.current_address().as_str(), "file:///tmp");
    let u = file_url("file:///tmp/books");
    c.navigate_to(&u);
    assert_eq!(c.current_address().as_str(), "file:///tmp/books");
}

#[test]
fn navigate_twice_then_back_returns_to_first() {
    let mut c = LocalConnection::new(file_url("file:///tmp"));
    let u1 = file_url("file:///tmp/a");
    let u2 = file_url("file:///tmp/b");
    c.navigate_to(&u1);
    c.navigate_to(&u2);
    let back = c.back().unwrap();
    assert_eq!(back.as_str(), "file:///tmp/a");
    assert_eq!(c.current_address().as_str(), "file:///tmp/a");
}

#[test]
fn back_on_empty_history_fails_locally() {
    let mut c = LocalConnection::new(file_url("file:///tmp"));
    let e = c.back().unwrap_err();
    assert_eq!(e.message(), "At directory root; cannot go back.");
}

#[test]
fn back_on_empty_history_fails_remotely() {
    let mut c = online("https://ex.org/opds");
    let e = c.back().unwrap_err();
    assert_eq!(e.message(), "At ODPS root; cannot go back.");
}

#[test]
fn unified_connection_navigates_and_goes_back() {
    let mut c = Connection::Local(LocalConnection::new(file_url("file:///tmp")));
    let u1 = file_url("file:///tmp/a");
    let u2 = file_url("file:///tmp/b");
    c.navigate_to(&u1);
    c.navigate_to(&u2);
    assert_eq!(c.current_address().as_str(), "file:///tmp/b");
    c.back().unwrap();
    assert_eq!(c.current_address().as_str(), "file:///tmp/a");
}

const FEED: &str = r#"<?xml version="1.0" encoding="utf-8"?>
<feed xmlns="http://www.w3.org/2005/Atom">
  <title>Catalog</title>
  <id>urn:uuid:1</id>
  <updated>2020-01-01T00:00:00Z</updated>
  <entry>
    <title>Book</title>
    <id>urn:uuid:2</id>
    <updated>2020-01-01T00:00:00Z</updated>
    <link rel="subsection" type="application/atom+xml" href="/feed/1"/>
    <link rel="http://opds-spec.org/acquisition" type="application/epub+zip" href="/dl/1.epub"/>
  </entry>
</feed>"#;

#[test]
fn second_get_page_is_served_from_cache() {
    let mut c = online("https://ex.org/opds");
    let addr = parse_abs_url("https://ex.org/opds").unwrap();
    assert!(c.get_page_cached(&addr).is_none());

    let first = c.page_fetched(&addr, FEED.as_bytes()).unwrap();
    assert_eq!(first.len(), 1);

    let cached = c.get_page_cached(&addr).unwrap();
    assert_eq!(cached.len(), 1);
    assert_eq!(
        ncopds::model::get_title_for_entry(&cached[0]),
        ncopds::model::get_title_for_entry(&first[0])
    );
    // another address still needs a fetch
    let other = parse_abs_url("https://ex.org/other").unwrap();
    assert!(c.get_page_cached(&other).is_none());
}

#[test]
fn page_fetched_derives_the_entries() {
    let mut c = online("https://ex.org/opds");
    let addr = parse_abs_url("https://ex.org/opds").unwrap();
    let page = c.page_fetched(&addr, FEED.as_bytes()).unwrap();
    assert_eq!(page.len(), 1);
    match &page[0] {
        ncopds::model::EntryType::OPDSEntry(d) => {
            assert_eq!(d.title, "Book");
            assert_eq!(d.href.as_ref().unwrap().as_str(), "https://ex.org/feed/1");
            assert_eq!(d.downloads.len(), 1);
            assert_eq!(d.downloads[0].0.as_str(), "https://ex.org/dl/1.epub");
            assert_eq!(d.downloads[0].1, "application/epub+zip");
            assert!(d.image.is_none());
            assert!(d.unsupported.is_none());
        },
        _ => panic!("expected an OPDS entry"),
    }
}

#[test]
fn page_fetched_rejects_a_body_that_is_no_feed() {
    let mut c = online("https://ex.org/opds");
    let addr = parse_abs_url("https://ex.org/opds").unwrap();
    let e = c.page_fetched(&addr, b"this is not xml").unwrap_err();
    assert!(matches!(e, OpdsError::FeedParse(_)));
    assert!(c.get_page_cached(&addr).is_none());
}

#[test]
fn search_without_template_fails() {
    let mut c = online("https://ex.org/opds");
    let e = c.search("query").unwrap_err();
    assert_eq!(e.message(), "Server does not have searching enabled.");
}

#[test]
fn search_substitutes_the_query_literally() {
    let mut c = online("https://ex.org/opds");
    c.search_url = Some("https://ex.org/search?q={searchTerms}".to_string());
    let target = c.search("hello world").unwrap();
    // the url crate normalizes the space of the literal substitution
    assert_eq!(target.as_str(), "https://ex.org/search?q=hello%20world");
    assert_eq!(c.current_address().as_str(), target.as_str());
    // the search navigated: going back is possible
    assert!(c.back().is_ok());
}

#[test]
fn local_page_lists_files_and_directories() {
    let dir = file_url("file:///tmp/dl");
    let listing = vec![
        LocalEntry { name: "a.epub".to_string(), is_file: true },
        LocalEntry { name: "sub".to_string(), is_file: false },
    ];
    let page = LocalConnection::get_page(&dir, &listing);
    assert_eq!(page.len(), 2);
    match &page[0] {
        ncopds::model::EntryType::File(t, u) => {
            assert_eq!(t, "a.epub");
            assert_eq!(u.as_str(), "file:///tmp/dl/a.epub");
        },
        _ => panic!("expected a file"),
    }
    match &page[1] {
        ncopds::model::EntryType::Directory(t, u) => {
            assert_eq!(t, "sub");
            assert_eq!(u.as_str(), "file:///tmp/dl/sub");
        },
        _ => panic!("expected a directory"),
    }
}

#[test]
fn local_search_filters_by_title_and_pushes_history() {
    let dir = file_url("file:///tmp/dl");
    let mut c = LocalConnection::new(dir);
    let listing = vec![
        LocalEntry { name: "a.epub".to_string(), is_file: true },
        LocalEntry { name: "sub".to_string(), is_file: false },
    ];
    let hits = c.search("a.ep", &listing);
    assert_eq!(hits.len(), 1);
    match &hits[0] {
        ncopds::model::EntryType::File(t, u) => {
            assert_eq!(t, "a.epub");
            assert_eq!(u.as_str(), "file:///tmp/dl/a.epub");
        },
        _ => panic!("expected a file"),
    }
    assert_eq!(c.history.len(), 1);
    // back undoes the search
    assert!(c.back().is_ok());
    assert_eq!(c.history.len(), 0);
}

#[test]
fn local_image_bytes_are_empty() {
    let c = LocalConnection::new(file_url("file:///tmp"));
    let addr = file_url("file:///tmp/cover.png");
    assert!(c.get_image_bytes(&addr).is_empty());
}
