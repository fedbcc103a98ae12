use ncopds::connection::OnlineConnection;
use ncopds::feed::{osd_search_url, parse_osd, XmlElement};
use ncopds::server::Server;
use ncopds::urls::parse_abs_url;

const FEED_WITH_SEARCH: &str = r#"<?xml version="1.0" encoding="utf-8"?>
<feed xmlns="http://www.w3.org/2005/Atom">
  <title>Catalog</title>
  <id>urn:uuid:1</id>
  <updated>2020-01-01T00:00:00Z</updated>
  <link rel="search" type="application/opensearchdescription+xml" href="/opensearch.xml"/>
</feed>"#;

const OSD: &str = r#"<?xml version="1.0" encoding="UTF-8"?>
<OpenSearchDescription xmlns="http://a9.com/-/spec/opensearch/1.1/">
  <ShortName>Catalog</ShortName>
  <Url type="text/html" template="/search-html?q={searchTerms}"/>
  <Url type="application/atom+xml" template="/search?q={searchTerms}"/>
</OpenSearchDescription>"#;

fn server(base: &str) -> Server {
    Server { username: None, base_url: parse_abs_url(base).unwrap() }
}

#[test]
fn opening_a_connection_finds_the_search_link() {
    let (conn, osd) =
        OnlineConnection::new(server("https://ex.org/opds"), None, FEED_WITH_SEARCH.as_bytes())
            .unwrap();
    assert!(conn.search_url.is_none());
    assert!(conn.history.is_empty());
    assert!(conn.cache.is_empty());
    assert_eq!(osd.unwrap().as_str(), "https://ex.org/opensearch.xml");
}

#[test]
fn opening_a_connection_fails_on_a_bad_feed() {
    let e = OnlineConnection::new(server("https://ex.org/opds"), None, b"nope");
    assert!(e.is_err());
}

fn element(name: &str, attrs: &[(&str, &str)]) -> XmlElement {
    XmlElement {
        name: name.to_string(),
        attrs: attrs.iter().map(|(k, v)| (k.to_string(), v.to_string())).collect(),
    }
}

#[test]
fn the_descriptor_yields_the_atom_template() {
    let els = vec![
        element("OpenSearchDescription", &[]),
        element("ShortName", &[]),
        element("Url", &[("type", "text/html"), ("template", "/search-html?q={searchTerms}")]),
        element(
            "Url",
            &[("type", "application/atom+xml"), ("template", "/search?q={searchTerms}")],
        ),
    ];
    assert_eq!(parse_osd(&els).as_deref(), Some("/search?q={searchTerms}"));
    let domain = parse_abs_url("https://ex.org").unwrap();
    let template = osd_search_url(&els, &domain).unwrap();
    assert_eq!(template.as_str(), "https://ex.org/search?q={searchTerms}");
}

#[test]
fn a_descriptor_without_an_atom_url_yields_nothing() {
    let els = vec![element("Url", &[("type", "text/html"), ("template", "/h")])];
    assert!(parse_osd(&els).is_none());
}

#[test]
fn applying_the_descriptor_enables_search() {
    let (mut conn, _) =
        OnlineConnection::new(server("https://ex.org/opds"), None, FEED_WITH_SEARCH.as_bytes())
            .unwrap();
    conn.apply_search_descriptor(OSD);
    assert_eq!(conn.search_url.as_deref(), Some("https://ex.org/search?q={searchTerms}"));
    let target = conn.search("dune").unwrap();
    assert_eq!(target.as_str(), "https://ex.org/search?q=dune");
}

#[test]
fn applying_a_broken_descriptor_disables_search() {
    let (mut conn, _) =
        OnlineConnection::new(server("https://ex.org/opds"), None, FEED_WITH_SEARCH.as_bytes())
            .unwrap();
    conn.apply_search_descriptor("not xml");
    assert!(conn.search_url.is_none());
}
