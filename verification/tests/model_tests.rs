use ncopds::model::{
    get_title_for_entry, process_opds_entry, AtomEntry, AtomLink, EntryType,
};
use ncopds::urls::parse_abs_url;

fn link(href: &str, rel: &str, mime: Option<&str>) -> AtomLink {
    AtomLink {
        href: href.to_string(),
        rel: rel.to_string(),
        mime_type: mime.map(|m| m.to_string()),
    }
}

fn bare_entry(title: &str, links: Vec<AtomLink>) -> AtomEntry {
    AtomEntry {
        title: title.to_string(),
        authors: Vec::new(),
        summary: None,
        content: None,
        categories: Vec::new(),
        links,
    }
}

#[test]
fn derives_navigable_and_downloadable_links() {
    let domain = parse_abs_url("https://ex.org").unwrap();
    let entry = bare_entry(
        "Book",
        vec![
            link("/feed/1", "subsection", Some("application/atom+xml")),
            link("/dl/1.epub", "http://opds-spec.org/acquisition", Some("application/epub+zip")),
        ],
    );
    match process_opds_entry(&entry, &domain).unwrap() {
        EntryType::OPDSEntry(d) => {
            assert_eq!(d.title, "Book");
            assert_eq!(d.href.as_ref().unwrap().as_str(), "https://ex.org/feed/1");
            assert_eq!(d.downloads.len(), 1);
            assert_eq!(d.downloads[0].0.as_str(), "https://ex.org/dl/1.epub");
            assert_eq!(d.downloads[0].1, "application/epub+zip");
            assert!(d.image.is_none());
            assert!(d.unsupported.is_none());
            assert!(d.author.is_none());
            assert_eq!(d.details, "");
        },
        _ => panic!("expected an OPDS entry"),
    }
}

#[test]
fn image_links_become_the_cover() {
    let domain = parse_abs_url("https://ex.org").unwrap();
    let entry = bare_entry(
        "Book",
        vec![link("/covers/1.jpg", "http://opds-spec.org/image", Some("image/jpeg"))],
    );
    match process_opds_entry(&entry, &domain).unwrap() {
        EntryType::OPDSEntry(d) => {
            assert_eq!(d.image.as_ref().unwrap().as_str(), "https://ex.org/covers/1.jpg");
            assert!(d.href.is_none());
            assert!(d.downloads.is_empty());
        },
        _ => panic!("expected an OPDS entry"),
    }
}

#[test]
fn unsupported_acquisition_is_marked() {
    let domain = parse_abs_url("https://ex.org").unwrap();
    let rel = "http://opds-spec.org/acquisition/buy";
    let entry = bare_entry("Book", vec![link("/dl/1.epub", rel, Some("application/epub+zip"))]);
    match process_opds_entry(&entry, &domain).unwrap() {
        EntryType::OPDSEntry(d) => {
            assert_eq!(d.unsupported.as_deref(), Some(rel));
        },
        _ => panic!("expected an OPDS entry"),
    }
}

#[test]
fn every_unsupported_kind_is_recognized() {
    let domain = parse_abs_url("https://ex.org").unwrap();
    for kind in ["borrow", "buy", "subscribe", "sample"] {
        let rel = format!("http://opds-spec.org/acquisition/{}", kind);
        let entry = bare_entry("B", vec![link("/x", &rel, Some("application/epub+zip"))]);
        match process_opds_entry(&entry, &domain).unwrap() {
            EntryType::OPDSEntry(d) => assert_eq!(d.unsupported.as_deref(), Some(rel.as_str())),
            _ => panic!("expected an OPDS entry"),
        }
    }
}

#[test]
fn a_link_without_mime_type_is_a_parse_error() {
    let domain = parse_abs_url("https://ex.org").unwrap();
    let entry = bare_entry("Book", vec![link("/dl/1.epub", "alternate", None)]);
    let e = process_opds_entry(&entry, &domain).unwrap_err();
    assert_eq!(e.message(), "malformed feed, expected mime-type");
}

#[test]
fn details_and_author_are_assembled_in_order() {
    let domain = parse_abs_url("https://ex.org").unwrap();
    let entry = AtomEntry {
        title: "Book".to_string(),
        authors: vec!["Ann".to_string(), "Ben".to_string()],
        summary: Some("S".to_string()),
        content: Some("C".to_string()),
        categories: vec!["x".to_string(), "y".to_string()],
        links: Vec::new(),
    };
    match process_opds_entry(&entry, &domain).unwrap() {
        EntryType::OPDSEntry(d) => {
            assert_eq!(d.author.as_deref(), Some("Ann,Ben"));
            assert_eq!(d.details, "Summary: S\n\nC\nCategories: x,y");
        },
        _ => panic!("expected an OPDS entry"),
    }
}

#[test]
fn later_links_overwrite_the_navigation_target() {
    let domain = parse_abs_url("https://ex.org").unwrap();
    let entry = bare_entry(
        "Book",
        vec![
            link("/feed/1", "subsection", Some("application/atom+xml")),
            link("/feed/2", "subsection", Some("application/atom+xml")),
        ],
    );
    match process_opds_entry(&entry, &domain).unwrap() {
        EntryType::OPDSEntry(d) => {
            assert_eq!(d.href.as_ref().unwrap().as_str(), "https://ex.org/feed/2");
        },
        _ => panic!("expected an OPDS entry"),
    }
}

#[test]
fn titles_come_from_each_entry_kind() {
    let u = parse_abs_url("file:///tmp/a").unwrap();
    assert_eq!(get_title_for_entry(&EntryType::File("a".to_string(), u)), "a");
    let v = parse_abs_url("file:///tmp/d").unwrap();
    assert_eq!(get_title_for_entry(&EntryType::Directory("d".to_string(), v)), "d");
}
