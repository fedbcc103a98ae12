use ncopds::connection::derive_download_filename;
use ncopds::errors::OpdsError;
use ncopds::files::{check_file_type, download_file_path, filename_extension, rename_target};
use ncopds::headers::extract_filename_from_content_disposition;
use ncopds::urls::{parse_abs_url, parse_href, str_to_file_url, UrlErrorKind};

#[test]
fn content_disposition_filename_is_decoded() {
    let r = extract_filename_from_content_disposition("attachment; filename=foo%20bar.pdf");
    assert_eq!(r.as_deref(), Some("foo bar.pdf"));
}

#[test]
fn content_disposition_without_filename_yields_nothing() {
    assert!(extract_filename_from_content_disposition("attachment").is_none());
    assert!(extract_filename_from_content_disposition("").is_none());
    // the prefix must carry the leading space that the split leaves
    assert!(extract_filename_from_content_disposition("filename=a.pdf").is_none());
}

#[test]
fn content_disposition_first_matching_segment_wins() {
    let r = extract_filename_from_content_disposition(
        "form-data; filename=a.pdf; filename=b.pdf",
    );
    assert_eq!(r.as_deref(), Some("a.pdf"));
}

#[test]
fn parse_href_agrees_with_the_url_crate() {
    let base = parse_abs_url("https://ex.org/a/b").unwrap();

    // a relative reference joins against the base
    let joined = parse_href("x", &base).unwrap();
    let expected = url::Url::parse("https://ex.org/a/b").unwrap().join("x").unwrap();
    assert_eq!(joined.as_str(), expected.as_str());

    // an absolute reference parses on its own
    let abs = parse_href("https://other.org/z", &base).unwrap();
    let expected = url::Url::parse("https://other.org/z").unwrap();
    assert_eq!(abs.as_str(), expected.as_str());

    // other parse failures propagate
    let err = parse_href("https://[bad", &base).unwrap_err();
    assert_eq!(err, UrlErrorKind::Invalid);
}

#[test]
fn file_paths_round_trip_through_file_urls() {
    let u = str_to_file_url("/tmp/books").unwrap();
    assert_eq!(u.as_str(), "file:///tmp/books");
    assert!(str_to_file_url("not absolute").is_err());
}

#[test]
fn rename_keeps_the_parent_directory() {
    assert_eq!(rename_target("/tmp/a.epub", "b.epub").as_deref(), Some("/tmp/b.epub"));
    assert_eq!(rename_target("/a.epub", "b.epub").as_deref(), Some("/b.epub"));
    assert!(rename_target("a.epub", "b.epub").is_none());
}

#[test]
fn filename_extensions_follow_the_last_dot() {
    assert_eq!(filename_extension("a.epub").as_deref(), Some("epub"));
    assert_eq!(filename_extension("a.tar.gz").as_deref(), Some("gz"));
    assert!(filename_extension("noext").is_none());
    assert!(filename_extension(".hidden").is_none());
}

fn epub_bytes() -> Vec<u8> {
    // a zip local-file header whose first entry names the epub mimetype
    let mut b = vec![0x50, 0x4B, 0x03, 0x04];
    b.resize(30, 0);
    b.extend_from_slice(b"mimetypeapplication/epub+zip");
    b.resize(64, 0);
    b
}

#[test]
fn save_check_accepts_a_matching_extension() {
    assert!(check_file_type(&epub_bytes(), "book.epub").is_ok());
}

#[test]
fn save_check_refuses_a_wrong_extension() {
    let e = check_file_type(&epub_bytes(), "book.pdf").unwrap_err();
    assert!(matches!(e, OpdsError::WrongFileType(_, _)));
    assert_eq!(
        e.message(),
        "Could not save book.pdf. File was not downloaded properly. \
File was returned from the server as a epub"
    );
}

#[test]
fn save_check_refuses_unknown_bytes() {
    let e = check_file_type(&[0u8, 1, 2, 3], "book.epub").unwrap_err();
    assert!(matches!(e, OpdsError::UnknownFileType(_)));
}

#[test]
fn save_check_refuses_a_name_without_extension() {
    assert!(check_file_type(&epub_bytes(), "book").is_err());
}

#[test]
fn downloads_land_in_the_download_directory() {
    let dir = parse_abs_url("file:///tmp/dl/").unwrap();
    assert_eq!(download_file_path(&dir, "book.epub").unwrap(), "/tmp/dl/book.epub");
}

#[test]
fn download_filename_prefers_the_header() {
    let url = parse_abs_url("https://ex.org/dl/fallback.epub").unwrap();
    let name = derive_download_filename(
        Some("attachment; filename=book.epub"),
        &url,
        "1700000000000",
    );
    assert_eq!(name, "book.epub");
}

#[test]
fn download_filename_falls_back_to_the_path_segment() {
    let url = parse_abs_url("https://ex.org/dl/fallback.epub").unwrap();
    assert_eq!(derive_download_filename(None, &url, "1700000000000"), "fallback.epub");
    assert_eq!(
        derive_download_filename(Some("attachment"), &url, "1700000000000"),
        "fallback.epub"
    );
}

#[test]
fn download_filename_falls_back_to_the_timestamp() {
    // a URL that cannot be a base has no path segments
    let url = parse_abs_url("mailto:user@ex.org").unwrap();
    assert_eq!(derive_download_filename(None, &url, "1700000000000"), "1700000000000");
}
