use ncopds::config::{default_config_text, upsert_server, Config};
use ncopds::controller::{
    back_result_view, classify_server, download_done_notification, download_failed_info,
    entry_selected, error_info, loading_view, nav_result_view, search_result_view,
    ConnectPlan, Controller, ControllerMessage, Effect, SelectionOutcome, UIMessage,
};
use ncopds::errors::OpdsError;
use ncopds::model::{EntryData, EntryType};
use ncopds::server::{KeyringErrorKind, Server};
use ncopds::urls::parse_abs_url;

fn server(base: &str) -> Server {
    Server { username: Some("u".to_string()), base_url: parse_abs_url(base).unwrap() }
}

fn controller() -> Controller {
    let config = Config { download_directory: "/tmp".to_string(), servers: None };
    Controller::new(config, parse_abs_url("file:///tmp").unwrap())
}

fn opds_data() -> EntryData {
    EntryData {
        title: "Book".to_string(),
        details: "".to_string(),
        author: None,
        unsupported: None,
        downloads: Vec::new(),
        image: None,
        href: None,
    }
}

#[test]
fn the_controller_starts_on_the_local_tab() {
    let c = controller();
    assert_eq!(c.current_tab, "local");
    assert!(c.should_refresh_on_fs_event());
    // the periodic refresh skips the local tab
    assert!(!c.should_refresh_on_tick(0));
}

#[test]
fn changing_the_connection_switches_the_tab() {
    let mut c = controller();
    let effects = c
        .handle_message(ControllerMessage::ChangeConnection("srv".to_string()))
        .unwrap();
    assert!(matches!(effects[..], [Effect::StartNavigateCurrent]));
    assert_eq!(c.current_tab, "srv");
    assert!(!c.should_refresh_on_fs_event());
    assert!(c.should_refresh_on_tick(0));
    assert!(c.should_refresh_on_tick(9000));
    assert!(!c.should_refresh_on_tick(1));
}

#[test]
fn a_download_starts_with_its_notification() {
    let mut c = controller();
    let url = parse_abs_url("https://ex.org/dl/1.epub").unwrap();
    let effects = c.handle_message(ControllerMessage::Download(url)).unwrap();
    assert_eq!(effects.len(), 2);
    assert!(matches!(&effects[0], Effect::StartDownload(u) if u.as_str() == "https://ex.org/dl/1.epub"));
    match &effects[1] {
        Effect::SendUI(UIMessage::ShowNotification(t, b)) => {
            assert_eq!(t, "Starting download");
            assert_eq!(b, "https://ex.org/dl/1.epub");
        },
        _ => panic!("expected the starting notification"),
    }
}

#[test]
fn dispatching_a_selected_directory_navigates() {
    let mut c = controller();
    let url = parse_abs_url("file:///tmp/sub").unwrap();
    let entry = EntryType::Directory("sub".to_string(), url);
    let effects = c.handle_message(ControllerMessage::EntrySelected(entry)).unwrap();
    assert_eq!(effects.len(), 1);
    assert!(matches!(&effects[0],
        Effect::SendSelf(ControllerMessage::Navigate(u)) if u.as_str() == "file:///tmp/sub"));
}

#[test]
fn selecting_a_file_opens_its_menu() {
    let url = parse_abs_url("file:///tmp/a.epub").unwrap();
    match entry_selected(EntryType::File("a.epub".to_string(), url)).unwrap() {
        SelectionOutcome::ShowMenu(title, es) => {
            assert_eq!(title, "a.epub");
            assert_eq!(es.len(), 3);
            assert_eq!(es[0].0, "Open");
            assert_eq!(es[1].0, "Delete");
            assert_eq!(es[2].0, "Rename");
            assert!(matches!(&es[2].1, ControllerMessage::Rename(a, b)
                if a == "/tmp/a.epub" && b == "/tmp/a.epub"));
        },
        _ => panic!("expected a context menu"),
    }
}

#[test]
fn selecting_a_directory_navigates() {
    let url = parse_abs_url("file:///tmp/sub").unwrap();
    match entry_selected(EntryType::Directory("sub".to_string(), url)).unwrap() {
        SelectionOutcome::SelfNavigate(u) => assert_eq!(u.as_str(), "file:///tmp/sub"),
        _ => panic!("expected a navigation"),
    }
}

#[test]
fn selecting_an_unsupported_entry_fails_with_its_relation() {
    let mut d = opds_data();
    d.unsupported = Some("http://opds-spec.org/acquisition/buy".to_string());
    let e = entry_selected(EntryType::OPDSEntry(d)).unwrap_err();
    assert_eq!(
        e.message(),
        "Unsupported acquisition type: http://opds-spec.org/acquisition/buy"
    );
    // the dispatch surfaces it as the error dialog
    match error_info(&e) {
        UIMessage::ShowInfo(t, b) => {
            assert_eq!(t, "Error");
            assert_eq!(b, "Unsupported acquisition type: http://opds-spec.org/acquisition/buy");
        },
        _ => panic!("expected a dialog"),
    }
}

#[test]
fn selecting_an_empty_entry_fails() {
    let e = entry_selected(EntryType::OPDSEntry(opds_data())).unwrap_err();
    assert_eq!(e.message(), "Cannot perform any action on this entry.");
}

#[test]
fn selecting_a_navigable_entry_navigates() {
    let mut d = opds_data();
    d.href = Some(parse_abs_url("https://ex.org/feed/1").unwrap());
    match entry_selected(EntryType::OPDSEntry(d)).unwrap() {
        SelectionOutcome::SelfNavigate(u) => assert_eq!(u.as_str(), "https://ex.org/feed/1"),
        _ => panic!("expected a navigation"),
    }
}

#[test]
fn selecting_a_downloadable_entry_lists_its_downloads() {
    let mut d = opds_data();
    d.downloads.push((
        parse_abs_url("https://ex.org/dl/1.epub").unwrap(),
        "application/epub+zip".to_string(),
    ));
    match entry_selected(EntryType::OPDSEntry(d)).unwrap() {
        SelectionOutcome::ShowMenu(title, es) => {
            assert_eq!(title, "Book");
            assert_eq!(es.len(), 1);
            assert_eq!(es[0].0, "Download as application/epub+zip");
            assert!(matches!(&es[0].1, ControllerMessage::Download(u)
                if u.as_str() == "https://ex.org/dl/1.epub"));
        },
        _ => panic!("expected a context menu"),
    }
}

#[test]
fn password_lookups_classify_the_servers() {
    let s = server("https://ex.org/opds");
    match classify_server("srv", &s, Ok(Some("pw".to_string()))) {
        ConnectPlan::Add(ControllerMessage::AddConnection(n, _, p)) => {
            assert_eq!(n, "srv");
            assert_eq!(p.as_deref(), Some("pw"));
        },
        _ => panic!("expected an added connection"),
    }
    match classify_server("srv", &s, Err(KeyringErrorKind::NoEntry)) {
        ConnectPlan::Prompt(UIMessage::PasswordPrompt(n, _)) => assert_eq!(n, "srv"),
        _ => panic!("expected a prompt"),
    }
    match classify_server("srv", &s, Err(KeyringErrorKind::Other("backend gone".to_string()))) {
        ConnectPlan::Fatal(e) => {
            assert_eq!(e.message(), "Could not retrieve password: backend gone");
        },
        _ => panic!("expected a fatal failure"),
    }
}

#[test]
fn the_server_map_updates_in_place() {
    let s1 = server("https://one.org/opds");
    let s2 = server("https://two.org/opds");
    let base = vec![("a".to_string(), s1)];
    let replaced = upsert_server(&base, "a", &s2);
    assert_eq!(replaced.len(), 1);
    assert_eq!(replaced[0].1.base_url.as_str(), "https://two.org/opds");
    let appended = upsert_server(&base, "b", &s2);
    assert_eq!(appended.len(), 2);
    assert_eq!(appended[1].0, "b");

    let mut c = controller();
    c.update_config("a", &s2);
    let servers = c.config.servers.as_ref().unwrap();
    assert_eq!(servers.len(), 1);
    assert_eq!(servers[0].0, "a");
}

#[test]
fn connecting_with_no_servers_plans_nothing() {
    let c = controller();
    let (adds, prompts) = c.connect_to_servers().unwrap();
    assert!(adds.is_empty());
    assert!(prompts.is_empty());
}

#[test]
fn every_configured_server_lands_in_the_plan() {
    // servers without usernames need no credential store
    let s1 = Server { username: None, base_url: parse_abs_url("https://one.org/opds").unwrap() };
    let s2 = Server { username: None, base_url: parse_abs_url("https://two.org/opds").unwrap() };
    let config = Config {
        download_directory: "/tmp".to_string(),
        servers: Some(vec![("a".to_string(), s1), ("b".to_string(), s2)]),
    };
    let c = Controller::new(config, parse_abs_url("file:///tmp").unwrap());
    let (adds, prompts) = c.connect_to_servers().unwrap();
    assert!(prompts.is_empty());
    assert_eq!(adds.len(), 2);
    assert!(matches!(&adds[0], ControllerMessage::AddConnection(n, _, p)
        if n == "a" && p.is_none()));
    assert!(matches!(&adds[1], ControllerMessage::AddConnection(n, _, p)
        if n == "b" && p.is_none()));
}

#[test]
fn the_view_messages_carry_the_exact_texts() {
    let url = parse_abs_url("https://ex.org/feed/1").unwrap();
    match loading_view(&url) {
        UIMessage::UpdateDirectoryView(t, es, s) => {
            assert_eq!(t, "https://ex.org/feed/1");
            assert!(es.is_empty());
            assert_eq!(s, "Loading...");
        },
        _ => panic!("expected a view update"),
    }
    match nav_result_view(&url, Err(OpdsError::RemoteRoot)) {
        UIMessage::UpdateDirectoryView(_, es, s) => {
            assert!(es.is_empty());
            assert_eq!(s, "Load failed: At ODPS root; cannot go back.");
        },
        _ => panic!("expected a view update"),
    }
    match back_result_view(&url, Vec::new()) {
        UIMessage::UpdateDirectoryView(t, _, s) => {
            assert_eq!(t, "https://ex.org/feed/1");
            assert_eq!(s, "");
        },
        _ => panic!("expected a view update"),
    }
    match search_result_view("hello", Vec::new()) {
        UIMessage::UpdateDirectoryView(t, _, _) => assert_eq!(t, "Search results for hello"),
        _ => panic!("expected a view update"),
    }
    match download_done_notification("book.epub") {
        UIMessage::ShowNotification(t, b) => {
            assert_eq!(t, "Attention");
            assert_eq!(b, "File book.epub finished downloading");
        },
        _ => panic!("expected a notification"),
    }
    match download_failed_info(&url, "boom") {
        UIMessage::ShowInfo(t, b) => {
            assert_eq!(t, "Error");
            assert_eq!(b, "Download from https://ex.org/feed/1 failed: boom");
        },
        _ => panic!("expected a dialog"),
    }
}

#[test]
fn cover_bytes_decode_into_a_stored_image() {
    let img = image::DynamicImage::new_rgb8(1, 1);
    let mut buf = std::io::Cursor::new(Vec::new());
    img.write_to(&mut buf, image::ImageFormat::Png).unwrap();
    match ncopds::controller::decode_for_entry("Book".to_string(), buf.get_ref()).unwrap() {
        UIMessage::StoreImage(t, stored) => {
            assert_eq!(t, "Book");
            assert_eq!(stored.width(), 1);
        },
        _ => panic!("expected a stored image"),
    }
    let e = ncopds::controller::decode_for_entry("Book".to_string(), &[1, 2, 3]).unwrap_err();
    assert!(matches!(e, OpdsError::ImageDecode(_)));
}

#[test]
fn the_default_config_names_only_the_download_directory() {
    assert_eq!(default_config_text("/home/u"), "download_directory = '/home/u'");
}
