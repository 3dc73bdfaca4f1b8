use artifex_client_gtk::widgets::OperationsRow;
use artifex_client_gtk::window::{starts_with_http, ConnectionRequest, Window};

#[test]
fn http_prefix() {
    assert!(starts_with_http("http://host:50051"));
    assert!(starts_with_http("http://"));
    assert!(!starts_with_http("https://host"));
    assert!(!starts_with_http("http:/"));
    assert!(!starts_with_http(""));
}

#[test]
fn new_window_is_ready_to_connect() {
    let window = Window::new();
    assert!(window.connection_bar().is_url_editable());
    assert!(!window.connection_status_page().successful());
    assert!(!window.operations_sensitive());
    assert_eq!(window.visible_page(), "connection-status");
}

#[test]
fn requests_follow_the_address_and_the_connection() {
    let mut window = Window::new();
    assert!(window.toggle_connection(false).is_none());
    window.set_url("ftp://host");
    assert!(window.toggle_connection(false).is_none());
    window.set_url("http://host:50051");
    match window.toggle_connection(false) {
        Some(ConnectionRequest::Connect(url)) => assert_eq!(url, "http://host:50051"),
        other => panic!("unexpected request {:?}", other),
    }
    assert!(matches!(window.toggle_connection(true), Some(ConnectionRequest::Disconnect)));
}

#[test]
fn successful_connection_is_remembered() {
    let mut window = Window::new();
    let alert = window.connection_finished(false, "http://host", Ok(()));
    assert!(alert.is_none());
    window.connection_finished(false, "http://host", Ok(()));
    assert_eq!(window.save_urls(), vec!["http://host"]);
    window.enable_connection(false);
    assert!(window.connection_status_page().successful());
    assert!(window.operations_sensitive());
    assert!(!window.connection_bar().is_url_editable());
}

#[test]
fn failed_connection_gives_an_alert() {
    let mut window = Window::new();
    let alert = window.connection_finished(false, "http://host", Err("refused".to_string())).unwrap();
    assert_eq!(alert.message, "Connection failed");
    assert_eq!(alert.details, "Failed to connect to {}: {}");
    assert_eq!(alert.details_text(alert.details), "Failed to connect to http://host: refused");
    let alert = window.connection_finished(true, "http://host", Err("gone".to_string())).unwrap();
    assert_eq!(alert.message, "Disconnection failed");
    assert_eq!(alert.details_text(alert.details), "Failed to disconnect from http://host: gone");
    assert!(window.save_urls().is_empty());
}

#[test]
fn disconnection_changes_no_address() {
    let mut window = Window::new();
    window.load_urls(&["http://a"]);
    assert!(window.connection_finished(true, "http://b", Ok(())).is_none());
    assert_eq!(window.save_urls(), vec!["http://a"]);
}

#[test]
fn selecting_pages() {
    let mut window = Window::new();
    window.select_page("inspection");
    assert_eq!(window.visible_page(), "inspection");
    let row = OperationsRow::new("Upgrade", "upgrade");
    window.operations_row_selected(&row);
    assert_eq!(window.visible_page(), "upgrade");
    assert!(window.shows_content());
}

#[test]
fn alert_interpolates_address_and_error() {
    let mut window = Window::new();
    let alert = window.connection_finished(false, "http://h", Err("e".to_string())).unwrap();
    assert_eq!(alert.details_text("Échec vers {} : {}"), "Échec vers http://h : e");
}

#[test]
fn loading_urls_replaces_them() {
    let mut window = Window::new();
    window.load_urls(&["http://a", "http://b"]);
    let saved = window.save_urls();
    let mut other = Window::new();
    other.load_urls(&["http://z"]);
    let slices: Vec<&str> = saved.iter().map(|s| s.as_str()).collect();
    other.load_urls(&slices);
    assert_eq!(other.save_urls(), vec!["http://a", "http://b"]);
}

#[test]
fn connection_outcome_keeps_the_pane() {
    let mut window = Window::new();
    window.connection_finished(false, "http://h", Ok(()));
    assert!(!window.shows_content());
    window.connection_finished(false, "http://h", Err("e".to_string()));
    assert!(!window.shows_content());
}
