use artifex_client_gtk::widgets::{
    file_label, CertChooser, ChildSlot, ConnectionBar, ConnectionStatusPage, OperationPage,
    OperationsRow, PreferencesDialog,
};

#[test]
fn connection_bar_styles() {
    let mut bar = ConnectionBar::new();
    assert_eq!(bar.icon_name(), "media-playback-start-symbolic");
    assert!(bar.is_suggested() && !bar.is_destructive() && bar.is_url_editable());
    bar.enable_connection(false);
    assert_eq!(bar.icon_name(), "media-playback-stop-symbolic");
    assert!(!bar.is_suggested() && bar.is_destructive() && !bar.is_url_editable());
    bar.enable_connection(true);
    assert!(bar.is_suggested() && !bar.is_destructive());
}

#[test]
fn recent_urls_round_trip() {
    let mut bar = ConnectionBar::new();
    bar.set_recent_urls(&["http://a", "http://b", "http://a"]);
    assert_eq!(bar.get_recent_urls(), vec!["http://a", "http://b", "http://a"]);
    bar.set_recent_urls(&["http://c"]);
    assert_eq!(bar.get_recent_urls(), vec!["http://c"]);
    bar.set_recent_urls(&[]);
    assert!(bar.get_recent_urls().is_empty());
}

#[test]
fn adding_a_recent_url_once() {
    let mut bar = ConnectionBar::new();
    bar.set_recent_urls(&["http://a"]);
    bar.add_recent_url("http://b");
    bar.add_recent_url("http://b");
    bar.add_recent_url("http://a");
    assert_eq!(bar.get_recent_urls(), vec!["http://a", "http://b"]);
    assert!(bar.has_recent_url("http://b"));
    assert!(!bar.has_recent_url("http://c"));
}

#[test]
fn url_and_popover() {
    let mut bar = ConnectionBar::new();
    bar.set_url("http://host");
    assert_eq!(bar.get_url(), "http://host");
    bar.show_popover("message");
}

#[test]
fn status_page_texts() {
    assert_eq!(
        ConnectionStatusPage::status_texts(true),
        ("face-smile-symbolic", "Connected", "Connection to server established.")
    );
    assert_eq!(
        ConnectionStatusPage::status_texts(false),
        ("face-sad-symbolic", "Not connected", "Enter server address and press \"Connect\".")
    );
    let mut page = ConnectionStatusPage::new();
    assert!(!page.successful());
    assert_eq!(page.icon_name(), "face-sad-symbolic");
    assert_eq!(page.title(), "Not connected");
    page.set_successful(true);
    assert!(page.successful());
    assert_eq!(page.icon_name(), "face-smile-symbolic");
    assert_eq!(page.title(), "Connected");
    assert_eq!(page.description(), "Connection to server established.");
    page.set_successful(false);
    assert_eq!(page.description(), "Enter server address and press \"Connect\".");
}

#[test]
fn operations_row() {
    let row = OperationsRow::new("Inspection", "inspection");
    assert_eq!(row.title(), "Inspection");
    assert_eq!(row.page_name(), "inspection");
}

#[test]
fn operation_page_children_and_busy() {
    let mut page = OperationPage::new();
    assert_eq!(page.add_child(), ChildSlot::Frame);
    assert_eq!(page.add_child(), ChildSlot::Container);
    assert_eq!(page.add_child(), ChildSlot::Container);
    page.set_busy(true);
    assert!(!page.is_sensitive());
    page.set_busy(false);
    assert!(page.is_sensitive());
    page.set_title("T");
    page.set_subtitle("S");
    assert_eq!(page.title(), "T");
    assert_eq!(page.subtitle(), "S");
    page.show_error("m", "d");
    assert_eq!(page.last_error(), Some(("m".to_string(), "d".to_string(), false)));
    page.show_error_message("m", "n");
    assert_eq!(page.last_error(), Some(("m".to_string(), "n".to_string(), true)));
}

#[test]
fn file_labels() {
    assert_eq!(file_label("/home/user/certs/ca.pem"), "ca.pem");
    assert_eq!(file_label("ca.pem"), "ca.pem");
    assert_eq!(file_label("/dir/"), "");
    assert_eq!(file_label(""), "");
}

#[test]
fn cert_chooser_tooltip_and_label() {
    let mut chooser = CertChooser::new();
    assert_eq!(chooser.tooltip(), None);
    chooser.set_uri("file:///etc/ssl/root.pem");
    assert_eq!(chooser.tooltip(), Some("file:///etc/ssl/root.pem".to_string()));
    assert_eq!(chooser.uri(), "file:///etc/ssl/root.pem");
    assert_eq!(CertChooser::label(Some("/etc/ssl/root.pem")), Some("root.pem".to_string()));
    assert_eq!(CertChooser::label(None), None);
    assert_eq!(CertChooser::unparsed_label(), "None");
}

#[test]
fn preferences_dialog_keys() {
    let dialog = PreferencesDialog::new();
    assert_eq!(dialog.root_cert_chooser.uri(), "");
    assert_eq!(
        PreferencesDialog::setting_keys(),
        ("auth-root-cert-uri", "auth-client-cert-uri", "auth-client-key-uri")
    );
}
