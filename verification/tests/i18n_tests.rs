use artifex_client_gtk::i18n::{interpolate, placeholder_pieces};

#[test]
fn interpolate_replaces_placeholders_in_order() {
    let text = interpolate("Failed to connect to {}: {}", &["http://host:50051", "refused"]);
    assert_eq!(text, "Failed to connect to http://host:50051: refused");
}

#[test]
fn interpolate_without_placeholder_keeps_text() {
    assert_eq!(interpolate("Connected", &["ignored"]), "Connected");
    assert_eq!(interpolate("", &[]), "");
}

#[test]
fn interpolate_drops_text_after_missing_argument() {
    assert_eq!(interpolate("a {} b {} c", &["1"]), "a 1 b ");
    assert_eq!(interpolate("a {} b", &[]), "a ");
}

#[test]
fn interpolate_ignores_extra_arguments() {
    assert_eq!(interpolate("x={}", &["1", "2", "3"]), "x=1");
}

#[test]
fn interpolate_matches_placeholders_from_the_left() {
    assert_eq!(interpolate("{{}}", &["A"]), "{A}");
    assert_eq!(interpolate("{}{}", &["A", "B"]), "AB");
    assert_eq!(interpolate("é{}ü", &["ß"]), "éßü");
}

#[test]
fn pieces_between_placeholders() {
    assert_eq!(placeholder_pieces("a{}b{}"), vec!["a".to_string(), "b".to_string(), "".to_string()]);
    assert_eq!(placeholder_pieces("{}}"), vec!["".to_string(), "}".to_string()]);
    assert_eq!(placeholder_pieces("no placeholder"), vec!["no placeholder".to_string()]);
}

