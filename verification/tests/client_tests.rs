use artifex_client_gtk::client::{create_tls_config, setting_keys, Settings};
use artifex_client_gtk::secrets::{retrieved_password, secret_attributes, secret_item_fields, Error};

fn settings(alt: &str) -> Settings {
    Settings {
        root_cert_uri: "file:///ca.pem".to_string(),
        client_cert_uri: "file:///client.pem".to_string(),
        client_key_uri: "file:///client.key".to_string(),
        server_alt_name: alt.to_string(),
    }
}

#[test]
fn tls_config_from_settings() {
    let config = create_tls_config(settings(""), Ok("secret".to_string()));
    assert_eq!(config.root_cert, "file:///ca.pem");
    assert_eq!(config.client_cert, "file:///client.pem");
    assert_eq!(config.client_key, "file:///client.key");
    assert_eq!(config.client_password, Some("secret".to_string()));
    assert_eq!(config.server_alt_name, None);
    let config = create_tls_config(settings("server"), Err(Error::NotFound("file:///client.key".to_string())));
    assert_eq!(config.client_password, None);
    assert_eq!(config.server_alt_name, Some("server".to_string()));
}

#[test]
fn keys_and_secret_fields() {
    assert_eq!(setting_keys(), ("auth-root-cert-uri", "auth-client-cert-uri", "auth-client-key-uri", "auth-server-alt-name"));
    assert_eq!(secret_item_fields(), ("Artifex client authentication", "auth-client-key-uri", "text/plain"));
    assert_eq!(secret_attributes("file:///k"), vec![("auth-client-key-uri", "file:///k".to_string())]);
}

#[test]
fn password_lookup() {
    assert_eq!(retrieved_password("file:///k", Some("pw".to_string())).unwrap(), "pw");
    match retrieved_password("file:///k", None) {
        Err(Error::NotFound(uri)) => assert_eq!(uri, "file:///k"),
        other => panic!("unexpected {:?}", other),
    }
}
