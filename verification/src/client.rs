//! The settings of the connection to a server and the TLS configuration
//! drawn from them.

use vstd::prelude::*;
use crate::secrets;

verus! {

/// The connection settings, as the preferences store them.
pub struct Settings {
    pub root_cert_uri: String,
    pub client_cert_uri: String,
    pub client_key_uri: String,
    pub server_alt_name: String,
}

/// The TLS configuration of the client.
pub struct TlsConfig {
    pub root_cert: String,
    pub client_cert: String,
    pub client_key: String,
    pub client_password: Option<String>,
    pub server_alt_name: Option<String>,
}

/// The keys of the connection settings: root certificate, client
/// certificate, client key, alternative name of the server.
pub fn setting_keys() -> (keys: (&'static str, &'static str, &'static str, &'static str))
    ensures
        keys.0@ == "auth-root-cert-uri"@,
        keys.1@ == "auth-client-cert-uri"@,
        keys.2@ == "auth-client-key-uri"@,
        keys.3@ == "auth-server-alt-name"@,
{
    ("auth-root-cert-uri", "auth-client-cert-uri", "auth-client-key-uri", "auth-server-alt-name")
}

/// The TLS configuration drawn from `settings` and from the search for the
/// password of the client key: the URIs as they are, the password when it
/// was found, and the alternative name of the server unless it is empty.
pub fn create_tls_config(settings: Settings, password: Result<String, secrets::Error>) -> (config: TlsConfig)
    ensures
        config.root_cert@ == settings.root_cert_uri@,
        config.client_cert@ == settings.client_cert_uri@,
        config.client_key@ == settings.client_key_uri@,
        match password {
            Ok(p) => config.client_password matches Some(q) && q@ == p@,
            Err(_) => config.client_password is None,
        },
        settings.server_alt_name@.len() == 0 ==> config.server_alt_name is None,
        settings.server_alt_name@.len() > 0 ==> (config.server_alt_name matches Some(n) && n@
            == settings.server_alt_name@),
{
    let server_alt_name = if settings.server_alt_name.as_str().is_empty() {
        None
    } else {
        Some(settings.server_alt_name)
    };
    let client_password = match password {
        Ok(p) => Some(p),
        Err(_) => None,
    };
    TlsConfig {
        root_cert: settings.root_cert_uri,
        client_cert: settings.client_cert_uri,
        client_key: settings.client_key_uri,
        client_password,
        server_alt_name,
    }
}

} // verus!
