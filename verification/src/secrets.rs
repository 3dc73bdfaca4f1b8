//! Secrets management: the password of the encrypted client key, kept by
//! the secret service of the desktop.

use vstd::prelude::*;

verus! {

/// Errors reported when managing secrets.
#[derive(Debug)]
pub enum Error {
    /// No unlocked secret is stored for the key at this URI.
    NotFound(String),
    /// The secret service failed, for the reason given.
    SecretService(String),
}

/// The attribute under which the password of a key is stored, keyed by the
/// URI of the key.
pub open spec fn key_attribute() -> Seq<char> {
    "auth-client-key-uri"@
}

/// How the password of the key at a URI is stored: the label of the item,
/// the name of its attribute, and the content type of the secret.
pub fn secret_item_fields() -> (fields: (&'static str, &'static str, &'static str))
    ensures
        fields.0@ == "Artifex client authentication"@,
        fields.1@ == key_attribute(),
        fields.2@ == "text/plain"@,
{
    ("Artifex client authentication", "auth-client-key-uri", "text/plain")
}

/// The attributes to store the password of the key at `uri` under, or to
/// search it by: the URI of the key, under `key_attribute`.
pub fn secret_attributes(uri: &str) -> (attributes: Vec<(&'static str, String)>)
    ensures
        attributes.len() == 1,
        attributes[0].0@ == key_attribute(),
        attributes[0].1@ == uri@,
{
    let mut attributes = Vec::new();
    attributes.push(("auth-client-key-uri", uri.to_owned()));
    attributes
}

/// The password of the key at `uri`, given the secret of the first unlocked
/// item that the search by `secret_attributes(uri)` found, if any: that
/// secret, or `NotFound` with the URI when no unlocked item was found.
pub fn retrieved_password(uri: &str, first_unlocked_secret: Option<String>) -> (password: Result<String, Error>)
    ensures
        match first_unlocked_secret {
            Some(secret) => password matches Ok(p) && p@ == secret@,
            None => password matches Err(Error::NotFound(u)) && u@ == uri@,
        },
{
    match first_unlocked_secret {
        Some(secret) => Ok(secret),
        None => Err(Error::NotFound(uri.to_owned())),
    }
}

} // verus!
