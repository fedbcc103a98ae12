//! Server records: base URL, optional username, the keyring key they
//! derive, and credential lookup through the OS keyring.
//!
//! What the credential store answers depends on the machine, so the
//! keyring wrappers promise nothing of their results; the decision logic
//! around them is verified for every answer.

use vstd::prelude::*;
use vstd::string::StringExecFns;

use crate::text::dup_opt_string;
use crate::urls::{scheme_host_url, url_scheme_host, UrlBuf};

verus! {

/// The service namespace under which this application stores credentials.
pub const KEYRING_SERVICE: &'static str = "ncopds";

/// How a credential-store interaction fails.
#[derive(Debug)]
pub enum KeyringErrorKind {
    /// No credential is stored under the key.
    NoEntry,
    /// Any other store failure, with the store's words.
    Other(String),
}

#[verifier::external_type_specification]
#[verifier::external_body]
pub struct ExKeyringEntry(keyring::Entry);

/// Relies on keyring::Entry::new: a handle on the credential named `key`
/// under the service `service`.
#[verifier::external_body]
fn keyring_entry(service: &str, key: &str) -> (r: Result<keyring::Entry, KeyringErrorKind>)
{
    match keyring::Entry::new(service, key) {
        Ok(e) => Ok(e),
        Err(keyring::Error::NoEntry) => Err(KeyringErrorKind::NoEntry),
        Err(e) => Err(KeyringErrorKind::Other(format!("{}", e))),
    }
}

/// Relies on keyring::Entry::get_password: the stored password, or the
/// failure, `NoEntry` kept apart.
#[verifier::external_body]
fn keyring_get_password(e: &keyring::Entry) -> (r: Result<String, KeyringErrorKind>)
{
    match e.get_password() {
        Ok(p) => Ok(p),
        Err(keyring::Error::NoEntry) => Err(KeyringErrorKind::NoEntry),
        Err(err) => Err(KeyringErrorKind::Other(format!("{}", err))),
    }
}

/// Relies on keyring::Entry::set_password.
#[verifier::external_body]
fn keyring_set_password(e: &keyring::Entry, pwd: &str) -> (r: Result<(), KeyringErrorKind>)
{
    match e.set_password(pwd) {
        Ok(()) => Ok(()),
        Err(keyring::Error::NoEntry) => Err(KeyringErrorKind::NoEntry),
        Err(err) => Err(KeyringErrorKind::Other(format!("{}", err))),
    }
}

/// A catalog server: its base URL and, when access needs credentials,
/// a username.
#[derive(Debug)]
pub struct Server {
    pub username: Option<String>,
    /// The URL of the OPDS catalog itself, not merely its domain.
    pub base_url: UrlBuf,
}

/// The view of a server record.
#[verifier::ext_equal]
pub struct ServerV {
    pub username: Option<Seq<char>>,
    pub base_url: Seq<char>,
}

impl View for Server {
    type V = ServerV;

    open spec fn view(&self) -> ServerV {
        ServerV {
            username: match self.username {
                Some(u) => Some(u@),
                None => None,
            },
            base_url: self.base_url@,
        }
    }
}

/// The key a server's credential is stored under.
pub open spec fn keyring_key_spec(username: Seq<char>, base_url: Seq<char>) -> Seq<char> {
    username + "@"@ + base_url
}

/// Builds the keyring key `{username}@{base_url}`.
pub fn keyring_key(username: &str, base_url: &UrlBuf) -> (r: String)
    ensures
        r@ == keyring_key_spec(username@, base_url@),
{
    let mut k: String = username.to_owned();
    k.append("@");
    k.append(base_url.as_str());
    k
}

impl Server {
    /// A copy of the record.
    pub fn dup(&self) -> (r: Server)
        ensures
            r@ == self@,
    {
        Server { username: dup_opt_string(&self.username), base_url: self.base_url.dup() }
    }

    /// The scheme and domain of the server's base URL, as an address of
    /// its own. Nothing comes back when the base URL's host is not a
    /// domain.
    pub fn get_domain(&self) -> (r: Option<UrlBuf>)
        ensures
            match r {
                Some(d) => url_scheme_host(self.base_url@) == Some(d@),
                None => url_scheme_host(self.base_url@) is None,
            },
    {
        scheme_host_url(&self.base_url)
    }

    /// Retrieves the password for this server from the credential store.
    /// A server without a username has no password, and an empty stored
    /// password counts as absent.
    pub fn get_password(&self) -> (r: Result<Option<String>, KeyringErrorKind>)
        ensures
            self.username is None ==> r == Ok::<Option<String>, KeyringErrorKind>(None),
            r matches Ok(Some(p)) ==> self.username is Some && p@.len() > 0,
    {
        match &self.username {
            None => Ok(None),
            Some(u) => {
                let key = keyring_key(u.as_str(), &self.base_url);
                match keyring_entry(KEYRING_SERVICE, key.as_str()) {
                    Err(k) => Err(k),
                    Ok(entry) => password_from_lookup(keyring_get_password(&entry)),
                }
            },
        }
    }
}

/// Reads a credential-store lookup: an empty password counts as absent,
/// and a failure passes through.
pub fn password_from_lookup(lookup: Result<String, KeyringErrorKind>) -> (r: Result<
    Option<String>,
    KeyringErrorKind,
>)
    ensures
        match lookup {
            Ok(p) => if p@.len() == 0 {
                r == Ok::<Option<String>, KeyringErrorKind>(None)
            } else {
                r == Ok::<Option<String>, KeyringErrorKind>(Some(p))
            },
            Err(k) => r == Err::<Option<String>, KeyringErrorKind>(k),
        },
{
    match lookup {
        Err(k) => Err(k),
        Ok(p) => {
            if p.as_str().is_empty() {
                Ok(None)
            } else {
                Ok(Some(p))
            }
        },
    }
}

/// Stores a password for a server in the credential store, exactly when
/// both a username and a password are present; otherwise does nothing.
pub fn store_password(s: &Server, pwd: &Option<String>) -> (r: Result<(), KeyringErrorKind>)
    ensures
        (s.username is None || pwd is None) ==> r is Ok,
{
    match pwd {
        None => Ok(()),
        Some(p) => match &s.username {
            None => Ok(()),
            Some(u) => {
                let key = keyring_key(u.as_str(), &s.base_url);
                match keyring_entry(KEYRING_SERVICE, key.as_str()) {
                    Err(k) => Err(k),
                    Ok(entry) => keyring_set_password(&entry, p.as_str()),
                }
            },
        },
    }
}

} // verus!
