//! The immutable configuration record: the endpoint to report to and the
//! network credentials.
//!
//! It is loaded once, before the coordination core starts, and handed in
//! read-only for the rest of the process: nothing here ever re-reads or
//! mutates it. Loading and parsing the record is the startup sequence's
//! business, outside this crate.

use vstd::prelude::*;

verus! {

/// Endpoint and credentials, fixed for the process lifetime.
pub struct Secrets {
    /// Name of the wireless network to join.
    pub wifi_ssid: String,
    /// Passphrase for the wireless network.
    pub wifi_password: String,
    /// The one statically configured URL every report is issued against.
    pub couchdb_url: String,
}

impl Secrets {
    pub fn new(wifi_ssid: String, wifi_password: String, couchdb_url: String) -> (s: Secrets)
        ensures
            s.wifi_ssid == wifi_ssid,
            s.wifi_password == wifi_password,
            s.couchdb_url == couchdb_url,
    {
        Secrets { wifi_ssid, wifi_password, couchdb_url }
    }
}

} // verus!
