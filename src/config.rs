//! Configuration: the document store's connection string, built once at start-up.

use vstd::prelude::*;
use crate::envelope::opt_view;

verus! {

/// The value of a setting, or its default where it is not set.
pub open spec fn setting_or(value: Option<Seq<char>>, default: Seq<char>) -> Seq<char> {
    match value {
        Some(v) => v,
        None => default,
    }
}

/// The connection string for a store at `host` and `port`.
pub open spec fn spec_connection_string(host: Seq<char>, port: Seq<char>) -> Seq<char> {
    "mongodb://"@ + host + ":"@ + port + "/"@
}

/// Where the document store is reached.
#[derive(Clone, Debug)]
pub struct StoreConfig {
    pub host: String,
    pub port: String,
}

impl StoreConfig {
    /// A configuration from the two settings, each defaulting where it is not set:
    /// the host to `127.0.0.1`, the port to `27017`.
    pub fn from_settings(host: Option<String>, port: Option<String>) -> (r: StoreConfig)
        ensures
            r.host@ == setting_or(opt_view(host), "127.0.0.1"@),
            r.port@ == setting_or(opt_view(port), "27017"@),
    {
        let host = match host {
            Some(h) => h,
            None => String::from_str("127.0.0.1"),
        };
        let port = match port {
            Some(p) => p,
            None => String::from_str("27017"),
        };
        StoreConfig { host, port }
    }

    /// The connection string of this configuration.
    pub fn connection_string(&self) -> (r: String)
        ensures
            r@ == spec_connection_string(self.host@, self.port@),
    {
        let mut r = String::from_str("mongodb://");
        r.append(self.host.as_str());
        r.append(":");
        r.append(self.port.as_str());
        r.append("/");
        r
    }
}

} // verus!
