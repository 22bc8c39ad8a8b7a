use vstd::prelude::*;

verus! {

use vstd::string::*;
use crate::errors::FlowError;

/// A client for a block-explorer HTTP API: an API key and a base URL,
/// immutable once constructed.
pub struct ArbiSepScanner {
    pub key: String,
    pub url: String,
}

/// The query URL of the "list transactions for an address" call: fixed
/// parameters (module=account, action=txlist, full block range, page 1,
/// page size 10, ascending sort) plus the address and the API key.
pub open spec fn txlist_url_spec(url: Seq<char>, address: Seq<char>, key: Seq<char>) -> Seq<char> {
    url + "?module=account&action=txlist&address="@ + address
        + "&startblock=0&endblock=99999999&page=1&offset=10&sort=asc&apikey="@ + key
}

/// The query URL of the "list internal transactions for a hash" call: fixed
/// parameters (module=account, action=txlistinternal) plus the hash and the
/// API key.
pub open spec fn txlistinternal_url_spec(url: Seq<char>, hash: Seq<char>, key: Seq<char>) -> Seq<char> {
    url + "?module=account&action=txlistinternal&txhash="@ + hash + "&apikey="@ + key
}

impl ArbiSepScanner {
    /// Constructs a client from an API key and a base URL.
    pub fn new(key: String, url: String) -> (r: Self)
        ensures
            r.key@ == key@,
            r.url@ == url@,
    {
        ArbiSepScanner { key, url }
    }

    /// Constructs a client from optional configuration values, as read from
    /// the process environment. Succeeds exactly when both values are
    /// present; a missing value is fatal before any request is issued.
    pub fn from_config(key: Option<String>, url: Option<String>) -> (r: Result<Self, FlowError>)
        ensures
            r is Ok <==> (key is Some && url is Some),
            key matches Some(k) ==> (url matches Some(u) ==> (r matches Ok(s)
                && s.key@ == k@ && s.url@ == u@)),
            r is Err ==> r == Err::<Self, FlowError>(FlowError::ConfigMissing),
    {
        match (key, url) {
            (Some(k), Some(u)) => Ok(ArbiSepScanner { key: k, url: u }),
            _ => Err(FlowError::ConfigMissing),
        }
    }

    /// The URL for the "list transactions for an address" request.
    pub fn transaction_address_url(&self, address: &str) -> (r: String)
        ensures
            r@ == txlist_url_spec(self.url@, address@, self.key@),
    {
        let mut s = self.url.clone();
        s.append("?module=account&action=txlist&address=");
        s.append(address);
        s.append("&startblock=0&endblock=99999999&page=1&offset=10&sort=asc&apikey=");
        s.append(self.key.as_str());
        s
    }

    /// The URL for the "list internal transactions for a hash" request.
    pub fn transaction_hash_url(&self, hash: &str) -> (r: String)
        ensures
            r@ == txlistinternal_url_spec(self.url@, hash@, self.key@),
    {
        let mut s = self.url.clone();
        s.append("?module=account&action=txlistinternal&txhash=");
        s.append(hash);
        s.append("&apikey=");
        s.append(self.key.as_str());
        s
    }
}

} // verus!
