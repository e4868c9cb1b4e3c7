//! Locating relays: the query sent to the geolocation service for a relay.
//!
//! The service's answer holds coordinates, which are floating-point values;
//! reading them and weighting them by distance is the application's work.

use vstd::prelude::*;

verus! {

/// The host (domain or IP address) that the `url` crate's parser finds in
/// `text`, or `None` where the text does not parse as a URL or the URL has
/// no host.
pub uninterp spec fn url_host(text: Seq<char>) -> Option<Seq<char>>;

/// Parses `text` with `url::Url::parse` and takes the result's
/// `url::Url::host_str`.
///
/// Trusted: the contract claims only that the result is a function of the
/// text (named `url_host`); what that host is for a given text is the `url`
/// crate's parsing, which is not stated here.
#[verifier::external_body]
fn host_of_url(text: &str) -> (res: Option<String>)
    ensures
        match (res, url_host(text@)) {
            (Some(h), Some(g)) => h@ == g,
            (None, None) => true,
            _ => false,
        },
{
    match url::Url::parse(text) {
        Ok(parsed) => parsed.host_str().map(str::to_owned),
        Err(_) => None,
    }
}

/// The geolocation query for a host.
pub open spec fn location_query_spec(host: Seq<char>) -> Seq<char> {
    "http://ip-api.com/json/"@ + host + "?fields=status,message,countryCode,city,lat,lon"@
}

/// Writes the geolocation query for `host`.
pub fn location_query_for_host(host: &str) -> (res: String)
    ensures
        res@ == location_query_spec(host@),
{
    let q = "http://ip-api.com/json/".to_owned().concat(host);
    q.concat("?fields=status,message,countryCode,city,lat,lon")
}

/// The geolocation query for the relay at `url`: `None` when no host can
/// be read from it.
pub fn location_query(url: &str) -> (res: Option<String>)
    ensures
        match url_host(url@) {
            Some(h) => res matches Some(q) && q@ == location_query_spec(h),
            None => res is None,
        },
{
    match host_of_url(url) {
        Some(host) => Some(location_query_for_host(host.as_str())),
        None => None,
    }
}

} // verus!
