//! The search client: the credentials of one caller and the address of the
//! request that asks the provider for a page of image results.

use crate::text::{append_decimal, append_percent_encoded, decimal, percent_encoded};
use vstd::prelude::*;
use vstd::string::StringExecFns;
use vstd::utf8::encode_utf8;

verus! {

/// Why a search call gave no page. Either way the run cannot go on: without
/// a page there is nothing to iterate.
#[derive(Debug, Clone, Copy, PartialEq, Eq, Structural)]
pub enum SearchError {
    /// The request did not complete (connection, TLS, timeout).
    Transport,
    /// The body was not a JSON document of the expected shape.
    Schema,
}

/// The credentials under which searches are made.
pub struct Client {
    api_key: String,
    cx: String,
}

/// What a `Client` holds, as plain text.
pub struct ClientView {
    pub api_key: Seq<char>,
    pub cx: Seq<char>,
}

impl View for Client {
    type V = ClientView;

    closed spec fn view(&self) -> ClientView {
        ClientView { api_key: self.api_key@, cx: self.cx@ }
    }
}

/// The address of the request for the page of image results for `query`
/// that begins at position `start` of the result set. The key and the
/// engine identifier are written as given; the query is percent-encoded.
pub open spec fn search_url_of(client: ClientView, query: Seq<char>, start: nat) -> Seq<char> {
    "https://www.googleapis.com/customsearch/v1?key="@ + client.api_key + "&cx="@ + client.cx
        + "&q="@ + percent_encoded(encode_utf8(query)) + "&searchType=image&start="@ + decimal(
        start,
    )
}

impl Client {
    /// A client for the given API key and search-engine identifier.
    pub fn new(api_key: String, cx: String) -> (client: Self)
        ensures
            client@.api_key == api_key@,
            client@.cx == cx@,
    {
        Client { api_key, cx }
    }

    /// The API key that the client was made with.
    pub fn api_key(&self) -> (key: &str)
        ensures
            key@ == self@.api_key,
    {
        self.api_key.as_str()
    }

    /// The search-engine identifier that the client was made with.
    pub fn cx(&self) -> (cx: &str)
        ensures
            cx@ == self@.cx,
    {
        self.cx.as_str()
    }

    /// The address to request for the page of results for `query` that
    /// begins at the 1-based position `start`.
    pub fn search_url(&self, query: &str, start: u64) -> (url: String)
        requires
            query@.len() > 0,
            start >= 1,
        ensures
            url@ == search_url_of(self@, query@, start as nat),
    {
        let mut url = String::from_str("https://www.googleapis.com/customsearch/v1?key=");
        url.append(self.api_key.as_str());
        url.append("&cx=");
        url.append(self.cx.as_str());
        url.append("&q=");
        append_percent_encoded(&mut url, query);
        url.append("&searchType=image&start=");
        append_decimal(&mut url, start);
        url
    }
}

} // verus!
