//! The client's configuration: the base URL of the service and the headers
//! sent with every request.

use reqwest::header::HeaderMap;
use vstd::prelude::*;
use vstd::utf8::encode_utf8;

use crate::headers::{
    clone_headers, header_entries, header_value, headers_with_capacity, insert_header,
    is_value_text, lower_name,
};

verus! {

/// The service's public endpoint.
pub open spec fn default_url() -> Seq<char> {
    "https://emkc.org/api/v2/piston"@
}

/// The header map key of each header that the client sends.
pub open spec fn accept_key() -> Seq<char> {
    lower_name("Accept"@)
}

pub open spec fn user_agent_key() -> Seq<char> {
    lower_name("User-Agent"@)
}

pub open spec fn authorization_key() -> Seq<char> {
    lower_name("Authorization"@)
}

/// The content type that the client asks for.
pub open spec fn json_type() -> Seq<char> {
    "application/json"@
}

/// The name under which the client introduces itself.
pub open spec fn client_identity() -> Seq<char> {
    "piston-rs"@
}

/// The text of an optional key.
pub open spec fn key_text(key: Option<&str>) -> Option<Seq<char>> {
    match key {
        Some(k) => Some(k@),
        None => None,
    }
}

/// A key that can be sent as a header value, or no key.
pub open spec fn is_valid_key(key: Option<Seq<char>>) -> bool {
    key matches Some(k) ==> is_value_text(k)
}

/// The headers sent with an optional key: the accepted content type and
/// the client's identity, and the key as authorization where there is one.
pub open spec fn expected_headers(key: Option<Seq<char>>) -> Map<Seq<char>, Seq<u8>> {
    let base = Map::empty().insert(accept_key(), encode_utf8(json_type())).insert(
        user_agent_key(),
        encode_utf8(client_identity()),
    );
    match key {
        Some(k) => base.insert(authorization_key(), encode_utf8(k)),
        None => base,
    }
}

/// A client's configuration: the service's base URL and the headers sent
/// with every request.
#[derive(Debug)]
pub struct Client {
    url: String,
    headers: HeaderMap,
}

pub struct ClientView {
    pub url: Seq<char>,
    pub headers: Map<Seq<char>, Seq<u8>>,
}

impl View for Client {
    type V = ClientView;

    closed spec fn view(&self) -> ClientView {
        ClientView { url: self.url@, headers: header_entries(self.headers) }
    }
}

impl Clone for Client {
    fn clone(&self) -> (r: Client)
        ensures
            r@ == self@,
    {
        Client { url: self.url.clone(), headers: clone_headers(&self.headers) }
    }
}

impl Default for Client {
    /// The same as `Client::new`.
    fn default() -> (r: Client)
        ensures
            r@.url == default_url(),
            r@.headers == expected_headers(None),
    {
        Client::new()
    }
}

proof fn lemma_header_literals()
    ensures
        crate::headers::is_header_name("Accept"@),
        crate::headers::is_header_name("User-Agent"@),
        crate::headers::is_header_name("Authorization"@),
        is_value_text(json_type()),
        is_value_text(client_identity()),
{
    reveal_strlit("Accept");
    reveal_strlit("User-Agent");
    reveal_strlit("Authorization");
    reveal_strlit("application/json");
    reveal_strlit("piston-rs");
}

proof fn lemma_keys_distinct()
    ensures
        accept_key() != user_agent_key(),
        accept_key() != authorization_key(),
        user_agent_key() != authorization_key(),
{
    reveal_strlit("Accept");
    reveal_strlit("User-Agent");
    reveal_strlit("Authorization");
    assert(accept_key().len() == 6);
    assert(user_agent_key().len() == 10);
    assert(authorization_key().len() == 13);
}

/// A header set carries an `Authorization` header exactly when a key is
/// given, and then its value is the key.
pub proof fn lemma_authorization_iff_key(key: Option<Seq<char>>)
    ensures
        expected_headers(key).contains_key(authorization_key()) <==> key is Some,
        key matches Some(k) ==> expected_headers(key)[authorization_key()] == encode_utf8(k),
{
    lemma_keys_distinct();
}

/// Whatever the key, a header set asks for JSON and names the client, and
/// holds no header but these and the key's.
pub proof fn lemma_fixed_headers(key: Option<Seq<char>>)
    ensures
        expected_headers(key).contains_key(accept_key()),
        expected_headers(key)[accept_key()] == encode_utf8(json_type()),
        expected_headers(key).contains_key(user_agent_key()),
        expected_headers(key)[user_agent_key()] == encode_utf8(client_identity()),
        forall|n: Seq<char>|
            #[trigger] expected_headers(key).contains_key(n) ==> n == accept_key() || n
                == user_agent_key() || (n == authorization_key() && key is Some),
{
    lemma_keys_distinct();
}

impl Client {
    /// The headers for an optional API key: `Accept` asks for JSON,
    /// `User-Agent` names this client, and `Authorization` carries the key
    /// where one is given and is absent otherwise.
    pub fn generate_headers(key: Option<&str>) -> (r: HeaderMap)
        requires
            is_valid_key(key_text(key)),
        ensures
            header_entries(r) == expected_headers(key_text(key)),
    {
        proof {
            lemma_header_literals();
        }
        let mut headers = headers_with_capacity(3);
        insert_header(&mut headers, "Accept", header_value("application/json").unwrap());
        insert_header(&mut headers, "User-Agent", header_value("piston-rs").unwrap());
        if let Some(k) = key {
            insert_header(&mut headers, "Authorization", header_value(k).unwrap());
        }
        headers
    }

    /// A client of the public service, without an API key.
    pub fn new() -> (r: Client)
        ensures
            r@.url == default_url(),
            r@.headers == expected_headers(None),
    {
        Client { url: String::from_str("https://emkc.org/api/v2/piston"), headers: Client::generate_headers(None) }
    }

    /// A client of the service at `url`, without an API key.
    pub fn with_url(url: &str) -> (r: Client)
        ensures
            r@.url == url@,
            r@.headers == expected_headers(None),
    {
        Client { url: String::from_str(url), headers: Client::generate_headers(None) }
    }

    /// A client of the public service that sends `key`.
    pub fn with_key(key: &str) -> (r: Client)
        requires
            is_value_text(key@),
        ensures
            r@.url == default_url(),
            r@.headers == expected_headers(Some(key@)),
    {
        Client {
            url: String::from_str("https://emkc.org/api/v2/piston"),
            headers: Client::generate_headers(Some(key)),
        }
    }

    /// A client of the service at `url` that sends `key`.
    pub fn with_url_and_key(url: &str, key: &str) -> (r: Client)
        requires
            is_value_text(key@),
        ensures
            r@.url == url@,
            r@.headers == expected_headers(Some(key@)),
    {
        Client { url: String::from_str(url), headers: Client::generate_headers(Some(key)) }
    }

    /// A copy of the base URL.
    pub fn get_url(&self) -> (r: String)
        ensures
            r@ == self@.url,
    {
        self.url.clone()
    }

    /// A copy of the headers.
    pub fn get_headers(&self) -> (r: HeaderMap)
        ensures
            header_entries(r) == self@.headers,
    {
        clone_headers(&self.headers)
    }
}

} // verus!
