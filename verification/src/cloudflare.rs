//! The client for the DNS provider's API, without its network side.
//!
//! For each operation the client says which request to send and judges what
//! came back. Sending is left to the caller, who is expected to bound every
//! request by `REQUEST_TIMEOUT_SECS`.

use vstd::prelude::*;
use vstd::string::*;
use crate::error::ClientError;
use crate::exchange::{judge, judged, Exchange, HttpRequest, HttpRequestView, Method};
use crate::model::{DnsRecord, UpdateRequest, UpdateRequestView, Zone};
use crate::trace::{parse_public_ip, traced_ip};

verus! {

/// The number of seconds after which a request is given up.
pub const REQUEST_TIMEOUT_SECS: u64 = 10;

/// The address of the page that echoes the caller's public address.
pub open spec fn trace_url() -> Seq<char> {
    "https://cloudflare.com/cdn-cgi/trace"@
}

/// The address that lists the zones named `name`.
pub open spec fn zones_url(name: Seq<char>) -> Seq<char> {
    "https://api.cloudflare.com/client/v4/zones?name="@ + name
}

/// The address that lists the A records named `fqdn` in a zone.
pub open spec fn records_url(zone_id: Seq<char>, fqdn: Seq<char>) -> Seq<char> {
    "https://api.cloudflare.com/client/v4/zones/"@ + zone_id + "/dns_records?name="@ + fqdn
        + "&type=A"@
}

/// The address of one record in a zone.
pub open spec fn record_url(zone_id: Seq<char>, record_id: Seq<char>) -> Seq<char> {
    "https://api.cloudflare.com/client/v4/zones/"@ + zone_id + "/dns_records/"@ + record_id
}

/// The `Authorization` header that presents `token` as a bearer credential.
pub open spec fn bearer(token: Seq<char>) -> Seq<char> {
    "Bearer "@ + token
}

/// The one item of `items`, where there is exactly one.
pub open spec fn only<T>(items: Seq<T>) -> Result<T, ClientError> {
    if items.len() == 0 {
        Err(ClientError::NotFound)
    } else if items.len() == 1 {
        Ok(items[0])
    } else {
        Err(ClientError::Ambiguous)
    }
}

/// Takes the one item out of `items`. No item is `NotFound`, more than one is
/// `Ambiguous`: the client does not guess.
pub fn take_only<T>(items: Vec<T>) -> (picked: Result<T, ClientError>)
    ensures
        picked == only(items@),
{
    let mut items = items;
    if items.len() > 1 {
        return Err(ClientError::Ambiguous);
    }
    match items.pop() {
        Some(item) => Ok(item),
        None => Err(ClientError::NotFound),
    }
}

/// The text inside a result, where it holds one.
pub open spec fn text_of(result: Result<String, ClientError>) -> Result<Seq<char>, ClientError> {
    match result {
        Ok(text) => Ok(text@),
        Err(e) => Err(e),
    }
}

/// The public address that a fetched trace page reports. A page that could
/// not be fetched is a transport failure; one without an `ip` line reports
/// nothing.
pub open spec fn reported_address(page: Option<Seq<char>>) -> Result<Seq<char>, ClientError> {
    match page {
        None => Err(ClientError::Transport),
        Some(body) => match traced_ip(body) {
            Some(ip) => Ok(ip),
            None => Err(ClientError::NotFound),
        },
    }
}

/// The request for the trace page. It carries no credential.
pub open spec fn trace_request() -> HttpRequestView {
    HttpRequestView { method: Method::Get, url: trace_url(), authorization: None, body: None }
}

/// The GET request for `url` that presents `token`.
pub open spec fn get_request(token: Seq<char>, url: Seq<char>) -> HttpRequestView {
    HttpRequestView { method: Method::Get, url, authorization: Some(bearer(token)), body: None }
}

/// The PATCH request, presenting `token`, that sets a record's content and
/// comment, and nothing else.
pub open spec fn patch_request(
    token: Seq<char>,
    zone_id: Seq<char>,
    record_id: Seq<char>,
    content: Seq<char>,
    comment: Seq<char>,
) -> HttpRequestView {
    HttpRequestView {
        method: Method::Patch,
        url: record_url(zone_id, record_id),
        authorization: Some(bearer(token)),
        body: Some(UpdateRequestView { content, comment }),
    }
}

/// The client of the DNS provider's API. It owns the credential.
#[derive(Debug)]
pub struct CloudflareClient {
    token: String,
}

impl CloudflareClient {
    /// The credential that the client presents.
    pub closed spec fn token(&self) -> Seq<char> {
        self.token@
    }

    /// A client that presents `api_token` with every call to the API.
    pub fn new(api_token: String) -> (client: Self)
        ensures
            client.token() == api_token@,
    {
        CloudflareClient { token: api_token }
    }

    /// The value of the `Authorization` header.
    fn authorization(&self) -> (value: String)
        ensures
            value@ == bearer(self.token()),
    {
        let mut value = String::from_str("Bearer ");
        value.append(self.token.as_str());
        value
    }

    /// The authenticated GET request for `url`.
    fn send_get_request(&self, url: String) -> (request: HttpRequest)
        ensures
            request@ == get_request(self.token(), url@),
    {
        HttpRequest {
            method: Method::Get,
            url,
            authorization: Some(self.authorization()),
            body: None,
        }
    }

    /// The request that asks the address service for the trace page.
    pub fn public_ip_request(&self) -> (request: HttpRequest)
        ensures
            request@ == trace_request(),
    {
        HttpRequest {
            method: Method::Get,
            url: String::from_str("https://cloudflare.com/cdn-cgi/trace"),
            authorization: None,
            body: None,
        }
    }

    /// Reads the public address from the trace page that was fetched, `None`
    /// standing for a page that could not be fetched.
    pub fn get_public_ip_address(&self, page: Option<String>) -> (address: Result<
        String,
        ClientError,
    >)
        ensures
            text_of(address) == reported_address(page.deep_view()),
    {
        match page {
            None => Err(ClientError::Transport),
            Some(body) => parse_public_ip(body.as_str()),
        }
    }

    /// The request that lists the zones named `name`.
    pub fn zone_id_request(&self, name: &str) -> (request: HttpRequest)
        ensures
            request@ == get_request(self.token(), zones_url(name@)),
    {
        let mut url = String::from_str("https://api.cloudflare.com/client/v4/zones?name=");
        url.append(name);
        self.send_get_request(url)
    }

    /// Resolves the zone's identifier from the answer to `zone_id_request`.
    /// Succeeds only where exactly one zone is listed.
    pub fn get_zone_id(&self, exchange: Exchange<Vec<Zone>>) -> (id: Result<String, ClientError>)
        ensures
            id == match judged(exchange) {
                Ok(zones) => match only(zones@) {
                    Ok(zone) => Ok(zone.id),
                    Err(e) => Err(e),
                },
                Err(e) => Err(e),
            },
    {
        match judge(exchange) {
            Ok(zones) => match take_only(zones) {
                Ok(zone) => Ok(zone.id),
                Err(e) => Err(e),
            },
            Err(e) => Err(e),
        }
    }

    /// The request that lists the A records named `fqdn` in the zone.
    pub fn a_record_request(&self, zone_id: &str, fqdn: &str) -> (request: HttpRequest)
        ensures
            request@ == get_request(self.token(), records_url(zone_id@, fqdn@)),
    {
        let mut url = String::from_str("https://api.cloudflare.com/client/v4/zones/");
        url.append(zone_id);
        url.append("/dns_records?name=");
        url.append(fqdn);
        url.append("&type=A");
        self.send_get_request(url)
    }

    /// Takes the managed record from the answer to `a_record_request`.
    /// Succeeds only where exactly one record is listed.
    pub fn get_a_record(&self, exchange: Exchange<Vec<DnsRecord>>) -> (record: Result<
        DnsRecord,
        ClientError,
    >)
        ensures
            record == match judged(exchange) {
                Ok(records) => only(records@),
                Err(e) => Err(e),
            },
    {
        match judge(exchange) {
            Ok(records) => take_only(records),
            Err(e) => Err(e),
        }
    }

    /// The request that sets the content and the comment of one record.
    pub fn update_request(
        &self,
        zone_id: &str,
        record_id: &str,
        content: &str,
        comment: &str,
    ) -> (request: HttpRequest)
        ensures
            request@ == patch_request(self.token(), zone_id@, record_id@, content@, comment@),
    {
        let mut url = String::from_str("https://api.cloudflare.com/client/v4/zones/");
        url.append(zone_id);
        url.append("/dns_records/");
        url.append(record_id);
        HttpRequest {
            method: Method::Patch,
            url,
            authorization: Some(self.authorization()),
            body: Some(UpdateRequest { content: content.to_owned(), comment: comment.to_owned() }),
        }
    }

    /// Takes the record as the provider holds it after the update from the
    /// answer to `update_request`.
    pub fn update_a_record(&self, exchange: Exchange<DnsRecord>) -> (record: Result<
        DnsRecord,
        ClientError,
    >)
        ensures
            record == judged(exchange),
    {
        judge(exchange)
    }
}

} // verus!
