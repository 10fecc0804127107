//! Building a REST client for the chain's endpoint.

use aptos_sdk::api::FullnodeClient;
use aptos_sdk::AptosConfig;
use reqwest::Url;
use vstd::prelude::*;

verus! {

#[verifier::external_type_specification]
#[verifier::external_body]
pub struct ExUrl(Url);

#[verifier::external_type_specification]
#[verifier::external_body]
pub struct ExAptosConfig(AptosConfig);

#[verifier::external_type_specification]
#[verifier::external_body]
pub struct ExFullnodeClient(FullnodeClient);

/// Why no client could be built for an endpoint.
#[derive(Debug, Clone, Copy, PartialEq, Eq, Structural)]
pub enum ClientError {
    /// The endpoint is not a well-formed URL.
    MalformedEndpoint,
    /// The URL is well formed but the SDK refuses it as a node address.
    UnsupportedEndpoint,
    /// The HTTP client behind the REST client could not be set up.
    ClientUnavailable,
}

/// Whether `Url::parse` accepts the text.
pub uninterp spec fn url_parses(s: Seq<char>) -> bool;

/// The text of the URL that `Url::parse` makes of `s`.
pub uninterp spec fn parsed_text(s: Seq<char>) -> Seq<char>;

/// The text of a URL, as `Url::as_str` gives it.
pub uninterp spec fn url_text(u: Url) -> Seq<char>;

/// The text of the node address a configuration holds, as
/// `AptosConfig::fullnode_url` gives it.
pub uninterp spec fn config_url_text(c: AptosConfig) -> Seq<char>;

/// The text of a client's base address, as `FullnodeClient::base_url` gives it.
pub uninterp spec fn client_base_text(c: FullnodeClient) -> Seq<char>;

/// Whether the text of a URL starts with the scheme `http` or `https`: a URL's
/// text starts with its scheme, followed by a colon.
pub open spec fn http_scheme(text: Seq<char>) -> bool {
    (text.len() >= 5 && text.subrange(0, 5) =~= seq!['h', 't', 't', 'p', ':']) || (text.len() >= 6
        && text.subrange(0, 6) =~= seq!['h', 't', 't', 'p', 's', ':'])
}

/// Whether `AptosConfig::custom` takes `text` as a node address: it parses
/// and has the scheme `http` or `https`.
pub open spec fn node_address(text: Seq<char>) -> bool {
    url_parses(text) && http_scheme(parsed_text(text))
}

/// Relies on `reqwest::Url::parse` (the `url` crate's parser): whether it
/// accepts the text, and the URL it makes of it, depend on the text alone.
#[verifier::external_body]
fn parse_url(s: &str) -> (r: Option<Url>)
    ensures
        r.is_some() == url_parses(s@),
        r.is_some() ==> url_text(r->Some_0) == parsed_text(s@),
{
    Url::parse(s).ok()
}

/// Relies on `AptosConfig::custom`, given the URL's text: it parses the text
/// again, refuses a scheme other than `http` or `https`, and keeps the parsed
/// URL as the node address.
#[verifier::external_body]
fn node_config(url: &Url) -> (r: Option<AptosConfig>)
    ensures
        r.is_some() == node_address(url_text(*url)),
        r.is_some() ==> config_url_text(r->Some_0) == parsed_text(url_text(*url)),
{
    AptosConfig::custom(url.as_str()).ok()
}

/// Relies on `FullnodeClient::new`: a client for the configured node, whose
/// base address is the configuration's node address, or `None` where its
/// HTTP client cannot be built.
#[verifier::external_body]
fn fullnode_client(config: AptosConfig) -> (r: Option<FullnodeClient>)
    ensures
        r.is_some() ==> client_base_text(r->Some_0) == config_url_text(config),
{
    FullnodeClient::new(config).ok()
}

/// What a client built for `endpoint` has as its base address: the URL parsed
/// from the endpoint, as the SDK parses it once more.
pub open spec fn client_base_for(endpoint: Seq<char>) -> Seq<char> {
    parsed_text(parsed_text(endpoint))
}

/// A fresh REST client for the node at `endpoint`. The address alone decides
/// two errors: a malformed address, and one the SDK does not take as a node
/// address. Past those, only building the HTTP client can fail, and a client
/// that is built has the parsed endpoint as its base address.
pub fn client_for(endpoint: &str) -> (r: Result<FullnodeClient, ClientError>)
    ensures
        (r == Err::<FullnodeClient, ClientError>(ClientError::MalformedEndpoint)) == !url_parses(
            endpoint@,
        ),
        (r == Err::<FullnodeClient, ClientError>(ClientError::UnsupportedEndpoint)) == (url_parses(
            endpoint@,
        ) && !node_address(parsed_text(endpoint@))),
        r is Ok ==> client_base_text(r->Ok_0) == client_base_for(endpoint@),
{
    match parse_url(endpoint) {
        None => Err(ClientError::MalformedEndpoint),
        Some(url) => match node_config(&url) {
            None => Err(ClientError::UnsupportedEndpoint),
            Some(config) => match fullnode_client(config) {
                None => Err(ClientError::ClientUnavailable),
                Some(client) => Ok(client),
            },
        },
    }
}

} // verus!
