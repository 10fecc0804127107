//! The connection and identity details of the network under test.

use aptos_sdk::account::Ed25519Account;
use vstd::prelude::*;

verus! {

/// A test run's view of the chain: its root account, borrowed from the run,
/// the address of a node's REST interface, and the chain's id.
pub struct ChainInfo<'t> {
    pub root_account: &'t mut Ed25519Account,
    pub rest_api_url: String,
    pub chain_id: u8,
}

impl<'t> ChainInfo<'t> {
    /// The REST endpoint, as text.
    pub open spec fn endpoint(&self) -> Seq<char> {
        self.rest_api_url@
    }

    /// A view over the given root account, endpoint and chain id.
    pub fn new(root_account: &'t mut Ed25519Account, rest_api_url: String, chain_id: u8) -> (r:
        ChainInfo<'t>)
        ensures
            *r.root_account == *old(root_account),
            *final(r.root_account) == *final(root_account),
            r.rest_api_url == rest_api_url,
            r.chain_id == chain_id,
    {
        ChainInfo { root_account, rest_api_url, chain_id }
    }

    /// The address of the REST endpoint.
    pub fn rest_api(&self) -> (r: &str)
        ensures
            r@ == self.endpoint(),
    {
        self.rest_api_url.as_str()
    }
}

} // verus!
