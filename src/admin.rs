//! Tests written from the point of view of the network's administrator, and
//! the context they run in.

use crate::account::{account_from_key, account_of_key, KEY_LEN};
use crate::chain::ChainInfo;
use crate::client::{
    client_base_for, client_base_text, client_for, node_address, parsed_text, url_parses, ClientError,
};
use crate::context::{fill_bytes, fill_from, seeded_generator, CoreContext};
use crate::report::TestReport;
use aptos_sdk::account::Ed25519Account;
use aptos_sdk::api::FullnodeClient;
use rand::rngs::StdRng;
use vstd::prelude::*;

verus! {

/// Why a test did not pass.
pub struct TestFailure {
    pub message: String,
}

/// What every test has, whatever its kind.
pub trait Test {
    /// The test's name.
    fn name(&self) -> &'static str;
}

/// A test written from the point of view of the network's administrator: it
/// has the root account, but controls none of the validators or full nodes.
pub trait AdminTest: Test {
    /// Runs the test in the given context.
    fn run<'t>(&self, ctx: &mut AdminContext<'t>) -> Result<(), TestFailure>;
}

/// The account that a generator in state `g` hands out next, and the
/// generator's state afterwards.
pub open spec fn next_account(g: StdRng) -> (Ed25519Account, StdRng) {
    (account_of_key(fill_from(g, KEY_LEN as nat).0), fill_from(g, KEY_LEN as nat).1)
}

/// Everything one admin test may use, for the length of one invocation.
pub struct AdminContext<'t> {
    core: CoreContext,
    chain_info: ChainInfo<'t>,
    pub report: &'t mut TestReport,
}

impl<'t> AdminContext<'t> {
    /// The core context the context owns.
    pub closed spec fn spec_core(&self) -> CoreContext {
        self.core
    }

    /// The chain info the context holds.
    pub closed spec fn spec_chain_info(&self) -> ChainInfo<'t> {
        self.chain_info
    }

    /// The borrowed report sink.
    pub closed spec fn spec_report(&self) -> &'t mut TestReport {
        self.report
    }

    /// The state of the context's generator.
    pub open spec fn generator(&self) -> StdRng {
        self.spec_core().generator()
    }

    /// The REST endpoint the context currently points at.
    pub open spec fn endpoint(&self) -> Seq<char> {
        self.spec_chain_info().endpoint()
    }

    /// Puts the three parts together; nothing is checked.
    pub fn new(core: CoreContext, chain_info: ChainInfo<'t>, report: &'t mut TestReport) -> (r:
        AdminContext<'t>)
        ensures
            r.spec_core() == core,
            r.spec_chain_info() == chain_info,
            *r.spec_report() == *old(report),
            *final(r.spec_report()) == *final(report),
    {
        AdminContext { core, chain_info, report }
    }

    /// The core context, to look at.
    pub fn core_context(&self) -> (r: &CoreContext)
        ensures
            *r == self.spec_core(),
    {
        &self.core
    }

    /// The context's generator itself, so that every call continues one
    /// stream.
    pub fn rng(&mut self) -> (r: &mut StdRng)
        ensures
            *r == old(self).generator(),
            final(self).generator() == *final(r),
            final(self).spec_chain_info() == old(self).spec_chain_info(),
            final(self).spec_report() == old(self).spec_report(),
    {
        self.core.rng()
    }

    /// A fresh client for the endpoint the chain info holds now. A malformed
    /// endpoint gives `MalformedEndpoint`; one the SDK does not take as a node
    /// address gives `UnsupportedEndpoint`; a client that is built has the
    /// parsed endpoint as its base address.
    pub fn rest_client(&self) -> (r: Result<FullnodeClient, ClientError>)
        ensures
            (r == Err::<FullnodeClient, ClientError>(ClientError::MalformedEndpoint)) == !url_parses(
                self.endpoint(),
            ),
            (r == Err::<FullnodeClient, ClientError>(ClientError::UnsupportedEndpoint)) == (
            url_parses(self.endpoint()) && !node_address(parsed_text(self.endpoint()))),
            r is Ok ==> client_base_text(r->Ok_0) == client_base_for(self.endpoint()),
    {
        client_for(self.chain_info.rest_api())
    }

    /// The chain info itself, to read or to change.
    pub fn chain_info(&mut self) -> (r: &mut ChainInfo<'t>)
        ensures
            *r == old(self).spec_chain_info(),
            final(self).spec_chain_info() == *final(r),
            final(self).spec_core() == old(self).spec_core(),
            final(self).spec_report() == old(self).spec_report(),
    {
        &mut self.chain_info
    }

    /// A new account whose private key is drawn from the context's generator,
    /// so that it follows every earlier draw in one stream.
    pub fn random_account(&mut self) -> (r: Ed25519Account)
        ensures
            r == next_account(old(self).generator()).0,
            final(self).generator() == next_account(old(self).generator()).1,
            final(self).spec_chain_info() == old(self).spec_chain_info(),
            final(self).spec_report() == old(self).spec_report(),
    {
        let key = fill_bytes(self.core.rng(), KEY_LEN);
        account_from_key(&key).unwrap()
    }
}

/// One draw from a generator in state `g`: `None` for an account, as
/// `random_account` makes it, `Some(len)` for `len` bytes filled from the
/// generator that `rng` hands out. Gives the account or the bytes, and the
/// generator's state afterwards.
pub open spec fn draw(g: StdRng, op: Option<nat>) -> (Option<Ed25519Account>, Seq<u8>, StdRng) {
    match op {
        None => (Some(next_account(g).0), Seq::empty(), next_account(g).1),
        Some(len) => (None, fill_from(g, len).0, fill_from(g, len).1),
    }
}

/// What the draws `ops`, made one after another from a generator in state
/// `g`, give, in order.
pub open spec fn draws_from(g: StdRng, ops: Seq<Option<nat>>) -> Seq<(Option<Ed25519Account>, Seq<u8>)>
    decreases ops.len(),
{
    if ops.len() == 0 {
        Seq::empty()
    } else {
        seq![(draw(g, ops[0]).0, draw(g, ops[0]).1)] + draws_from(draw(g, ops[0]).2, ops.drop_first())
    }
}

/// The state of a generator in state `g` after the draws `ops`.
pub open spec fn after_draws(g: StdRng, ops: Seq<Option<nat>>) -> StdRng
    decreases ops.len(),
{
    if ops.len() == 0 {
        g
    } else {
        after_draws(draw(g, ops[0]).2, ops.drop_first())
    }
}

/// Two contexts whose generators were seeded with the same seed give the same
/// accounts and the same bytes for the same draws in the same order, whatever
/// their chain info and reports hold, and end with their generators in the
/// same state.
pub proof fn lemma_same_seed_same_stream<'a, 'b>(
    a: &AdminContext<'a>,
    b: &AdminContext<'b>,
    seed: u64,
    ops: Seq<Option<nat>>,
)
    requires
        a.generator() == seeded_generator(seed),
        b.generator() == seeded_generator(seed),
    ensures
        draws_from(a.generator(), ops) == draws_from(b.generator(), ops),
        after_draws(a.generator(), ops) == after_draws(b.generator(), ops),
{
}

/// Draws made one after another: the draws `ops` followed by `op` give what
/// `ops` gives, then what `op` gives from the state `ops` left behind.
pub proof fn lemma_draws_extend(g: StdRng, ops: Seq<Option<nat>>, op: Option<nat>)
    ensures
        draws_from(g, ops.push(op)) == draws_from(g, ops).push(
            (draw(after_draws(g, ops), op).0, draw(after_draws(g, ops), op).1),
        ),
        after_draws(g, ops.push(op)) == draw(after_draws(g, ops), op).2,
    decreases ops.len(),
{
    let step = draw(g, ops.push(op)[0]);
    if ops.len() > 0 {
        lemma_draws_extend(draw(g, ops[0]).2, ops.drop_first(), op);
        assert(ops.push(op).drop_first() =~= ops.drop_first().push(op));
        assert(ops.push(op)[0] == ops[0]);
        assert(draws_from(g, ops.push(op)) =~= draws_from(g, ops).push(
            (draw(after_draws(g, ops), op).0, draw(after_draws(g, ops), op).1),
        ));
    } else {
        assert(ops.push(op).drop_first() =~= Seq::<Option<nat>>::empty());
        assert(after_draws(g, ops) == g);
        assert(draws_from(g, ops) == Seq::<(Option<Ed25519Account>, Seq<u8>)>::empty());
        assert(draws_from(step.2, ops.push(op).drop_first()) == Seq::<
            (Option<Ed25519Account>, Seq<u8>),
        >::empty());
        assert(after_draws(step.2, ops.push(op).drop_first()) == step.2);
        assert(draws_from(g, ops.push(op)) =~= draws_from(g, ops).push(
            (draw(after_draws(g, ops), op).0, draw(after_draws(g, ops), op).1),
        ));
    }
}

} // verus!
