//! The compiled-in endpoint registry: every monitored (chain, vendor) pair.

use vstd::prelude::*;
use crate::types::{Chain, EndpointConfig, Provider};

verus! {

/// How many endpoints the registry holds.
pub const REGISTRY_LEN: usize = 21;

/// The chain of the registry entry at position `i`.
pub open spec fn registry_chain(i: int) -> Chain {
    if i < 5 {
        Chain::EthMainnet
    } else if i < 9 {
        Chain::EthSepolia
    } else if i < 13 {
        Chain::OptimismMainnet
    } else if i < 17 {
        Chain::BaseMainnet
    } else {
        Chain::ArbitrumOne
    }
}

/// The single vendor of the registry entry at position `i`. The Ethereum
/// mainnet block lists five vendors; every other chain's block lists the
/// same four, Cloudflare left out.
pub open spec fn registry_provider(i: int) -> Provider {
    if i == 0 {
        Provider::Alchemy
    } else if i == 1 {
        Provider::BlockPi
    } else if i == 2 {
        Provider::Cloudflare
    } else if i == 3 {
        Provider::PublicNode
    } else if i == 4 {
        Provider::Ankr
    } else {
        let j = (i - 5) % 4;
        if j == 0 {
            Provider::Alchemy
        } else if j == 1 {
            Provider::BlockPi
        } else if j == 2 {
            Provider::PublicNode
        } else {
            Provider::Ankr
        }
    }
}

/// An endpoint backed by exactly one vendor.
fn endpoint(chain: Chain, provider: Provider) -> (e: EndpointConfig)
    ensures
        e.chain == chain,
        e.providers@ == seq![provider],
{
    let mut providers: Vec<Provider> = Vec::new();
    providers.push(provider);
    proof {
        assert(providers@ =~= seq![provider]);
    }
    EndpointConfig { chain, providers }
}

/// The full ordered registry, fixed for the process lifetime: each entry
/// holds the chain and vendor the position dictates, each names exactly
/// one vendor, and each is well formed.
pub fn default_registry() -> (r: Vec<EndpointConfig>)
    ensures
        r@.len() == REGISTRY_LEN as int,
        forall|i: int|
            0 <= i < r@.len() ==> (#[trigger] r@[i]).chain == registry_chain(i),
        forall|i: int|
            0 <= i < r@.len() ==> (#[trigger] r@[i]).providers@ == seq![registry_provider(i)],
        forall|i: int| 0 <= i < r@.len() ==> (#[trigger] r@[i]).wf(),
{
    let mut r: Vec<EndpointConfig> = Vec::new();
    r.push(endpoint(Chain::EthMainnet, Provider::Alchemy));
    r.push(endpoint(Chain::EthMainnet, Provider::BlockPi));
    r.push(endpoint(Chain::EthMainnet, Provider::Cloudflare));
    r.push(endpoint(Chain::EthMainnet, Provider::PublicNode));
    r.push(endpoint(Chain::EthMainnet, Provider::Ankr));
    r.push(endpoint(Chain::EthSepolia, Provider::Alchemy));
    r.push(endpoint(Chain::EthSepolia, Provider::BlockPi));
    r.push(endpoint(Chain::EthSepolia, Provider::PublicNode));
    r.push(endpoint(Chain::EthSepolia, Provider::Ankr));
    r.push(endpoint(Chain::OptimismMainnet, Provider::Alchemy));
    r.push(endpoint(Chain::OptimismMainnet, Provider::BlockPi));
    r.push(endpoint(Chain::OptimismMainnet, Provider::PublicNode));
    r.push(endpoint(Chain::OptimismMainnet, Provider::Ankr));
    r.push(endpoint(Chain::BaseMainnet, Provider::Alchemy));
    r.push(endpoint(Chain::BaseMainnet, Provider::BlockPi));
    r.push(endpoint(Chain::BaseMainnet, Provider::PublicNode));
    r.push(endpoint(Chain::BaseMainnet, Provider::Ankr));
    r.push(endpoint(Chain::ArbitrumOne, Provider::Alchemy));
    r.push(endpoint(Chain::ArbitrumOne, Provider::BlockPi));
    r.push(endpoint(Chain::ArbitrumOne, Provider::PublicNode));
    r.push(endpoint(Chain::ArbitrumOne, Provider::Ankr));
    r
}

} // verus!
