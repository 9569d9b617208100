//! Data model: endpoints, probe parameters, fee-history responses,
//! probe outcomes and log entries.

use vstd::prelude::*;

verus! {

/// A blockchain network whose RPC providers are monitored.
#[derive(Clone, Copy, PartialEq, Eq, Structural, Debug)]
pub enum Chain {
    EthMainnet,
    EthSepolia,
    OptimismMainnet,
    BaseMainnet,
    ArbitrumOne,
}

/// A named RPC vendor.
#[derive(Clone, Copy, PartialEq, Eq, Structural, Debug)]
pub enum Provider {
    Alchemy,
    BlockPi,
    Cloudflare,
    PublicNode,
    Ankr,
}

/// Whether a vendor offers service for a chain. Cloudflare serves the
/// Ethereum mainnet only; every other vendor serves all monitored chains.
pub open spec fn chain_supports(chain: Chain, provider: Provider) -> bool {
    match provider {
        Provider::Cloudflare => chain == Chain::EthMainnet,
        _ => true,
    }
}

/// One monitored target: a chain together with the vendors that back it.
/// A single vendor is the common case; several vendors mean the logical
/// endpoint fans out to redundant sources.
#[derive(PartialEq, Eq, Debug)]
pub struct EndpointConfig {
    pub chain: Chain,
    pub providers: Vec<Provider>,
}

impl EndpointConfig {
    /// An endpoint names at least one vendor, and only vendors that
    /// serve its chain.
    pub open spec fn wf(self) -> bool {
        &&& self.providers@.len() >= 1
        &&& forall|i: int|
            0 <= i < self.providers@.len() ==> chain_supports(
                self.chain,
                #[trigger] self.providers@[i],
            )
    }
}

impl Clone for EndpointConfig {
    fn clone(&self) -> (res: Self)
        ensures
            res.chain == self.chain,
            res.providers@ == self.providers@,
    {
        let mut providers: Vec<Provider> = Vec::new();
        let mut i: usize = 0;
        while i < self.providers.len()
            invariant
                i <= self.providers@.len(),
                providers@ == self.providers@.subrange(0, i as int),
            decreases self.providers@.len() - i,
        {
            providers.push(self.providers[i]);
            proof {
                assert(providers@ =~= self.providers@.subrange(0, i + 1 as int));
            }
            i = i + 1;
        }
        proof {
            assert(providers@ =~= self.providers@);
        }
        EndpointConfig { chain: self.chain, providers }
    }
}

/// Which block a fee-history request treats as the newest one.
#[derive(Clone, Copy, PartialEq, Eq, Structural, Debug)]
pub enum BlockTag {
    Latest,
    Finalized,
    Safe,
    Earliest,
    Pending,
    Number(u64),
}

/// Fixed parameters of one fee-history request, including the opaque
/// resource budget charged per remote call.
#[derive(PartialEq, Eq, Debug)]
pub struct ProbeRequest {
    pub block_count: u64,
    pub newest_block: BlockTag,
    pub reward_percentiles: Option<Vec<u64>>,
    pub cycles: u128,
}

/// The fee-history payload, reduced to the series the probes inspect:
/// per-block base gas fees, oldest first.
#[derive(PartialEq, Eq, Debug)]
pub struct FeeHistory {
    pub base_fee_per_gas: Vec<u128>,
}

/// What one underlying source answered: a payload (possibly absent), or a
/// provider-level error with its detail text.
#[derive(PartialEq, Eq, Debug)]
pub enum SourceResult {
    Fees(Option<FeeHistory>),
    RpcErr(String),
}

/// The aggregated answer for one logical endpoint: either all queried
/// sources agreed on one result, or they diverged and the individual
/// answers are reported as-is.
#[derive(PartialEq, Eq, Debug)]
pub enum MultiSourceResult {
    Consistent(SourceResult),
    Inconsistent(Vec<SourceResult>),
}

/// Why a probe failed.
#[derive(PartialEq, Eq, Debug)]
pub enum FailureReason {
    /// The response carried no usable fee data.
    EmptyResult,
    /// The base-fee series contains a zero, a sentinel for a broken provider.
    ZeroBaseFee,
    /// The remote service ran but reported a domain-level error.
    ProviderError(String),
    /// Several backing sources disagreed.
    InconsistentAcrossSources,
    /// The call mechanism itself failed.
    UnderlyingCallError(String),
}

/// The classification of one probe run.
#[derive(PartialEq, Eq, Debug)]
pub enum ProbeOutcome {
    Success,
    Failure(FailureReason),
}

/// Severity of a log entry.
#[derive(Clone, Copy, PartialEq, Eq, Structural, Debug)]
pub enum Severity {
    Info,
    Error,
}

/// One immutable record of a probe outcome.
#[derive(PartialEq, Eq, Debug)]
pub struct LogEntry {
    pub timestamp: u64,
    pub severity: Severity,
    pub message: String,
}

impl Clone for LogEntry {
    fn clone(&self) -> (res: Self)
        ensures
            res == *self,
    {
        LogEntry {
            timestamp: self.timestamp,
            severity: self.severity,
            message: self.message.clone(),
        }
    }
}

pub const BLOCK_COUNT: u64 = 4;

pub const CYCLES: u128 = 30_000_000_000;

/// The fixed request every probe sends: the four most recent blocks,
/// newest tagged `Latest`, no reward percentiles, the fixed budget.
pub fn default_request() -> (r: ProbeRequest)
    ensures
        r.block_count == BLOCK_COUNT,
        r.newest_block == BlockTag::Latest,
        r.reward_percentiles is None,
        r.cycles == CYCLES,
{
    ProbeRequest {
        block_count: BLOCK_COUNT,
        newest_block: BlockTag::Latest,
        reward_percentiles: None,
        cycles: CYCLES,
    }
}

} // verus!
