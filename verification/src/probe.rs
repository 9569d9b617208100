//! Turning one probe's resolution into exactly one log entry.

use vstd::prelude::*;
use vstd::string::StringExecFns;
use crate::types::{
    Chain, EndpointConfig, FailureReason, LogEntry, MultiSourceResult, ProbeOutcome, Provider,
    Severity,
};
use crate::validator::{classify, spec_classify};
use crate::logstore::{append_step, LogStore};

verus! {

/// A success is logged as `Info`; every failure as `Error`.
pub open spec fn severity_of(o: ProbeOutcome) -> Severity {
    if o is Success {
        Severity::Info
    } else {
        Severity::Error
    }
}

pub open spec fn chain_label(c: Chain) -> Seq<char> {
    match c {
        Chain::EthMainnet => "eth-mainnet"@,
        Chain::EthSepolia => "eth-sepolia"@,
        Chain::OptimismMainnet => "optimism-mainnet"@,
        Chain::BaseMainnet => "base-mainnet"@,
        Chain::ArbitrumOne => "arbitrum-one"@,
    }
}

pub open spec fn provider_label(p: Provider) -> Seq<char> {
    match p {
        Provider::Alchemy => "alchemy"@,
        Provider::BlockPi => "blockpi"@,
        Provider::Cloudflare => "cloudflare"@,
        Provider::PublicNode => "publicnode"@,
        Provider::Ankr => "ankr"@,
    }
}

/// The vendors of an endpoint, joined with `+`.
pub open spec fn providers_label(ps: Seq<Provider>) -> Seq<char>
    decreases ps.len(),
{
    if ps.len() == 0 {
        Seq::<char>::empty()
    } else if ps.len() == 1 {
        provider_label(ps[0])
    } else {
        providers_label(ps.drop_last()) + "+"@ + provider_label(ps.last())
    }
}

/// The tag an entry's message carries for its endpoint.
pub open spec fn config_label(c: EndpointConfig) -> Seq<char> {
    chain_label(c.chain) + "/"@ + providers_label(c.providers@)
}

pub open spec fn status_tag(o: ProbeOutcome) -> Seq<char> {
    if o is Success {
        "ok, "@
    } else {
        "alert, "@
    }
}

/// The failure note appended to a message, with any error detail
/// preserved verbatim.
pub open spec fn outcome_note(o: ProbeOutcome) -> Seq<char> {
    match o {
        ProbeOutcome::Success => Seq::<char>::empty(),
        ProbeOutcome::Failure(FailureReason::EmptyResult) => ", no fee data returned"@,
        ProbeOutcome::Failure(FailureReason::ZeroBaseFee) => ", base fee per gas is zero"@,
        ProbeOutcome::Failure(FailureReason::ProviderError(d)) => ", provider error: "@ + d@,
        ProbeOutcome::Failure(FailureReason::InconsistentAcrossSources) =>
            ", inconsistent result across sources"@,
        ProbeOutcome::Failure(FailureReason::UnderlyingCallError(d)) => ", call error: "@ + d@,
    }
}

/// The whole message of one entry: status tag, endpoint tag, failure note.
pub open spec fn entry_message(c: EndpointConfig, o: ProbeOutcome) -> Seq<char> {
    status_tag(o) + config_label(c) + outcome_note(o)
}

fn chain_label_exec(c: Chain) -> (r: &'static str)
    ensures
        r@ == chain_label(c),
{
    match c {
        Chain::EthMainnet => "eth-mainnet",
        Chain::EthSepolia => "eth-sepolia",
        Chain::OptimismMainnet => "optimism-mainnet",
        Chain::BaseMainnet => "base-mainnet",
        Chain::ArbitrumOne => "arbitrum-one",
    }
}

fn provider_label_exec(p: Provider) -> (r: &'static str)
    ensures
        r@ == provider_label(p),
{
    match p {
        Provider::Alchemy => "alchemy",
        Provider::BlockPi => "blockpi",
        Provider::Cloudflare => "cloudflare",
        Provider::PublicNode => "publicnode",
        Provider::Ankr => "ankr",
    }
}

fn providers_label_exec(ps: &Vec<Provider>) -> (r: String)
    ensures
        r@ == providers_label(ps@),
{
    let mut out = String::new();
    let mut i: usize = 0;
    while i < ps.len()
        invariant
            i <= ps@.len(),
            out@ == providers_label(ps@.subrange(0, i as int)),
        decreases ps@.len() - i,
    {
        if i > 0 {
            out.append("+");
        }
        out.append(provider_label_exec(ps[i]));
        proof {
            let pre = ps@.subrange(0, i as int);
            let cur = ps@.subrange(0, i + 1 as int);
            assert(cur.drop_last() =~= pre);
            assert(cur.last() == ps@[i as int]);
        }
        i = i + 1;
    }
    proof {
        assert(ps@.subrange(0, ps@.len() as int) =~= ps@);
    }
    out
}

/// The endpoint tag used in log messages, e.g. `eth-mainnet/alchemy`.
pub fn config_label_exec(c: &EndpointConfig) -> (r: String)
    ensures
        r@ == config_label(*c),
{
    let mut out = chain_label_exec(c.chain).to_owned();
    out.append("/");
    let pl = providers_label_exec(&c.providers);
    out.append(pl.as_str());
    out
}

/// Build the single log entry a probe produces for its resolution. Total
/// over every possible resolution: the entry's severity and message are
/// pinned by the classification, and error details survive into the
/// message unchanged.
pub fn probe_entry(
    config: &EndpointConfig,
    resolution: Result<MultiSourceResult, String>,
    timestamp: u64,
) -> (e: LogEntry)
    ensures
        e.timestamp == timestamp,
        e.severity == severity_of(spec_classify(resolution)),
        e.message@ == entry_message(*config, spec_classify(resolution)),
{
    let outcome = classify(resolution);
    let severity = match &outcome {
        ProbeOutcome::Success => Severity::Info,
        ProbeOutcome::Failure(_) => Severity::Error,
    };
    let mut message = match &outcome {
        ProbeOutcome::Success => "ok, ".to_owned(),
        ProbeOutcome::Failure(_) => "alert, ".to_owned(),
    };
    let label = config_label_exec(config);
    message.append(label.as_str());
    match &outcome {
        ProbeOutcome::Success => {},
        ProbeOutcome::Failure(FailureReason::EmptyResult) => {
            message.append(", no fee data returned");
        },
        ProbeOutcome::Failure(FailureReason::ZeroBaseFee) => {
            message.append(", base fee per gas is zero");
        },
        ProbeOutcome::Failure(FailureReason::ProviderError(d)) => {
            message.append(", provider error: ");
            message.append(d.as_str());
        },
        ProbeOutcome::Failure(FailureReason::InconsistentAcrossSources) => {
            message.append(", inconsistent result across sources");
        },
        ProbeOutcome::Failure(FailureReason::UnderlyingCallError(d)) => {
            message.append(", call error: ");
            message.append(d.as_str());
        },
    }
    LogEntry { timestamp, severity, message }
}

/// Run the tail of one probe: classify the resolution and append exactly
/// one entry to the store, with the severity and message the
/// classification demands.
pub fn record_outcome(
    store: &mut LogStore,
    config: &EndpointConfig,
    resolution: Result<MultiSourceResult, String>,
    timestamp: u64,
)
    requires
        old(store).wf(),
    ensures
        final(store).wf(),
        final(store).cap() == old(store).cap(),
        final(store).log().len() >= 1,
        ({
            let o = spec_classify(resolution);
            let e = final(store).log().last();
            &&& final(store).log() == append_step(old(store).log(), old(store).cap(), e)
            &&& e.timestamp == timestamp
            &&& e.severity == severity_of(o)
            &&& e.message@ == entry_message(*config, o)
        }),
{
    let e = probe_entry(config, resolution, timestamp);
    store.append(e);
}

} // verus!
