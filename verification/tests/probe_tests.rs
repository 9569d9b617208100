use fee_probe::logstore::LogStore;
use fee_probe::probe::{config_label_exec, probe_entry, record_outcome};
use fee_probe::types::{
    Chain, EndpointConfig, FeeHistory, MultiSourceResult, Provider, Severity, SourceResult,
};

fn endpoint(chain: Chain, providers: Vec<Provider>) -> EndpointConfig {
    EndpointConfig { chain, providers }
}

fn healthy() -> Result<MultiSourceResult, String> {
    Ok(MultiSourceResult::Consistent(SourceResult::Fees(Some(FeeHistory {
        base_fee_per_gas: vec![3, 5, 7],
    }))))
}

#[test]
fn config_label_single_vendor() {
    let c = endpoint(Chain::EthMainnet, vec![Provider::Alchemy]);
    assert_eq!(config_label_exec(&c), "eth-mainnet/alchemy");
}

#[test]
fn config_label_joins_redundant_vendors() {
    let c = endpoint(Chain::ArbitrumOne, vec![Provider::BlockPi, Provider::Ankr]);
    assert_eq!(config_label_exec(&c), "arbitrum-one/blockpi+ankr");
}

#[test]
fn success_logs_info_with_endpoint_tag() {
    let c = endpoint(Chain::EthMainnet, vec![Provider::Alchemy]);
    let e = probe_entry(&c, healthy(), 42);
    assert_eq!(e.timestamp, 42);
    assert_eq!(e.severity, Severity::Info);
    assert_eq!(e.message, "ok, eth-mainnet/alchemy");
}

#[test]
fn empty_series_logs_error() {
    let c = endpoint(Chain::EthSepolia, vec![Provider::PublicNode]);
    let r = Ok(MultiSourceResult::Consistent(SourceResult::Fees(Some(FeeHistory {
        base_fee_per_gas: vec![],
    }))));
    let e = probe_entry(&c, r, 7);
    assert_eq!(e.severity, Severity::Error);
    assert_eq!(e.message, "alert, eth-sepolia/publicnode, no fee data returned");
}

#[test]
fn absent_payload_logs_error() {
    let c = endpoint(Chain::BaseMainnet, vec![Provider::BlockPi]);
    let r = Ok(MultiSourceResult::Consistent(SourceResult::Fees(None)));
    let e = probe_entry(&c, r, 7);
    assert_eq!(e.severity, Severity::Error);
    assert_eq!(e.message, "alert, base-mainnet/blockpi, no fee data returned");
}

#[test]
fn zero_base_fee_logs_error() {
    let c = endpoint(Chain::OptimismMainnet, vec![Provider::Ankr]);
    let r = Ok(MultiSourceResult::Consistent(SourceResult::Fees(Some(FeeHistory {
        base_fee_per_gas: vec![4, 0, 9],
    }))));
    let e = probe_entry(&c, r, 7);
    assert_eq!(e.severity, Severity::Error);
    assert_eq!(e.message, "alert, optimism-mainnet/ankr, base fee per gas is zero");
}

#[test]
fn provider_error_detail_survives_in_message() {
    let c = endpoint(Chain::EthMainnet, vec![Provider::Cloudflare]);
    let r = Ok(MultiSourceResult::Consistent(SourceResult::RpcErr(String::from(
        "no consensus",
    ))));
    let e = probe_entry(&c, r, 7);
    assert_eq!(e.severity, Severity::Error);
    assert_eq!(e.message, "alert, eth-mainnet/cloudflare, provider error: no consensus");
}

#[test]
fn inconsistent_sources_log_error() {
    let c = endpoint(Chain::ArbitrumOne, vec![Provider::Alchemy]);
    let r = Ok(MultiSourceResult::Inconsistent(vec![]));
    let e = probe_entry(&c, r, 7);
    assert_eq!(e.severity, Severity::Error);
    assert_eq!(
        e.message,
        "alert, arbitrum-one/alchemy, inconsistent result across sources"
    );
}

#[test]
fn call_error_detail_survives_in_message() {
    let c = endpoint(Chain::EthSepolia, vec![Provider::Ankr]);
    let r = Err(String::from("out of cycles"));
    let e = probe_entry(&c, r, 7);
    assert_eq!(e.severity, Severity::Error);
    assert_eq!(e.message, "alert, eth-sepolia/ankr, call error: out of cycles");
}

#[test]
fn every_resolution_records_exactly_one_entry() {
    let c = endpoint(Chain::EthMainnet, vec![Provider::Alchemy]);
    let resolutions: Vec<Result<MultiSourceResult, String>> = vec![
        healthy(),
        Ok(MultiSourceResult::Consistent(SourceResult::Fees(None))),
        Ok(MultiSourceResult::Consistent(SourceResult::Fees(Some(FeeHistory {
            base_fee_per_gas: vec![],
        })))),
        Ok(MultiSourceResult::Consistent(SourceResult::Fees(Some(FeeHistory {
            base_fee_per_gas: vec![0],
        })))),
        Ok(MultiSourceResult::Consistent(SourceResult::RpcErr(String::from("boom")))),
        Ok(MultiSourceResult::Inconsistent(vec![])),
        Err(String::from("down")),
    ];
    let mut store = LogStore::new(64);
    let total = resolutions.len();
    for (i, r) in resolutions.into_iter().enumerate() {
        let before = store.len();
        record_outcome(&mut store, &c, r, i as u64);
        assert_eq!(store.len(), before + 1);
    }
    let got = store.logs();
    assert_eq!(got.len(), total);
    assert_eq!(got[0].severity, Severity::Info);
    for e in got.iter().skip(1) {
        assert_eq!(e.severity, Severity::Error);
    }
}
