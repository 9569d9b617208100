use fee_probe::registry::{default_registry, REGISTRY_LEN};
use fee_probe::types::{default_request, BlockTag, Chain, Provider, BLOCK_COUNT, CYCLES};

#[test]
fn registry_holds_every_monitored_pair() {
    let r = default_registry();
    assert_eq!(r.len(), REGISTRY_LEN);
    assert_eq!(r.len(), 21);
    let chains: Vec<Chain> = r.iter().map(|e| e.chain).collect();
    assert_eq!(chains.iter().filter(|c| **c == Chain::EthMainnet).count(), 5);
    assert_eq!(chains.iter().filter(|c| **c == Chain::EthSepolia).count(), 4);
    assert_eq!(chains.iter().filter(|c| **c == Chain::OptimismMainnet).count(), 4);
    assert_eq!(chains.iter().filter(|c| **c == Chain::BaseMainnet).count(), 4);
    assert_eq!(chains.iter().filter(|c| **c == Chain::ArbitrumOne).count(), 4);
}

#[test]
fn each_entry_names_exactly_one_vendor() {
    let r = default_registry();
    for e in r.iter() {
        assert_eq!(e.providers.len(), 1);
    }
}

#[test]
fn cloudflare_backs_only_the_ethereum_mainnet() {
    let r = default_registry();
    assert_eq!(r[2].chain, Chain::EthMainnet);
    assert_eq!(r[2].providers, vec![Provider::Cloudflare]);
    for e in r.iter() {
        if e.providers.contains(&Provider::Cloudflare) {
            assert_eq!(e.chain, Chain::EthMainnet);
        }
    }
}

#[test]
fn registry_boundaries_are_as_laid_out() {
    let r = default_registry();
    assert_eq!(r[0].chain, Chain::EthMainnet);
    assert_eq!(r[0].providers, vec![Provider::Alchemy]);
    assert_eq!(r[5].chain, Chain::EthSepolia);
    assert_eq!(r[5].providers, vec![Provider::Alchemy]);
    assert_eq!(r[8].chain, Chain::EthSepolia);
    assert_eq!(r[8].providers, vec![Provider::Ankr]);
    assert_eq!(r[20].chain, Chain::ArbitrumOne);
    assert_eq!(r[20].providers, vec![Provider::Ankr]);
}

#[test]
fn default_request_is_fixed() {
    let q = default_request();
    assert_eq!(q.block_count, BLOCK_COUNT);
    assert_eq!(q.block_count, 4);
    assert_eq!(q.newest_block, BlockTag::Latest);
    assert_eq!(q.reward_percentiles, None);
    assert_eq!(q.cycles, CYCLES);
    assert_eq!(q.cycles, 30_000_000_000);
}
