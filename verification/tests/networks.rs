use sol_dash::network::{Commitment, Network};

#[test]
fn devnet_resolves_to_its_endpoint() {
    let target = Network::Devnet.resolve();
    assert_eq!(target.endpoint, "https://api.devnet.solana.com");
    assert_eq!(target.commitment, Commitment::Finalized);
}

#[test]
fn mainnet_resolves_to_its_endpoint() {
    let target = Network::Mainnet.resolve();
    assert_eq!(target.endpoint, "https://api.mainnet-beta.solana.com");
    assert_eq!(target.commitment, Commitment::Finalized);
}

#[test]
fn localnet_resolves_to_its_endpoint() {
    let target = Network::Localnet.resolve();
    assert_eq!(target.endpoint, "http://localhost:8899");
    assert_eq!(target.commitment, Commitment::Finalized);
}

#[test]
fn networks_resolve_to_distinct_targets() {
    let all = [Network::Devnet, Network::Mainnet, Network::Localnet];
    for a in all {
        for b in all {
            let same = a.resolve().endpoint == b.resolve().endpoint
                && a.resolve().commitment == b.resolve().commitment;
            assert_eq!(same, a == b);
        }
    }
}

#[test]
fn resolve_is_stable_across_calls() {
    for network in [Network::Devnet, Network::Mainnet, Network::Localnet] {
        assert_eq!(network.resolve().endpoint, network.resolve().endpoint);
        assert_eq!(network.resolve().endpoint, network.endpoint());
        assert_eq!(network.resolve().commitment, network.commitment());
    }
}

#[test]
fn default_network_is_devnet() {
    assert_eq!(Network::default(), Network::Devnet);
}

#[test]
fn only_mainnet_gives_no_airdrop() {
    assert!(Network::Devnet.allows_airdrop());
    assert!(Network::Localnet.allows_airdrop());
    assert!(!Network::Mainnet.allows_airdrop());
}
