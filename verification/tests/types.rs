use x402_rs::network::Network;
use x402_rs::network::NetworkFamily;
use x402_rs::types::MixedAddress;
use x402_rs::types::TokenAsset;
use x402_rs::types::TokenDeployment;
use x402_rs::types::TokenDeploymentEip712;

fn domain() -> TokenDeploymentEip712 {
    TokenDeploymentEip712 { name: "Token".to_string(), version: "1".to_string() }
}

#[test]
fn address_family_follows_the_kind() {
    assert_eq!(MixedAddress::Evm([7; 20]).family(), NetworkFamily::Evm);
    assert_eq!(MixedAddress::Solana([7; 32]).family(), NetworkFamily::Solana);
}

#[test]
fn addresses_compare_by_kind_and_bytes() {
    assert_eq!(MixedAddress::Evm([1; 20]), MixedAddress::Evm([1; 20]));
    assert_ne!(MixedAddress::Evm([1; 20]), MixedAddress::Evm([2; 20]));
    assert_ne!(MixedAddress::Solana([1; 32]), MixedAddress::Solana([2; 32]));
    let mut bytes = [1u8; 20];
    bytes[19] = 0;
    assert_ne!(MixedAddress::Evm([1; 20]), MixedAddress::Evm(bytes));
}

#[test]
fn asset_takes_an_address_of_the_network_family() {
    let evm = MixedAddress::Evm([1; 20]);
    let key = MixedAddress::Solana([2; 32]);
    assert_eq!(
        TokenAsset::new(evm, Network::Base),
        Some(TokenAsset { address: evm, network: Network::Base })
    );
    assert_eq!(
        TokenAsset::new(key, Network::SolanaDevnet),
        Some(TokenAsset { address: key, network: Network::SolanaDevnet })
    );
}

#[test]
fn asset_refuses_an_address_of_the_other_family() {
    let evm = MixedAddress::Evm([1; 20]);
    let key = MixedAddress::Solana([2; 32]);
    assert_eq!(TokenAsset::new(evm, Network::Solana), None);
    assert_eq!(TokenAsset::new(evm, Network::SolanaDevnet), None);
    assert_eq!(TokenAsset::new(key, Network::Base), None);
    assert_eq!(TokenAsset::new(key, Network::Sei), None);
}

#[test]
fn asset_is_checked_on_every_network() {
    let evm = MixedAddress::Evm([1; 20]);
    let key = MixedAddress::Solana([2; 32]);
    for network in Network::variants() {
        let is_solana = NetworkFamily::from(*network) == NetworkFamily::Solana;
        assert_eq!(TokenAsset::new(key, *network).is_some(), is_solana);
        assert_eq!(TokenAsset::new(evm, *network).is_some(), !is_solana);
    }
}

#[test]
fn deployment_on_an_evm_network_may_have_a_domain_or_none() {
    let asset = TokenAsset { address: MixedAddress::Evm([1; 20]), network: Network::Polygon };
    assert_eq!(
        TokenDeployment::new(asset, 6, Some(domain())),
        Some(TokenDeployment { asset, decimals: 6, eip712: Some(domain()) })
    );
    assert_eq!(
        TokenDeployment::new(asset, 18, None),
        Some(TokenDeployment { asset, decimals: 18, eip712: None })
    );
}

#[test]
fn deployment_on_solana_has_no_domain() {
    let asset = TokenAsset { address: MixedAddress::Solana([1; 32]), network: Network::Solana };
    assert_eq!(TokenDeployment::new(asset, 6, Some(domain())), None);
    assert_eq!(
        TokenDeployment::new(asset, 6, None),
        Some(TokenDeployment { asset, decimals: 6, eip712: None })
    );
}

#[test]
fn deployment_refuses_an_asset_of_mixed_families() {
    let mixed = TokenAsset { address: MixedAddress::Solana([1; 32]), network: Network::Base };
    assert_eq!(TokenDeployment::new(mixed, 6, None), None);
    assert_eq!(TokenDeployment::new(mixed, 6, Some(domain())), None);
    let other = TokenAsset { address: MixedAddress::Evm([1; 20]), network: Network::Solana };
    assert_eq!(TokenDeployment::new(other, 6, None), None);
}

#[test]
fn deployment_keeps_the_extreme_decimals() {
    let asset = TokenAsset { address: MixedAddress::Evm([1; 20]), network: Network::Celo };
    assert_eq!(TokenDeployment::new(asset, 0, None).unwrap().decimals, 0);
    assert_eq!(TokenDeployment::new(asset, 255, None).unwrap().decimals, 255);
}

#[test]
fn clones_are_equal_to_what_they_copy() {
    let asset = TokenAsset { address: MixedAddress::Evm([9; 20]), network: Network::Optimism };
    let deployment = TokenDeployment { asset, decimals: 6, eip712: Some(domain()) };
    assert_eq!(deployment.clone(), deployment);
    assert_eq!(domain().clone(), domain());
    let bare = TokenDeployment { asset, decimals: 6, eip712: None };
    assert_eq!(bare.clone(), bare);
}
