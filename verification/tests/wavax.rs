use std::str::FromStr;

use alloy::primitives::Address;
use x402_rs::network::Network;
use x402_rs::types::MixedAddress;
use x402_rs::types::TokenAsset;
use x402_rs::types::TokenDeployment;
use x402_rs::types::TokenDeploymentEip712;
use x402_rs::wavax::WAVAXDeployment;
use x402_rs::wavax::WAVAX_AVALANCHE_FUJI;
use x402_rs::wavax::WAVAX_DECIMALS;

#[test]
fn wavax_record_on_avalanche_fuji() {
    let expected = WAVAXDeployment(TokenDeployment {
        asset: TokenAsset {
            address: MixedAddress::Evm(
                Address::from_str("0xd00ae08403B9bbb9124bB305C09058E32C39A48c")
                    .unwrap()
                    .into_array(),
            ),
            network: Network::AvalancheFuji,
        },
        decimals: 18,
        eip712: Some(TokenDeploymentEip712 {
            name: "Wrapped AVAX".to_string(),
            version: "1".to_string(),
        }),
    });
    assert_eq!(WAVAXDeployment::by_network(Network::AvalancheFuji), expected);
}

#[test]
fn wavax_has_eighteen_decimals() {
    assert_eq!(WAVAX_DECIMALS, 18);
    assert_eq!(WAVAXDeployment::by_network(Network::AvalancheFuji).decimals, 18);
}

#[test]
fn wavax_address_bytes() {
    assert_eq!(
        WAVAX_AVALANCHE_FUJI,
        [
            0xd0, 0x0a, 0xe0, 0x84, 0x03, 0xb9, 0xbb, 0xb9, 0x12, 0x4b, 0xb3, 0x05, 0xc0, 0x90,
            0x58, 0xe3, 0x2c, 0x39, 0xa4, 0x8c,
        ]
    );
}

#[test]
fn wavax_is_deployed_on_avalanche_fuji_alone() {
    for network in Network::variants() {
        assert_eq!(WAVAXDeployment::supports(*network), *network == Network::AvalancheFuji);
    }
    assert!(!WAVAXDeployment::supports(Network::Avalanche));
    assert!(!WAVAXDeployment::supports(Network::Solana));
}

#[test]
fn wavax_deployment_converts_and_dereferences() {
    let found = WAVAXDeployment::by_network(Network::AvalancheFuji);
    let record: &TokenDeployment = &found;
    assert_eq!(record, &found.0);
    assert_eq!(TokenDeployment::from(&found), found.0);
    let asset = found.asset;
    let borrowed: Vec<TokenAsset> = Vec::from(&found);
    assert_eq!(borrowed, vec![asset]);
    let owned: Vec<TokenAsset> = found.into();
    assert_eq!(owned, vec![asset]);
}
