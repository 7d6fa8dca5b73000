use std::collections::HashSet;

use x402_rs::network::Network;
use x402_rs::network::NetworkFamily;
use x402_rs::network::UnknownNetworkTag;

const TAGS: [(Network, &str); 17] = [
    (Network::BaseSepolia, "base-sepolia"),
    (Network::Base, "base"),
    (Network::XdcMainnet, "xdc"),
    (Network::AvalancheFuji, "avalanche-fuji"),
    (Network::Avalanche, "avalanche"),
    (Network::Solana, "solana"),
    (Network::SolanaDevnet, "solana-devnet"),
    (Network::PolygonAmoy, "polygon-amoy"),
    (Network::Polygon, "polygon"),
    (Network::Sei, "sei"),
    (Network::SeiTestnet, "sei-testnet"),
    (Network::Celo, "celo"),
    (Network::CeloSepolia, "celo-sepolia"),
    (Network::HyperEvm, "hyperevm"),
    (Network::HyperEvmTestnet, "hyperevm-testnet"),
    (Network::Optimism, "optimism"),
    (Network::OptimismSepolia, "optimism-sepolia"),
];

#[test]
fn variants_lists_seventeen_networks() {
    assert_eq!(Network::variants().len(), 17);
}

#[test]
fn variants_holds_no_network_twice() {
    let distinct: HashSet<Network> = Network::variants().iter().copied().collect();
    assert_eq!(distinct.len(), Network::variants().len());
}

#[test]
fn variants_come_in_declaration_order() {
    let expected: Vec<Network> = TAGS.iter().map(|(network, _)| *network).collect();
    assert_eq!(Network::variants(), expected.as_slice());
}

#[test]
fn every_network_has_its_documented_tag() {
    for (network, tag) in TAGS {
        assert_eq!(network.as_str(), tag);
        assert_eq!(network.to_string(), tag.to_string());
    }
}

#[test]
fn tags_are_pairwise_distinct() {
    let distinct: HashSet<&str> = Network::variants().iter().map(|n| n.as_str()).collect();
    assert_eq!(distinct.len(), 17);
}

#[test]
fn display_then_parse_gives_the_network_back() {
    for network in Network::variants() {
        assert_eq!(Network::parse(&network.to_string()), Ok(*network));
    }
}

#[test]
fn parse_then_display_gives_the_tag_back() {
    for (network, tag) in TAGS {
        let parsed = Network::parse(tag);
        assert_eq!(parsed, Ok(network));
        assert_eq!(parsed.unwrap().as_str(), tag);
    }
}

#[test]
fn parse_refuses_an_unknown_tag_and_hands_it_back() {
    assert_eq!(
        Network::parse("ethereum"),
        Err(UnknownNetworkTag("ethereum".to_string()))
    );
}

#[test]
fn parse_refuses_the_empty_string() {
    assert_eq!(Network::parse(""), Err(UnknownNetworkTag(String::new())));
}

#[test]
fn parse_is_case_sensitive() {
    assert!(Network::parse("Base").is_err());
    assert!(Network::parse("BASE-SEPOLIA").is_err());
    assert!(Network::parse("HyperEvm").is_err());
}

#[test]
fn parse_refuses_variant_names() {
    assert!(Network::parse("BaseSepolia").is_err());
    assert!(Network::parse("XdcMainnet").is_err());
    assert!(Network::parse("xdc-mainnet").is_err());
}

#[test]
fn parse_refuses_a_tag_with_more_around_it() {
    assert!(Network::parse(" base").is_err());
    assert!(Network::parse("base ").is_err());
    assert!(Network::parse("base-").is_err());
    assert!(Network::parse("base-sepolia-2").is_err());
    assert!(Network::parse("\"base\"").is_err());
}

#[test]
fn parse_tells_a_tag_from_its_prefix() {
    assert_eq!(Network::parse("sei"), Ok(Network::Sei));
    assert_eq!(Network::parse("sei-testnet"), Ok(Network::SeiTestnet));
    assert_eq!(Network::parse("avalanche"), Ok(Network::Avalanche));
    assert_eq!(Network::parse("avalanche-fuji"), Ok(Network::AvalancheFuji));
    assert!(Network::parse("se").is_err());
    assert!(Network::parse("avalanche-").is_err());
}

#[test]
fn parse_refuses_text_that_is_not_ascii() {
    assert!(Network::parse("bas\u{e9}").is_err());
    assert!(Network::parse("\u{441}elo").is_err());
}

#[test]
fn only_the_solana_networks_are_of_the_solana_family() {
    for network in Network::variants() {
        let expected = match network {
            Network::Solana | Network::SolanaDevnet => NetworkFamily::Solana,
            _ => NetworkFamily::Evm,
        };
        assert_eq!(NetworkFamily::from(*network), expected);
    }
}

#[test]
fn family_of_each_network_by_name() {
    assert_eq!(NetworkFamily::from(Network::Solana), NetworkFamily::Solana);
    assert_eq!(NetworkFamily::from(Network::SolanaDevnet), NetworkFamily::Solana);
    assert_eq!(NetworkFamily::from(Network::Base), NetworkFamily::Evm);
    assert_eq!(NetworkFamily::from(Network::AvalancheFuji), NetworkFamily::Evm);
    assert_eq!(NetworkFamily::from(Network::OptimismSepolia), NetworkFamily::Evm);
    let family: NetworkFamily = Network::Sei.into();
    assert_eq!(family, NetworkFamily::Evm);
}

#[test]
fn exactly_two_networks_are_of_the_solana_family() {
    let solana = Network::variants()
        .iter()
        .filter(|n| NetworkFamily::from(**n) == NetworkFamily::Solana)
        .count();
    assert_eq!(solana, 2);
}
