//! The USDC registry: the stablecoin's contract on every network.

use vstd::prelude::*;
use crate::network::Network;
use crate::network::NetworkFamily;
use crate::types::AddressView;
use crate::types::Eip712View;
use crate::types::MixedAddress;
use crate::types::TokenAsset;
use crate::types::TokenAssetView;
use crate::types::TokenDeployment;
use crate::types::TokenDeploymentEip712;
use crate::types::TokenDeploymentView;

verus! {

/// USDC on Base Sepolia: `0x036CbD53842c5426634e7929541eC2318f3dCF7e`.
pub const USDC_BASE_SEPOLIA: [u8; 20] = [
    0x03, 0x6c, 0xbd, 0x53, 0x84, 0x2c, 0x54, 0x26, 0x63, 0x4e,
    0x79, 0x29, 0x54, 0x1e, 0xc2, 0x31, 0x8f, 0x3d, 0xcf, 0x7e,
];

/// USDC on Base: `0x833589fCD6eDb6E08f4c7C32D4f71b54bdA02913`.
pub const USDC_BASE: [u8; 20] = [
    0x83, 0x35, 0x89, 0xfc, 0xd6, 0xed, 0xb6, 0xe0, 0x8f, 0x4c,
    0x7c, 0x32, 0xd4, 0xf7, 0x1b, 0x54, 0xbd, 0xa0, 0x29, 0x13,
];

/// USDC on XDC: `0x2A8E898b6242355c290E1f4Fc966b8788729A4D4`.
pub const USDC_XDC: [u8; 20] = [
    0x2a, 0x8e, 0x89, 0x8b, 0x62, 0x42, 0x35, 0x5c, 0x29, 0x0e,
    0x1f, 0x4f, 0xc9, 0x66, 0xb8, 0x78, 0x87, 0x29, 0xa4, 0xd4,
];

/// USDC on Avalanche Fuji: `0x5425890298aed601595a70AB815c96711a31Bc65`.
pub const USDC_AVALANCHE_FUJI: [u8; 20] = [
    0x54, 0x25, 0x89, 0x02, 0x98, 0xae, 0xd6, 0x01, 0x59, 0x5a,
    0x70, 0xab, 0x81, 0x5c, 0x96, 0x71, 0x1a, 0x31, 0xbc, 0x65,
];

/// USDC on Avalanche: `0xB97EF9Ef8734C71904D8002F8b6Bc66Dd9c48a6E`.
pub const USDC_AVALANCHE: [u8; 20] = [
    0xb9, 0x7e, 0xf9, 0xef, 0x87, 0x34, 0xc7, 0x19, 0x04, 0xd8,
    0x00, 0x2f, 0x8b, 0x6b, 0xc6, 0x6d, 0xd9, 0xc4, 0x8a, 0x6e,
];

/// USDC on Solana: `EPjFWdd5AufqSSqeM2qN1xzybapC8G4wEGGkZwyTDt1v`.
pub const USDC_SOLANA: [u8; 32] = [
    0xc6, 0xfa, 0x7a, 0xf3, 0xbe, 0xdb, 0xad, 0x3a, 0x3d, 0x65,
    0xf3, 0x6a, 0xab, 0xc9, 0x74, 0x31, 0xb1, 0xbb, 0xe4, 0xc2,
    0xd2, 0xf6, 0xe0, 0xe4, 0x7c, 0xa6, 0x02, 0x03, 0x45, 0x2f,
    0x5d, 0x61,
];

/// USDC on Solana devnet: `4zMMC9srt5Ri5X14GAgXhaHii3GnPAEERYPJgZJDncDU`.
pub const USDC_SOLANA_DEVNET: [u8; 32] = [
    0x3b, 0x44, 0x2c, 0xb3, 0x91, 0x21, 0x57, 0xf1, 0x3a, 0x93,
    0x3d, 0x01, 0x34, 0x28, 0x2d, 0x03, 0x2b, 0x5f, 0xfe, 0xcd,
    0x01, 0xa2, 0xdb, 0xf1, 0xb7, 0x79, 0x06, 0x08, 0xdf, 0x00,
    0x2e, 0xa7,
];

/// USDC on Polygon Amoy: `0x41E94Eb019C0762f9Bfcf9Fb1E58725BfB0e7582`.
pub const USDC_POLYGON_AMOY: [u8; 20] = [
    0x41, 0xe9, 0x4e, 0xb0, 0x19, 0xc0, 0x76, 0x2f, 0x9b, 0xfc,
    0xf9, 0xfb, 0x1e, 0x58, 0x72, 0x5b, 0xfb, 0x0e, 0x75, 0x82,
];

/// USDC on Polygon: `0x3c499c542cEF5E3811e1192ce70d8cC03d5c3359`.
pub const USDC_POLYGON: [u8; 20] = [
    0x3c, 0x49, 0x9c, 0x54, 0x2c, 0xef, 0x5e, 0x38, 0x11, 0xe1,
    0x19, 0x2c, 0xe7, 0x0d, 0x8c, 0xc0, 0x3d, 0x5c, 0x33, 0x59,
];

/// USDC on Sei: `0xe15fC38F6D8c56aF07bbCBe3BAf5708A2Bf42392`.
pub const USDC_SEI: [u8; 20] = [
    0xe1, 0x5f, 0xc3, 0x8f, 0x6d, 0x8c, 0x56, 0xaf, 0x07, 0xbb,
    0xcb, 0xe3, 0xba, 0xf5, 0x70, 0x8a, 0x2b, 0xf4, 0x23, 0x92,
];

/// USDC on the Sei testnet: `0x4fCF1784B31630811181f670Aea7A7bEF803eaED`.
pub const USDC_SEI_TESTNET: [u8; 20] = [
    0x4f, 0xcf, 0x17, 0x84, 0xb3, 0x16, 0x30, 0x81, 0x11, 0x81,
    0xf6, 0x70, 0xae, 0xa7, 0xa7, 0xbe, 0xf8, 0x03, 0xea, 0xed,
];

/// USDC on Celo: `0xcebA9300f2b948710d2653dD7B07f33A8B32118C`.
pub const USDC_CELO: [u8; 20] = [
    0xce, 0xba, 0x93, 0x00, 0xf2, 0xb9, 0x48, 0x71, 0x0d, 0x26,
    0x53, 0xdd, 0x7b, 0x07, 0xf3, 0x3a, 0x8b, 0x32, 0x11, 0x8c,
];

/// USDC on Celo Sepolia: `0x2F25deB3848C207fc8E0c34035B3Ba7fC157602B`.
pub const USDC_CELO_SEPOLIA: [u8; 20] = [
    0x2f, 0x25, 0xde, 0xb3, 0x84, 0x8c, 0x20, 0x7f, 0xc8, 0xe0,
    0xc3, 0x40, 0x35, 0xb3, 0xba, 0x7f, 0xc1, 0x57, 0x60, 0x2b,
];

/// USDC on HyperEVM: `0xC3B4b2C0faE2De7cF7e07c8c84f65d8df61Bf314`.
pub const USDC_HYPEREVM: [u8; 20] = [
    0xc3, 0xb4, 0xb2, 0xc0, 0xfa, 0xe2, 0xde, 0x7c, 0xf7, 0xe0,
    0x7c, 0x8c, 0x84, 0xf6, 0x5d, 0x8d, 0xf6, 0x1b, 0xf3, 0x14,
];

/// USDC on the HyperEVM testnet: `0xC3B4b2C0faE2De7cF7e07c8c84f65d8df61Bf314`.
pub const USDC_HYPEREVM_TESTNET: [u8; 20] = [
    0xc3, 0xb4, 0xb2, 0xc0, 0xfa, 0xe2, 0xde, 0x7c, 0xf7, 0xe0,
    0x7c, 0x8c, 0x84, 0xf6, 0x5d, 0x8d, 0xf6, 0x1b, 0xf3, 0x14,
];

/// USDC on Optimism: `0x0b2C639c533813f4Aa9D7837CAf62653d097Ff85`.
pub const USDC_OPTIMISM: [u8; 20] = [
    0x0b, 0x2c, 0x63, 0x9c, 0x53, 0x38, 0x13, 0xf4, 0xaa, 0x9d,
    0x78, 0x37, 0xca, 0xf6, 0x26, 0x53, 0xd0, 0x97, 0xff, 0x85,
];

/// USDC on Optimism Sepolia: `0x5fd84259d66Cd46123540766Be93DFE6D43130D7`.
pub const USDC_OPTIMISM_SEPOLIA: [u8; 20] = [
    0x5f, 0xd8, 0x42, 0x59, 0xd6, 0x6c, 0xd4, 0x61, 0x23, 0x54,
    0x07, 0x66, 0xbe, 0x93, 0xdf, 0xe6, 0xd4, 0x31, 0x30, 0xd7,
];

/// The number of decimals of a USDC amount, on every network.
pub const USDC_DECIMALS: u8 = 6;

/// A USDC deployment. The type keeps it apart from the deployments of other
/// tokens.
#[derive(Debug, Eq)]
pub struct USDCDeployment(pub TokenDeployment);

impl View for USDCDeployment {
    type V = TokenDeploymentView;

    open spec fn view(&self) -> TokenDeploymentView {
        self.0@
    }
}

impl USDCDeployment {
    /// The address of USDC on a network.
    pub open spec fn address(network: Network) -> AddressView {
        match network {
            Network::BaseSepolia => AddressView::Evm(USDC_BASE_SEPOLIA@),
            Network::Base => AddressView::Evm(USDC_BASE@),
            Network::XdcMainnet => AddressView::Evm(USDC_XDC@),
            Network::AvalancheFuji => AddressView::Evm(USDC_AVALANCHE_FUJI@),
            Network::Avalanche => AddressView::Evm(USDC_AVALANCHE@),
            Network::Solana => AddressView::Solana(USDC_SOLANA@),
            Network::SolanaDevnet => AddressView::Solana(USDC_SOLANA_DEVNET@),
            Network::PolygonAmoy => AddressView::Evm(USDC_POLYGON_AMOY@),
            Network::Polygon => AddressView::Evm(USDC_POLYGON@),
            Network::Sei => AddressView::Evm(USDC_SEI@),
            Network::SeiTestnet => AddressView::Evm(USDC_SEI_TESTNET@),
            Network::Celo => AddressView::Evm(USDC_CELO@),
            Network::CeloSepolia => AddressView::Evm(USDC_CELO_SEPOLIA@),
            Network::HyperEvm => AddressView::Evm(USDC_HYPEREVM@),
            Network::HyperEvmTestnet => AddressView::Evm(USDC_HYPEREVM_TESTNET@),
            Network::Optimism => AddressView::Evm(USDC_OPTIMISM@),
            Network::OptimismSepolia => AddressView::Evm(USDC_OPTIMISM_SEPOLIA@),
        }
    }

    /// The name of the signing domain of USDC on a network, where it has
    /// one: on every EVM network, and on no other.
    pub open spec fn domain_name(network: Network) -> Option<Seq<char>> {
        match network {
            Network::BaseSepolia => Some("USDC"@),
            Network::Base => Some("USD Coin"@),
            Network::XdcMainnet => Some("Bridged USDC(XDC)"@),
            Network::AvalancheFuji => Some("USD Coin"@),
            Network::Avalanche => Some("USD Coin"@),
            Network::Solana => None,
            Network::SolanaDevnet => None,
            Network::PolygonAmoy => Some("USDC"@),
            Network::Polygon => Some("USDC"@),
            Network::Sei => Some("USDC"@),
            Network::SeiTestnet => Some("USDC"@),
            Network::Celo => Some("USD Coin"@),
            Network::CeloSepolia => Some("USDC"@),
            Network::HyperEvm => Some("USDC"@),
            Network::HyperEvmTestnet => Some("USDC"@),
            Network::Optimism => Some("USD Coin"@),
            Network::OptimismSepolia => Some("USD Coin"@),
        }
    }

    /// The USDC deployment on a network. Every network has one.
    pub open spec fn deployment(network: Network) -> TokenDeploymentView {
        TokenDeploymentView {
            asset: TokenAssetView { address: Self::address(network), network },
            decimals: USDC_DECIMALS,
            eip712: match Self::domain_name(network) {
                Some(name) => Some(Eip712View { name, version: "2"@ }),
                None => None,
            },
        }
    }

    /// The USDC deployment on the given network. Every network has one, so
    /// the lookup cannot fail.
    pub fn by_network(network: Network) -> (found: USDCDeployment)
        ensures
            found@ == Self::deployment(network),
            found@.wf(),
            found@.asset.network == network,
            found@.decimals == 6,
            found@.eip712 is None <==> network.family() == NetworkFamily::Solana,
    {
        let address = match network {
            Network::BaseSepolia => MixedAddress::Evm(USDC_BASE_SEPOLIA),
            Network::Base => MixedAddress::Evm(USDC_BASE),
            Network::XdcMainnet => MixedAddress::Evm(USDC_XDC),
            Network::AvalancheFuji => MixedAddress::Evm(USDC_AVALANCHE_FUJI),
            Network::Avalanche => MixedAddress::Evm(USDC_AVALANCHE),
            Network::Solana => MixedAddress::Solana(USDC_SOLANA),
            Network::SolanaDevnet => MixedAddress::Solana(USDC_SOLANA_DEVNET),
            Network::PolygonAmoy => MixedAddress::Evm(USDC_POLYGON_AMOY),
            Network::Polygon => MixedAddress::Evm(USDC_POLYGON),
            Network::Sei => MixedAddress::Evm(USDC_SEI),
            Network::SeiTestnet => MixedAddress::Evm(USDC_SEI_TESTNET),
            Network::Celo => MixedAddress::Evm(USDC_CELO),
            Network::CeloSepolia => MixedAddress::Evm(USDC_CELO_SEPOLIA),
            Network::HyperEvm => MixedAddress::Evm(USDC_HYPEREVM),
            Network::HyperEvmTestnet => MixedAddress::Evm(USDC_HYPEREVM_TESTNET),
            Network::Optimism => MixedAddress::Evm(USDC_OPTIMISM),
            Network::OptimismSepolia => MixedAddress::Evm(USDC_OPTIMISM_SEPOLIA),
        };
        let name: Option<&'static str> = match network {
            Network::BaseSepolia => Some("USDC"),
            Network::Base => Some("USD Coin"),
            Network::XdcMainnet => Some("Bridged USDC(XDC)"),
            Network::AvalancheFuji => Some("USD Coin"),
            Network::Avalanche => Some("USD Coin"),
            Network::Solana => None,
            Network::SolanaDevnet => None,
            Network::PolygonAmoy => Some("USDC"),
            Network::Polygon => Some("USDC"),
            Network::Sei => Some("USDC"),
            Network::SeiTestnet => Some("USDC"),
            Network::Celo => Some("USD Coin"),
            Network::CeloSepolia => Some("USDC"),
            Network::HyperEvm => Some("USDC"),
            Network::HyperEvmTestnet => Some("USDC"),
            Network::Optimism => Some("USD Coin"),
            Network::OptimismSepolia => Some("USD Coin"),
        };
        let eip712 = match name {
            Some(name) => Some(
                TokenDeploymentEip712 { name: name.to_owned(), version: "2".to_owned() },
            ),
            None => None,
        };
        USDCDeployment(
            TokenDeployment { asset: TokenAsset { address, network }, decimals: USDC_DECIMALS, eip712 },
        )
    }

    /// The USDC registry is total and consistent: on every network the
    /// deployment is well formed, names that network, has six decimals, and
    /// has a signing domain exactly if the network is an EVM network.
    pub proof fn lemma_registry_is_total(network: Network)
        ensures
            Self::deployment(network).wf(),
            Self::deployment(network).asset.network == network,
            Self::deployment(network).decimals == 6,
            Self::deployment(network).eip712 is Some <==> network.family() == NetworkFamily::Evm,
    {
    }
}

impl PartialEq for USDCDeployment {
    /// Two deployments are equal if their records are.
    fn eq(&self, other: &Self) -> (same: bool) {
        self.0 == other.0
    }
}

impl vstd::std_specs::cmp::PartialEqSpecImpl for USDCDeployment {
    open spec fn obeys_eq_spec() -> bool {
        true
    }

    open spec fn eq_spec(&self, other: &Self) -> bool {
        self@ == other@
    }
}

impl std::ops::Deref for USDCDeployment {
    type Target = TokenDeployment;

    fn deref(&self) -> (inner: &TokenDeployment)
        ensures
            *inner == self.0,
    {
        &self.0
    }
}

impl From<&USDCDeployment> for TokenDeployment {
    /// A copy of the deployment record.
    fn from(deployment: &USDCDeployment) -> (record: TokenDeployment)
        ensures
            record == deployment.0,
    {
        deployment.0.clone()
    }
}

impl vstd::std_specs::convert::FromSpecImpl<&USDCDeployment> for TokenDeployment {
    open spec fn obeys_from_spec() -> bool {
        true
    }

    open spec fn from_spec(deployment: &USDCDeployment) -> TokenDeployment {
        deployment.0
    }
}

impl From<USDCDeployment> for Vec<TokenAsset> {
    /// The assets of the deployment: its one asset.
    fn from(deployment: USDCDeployment) -> (assets: Vec<TokenAsset>)
        ensures
            assets@ == seq![deployment.0.asset],
    {
        vec![deployment.0.asset]
    }
}

// A vector cannot be written down in a specification, so the conversion has
// no `from_spec`: `from` states the contents of its result itself.
impl vstd::std_specs::convert::FromSpecImpl<USDCDeployment> for Vec<TokenAsset> {
    open spec fn obeys_from_spec() -> bool {
        false
    }

    open spec fn from_spec(deployment: USDCDeployment) -> Vec<TokenAsset> {
        arbitrary()
    }
}

impl From<&USDCDeployment> for Vec<TokenAsset> {
    /// The assets of the deployment: its one asset.
    fn from(deployment: &USDCDeployment) -> (assets: Vec<TokenAsset>)
        ensures
            assets@ == seq![deployment.0.asset],
    {
        vec![deployment.0.asset]
    }
}

// As above: `from` states the contents of its result itself.
impl vstd::std_specs::convert::FromSpecImpl<&USDCDeployment> for Vec<TokenAsset> {
    open spec fn obeys_from_spec() -> bool {
        false
    }

    open spec fn from_spec(deployment: &USDCDeployment) -> Vec<TokenAsset> {
        arbitrary()
    }
}

} // verus!
