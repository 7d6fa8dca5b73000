//! The WAVAX registry: wrapped AVAX, which is deployed on Avalanche Fuji
//! alone.

use vstd::prelude::*;
use crate::network::Network;
use crate::types::AddressView;
use crate::types::Eip712View;
use crate::types::MixedAddress;
use crate::types::TokenAsset;
use crate::types::TokenAssetView;
use crate::types::TokenDeployment;
use crate::types::TokenDeploymentEip712;
use crate::types::TokenDeploymentView;

verus! {

/// WAVAX on Avalanche Fuji: `0xd00ae08403B9bbb9124bB305C09058E32C39A48c`.
pub const WAVAX_AVALANCHE_FUJI: [u8; 20] = [
    0xd0, 0x0a, 0xe0, 0x84, 0x03, 0xb9, 0xbb, 0xb9, 0x12, 0x4b,
    0xb3, 0x05, 0xc0, 0x90, 0x58, 0xe3, 0x2c, 0x39, 0xa4, 0x8c,
];

/// The number of decimals of a WAVAX amount.
pub const WAVAX_DECIMALS: u8 = 18;

/// A WAVAX deployment. The type keeps it apart from the deployments of
/// other tokens.
#[derive(Debug, Eq)]
pub struct WAVAXDeployment(pub TokenDeployment);

impl WAVAXDeployment {
    /// The one WAVAX deployment, on Avalanche Fuji.
    pub open spec fn deployment() -> TokenDeploymentView {
        TokenDeploymentView {
            asset: TokenAssetView {
                address: AddressView::Evm(WAVAX_AVALANCHE_FUJI@),
                network: Network::AvalancheFuji,
            },
            decimals: WAVAX_DECIMALS,
            eip712: Some(Eip712View { name: "Wrapped AVAX"@, version: "1"@ }),
        }
    }

    /// Whether WAVAX is deployed on the network: on Avalanche Fuji and on no
    /// other.
    pub fn supports(network: Network) -> (yes: bool)
        ensures
            yes == (network == Network::AvalancheFuji),
    {
        network == Network::AvalancheFuji
    }

    /// The WAVAX deployment on the given network, which must be Avalanche
    /// Fuji: to ask for WAVAX on any other network is a mistake of the
    /// caller, and no deployment stands in for the missing one.
    pub fn by_network(network: Network) -> (found: WAVAXDeployment)
        requires
            network == Network::AvalancheFuji,
        ensures
            found@ == Self::deployment(),
            found@.wf(),
            found@.asset.network == network,
    {
        WAVAXDeployment(
            TokenDeployment {
                asset: TokenAsset {
                    address: MixedAddress::Evm(WAVAX_AVALANCHE_FUJI),
                    network: Network::AvalancheFuji,
                },
                decimals: WAVAX_DECIMALS,
                eip712: Some(
                    TokenDeploymentEip712 {
                        name: "Wrapped AVAX".to_owned(),
                        version: "1".to_owned(),
                    },
                ),
            },
        )
    }
}

impl View for WAVAXDeployment {
    type V = TokenDeploymentView;

    open spec fn view(&self) -> TokenDeploymentView {
        self.0@
    }
}

impl PartialEq for WAVAXDeployment {
    /// Two deployments are equal if their records are.
    fn eq(&self, other: &Self) -> (same: bool) {
        self.0 == other.0
    }
}

impl vstd::std_specs::cmp::PartialEqSpecImpl for WAVAXDeployment {
    open spec fn obeys_eq_spec() -> bool {
        true
    }

    open spec fn eq_spec(&self, other: &Self) -> bool {
        self@ == other@
    }
}

impl std::ops::Deref for WAVAXDeployment {
    type Target = TokenDeployment;

    fn deref(&self) -> (inner: &TokenDeployment)
        ensures
            *inner == self.0,
    {
        &self.0
    }
}

impl From<&WAVAXDeployment> for TokenDeployment {
    /// A copy of the deployment record.
    fn from(deployment: &WAVAXDeployment) -> (record: TokenDeployment)
        ensures
            record == deployment.0,
    {
        deployment.0.clone()
    }
}

impl vstd::std_specs::convert::FromSpecImpl<&WAVAXDeployment> for TokenDeployment {
    open spec fn obeys_from_spec() -> bool {
        true
    }

    open spec fn from_spec(deployment: &WAVAXDeployment) -> TokenDeployment {
        deployment.0
    }
}

impl From<WAVAXDeployment> for Vec<TokenAsset> {
    /// The assets of the deployment: its one asset.
    fn from(deployment: WAVAXDeployment) -> (assets: Vec<TokenAsset>)
        ensures
            assets@ == seq![deployment.0.asset],
    {
        vec![deployment.0.asset]
    }
}

// A vector cannot be written down in a specification, so the conversion has
// no `from_spec`: `from` states the contents of its result itself.
impl vstd::std_specs::convert::FromSpecImpl<WAVAXDeployment> for Vec<TokenAsset> {
    open spec fn obeys_from_spec() -> bool {
        false
    }

    open spec fn from_spec(deployment: WAVAXDeployment) -> Vec<TokenAsset> {
        arbitrary()
    }
}

impl From<&WAVAXDeployment> for Vec<TokenAsset> {
    /// The assets of the deployment: its one asset.
    fn from(deployment: &WAVAXDeployment) -> (assets: Vec<TokenAsset>)
        ensures
            assets@ == seq![deployment.0.asset],
    {
        vec![deployment.0.asset]
    }
}

// As above: `from` states the contents of its result itself.
impl vstd::std_specs::convert::FromSpecImpl<&WAVAXDeployment> for Vec<TokenAsset> {
    open spec fn obeys_from_spec() -> bool {
        false
    }

    open spec fn from_spec(deployment: &WAVAXDeployment) -> Vec<TokenAsset> {
        arbitrary()
    }
}

} // verus!
