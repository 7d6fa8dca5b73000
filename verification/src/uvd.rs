//! The UVD registry: the Gasless Ultravioleta DAO Extended Token, which is
//! deployed on Avalanche Fuji alone, at an address that the environment may
//! override.

use vstd::prelude::*;
use crate::evm::evm_address_from_str;
use crate::evm::evm_address_of;
use crate::network::Network;
use crate::types::AddressView;
use crate::types::Eip712View;
use crate::types::MixedAddress;
use crate::types::TokenAsset;
use crate::types::TokenAssetView;
use crate::types::TokenDeployment;
use crate::types::TokenDeploymentEip712;
use crate::types::TokenDeploymentView;

verus! {

/// The environment variable that holds the token's address on Avalanche
/// Fuji. It is asked first.
pub const GLUE_TOKEN_ADDRESS_AVALANCHE_FUJI: &'static str = "GLUE_TOKEN_ADDRESS_AVALANCHE_FUJI";

/// The environment variable that holds the token's address where the
/// network's own variable is not set.
pub const GLUE_TOKEN_ADDRESS: &'static str = "GLUE_TOKEN_ADDRESS";

/// The address that stands for the token while no override gives one:
/// `0x0000000000000000000000000000000000000000`.
pub const UVD_PLACEHOLDER: [u8; 20] = [
    0x00, 0x00, 0x00, 0x00, 0x00, 0x00, 0x00, 0x00, 0x00, 0x00,
    0x00, 0x00, 0x00, 0x00, 0x00, 0x00, 0x00, 0x00, 0x00, 0x00,
];

/// The number of decimals of a UVD amount.
pub const UVD_DECIMALS: u8 = 6;

/// A UVD deployment. The type keeps it apart from the deployments of other
/// tokens.
#[derive(Debug, Eq)]
pub struct UVDDeployment(pub TokenDeployment);

/// The characters of an optional text.
pub open spec fn text_of(value: Option<&str>) -> Option<Seq<char>> {
    match value {
        Some(text) => Some(text@),
        None => None,
    }
}

impl UVDDeployment {
    /// The override that counts: the network's own where it is set, whatever
    /// it holds, and else the general one.
    pub open spec fn chosen_override(
        specific: Option<Seq<char>>,
        generic: Option<Seq<char>>,
    ) -> Option<Seq<char>> {
        if specific is Some {
            specific
        } else {
            generic
        }
    }

    /// The address that the outcome of parsing gives: the parsed address, or
    /// the placeholder where there is none.
    pub open spec fn address_or_placeholder(parsed: Option<Seq<u8>>) -> AddressView {
        match parsed {
            Some(bytes) => AddressView::Evm(bytes),
            None => AddressView::Evm(UVD_PLACEHOLDER@),
        }
    }

    /// The token's address under the two overrides: what the override that
    /// counts denotes as an EVM address, and the placeholder where no
    /// override is set or the one that counts denotes no address.
    pub open spec fn resolved_address(
        specific: Option<Seq<char>>,
        generic: Option<Seq<char>>,
    ) -> AddressView {
        match Self::chosen_override(specific, generic) {
            Some(text) => Self::address_or_placeholder(evm_address_of(text)),
            None => Self::address_or_placeholder(None),
        }
    }

    /// The UVD deployment on Avalanche Fuji at a given address.
    pub open spec fn deployment(address: AddressView) -> TokenDeploymentView {
        TokenDeploymentView {
            asset: TokenAssetView { address, network: Network::AvalancheFuji },
            decimals: UVD_DECIMALS,
            eip712: Some(
                Eip712View { name: "Gasless Ultravioleta DAO Extended Token"@, version: "2"@ },
            ),
        }
    }

    /// The order of the overrides. The network's own override, where it is
    /// set, decides alone, whatever the general one holds and whether or not
    /// it parses; where it is not set, the general one decides; where
    /// neither is set, the placeholder stands in.
    pub proof fn lemma_override_order(specific: Option<Seq<char>>, generic: Option<Seq<char>>)
        ensures
            specific is Some ==> Self::resolved_address(specific, generic)
                == Self::address_or_placeholder(evm_address_of(specific.unwrap())),
            specific is None && generic is Some ==> Self::resolved_address(specific, generic)
                == Self::address_or_placeholder(evm_address_of(generic.unwrap())),
            specific is None && generic is None ==> Self::resolved_address(specific, generic)
                == AddressView::Evm(UVD_PLACEHOLDER@),
            Self::resolved_address(specific, generic) is Evm,
            Self::deployment(Self::resolved_address(specific, generic)).wf(),
    {
    }

    /// Whether UVD is deployed on the network: on Avalanche Fuji and on no
    /// other.
    pub fn supports(network: Network) -> (yes: bool)
        ensures
            yes == (network == Network::AvalancheFuji),
    {
        network == Network::AvalancheFuji
    }

    /// The override that counts among the two: the network's own where it is
    /// set, else the general one.
    pub fn choose_override<'a>(specific: Option<&'a str>, generic: Option<&'a str>) -> (chosen:
        Option<&'a str>)
        ensures
            text_of(chosen) == Self::chosen_override(text_of(specific), text_of(generic)),
    {
        match specific {
            Some(text) => Some(text),
            None => generic,
        }
    }

    /// The address for an outcome of parsing: the parsed address, or the
    /// placeholder where parsing gave none.
    pub fn address_from_parsed(parsed: Option<[u8; 20]>) -> (address: MixedAddress)
        ensures
            address@ == Self::address_or_placeholder(
                match parsed {
                    Some(bytes) => Some(bytes@),
                    None => None,
                },
            ),
    {
        match parsed {
            Some(bytes) => MixedAddress::Evm(bytes),
            None => MixedAddress::Evm(UVD_PLACEHOLDER),
        }
    }

    /// The token's address under the two overrides, each given as the value
    /// of its environment variable, `None` where the variable is not set.
    /// An override that does not parse is no error: the placeholder stands
    /// in.
    pub fn resolve_address(specific: Option<&str>, generic: Option<&str>) -> (address:
        MixedAddress)
        ensures
            address@ == Self::resolved_address(text_of(specific), text_of(generic)),
            address@ is Evm,
    {
        match Self::choose_override(specific, generic) {
            Some(text) => Self::address_from_parsed(evm_address_from_str(text)),
            None => Self::address_from_parsed(None),
        }
    }

    /// The UVD deployment on the given network, which must be Avalanche
    /// Fuji, under the two overrides of its address: to ask for UVD on any
    /// other network is a mistake of the caller, and no deployment stands in
    /// for the missing one.
    pub fn by_network(network: Network, specific: Option<&str>, generic: Option<&str>) -> (found:
        UVDDeployment)
        requires
            network == Network::AvalancheFuji,
        ensures
            found@ == Self::deployment(
                Self::resolved_address(text_of(specific), text_of(generic)),
            ),
            found@.wf(),
            found@.asset.network == network,
    {
        let address = Self::resolve_address(specific, generic);
        UVDDeployment(
            TokenDeployment {
                asset: TokenAsset { address, network: Network::AvalancheFuji },
                decimals: UVD_DECIMALS,
                eip712: Some(
                    TokenDeploymentEip712 {
                        name: "Gasless Ultravioleta DAO Extended Token".to_owned(),
                        version: "2".to_owned(),
                    },
                ),
            },
        )
    }
}

impl View for UVDDeployment {
    type V = TokenDeploymentView;

    open spec fn view(&self) -> TokenDeploymentView {
        self.0@
    }
}

impl PartialEq for UVDDeployment {
    /// Two deployments are equal if their records are.
    fn eq(&self, other: &Self) -> (same: bool) {
        self.0 == other.0
    }
}

impl vstd::std_specs::cmp::PartialEqSpecImpl for UVDDeployment {
    open spec fn obeys_eq_spec() -> bool {
        true
    }

    open spec fn eq_spec(&self, other: &Self) -> bool {
        self@ == other@
    }
}

impl std::ops::Deref for UVDDeployment {
    type Target = TokenDeployment;

    fn deref(&self) -> (inner: &TokenDeployment)
        ensures
            *inner == self.0,
    {
        &self.0
    }
}

impl From<&UVDDeployment> for TokenDeployment {
    /// A copy of the deployment record.
    fn from(deployment: &UVDDeployment) -> (record: TokenDeployment)
        ensures
            record == deployment.0,
    {
        deployment.0.clone()
    }
}

impl vstd::std_specs::convert::FromSpecImpl<&UVDDeployment> for TokenDeployment {
    open spec fn obeys_from_spec() -> bool {
        true
    }

    open spec fn from_spec(deployment: &UVDDeployment) -> TokenDeployment {
        deployment.0
    }
}

impl From<UVDDeployment> for Vec<TokenAsset> {
    /// The assets of the deployment: its one asset.
    fn from(deployment: UVDDeployment) -> (assets: Vec<TokenAsset>)
        ensures
            assets@ == seq![deployment.0.asset],
    {
        vec![deployment.0.asset]
    }
}

// A vector cannot be written down in a specification, so the conversion has
// no `from_spec`: `from` states the contents of its result itself.
impl vstd::std_specs::convert::FromSpecImpl<UVDDeployment> for Vec<TokenAsset> {
    open spec fn obeys_from_spec() -> bool {
        false
    }

    open spec fn from_spec(deployment: UVDDeployment) -> Vec<TokenAsset> {
        arbitrary()
    }
}

impl From<&UVDDeployment> for Vec<TokenAsset> {
    /// The assets of the deployment: its one asset.
    fn from(deployment: &UVDDeployment) -> (assets: Vec<TokenAsset>)
        ensures
            assets@ == seq![deployment.0.asset],
    {
        vec![deployment.0.asset]
    }
}

// As above: `from` states the contents of its result itself.
impl vstd::std_specs::convert::FromSpecImpl<&UVDDeployment> for Vec<TokenAsset> {
    open spec fn obeys_from_spec() -> bool {
        false
    }

    open spec fn from_spec(deployment: &UVDDeployment) -> Vec<TokenAsset> {
        arbitrary()
    }
}

} // verus!
