//! The record that describes one token on one network.

use vstd::prelude::*;
use crate::network::Network;
use crate::network::NetworkFamily;
use crate::text::bytes_eq;

verus! {

/// The address of a token: twenty bytes on an EVM network, a public key of
/// thirty-two bytes on Solana.
#[derive(Debug, Hash, Clone, Copy, Eq)]
pub enum MixedAddress {
    /// An EVM address.
    Evm([u8; 20]),
    /// A Solana public key.
    Solana([u8; 32]),
}

/// What a [`MixedAddress`] stands for: the kind and the bytes.
pub enum AddressView {
    Evm(Seq<u8>),
    Solana(Seq<u8>),
}

impl AddressView {
    /// The family of networks that an address of this kind belongs to.
    pub open spec fn family(self) -> NetworkFamily {
        match self {
            AddressView::Evm(_) => NetworkFamily::Evm,
            AddressView::Solana(_) => NetworkFamily::Solana,
        }
    }
}

impl View for MixedAddress {
    type V = AddressView;

    open spec fn view(&self) -> AddressView {
        match self {
            MixedAddress::Evm(bytes) => AddressView::Evm(bytes@),
            MixedAddress::Solana(bytes) => AddressView::Solana(bytes@),
        }
    }
}

impl PartialEq for MixedAddress {
    /// Two addresses are equal if they are of one kind and hold the same
    /// bytes.
    fn eq(&self, other: &Self) -> (same: bool) {
        match (self, other) {
            (MixedAddress::Evm(a), MixedAddress::Evm(b)) => bytes_eq(a.as_slice(), b.as_slice()),
            (MixedAddress::Solana(a), MixedAddress::Solana(b)) => bytes_eq(
                a.as_slice(),
                b.as_slice(),
            ),
            _ => false,
        }
    }
}

impl vstd::std_specs::cmp::PartialEqSpecImpl for MixedAddress {
    open spec fn obeys_eq_spec() -> bool {
        true
    }

    open spec fn eq_spec(&self, other: &Self) -> bool {
        self@ == other@
    }
}

impl MixedAddress {
    /// The family of networks that this address belongs to.
    pub fn family(&self) -> (family: NetworkFamily)
        ensures
            family == self@.family(),
    {
        match self {
            MixedAddress::Evm(_) => NetworkFamily::Evm,
            MixedAddress::Solana(_) => NetworkFamily::Solana,
        }
    }
}

/// One token contract: an address and the network it is on.
///
/// A well-formed asset has an address of its network's family.
#[derive(Debug, Hash, Clone, Copy, Eq)]
pub struct TokenAsset {
    pub address: MixedAddress,
    pub network: Network,
}

/// What a [`TokenAsset`] stands for.
pub struct TokenAssetView {
    pub address: AddressView,
    pub network: Network,
}

impl TokenAssetView {
    /// The address is of the network's family.
    pub open spec fn wf(self) -> bool {
        self.address.family() == self.network.family()
    }
}

impl View for TokenAsset {
    type V = TokenAssetView;

    open spec fn view(&self) -> TokenAssetView {
        TokenAssetView { address: self.address@, network: self.network }
    }
}

impl PartialEq for TokenAsset {
    /// Two assets are equal if they are on one network at one address.
    fn eq(&self, other: &Self) -> (same: bool) {
        self.network == other.network && self.address == other.address
    }
}

impl vstd::std_specs::cmp::PartialEqSpecImpl for TokenAsset {
    open spec fn obeys_eq_spec() -> bool {
        true
    }

    open spec fn eq_spec(&self, other: &Self) -> bool {
        self@ == other@
    }
}

impl TokenAsset {
    /// The asset of an address on a network, if the address is of the
    /// network's family; `None` if it is not.
    pub fn new(address: MixedAddress, network: Network) -> (made: Option<TokenAsset>)
        ensures
            match made {
                Some(asset) => asset.address == address && asset.network == network
                    && asset@.wf(),
                None => address@.family() != network.family(),
            },
    {
        if address.family() == NetworkFamily::from(network) {
            Some(TokenAsset { address, network })
        } else {
            None
        }
    }
}

/// The name and version of the EIP-712 domain under which a token's
/// transfers are signed.
#[derive(Debug, Eq)]
pub struct TokenDeploymentEip712 {
    pub name: String,
    pub version: String,
}

/// What a [`TokenDeploymentEip712`] stands for.
pub struct Eip712View {
    pub name: Seq<char>,
    pub version: Seq<char>,
}

impl View for TokenDeploymentEip712 {
    type V = Eip712View;

    open spec fn view(&self) -> Eip712View {
        Eip712View { name: self.name@, version: self.version@ }
    }
}

impl PartialEq for TokenDeploymentEip712 {
    /// Two signing domains are equal if they have one name and one version.
    fn eq(&self, other: &Self) -> (same: bool) {
        self.name == other.name && self.version == other.version
    }
}

impl vstd::std_specs::cmp::PartialEqSpecImpl for TokenDeploymentEip712 {
    open spec fn obeys_eq_spec() -> bool {
        true
    }

    open spec fn eq_spec(&self, other: &Self) -> bool {
        self@ == other@
    }
}

impl Clone for TokenDeploymentEip712 {
    fn clone(&self) -> (copy: Self)
        ensures
            copy == *self,
    {
        TokenDeploymentEip712 { name: self.name.clone(), version: self.version.clone() }
    }
}

/// A token as deployed on one network: the asset, the number of decimals of
/// its amounts, and its signing domain where it has one.
///
/// A well-formed deployment has a well-formed asset, and no signing domain
/// on a Solana network.
#[derive(Debug, Eq)]
pub struct TokenDeployment {
    pub asset: TokenAsset,
    pub decimals: u8,
    pub eip712: Option<TokenDeploymentEip712>,
}

/// What a [`TokenDeployment`] stands for.
pub struct TokenDeploymentView {
    pub asset: TokenAssetView,
    pub decimals: u8,
    pub eip712: Option<Eip712View>,
}

impl TokenDeploymentView {
    /// The asset is well formed, and a deployment on a Solana network has no
    /// signing domain.
    pub open spec fn wf(self) -> bool {
        &&& self.asset.wf()
        &&& self.asset.network.family() == NetworkFamily::Solana ==> self.eip712 is None
    }
}

impl View for TokenDeployment {
    type V = TokenDeploymentView;

    open spec fn view(&self) -> TokenDeploymentView {
        TokenDeploymentView {
            asset: self.asset@,
            decimals: self.decimals,
            eip712: match self.eip712 {
                Some(domain) => Some(domain@),
                None => None,
            },
        }
    }
}

impl PartialEq for TokenDeployment {
    /// Two deployments are equal if they have one asset, one number of
    /// decimals, and one signing domain or none.
    fn eq(&self, other: &Self) -> (same: bool) {
        let same_domain = match (&self.eip712, &other.eip712) {
            (Some(a), Some(b)) => a == b,
            (None, None) => true,
            _ => false,
        };
        self.asset == other.asset && self.decimals == other.decimals && same_domain
    }
}

impl vstd::std_specs::cmp::PartialEqSpecImpl for TokenDeployment {
    open spec fn obeys_eq_spec() -> bool {
        true
    }

    open spec fn eq_spec(&self, other: &Self) -> bool {
        self@ == other@
    }
}

impl Clone for TokenDeployment {
    fn clone(&self) -> (copy: Self)
        ensures
            copy == *self,
    {
        TokenDeployment {
            asset: self.asset,
            decimals: self.decimals,
            eip712: match &self.eip712 {
                Some(domain) => Some(domain.clone()),
                None => None,
            },
        }
    }
}

impl TokenDeployment {
    /// The deployment made of the three parts, if it is well formed: `None`
    /// if the asset is not, or if a signing domain is given for a Solana
    /// network.
    pub fn new(asset: TokenAsset, decimals: u8, eip712: Option<TokenDeploymentEip712>) -> (made:
        Option<TokenDeployment>)
        ensures
            match made {
                Some(deployment) => deployment.asset == asset && deployment.decimals == decimals
                    && deployment.eip712 == eip712 && deployment@.wf(),
                None => !(TokenDeployment { asset, decimals, eip712 })@.wf(),
            },
    {
        let family = NetworkFamily::from(asset.network);
        if asset.address.family() != family {
            return None;
        }
        if family == NetworkFamily::Solana && eip712.is_some() {
            return None;
        }
        Some(TokenDeployment { asset, decimals, eip712 })
    }
}

} // verus!
