//! The supported networks, their wire tags and their families.

use vstd::prelude::*;
use crate::text::str_eq;

pub use crate::usdc::USDCDeployment;
pub use crate::uvd::UVDDeployment;
pub use crate::wavax::WAVAXDeployment;

verus! {

/// A blockchain network that the registry knows.
///
/// Mainnets and testnets are networks of their own. Each network has one
/// lowercase tag, which is what it is written as on the wire.
#[derive(Debug, Hash, Clone, Copy, PartialEq, Eq, Structural)]
pub enum Network {
    /// Base Sepolia testnet (chain ID 84532).
    BaseSepolia,
    /// Base mainnet (chain ID 8453).
    Base,
    /// XDC mainnet (chain ID 50).
    XdcMainnet,
    /// Avalanche Fuji testnet (chain ID 43113).
    AvalancheFuji,
    /// Avalanche mainnet (chain ID 43114).
    Avalanche,
    /// Solana mainnet.
    Solana,
    /// Solana devnet.
    SolanaDevnet,
    /// Polygon Amoy testnet (chain ID 80002).
    PolygonAmoy,
    /// Polygon mainnet (chain ID 137).
    Polygon,
    /// Sei mainnet (chain ID 1329).
    Sei,
    /// Sei testnet (chain ID 1328).
    SeiTestnet,
    /// Celo mainnet (chain ID 42220).
    Celo,
    /// Celo Sepolia testnet (chain ID 44787).
    CeloSepolia,
    /// HyperEVM mainnet (chain ID 998).
    HyperEvm,
    /// HyperEVM testnet (chain ID 333).
    HyperEvmTestnet,
    /// Optimism mainnet (chain ID 10).
    Optimism,
    /// Optimism Sepolia testnet (chain ID 11155420).
    OptimismSepolia,
}

/// The signature scheme that a network's payments are verified under.
#[derive(Debug, Clone, Copy, PartialEq, Eq, Structural)]
pub enum NetworkFamily {
    /// Networks that run the EVM and sign typed data.
    Evm,
    /// Solana networks.
    Solana,
}

/// The error for a tag that names no network. It carries the tag.
#[derive(Debug, Eq)]
pub struct UnknownNetworkTag(pub String);

impl PartialEq for UnknownNetworkTag {
    /// Two errors are equal if they carry the same tag.
    fn eq(&self, other: &Self) -> (same: bool) {
        self.0 == other.0
    }
}

impl vstd::std_specs::cmp::PartialEqSpecImpl for UnknownNetworkTag {
    open spec fn obeys_eq_spec() -> bool {
        true
    }

    open spec fn eq_spec(&self, other: &Self) -> bool {
        self.0@ == other.0@
    }
}

impl Network {
    /// Every network, in declaration order.
    pub open spec fn all() -> Seq<Network> {
        seq![
            Network::BaseSepolia,
            Network::Base,
            Network::XdcMainnet,
            Network::AvalancheFuji,
            Network::Avalanche,
            Network::Solana,
            Network::SolanaDevnet,
            Network::PolygonAmoy,
            Network::Polygon,
            Network::Sei,
            Network::SeiTestnet,
            Network::Celo,
            Network::CeloSepolia,
            Network::HyperEvm,
            Network::HyperEvmTestnet,
            Network::Optimism,
            Network::OptimismSepolia,
        ]
    }

    /// The place of a network in [`Network::all`].
    pub open spec fn ordinal(self) -> int {
        match self {
            Network::BaseSepolia => 0,
            Network::Base => 1,
            Network::XdcMainnet => 2,
            Network::AvalancheFuji => 3,
            Network::Avalanche => 4,
            Network::Solana => 5,
            Network::SolanaDevnet => 6,
            Network::PolygonAmoy => 7,
            Network::Polygon => 8,
            Network::Sei => 9,
            Network::SeiTestnet => 10,
            Network::Celo => 11,
            Network::CeloSepolia => 12,
            Network::HyperEvm => 13,
            Network::HyperEvmTestnet => 14,
            Network::Optimism => 15,
            Network::OptimismSepolia => 16,
        }
    }

    /// The wire tag of a network.
    pub open spec fn tag(self) -> Seq<char> {
        match self {
            Network::BaseSepolia => "base-sepolia"@,
            Network::Base => "base"@,
            Network::XdcMainnet => "xdc"@,
            Network::AvalancheFuji => "avalanche-fuji"@,
            Network::Avalanche => "avalanche"@,
            Network::Solana => "solana"@,
            Network::SolanaDevnet => "solana-devnet"@,
            Network::PolygonAmoy => "polygon-amoy"@,
            Network::Polygon => "polygon"@,
            Network::Sei => "sei"@,
            Network::SeiTestnet => "sei-testnet"@,
            Network::Celo => "celo"@,
            Network::CeloSepolia => "celo-sepolia"@,
            Network::HyperEvm => "hyperevm"@,
            Network::HyperEvmTestnet => "hyperevm-testnet"@,
            Network::Optimism => "optimism"@,
            Network::OptimismSepolia => "optimism-sepolia"@,
        }
    }

    /// The network that a tag names, if it names one: the inverse of
    /// [`Network::tag`].
    pub open spec fn from_tag(tag: Seq<char>) -> Option<Network> {
        if exists|n: Network| n.tag() == tag {
            Some(choose|n: Network| n.tag() == tag)
        } else {
            None
        }
    }

    /// The family of a network: Solana for the two Solana networks, EVM for
    /// every other.
    pub open spec fn family(self) -> NetworkFamily {
        if self == Network::Solana || self == Network::SolanaDevnet {
            NetworkFamily::Solana
        } else {
            NetworkFamily::Evm
        }
    }

    /// All networks, each once, in declaration order.
    pub fn variants() -> (all: &'static [Network])
        ensures
            all@ == Network::all(),
            all@.len() == 17,
            all@.no_duplicates(),
            forall|n: Network| all@.contains(n),
    {
        let all: &'static [Network] = &[
            Network::BaseSepolia,
            Network::Base,
            Network::XdcMainnet,
            Network::AvalancheFuji,
            Network::Avalanche,
            Network::Solana,
            Network::SolanaDevnet,
            Network::PolygonAmoy,
            Network::Polygon,
            Network::Sei,
            Network::SeiTestnet,
            Network::Celo,
            Network::CeloSepolia,
            Network::HyperEvm,
            Network::HyperEvmTestnet,
            Network::Optimism,
            Network::OptimismSepolia,
        ];
        proof {
            assert(all@ =~= Network::all());
            Network::lemma_all_is_complete();
        }
        all
    }

    /// The wire tag of this network.
    pub fn as_str(&self) -> (tag: &'static str)
        ensures
            tag@ == self.tag(),
    {
        match self {
            Network::BaseSepolia => "base-sepolia",
            Network::Base => "base",
            Network::XdcMainnet => "xdc",
            Network::AvalancheFuji => "avalanche-fuji",
            Network::Avalanche => "avalanche",
            Network::Solana => "solana",
            Network::SolanaDevnet => "solana-devnet",
            Network::PolygonAmoy => "polygon-amoy",
            Network::Polygon => "polygon",
            Network::Sei => "sei",
            Network::SeiTestnet => "sei-testnet",
            Network::Celo => "celo",
            Network::CeloSepolia => "celo-sepolia",
            Network::HyperEvm => "hyperevm",
            Network::HyperEvmTestnet => "hyperevm-testnet",
            Network::Optimism => "optimism",
            Network::OptimismSepolia => "optimism-sepolia",
        }
    }

    /// The wire tag of this network, as an owned string.
    pub fn to_string(&self) -> (tag: String)
        ensures
            tag@ == self.tag(),
    {
        self.as_str().to_owned()
    }

    /// Reads a wire tag. A tag that names a network gives that network; any
    /// other string is an error that carries the string.
    pub fn parse(tag: &str) -> (parsed: Result<Network, UnknownNetworkTag>)
        ensures
            match parsed {
                Ok(n) => Network::from_tag(tag@) == Some(n),
                Err(e) => Network::from_tag(tag@) is None && e.0@ == tag@,
            },
    {
        let all = Network::variants();
        let mut i: usize = 0;
        while i < all.len()
            invariant
                all@ == Network::all(),
                i <= all@.len(),
                forall|j: int| 0 <= j < i ==> all@[j].tag() != tag@,
            decreases all@.len() - i,
        {
            let n = all[i];
            if str_eq(n.as_str(), tag) {
                proof {
                    Network::lemma_tag_round_trip(n);
                }
                return Ok(n);
            }
            i = i + 1;
        }
        proof {
            assert forall|n: Network| n.tag() != tag@ by {
                Network::lemma_all_is_complete();
                assert(Network::all()[n.ordinal()] == n);
            }
        }
        Err(UnknownNetworkTag(tag.to_owned()))
    }

    /// Every network stands in [`Network::all`], at its ordinal, and no
    /// network stands there twice.
    pub proof fn lemma_all_is_complete()
        ensures
            Network::all().len() == 17,
            Network::all().no_duplicates(),
            forall|n: Network| 0 <= n.ordinal() < 17 && Network::all()[n.ordinal()] == n,
            forall|n: Network| Network::all().contains(n),
    {
        let all = Network::all();
        assert forall|i: int| 0 <= i < all.len() implies (#[trigger] all[i]).ordinal() == i by {}
        assert forall|n: Network| #[trigger] all.contains(n) by {
            assert(all[n.ordinal()] == n);
        }
    }

    /// No two networks share a tag.
    pub proof fn lemma_tag_is_injective(a: Network, b: Network)
        requires
            a.tag() == b.tag(),
        ensures
            a == b,
    {
        Network::lemma_tag_shape(a);
        Network::lemma_tag_shape(b);
    }

    /// Writing a network as its tag and reading the tag back gives the
    /// network.
    pub proof fn lemma_tag_round_trip(n: Network)
        ensures
            Network::from_tag(n.tag()) == Some(n),
    {
        let m = choose|m: Network| m.tag() == n.tag();
        Network::lemma_tag_is_injective(m, n);
    }

    /// Reading a tag and writing the network back gives the tag.
    pub proof fn lemma_from_tag_round_trip(tag: Seq<char>)
        requires
            Network::from_tag(tag) is Some,
        ensures
            Network::from_tag(tag).unwrap().tag() == tag,
    {
    }

    /// The length and the first character of a tag, which together tell
    /// the tags apart.
    spec fn tag_shape(self) -> (nat, char) {
        match self {
            Network::BaseSepolia => (12, 'b'),
            Network::Base => (4, 'b'),
            Network::XdcMainnet => (3, 'x'),
            Network::AvalancheFuji => (14, 'a'),
            Network::Avalanche => (9, 'a'),
            Network::Solana => (6, 's'),
            Network::SolanaDevnet => (13, 's'),
            Network::PolygonAmoy => (12, 'p'),
            Network::Polygon => (7, 'p'),
            Network::Sei => (3, 's'),
            Network::SeiTestnet => (11, 's'),
            Network::Celo => (4, 'c'),
            Network::CeloSepolia => (12, 'c'),
            Network::HyperEvm => (8, 'h'),
            Network::HyperEvmTestnet => (16, 'h'),
            Network::Optimism => (8, 'o'),
            Network::OptimismSepolia => (16, 'o'),
        }
    }

    /// Every tag has the length and the first character that
    /// [`Network::tag_shape`] gives.
    proof fn lemma_tag_shape(n: Network)
        ensures
            n.tag().len() == n.tag_shape().0,
            n.tag()[0] == n.tag_shape().1,
    {
        reveal_strlit("base-sepolia");
        reveal_strlit("base");
        reveal_strlit("xdc");
        reveal_strlit("avalanche-fuji");
        reveal_strlit("avalanche");
        reveal_strlit("solana");
        reveal_strlit("solana-devnet");
        reveal_strlit("polygon-amoy");
        reveal_strlit("polygon");
        reveal_strlit("sei");
        reveal_strlit("sei-testnet");
        reveal_strlit("celo");
        reveal_strlit("celo-sepolia");
        reveal_strlit("hyperevm");
        reveal_strlit("hyperevm-testnet");
        reveal_strlit("optimism");
        reveal_strlit("optimism-sepolia");
    }
}

impl From<Network> for NetworkFamily {
    /// The family of a network.
    fn from(value: Network) -> (family: Self)
        ensures
            family == value.family(),
            family == NetworkFamily::Solana <==> (value == Network::Solana || value
                == Network::SolanaDevnet),
    {
        match value {
            Network::BaseSepolia => NetworkFamily::Evm,
            Network::Base => NetworkFamily::Evm,
            Network::XdcMainnet => NetworkFamily::Evm,
            Network::AvalancheFuji => NetworkFamily::Evm,
            Network::Avalanche => NetworkFamily::Evm,
            Network::Solana => NetworkFamily::Solana,
            Network::SolanaDevnet => NetworkFamily::Solana,
            Network::PolygonAmoy => NetworkFamily::Evm,
            Network::Polygon => NetworkFamily::Evm,
            Network::Sei => NetworkFamily::Evm,
            Network::SeiTestnet => NetworkFamily::Evm,
            Network::Celo => NetworkFamily::Evm,
            Network::CeloSepolia => NetworkFamily::Evm,
            Network::HyperEvm => NetworkFamily::Evm,
            Network::HyperEvmTestnet => NetworkFamily::Evm,
            Network::Optimism => NetworkFamily::Evm,
            Network::OptimismSepolia => NetworkFamily::Evm,
        }
    }
}

impl vstd::std_specs::convert::FromSpecImpl<Network> for NetworkFamily {
    open spec fn obeys_from_spec() -> bool {
        true
    }

    open spec fn from_spec(value: Network) -> Self {
        value.family()
    }
}

} // verus!
