use vstd::prelude::*;

use crate::network::Network;

verus! {

/// The blockchains the wallet knows about.
#[derive(Debug, Clone, Copy, PartialEq, Eq, Structural)]
pub enum Chain {
    Ethereum,
    Solana,
    Bitcoin,
}

/// The network a chain uses when none is chosen: always a test network.
pub open spec fn chain_default_network(chain: Chain) -> Network {
    match chain {
        Chain::Ethereum => Network::EthereumSepolia,
        Chain::Solana => Network::SolanaDevnet,
        Chain::Bitcoin => Network::BitcoinTestnet,
    }
}

impl Chain {
    /// Human-readable name of the chain.
    pub fn label(self) -> (label: &'static str)
        ensures
            label@ == match self {
                Chain::Ethereum => "Ethereum"@,
                Chain::Solana => "Solana"@,
                Chain::Bitcoin => "Bitcoin"@,
            },
    {
        match self {
            Chain::Ethereum => "Ethereum",
            Chain::Solana => "Solana",
            Chain::Bitcoin => "Bitcoin",
        }
    }

    pub fn default_network(self) -> (network: Network)
        ensures
            network == chain_default_network(self),
    {
        match self {
            Chain::Ethereum => Network::EthereumSepolia,
            Chain::Solana => Network::SolanaDevnet,
            Chain::Bitcoin => Network::BitcoinTestnet,
        }
    }
}

} // verus!
