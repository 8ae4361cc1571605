use vstd::prelude::*;

use crate::chain::{Chain, chain_default_network};

verus! {

/// The networks the wallet can talk to; every one of them is a test network.
#[derive(Debug, Clone, Copy, PartialEq, Eq, Structural)]
pub enum Network {
    EthereumSepolia,
    SolanaDevnet,
    BitcoinTestnet,
}

/// The chain a network belongs to.
pub open spec fn network_chain(network: Network) -> Chain {
    match network {
        Network::EthereumSepolia => Chain::Ethereum,
        Network::SolanaDevnet => Chain::Solana,
        Network::BitcoinTestnet => Chain::Bitcoin,
    }
}

/// The RPC endpoint of a network.
pub open spec fn network_rpc_url(network: Network) -> Seq<char> {
    match network {
        Network::EthereumSepolia => "https://sepolia.example-rpc.local"@,
        Network::SolanaDevnet => "https://api.devnet.solana.com"@,
        Network::BitcoinTestnet => "https://bitcoin-testnet.example-rpc.local"@,
    }
}

impl Network {
    pub fn label(self) -> (label: &'static str)
        ensures
            label@ == match self {
                Network::EthereumSepolia => "Chain::Ethereum"@,
                Network::SolanaDevnet => "Chain::Solana"@,
                Network::BitcoinTestnet => "Chain::Bitcoin"@,
            },
    {
        match self {
            Network::EthereumSepolia => "Chain::Ethereum",
            Network::SolanaDevnet => "Chain::Solana",
            Network::BitcoinTestnet => "Chain::Bitcoin",
        }
    }

    pub fn chain(self) -> (chain: Chain)
        ensures
            chain == network_chain(self),
    {
        match self {
            Network::EthereumSepolia => Chain::Ethereum,
            Network::SolanaDevnet => Chain::Solana,
            Network::BitcoinTestnet => Chain::Bitcoin,
        }
    }

    /// Every supported network is a test network.
    pub fn is_test_network(self) -> (is_test: bool)
        ensures
            is_test,
    {
        match self {
            Network::EthereumSepolia => true,
            Network::SolanaDevnet => true,
            Network::BitcoinTestnet => true,
        }
    }

    pub fn rpc_url(self) -> (url: &'static str)
        ensures
            url@ == network_rpc_url(self),
    {
        match self {
            Network::EthereumSepolia => "https://sepolia.example-rpc.local",
            Network::SolanaDevnet => "https://api.devnet.solana.com",
            Network::BitcoinTestnet => "https://bitcoin-testnet.example-rpc.local",
        }
    }
}

/// A chain's default network belongs to that chain, and a network is the
/// default of its own chain.
pub proof fn lemma_default_network_round_trip(chain: Chain, network: Network)
    ensures
        network_chain(chain_default_network(chain)) == chain,
        chain_default_network(network_chain(network)) == network,
{
}

/// Every network's RPC endpoint is reached over HTTPS.
pub proof fn lemma_rpc_urls_use_https(network: Network)
    ensures
        network_rpc_url(network).len() > 8,
        network_rpc_url(network).subrange(0, 8) == "https://"@,
{
    reveal_strlit("https://");
    reveal_strlit("https://sepolia.example-rpc.local");
    reveal_strlit("https://api.devnet.solana.com");
    reveal_strlit("https://bitcoin-testnet.example-rpc.local");
    assert(network_rpc_url(network).subrange(0, 8) =~= "https://"@);
}

} // verus!
