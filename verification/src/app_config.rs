use vstd::prelude::*;

use crate::chain::Chain;
use crate::network::Network;

verus! {

/// Which chain and network the app works on.
#[derive(Debug, Clone, Copy, PartialEq, Eq, Structural)]
pub struct AppConfig {
    active_chain: Chain,
    active_network: Network,
}

impl AppConfig {
    pub closed spec fn spec_active_chain(self) -> Chain {
        self.active_chain
    }

    pub closed spec fn spec_active_network(self) -> Network {
        self.active_network
    }

    /// The configuration the app starts with: Solana on its devnet.
    pub fn new_solana_devnet() -> (config: Self)
        ensures
            config.spec_active_chain() == Chain::Solana,
            config.spec_active_network() == Network::SolanaDevnet,
    {
        AppConfig { active_chain: Chain::Solana, active_network: Network::SolanaDevnet }
    }

    pub fn active_chain(&self) -> (chain: Chain)
        ensures
            chain == self.spec_active_chain(),
    {
        self.active_chain
    }

    pub fn active_network(&self) -> (network: Network)
        ensures
            network == self.spec_active_network(),
    {
        self.active_network
    }
}

} // verus!
