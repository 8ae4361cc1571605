use webwallet::app_config::AppConfig;
use webwallet::chain::Chain;
use webwallet::network::Network;

#[test]
fn solana_devnet_config_uses_solana_chain() {
    let config = AppConfig::new_solana_devnet();

    assert_eq!(config.active_chain(), Chain::Solana);
}

#[test]
fn solana_devnet_config_uses_solana_devnet() {
    let config = AppConfig::new_solana_devnet();

    assert_eq!(config.active_network(), Network::SolanaDevnet);
}

#[test]
fn solana_devnet_config_uses_test_network() {
    let config = AppConfig::new_solana_devnet();

    assert!(config.active_network().is_test_network());
}

#[test]
fn chain_labels_are_human_readable() {
    assert_eq!(Chain::Ethereum.label(), "Ethereum");
    assert_eq!(Chain::Solana.label(), "Solana");
    assert_eq!(Chain::Bitcoin.label(), "Bitcoin");
}

#[test]
fn chian_default_to_networks() {
    assert_eq!(Chain::Ethereum.default_network(), Network::EthereumSepolia);
    assert_eq!(Chain::Solana.default_network(), Network::SolanaDevnet);
    assert_eq!(Chain::Bitcoin.default_network(), Network::BitcoinTestnet);
}

#[test]
fn network_labels_are_human_readable() {
    assert_eq!(Network::EthereumSepolia.chain(), Chain::Ethereum);
    assert_eq!(Network::SolanaDevnet.chain(), Chain::Solana);
    assert_eq!(Network::BitcoinTestnet.chain(), Chain::Bitcoin);
}

#[test]
fn network_label_text() {
    assert_eq!(Network::EthereumSepolia.label(), "Chain::Ethereum");
    assert_eq!(Network::SolanaDevnet.label(), "Chain::Solana");
    assert_eq!(Network::BitcoinTestnet.label(), "Chain::Bitcoin");
}

#[test]
fn networks_map_to_their_chains() {
    assert_eq!(Network::EthereumSepolia.chain(), Chain::Ethereum);
    assert_eq!(Network::SolanaDevnet.chain(), Chain::Solana);
    assert_eq!(Network::BitcoinTestnet.chain(), Chain::Bitcoin);
}

#[test]
fn default_network_of_each_chain_belongs_to_it() {
    for chain in [Chain::Ethereum, Chain::Solana, Chain::Bitcoin] {
        assert_eq!(chain.default_network().chain(), chain);
    }
    for network in [Network::EthereumSepolia, Network::SolanaDevnet, Network::BitcoinTestnet] {
        assert_eq!(network.chain().default_network(), network);
    }
}

#[test]
fn all_supported_networks_are_test_networks() {
    assert!(Network::EthereumSepolia.is_test_network());
    assert!(Network::SolanaDevnet.is_test_network());
    assert!(Network::BitcoinTestnet.is_test_network());
}

#[test]
fn rpc_url_are_test_network_urls() {
    let urls = [
        Network::EthereumSepolia.rpc_url(),
        Network::SolanaDevnet.rpc_url(),
        Network::BitcoinTestnet.rpc_url(),
    ];

    for url in urls {
        assert!(url.starts_with("https://"));
        assert!(!url.to_ascii_lowercase().contains("mainnet"));
    }

    assert!(Network::EthereumSepolia.rpc_url().contains("sepolia"));
    assert!(Network::SolanaDevnet.rpc_url().contains("devnet"));
    assert!(Network::BitcoinTestnet.rpc_url().contains("testnet"));
}

#[test]
fn solana_devnet_rpc_url_is_exact() {
    assert_eq!(Network::SolanaDevnet.rpc_url(), "https://api.devnet.solana.com");
}
