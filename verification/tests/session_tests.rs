use webwallet::account::Account;
use webwallet::address::Address;
use webwallet::display::{shorten_address, trim, wallet_name_or_default};
use webwallet::network::Network;
use webwallet::solana_wallet::{generate_solana_wallet, wallet_from_secret_key};
use webwallet::wallet::WalletStatus;
use webwallet::wallet_model::WalletModel;
use webwallet::wallet_session::{NamedWallet, WalletSession, WalletSessionError};
use webwallet::wallet_storage::{WalletStorageError, ENCRYPTED_WALLET_STORAGE_KEY};

#[test]
fn named_wallet_exposed_name() {
    let wallet = NamedWallet::new("Main Wallet".to_string(), generate_solana_wallet().expect("random source should be available"));
    assert_eq!(wallet.name(), "Main Wallet");
}

#[test]
fn named_wallet_exposes_public_address_for_display() {
    let wallet = NamedWallet::new("Main wallet".to_string(), generate_solana_wallet().expect("random source should be available"));

    assert!(!wallet.public_address().as_str().is_empty());
}

#[test]
fn named_wallet_debug_output_does_not_expose_secret_data() {
    let wallet = NamedWallet::new("Main Wallet".to_string(), generate_solana_wallet().expect("random source should be available"));
    let debug_output = wallet.debug_string();

    assert!(debug_output.contains("NamedWallet"));
    assert!(debug_output.contains("Main Wallet"));
    assert!(debug_output.contains("public_address"));
    assert!(!debug_output.contains("secret"));
    assert!(!debug_output.contains("private"));
    assert!(!debug_output.contains("mnemonic"));
    assert!(!debug_output.contains("password"));
}

#[test]
fn named_wallet_debug_string_quotes_its_name() {
    let wallet = NamedWallet::new("Say \"hi\"".to_string(), wallet_from_secret_key([0u8; 32]));
    let debug_output = wallet.debug_string();

    assert!(debug_output.starts_with("NamedWallet { name: \"Say \\\"hi\\\"\", public_address: "));
    assert!(debug_output.ends_with("\") } }"));
}

#[test]
fn new_empty_session_has_no_wallets_and_no_selection() {
    let session = WalletSession::new_empty();

    assert_eq!(session.wallet_count(), 0);
    assert_eq!(session.selected_wallet_index(), None);
}

#[test]
fn adding_first_wallet_selects_it() {
    let mut session = WalletSession::new_empty();
    let wallet = NamedWallet::new("Main Wallet".to_string(), generate_solana_wallet().expect("random source should be available"));

    session.add_wallet(wallet);

    assert_eq!(session.wallet_count(), 1);
    assert_eq!(session.selected_wallet_index(), Some(0));
}

#[test]
fn adding_second_wallet_keeps_existing_selection() {
    let mut session = WalletSession::new_empty();

    session.add_wallet(NamedWallet::new("Main Wallet".to_string(), generate_solana_wallet().expect("random source should be available")));

    session.add_wallet(NamedWallet::new("Savings Wallet".to_string(), generate_solana_wallet().expect("random source should be available")));

    assert_eq!(session.wallet_count(), 2);
    assert_eq!(session.selected_wallet_index(), Some(0));
}

#[test]
fn selecting_existing_wallet_changes_selection() {
    let mut session = WalletSession::new_empty();

    session.add_wallet(NamedWallet::new("Main Wallet".to_string(), generate_solana_wallet().expect("random source should be available")));

    session.add_wallet(NamedWallet::new("Savings Wallet".to_string(), generate_solana_wallet().expect("random source should be available")));

    let selected = session.select_wallet(1);

    assert_eq!(selected, Ok(()));
    assert_eq!(session.selected_wallet_index(), Some(1));
}

#[test]
fn selecting_invalid_wallet_keeps_existing_selection() {
    let mut session = WalletSession::new_empty();

    session.add_wallet(NamedWallet::new("Main Wallet".to_string(), generate_solana_wallet().expect("random source should be available")));

    let selected = session.select_wallet(99);

    assert_eq!(selected, Err(WalletSessionError::WalletNotFound));
    assert_eq!(session.selected_wallet_index(), Some(0));
}

#[test]
fn selecting_in_empty_session_fails() {
    let mut session = WalletSession::new_empty();

    assert_eq!(session.select_wallet(0), Err(WalletSessionError::WalletNotFound));
    assert_eq!(session.selected_wallet_index(), None);
}

#[test]
fn selected_wallet_returns_current_wallet() {
    let mut session = WalletSession::new_empty();

    session.add_wallet(NamedWallet::new("Main Wallet".to_string(), generate_solana_wallet().expect("random source should be available")));

    session.add_wallet(NamedWallet::new("Savings Wallet".to_string(), generate_solana_wallet().expect("random source should be available")));

    session.select_wallet(1).expect("wallet should exist");

    let selected_wallet = session.selected_wallet().expect("wallet should be selected");

    assert_eq!(selected_wallet.name(), "Savings Wallet");
}

#[test]
fn selected_wallet_returns_none_for_empty_session() {
    let session = WalletSession::new_empty();

    assert!(session.selected_wallet().is_none());
}

#[test]
fn wallet_not_found_error_has_clear_message() {
    assert_eq!(WalletSessionError::WalletNotFound.message(), "Wallet not found");
}

#[test]
fn wallets_accessor_returns_named_wallets() {
    let mut session = WalletSession::new_empty();

    session.add_wallet(NamedWallet::new("Main Wallet".to_string(), generate_solana_wallet().expect("random source should be available")));

    let wallets = session.wallets();

    assert_eq!(wallets.len(), 1);
    assert_eq!(wallets[0].name(), "Main Wallet");
}

#[test]
fn wallet_at_returns_wallet_for_existing_index() {
    let mut session = WalletSession::new_empty();

    session.add_wallet(NamedWallet::new("Main Wallet".to_string(), generate_solana_wallet().expect("random source should be available")));

    let wallet = session.wallet_at(0).expect("wallet should exist");
    assert_eq!(wallet.name(), "Main Wallet");
}

#[test]
fn wallet_at_returns_none_for_invalid_index() {
    let session = WalletSession::new_empty();

    assert!(session.wallet_at(99).is_none());
}

#[test]
fn selected_public_address_returns_address_for_selected_wallet() {
    let mut session = WalletSession::new_empty();

    session.add_wallet(NamedWallet::new("Main Wallet".to_string(), generate_solana_wallet().expect("random source should be available")));

    let address = session.selected_public_address().expect("selected address should exist");

    assert!(!address.as_str().is_empty());
}

#[test]
fn selected_public_address_follows_selection() {
    let mut session = WalletSession::new_empty();
    let first = wallet_from_secret_key([1u8; 32]);
    let second = wallet_from_secret_key([2u8; 32]);
    let second_address = second.public_address().as_str().to_string();

    session.add_wallet(NamedWallet::new("One".to_string(), first));
    session.add_wallet(NamedWallet::new("Two".to_string(), second));
    session.select_wallet(1).expect("wallet should exist");

    assert_eq!(
        session.selected_public_address().map(|a| a.as_str().to_string()),
        Some(second_address)
    );
}

#[test]
fn cloned_session_keeps_wallets_and_selection() {
    let mut session = WalletSession::new_empty();
    session.add_wallet(NamedWallet::new("One".to_string(), wallet_from_secret_key([1u8; 32])));
    let copy = session.clone();

    assert!(copy == session);
    assert_eq!(copy.selected_wallet_index(), Some(0));
}

#[test]
fn no_wallet_status_equals_itself() {
    assert_eq!(WalletStatus::NoWallet, WalletStatus::NoWallet);
}

#[test]
fn locked_and_unlocked_are_different() {
    assert_ne!(WalletStatus::Locked, WalletStatus::Unlocked);
}

#[test]
fn clear_the_wallet_status() {
    assert_eq!(WalletStatus::NoWallet, WalletStatus::NoWallet);
}

#[test]
fn status_labels_are_human_readable() {
    assert_eq!(WalletStatus::NoWallet.label(), "NO wallet loaded");
    assert_eq!(WalletStatus::Locked.label(), "wallet locked");
    assert_eq!(WalletStatus::Unlocked.label(), "wallet unlocked");
    assert_eq!(WalletStatus::NoWallet.label(), "NO wallet loaded");
}

#[test]
fn clear_status_label_reads_like_no_wallet() {
    assert_eq!(WalletStatus::Clear.label(), "NO wallet loaded");
}

#[test]
fn new_empty_wallet_has_no_wallet_status_and_no_account() {
    let wallet = WalletModel::new_empty();

    assert_eq!(wallet.status, WalletStatus::NoWallet);
    assert_eq!(wallet.account_count(), 0);
}

#[test]
fn account_count_returns_number_of_accounts() {
    let wallet = WalletModel {
        status: WalletStatus::Locked,
        accounts: vec![
            Account::new(Network::EthereumSepolia, Address::new("0x1234".to_string()))
                .expect("test address should be valid"),
            Account::new(Network::SolanaDevnet, Address::new("solana-address".to_string()))
                .expect("test address should be valid"),
        ],
    };

    assert_eq!(wallet.account_count(), 2);
}

#[test]
fn wallet_model_debug_output_does_not_include_secret_field_names() {
    let wallet = WalletModel::new_empty();
    let debug_output = format!("{wallet:?}");

    assert!(!debug_output.contains("private_key"));
    assert!(!debug_output.contains("mnemonic"));
    assert!(!debug_output.contains("password"));
    assert!(!debug_output.contains("secret"));
}

#[test]
fn lock_changes_status_to_locked() {
    let mut wallet = WalletModel::new_empty();

    wallet.lock();

    assert_eq!(wallet.status, WalletStatus::Locked);
}

#[test]
fn unlock_changes_status_to_unlocked() {
    let mut wallet = WalletModel::new_empty();

    wallet.unlock();

    assert_eq!(wallet.status, WalletStatus::Unlocked);
}

#[test]
fn clear_resets_wallet_to_no_wallet() {
    let mut wallet = WalletModel::new_empty();

    wallet.clear();

    assert_eq!(wallet.status, WalletStatus::NoWallet);
}

#[test]
fn clear_forgets_accounts_and_lock_keeps_them() {
    let mut wallet = WalletModel::new_empty();
    wallet.add_account(
        Account::new(Network::SolanaDevnet, Address::new("abc".to_string())).expect("valid"),
    );
    wallet.lock();
    assert_eq!(wallet.account_count(), 1);

    wallet.clear();

    assert_eq!(wallet.account_count(), 0);
    assert_eq!(wallet.status, WalletStatus::NoWallet);
}

#[test]
fn add_account_stores_public_account_metadata() {
    let mut wallet = WalletModel::new_empty();

    let account = Account::new(Network::EthereumSepolia, Address::new("0x1234".to_string()))
        .expect("test address should be valid");

    wallet.add_account(account);

    assert_eq!(wallet.account_count(), 1);
    assert_eq!(wallet.accounts[0].address().as_str(), "0x1234");
    assert_eq!(wallet.accounts[0].network(), Network::EthereumSepolia);
}

#[test]
fn wallet_storage_error_messages_are_clear() {
    assert_eq!(
        WalletStorageError::SerializeFailed.message(),
        "Could not serialize encrypted wallet"
    );

    assert_eq!(WalletStorageError::SaveFailed.message(), "Could not save encrypted wallet");

    assert_eq!(WalletStorageError::LoadFailed.message(), "Could not load encrypted wallet");

    assert_eq!(
        WalletStorageError::DeserializeFailed.message(),
        "Could not deserialize encrypted wallet"
    );
}

#[test]
fn encrypted_wallet_storage_key_is_stable() {
    assert_eq!(ENCRYPTED_WALLET_STORAGE_KEY, "webwallet.encrypted_wallet");
}

#[test]
fn short_addresses_are_shown_whole() {
    assert_eq!(shorten_address("abc"), "abc");
    assert_eq!(shorten_address("123456789012"), "123456789012");
}

#[test]
fn long_addresses_keep_four_characters_at_each_end() {
    assert_eq!(shorten_address("1234567890123"), "1234...0123");
    assert_eq!(shorten_address("FVen3X669xLzsi6N2V91DoiyzHzg1uAgqiT8jZ9nS96Z"), "FVen...S96Z");
}

#[test]
fn trim_removes_surrounding_whitespace() {
    assert_eq!(trim("  Savings \n"), "Savings");
    assert_eq!(trim("\u{3000}a b\u{a0}"), "a b");
    assert_eq!(trim("   "), "");
    assert_eq!(trim(""), "");
}

#[test]
fn wallet_name_is_the_trimmed_request() {
    assert_eq!(wallet_name_or_default("  Trading  ", 3), "Trading");
}

#[test]
fn blank_wallet_name_falls_back_to_numbered_default() {
    assert_eq!(wallet_name_or_default("", 0), "Wallet 1");
    assert_eq!(wallet_name_or_default("   ", 1), "Wallet 2");
    assert_eq!(wallet_name_or_default("\t", 9), "Wallet 10");
    assert_eq!(wallet_name_or_default("", 1234), "Wallet 1235");
}
