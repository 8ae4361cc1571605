//! A learning wallet for Solana Devnet: account and network models, address
//! validation, wallet sessions, key derivation, encryption and signing.

pub mod account;
pub mod address;
pub mod app_config;
pub mod base58;
pub mod base64_codec;
pub mod chain;
pub mod chain_adapter;
pub mod display;
pub mod encrypted_wallet;
pub mod encryption_key;
pub mod json;
pub mod key_derivation;
pub mod network;
pub mod secret;
pub mod secure_random;
pub mod solana_balance;
pub mod solana_rpc;
pub mod solana_signer;
pub mod solana_transaction;
pub mod solana_wallet;
pub mod text;
pub mod wallet;
pub mod wallet_encryption;
pub mod wallet_model;
pub mod wallet_password;
pub mod wallet_session;
pub mod wallet_storage;
