use vstd::prelude::*;

verus! {

/// The key under which the encrypted wallet is kept in browser storage.
pub const ENCRYPTED_WALLET_STORAGE_KEY: &'static str = "webwallet.encrypted_wallet";

#[derive(Debug, Clone, Copy, PartialEq, Eq, Structural)]
pub enum WalletStorageError {
    SerializeFailed,
    SaveFailed,
    LoadFailed,
    DeserializeFailed,
}

impl WalletStorageError {
    pub fn message(self) -> (message: &'static str)
        ensures
            message@ == match self {
                WalletStorageError::SerializeFailed => "Could not serialize encrypted wallet"@,
                WalletStorageError::SaveFailed => "Could not save encrypted wallet"@,
                WalletStorageError::LoadFailed => "Could not load encrypted wallet"@,
                WalletStorageError::DeserializeFailed => "Could not deserialize encrypted wallet"@,
            },
    {
        match self {
            WalletStorageError::SerializeFailed => "Could not serialize encrypted wallet",
            WalletStorageError::SaveFailed => "Could not save encrypted wallet",
            WalletStorageError::LoadFailed => "Could not load encrypted wallet",
            WalletStorageError::DeserializeFailed => "Could not deserialize encrypted wallet",
        }
    }
}

} // verus!
