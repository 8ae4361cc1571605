use vstd::prelude::*;

verus! {

/// Where the wallet stands: none loaded, locked, unlocked, or cleared.
#[derive(Debug, Clone, Copy, PartialEq, Eq, Structural)]
pub enum WalletStatus {
    NoWallet,
    Locked,
    Unlocked,
    Clear,
}

impl WalletStatus {
    pub fn label(self) -> (label: &'static str)
        ensures
            label@ == match self {
                WalletStatus::NoWallet => "NO wallet loaded"@,
                WalletStatus::Locked => "wallet locked"@,
                WalletStatus::Unlocked => "wallet unlocked"@,
                WalletStatus::Clear => "NO wallet loaded"@,
            },
    {
        match self {
            WalletStatus::NoWallet => "NO wallet loaded",
            WalletStatus::Locked => "wallet locked",
            WalletStatus::Unlocked => "wallet unlocked",
            WalletStatus::Clear => "NO wallet loaded",
        }
    }
}

} // verus!
