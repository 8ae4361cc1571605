use vstd::prelude::*;

use crate::solana_wallet::SolanaPublicAddress;
use crate::text::{is_blank, is_blank_text, is_whitespace_char};

verus! {

#[derive(Debug, Clone, Copy, PartialEq, Eq, Structural)]
pub enum SolanaTransferError {
    BlankRecipient,
    ZeroLamports,
}

impl SolanaTransferError {
    pub fn message(self) -> (message: &'static str)
        ensures
            message@ == match self {
                SolanaTransferError::BlankRecipient => "Recipient address cannot be blank"@,
                SolanaTransferError::ZeroLamports => "Transfer amount must be greater than zero"@,
            },
    {
        match self {
            SolanaTransferError::BlankRecipient => "Recipient address cannot be blank",
            SolanaTransferError::ZeroLamports => "Transfer amount must be greater than zero",
        }
    }
}

/// A transfer of lamports to a recipient, not yet checked.
#[derive(Debug, PartialEq, Eq)]
pub struct SolanaTransfer {
    recipient: SolanaPublicAddress,
    lamports: u64,
}

/// The outcome of checking a transfer: a blank recipient is reported first,
/// then an amount of zero.
pub open spec fn transfer_check(recipient: Seq<char>, lamports: u64) -> Result<(), SolanaTransferError> {
    if is_blank_text(recipient) {
        Err(SolanaTransferError::BlankRecipient)
    } else if lamports == 0 {
        Err(SolanaTransferError::ZeroLamports)
    } else {
        Ok(())
    }
}

impl Clone for SolanaTransfer {
    fn clone(&self) -> (copy: Self)
        ensures
            copy.spec_recipient() == self.spec_recipient(),
            copy.spec_lamports() == self.spec_lamports(),
    {
        SolanaTransfer { recipient: self.recipient.clone(), lamports: self.lamports }
    }
}

impl SolanaTransfer {
    pub closed spec fn spec_recipient(self) -> Seq<char> {
        self.recipient@
    }

    pub closed spec fn spec_lamports(self) -> u64 {
        self.lamports
    }

    pub fn new(recipient: SolanaPublicAddress, lamports: u64) -> (transfer: Self)
        ensures
            transfer.spec_recipient() == recipient@,
            transfer.spec_lamports() == lamports,
    {
        SolanaTransfer { recipient, lamports }
    }

    pub fn recipient(&self) -> (recipient: &SolanaPublicAddress)
        ensures
            recipient@ == self.spec_recipient(),
    {
        &self.recipient
    }

    pub fn lamports(&self) -> (lamports: u64)
        ensures
            lamports == self.spec_lamports(),
    {
        self.lamports
    }

    /// Checks the transfer: the recipient must not be blank and the amount
    /// must not be zero.
    pub fn validate(&self) -> (result: Result<(), SolanaTransferError>)
        ensures
            result == transfer_check(self.spec_recipient(), self.spec_lamports()),
    {
        if is_blank(self.recipient.as_str()) {
            return Err(SolanaTransferError::BlankRecipient);
        }
        if self.lamports == 0 {
            return Err(SolanaTransferError::ZeroLamports);
        }
        Ok(())
    }
}

/// A transfer is refused for a blank recipient first, and otherwise only for
/// an amount of zero: any positive amount to a recipient that is not blank is
/// accepted, whatever its size.
pub proof fn lemma_transfer_check_refuses_only_blank_or_zero(recipient: Seq<char>, lamports: u64)
    ensures
        (exists|i: int| 0 <= i < recipient.len() && !is_whitespace_char(#[trigger] recipient[i]))
            && lamports > 0 ==> transfer_check(recipient, lamports) == Ok::<
            (),
            SolanaTransferError,
        >(()),
        (exists|i: int| 0 <= i < recipient.len() && !is_whitespace_char(#[trigger] recipient[i]))
            && lamports == 0 ==> transfer_check(recipient, lamports) == Err::<
            (),
            SolanaTransferError,
        >(SolanaTransferError::ZeroLamports),
        (forall|i: int| 0 <= i < recipient.len() ==> is_whitespace_char(#[trigger] recipient[i]))
            ==> transfer_check(recipient, lamports) == Err::<(), SolanaTransferError>(
            SolanaTransferError::BlankRecipient,
        ),
{
}

} // verus!
