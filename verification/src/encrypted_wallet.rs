use vstd::prelude::*;

use crate::text::{is_blank, is_blank_text};

verus! {

#[derive(Debug, Clone, Copy, PartialEq, Eq, Structural)]
pub enum EncryptedWalletError {
    BlankCiphertext,
}

impl EncryptedWalletError {
    pub fn message(self) -> (message: &'static str)
        ensures
            message@ == "Encrypted wallet data cannot be blank"@,
    {
        match self {
            EncryptedWalletError::BlankCiphertext => "Encrypted wallet data cannot be blank",
        }
    }
}

/// Encrypted wallet data; never blank.
#[derive(PartialEq, Eq)]
pub struct EncryptedWalletData {
    ciphertext: String,
}

impl View for EncryptedWalletData {
    type V = Seq<char>;

    closed spec fn view(&self) -> Seq<char> {
        self.ciphertext@
    }
}

impl Clone for EncryptedWalletData {
    fn clone(&self) -> (copy: Self)
        ensures
            copy@ == self@,
    {
        proof {
            use_type_invariant(self);
        }
        EncryptedWalletData { ciphertext: self.ciphertext.clone() }
    }
}

impl EncryptedWalletData {
    #[verifier::type_invariant]
    closed spec fn not_blank(self) -> bool {
        !is_blank_text(self.ciphertext@)
    }

    /// Refuses a ciphertext that is empty or only whitespace.
    pub fn new(ciphertext: String) -> (result: Result<Self, EncryptedWalletError>)
        ensures
            result is Err <==> is_blank_text(ciphertext@),
            result is Err ==> result == Err::<Self, _>(EncryptedWalletError::BlankCiphertext),
            result matches Ok(data) ==> data@ == ciphertext@,
    {
        if is_blank(ciphertext.as_str()) {
            Err(EncryptedWalletError::BlankCiphertext)
        } else {
            Ok(EncryptedWalletData { ciphertext })
        }
    }

    /// The ciphertext; it is never blank.
    pub fn ciphertext(&self) -> (ciphertext: &str)
        ensures
            ciphertext@ == self@,
            !is_blank_text(ciphertext@),
    {
        proof {
            use_type_invariant(self);
        }
        self.ciphertext.as_str()
    }

    /// The debug form never shows the ciphertext.
    pub fn debug_string(&self) -> (text: String)
        ensures
            text@ == "EncryptedWalletData(<encrypted>)"@,
    {
        String::from_str("EncryptedWalletData(<encrypted>)")
    }
}

} // verus!
