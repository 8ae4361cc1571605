use vstd::prelude::*;
use vstd::utf8::encode_utf8;
use vstd::string::StringSliceAdditionalSpecFns;

use crate::text::{is_blank, is_blank_text};

verus! {

broadcast use vstd::slice::group_slice_axioms;

#[derive(Debug, Clone, Copy, PartialEq, Eq, Structural)]
pub enum WalletPasswordError {
    BlankPassword,
}

impl WalletPasswordError {
    pub fn message(self) -> (message: &'static str)
        ensures
            message@ == "Password cannot be blank"@,
    {
        match self {
            WalletPasswordError::BlankPassword => "Password cannot be blank",
        }
    }
}

/// A wallet password; never blank, never shown.
#[derive(PartialEq, Eq)]
pub struct WalletPassword {
    password: String,
}

impl View for WalletPassword {
    type V = Seq<char>;

    closed spec fn view(&self) -> Seq<char> {
        self.password@
    }
}

impl Clone for WalletPassword {
    fn clone(&self) -> (copy: Self)
        ensures
            copy@ == self@,
    {
        proof {
            use_type_invariant(self);
        }
        WalletPassword { password: self.password.clone() }
    }
}

impl WalletPassword {
    #[verifier::type_invariant]
    closed spec fn not_blank(self) -> bool {
        !is_blank_text(self.password@)
    }

    /// Refuses a password that is empty or only whitespace.
    pub fn new(password: String) -> (result: Result<Self, WalletPasswordError>)
        ensures
            result is Err <==> is_blank_text(password@),
            result is Err ==> result == Err::<Self, _>(WalletPasswordError::BlankPassword),
            result matches Ok(p) ==> p@ == password@,
    {
        if is_blank(password.as_str()) {
            Err(WalletPasswordError::BlankPassword)
        } else {
            Ok(WalletPassword { password })
        }
    }

    /// The length of the password in UTF-8 bytes.
    pub fn len(&self) -> (len: usize)
        ensures
            len == encode_utf8(self@).len(),
    {
        self.password.as_str().as_bytes().len()
    }

    /// The password's UTF-8 bytes, for key derivation.
    pub fn expose_password_bytes_for_key_derivation_only(&self) -> (bytes: &[u8])
        ensures
            bytes@ == encode_utf8(self@),
    {
        let text = self.password.as_str();
        assert(text.spec_bytes() == encode_utf8(text@));
        text.as_bytes()
    }

    /// The debug form of a password never shows it.
    pub fn debug_string(&self) -> (text: String)
        ensures
            text@ == "WalletPassword(<redacted>)"@,
    {
        String::from_str("WalletPassword(<redacted>)")
    }
}

} // verus!
