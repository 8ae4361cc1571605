use vstd::prelude::*;
use vstd::utf8::encode_utf8;

use argon2::Argon2;

use crate::encryption_key::EncryptionKey;
use crate::wallet_password::WalletPassword;

verus! {

#[derive(Debug, Clone, Copy, PartialEq, Eq, Structural)]
pub enum KeyDerivationError {
    Failed,
}

impl KeyDerivationError {
    pub fn message(self) -> (message: &'static str)
        ensures
            message@ == "Could not derive encryption key"@,
    {
        match self {
            KeyDerivationError::Failed => "Could not derive encryption key",
        }
    }
}

#[verifier::external_type_specification]
#[verifier::external_body]
pub struct ExArgon2Error(argon2::Error);

/// The 32-byte key that Argon2 with the crate's default settings (Argon2id,
/// version 0x13, 19 MiB, 2 passes, 1 lane) derives from a password and a salt.
pub uninterp spec fn argon2_default_key(password: Seq<u8>, salt: Seq<u8>) -> Seq<u8>;

/// Whether `Argon2::hash_password_into` accepts these inputs: the crate refuses a
/// password longer than 0xFFFF_FFFF bytes and a salt shorter than 8 or longer
/// than 0xFFFF_FFFF bytes.
pub open spec fn argon2_accepts(password: Seq<u8>, salt: Seq<u8>) -> bool {
    password.len() <= 0xFFFF_FFFF && 8 <= salt.len() <= 0xFFFF_FFFF
}

/// `Argon2::default().hash_password_into(password, salt, &mut [0u8; 32])`: with a
/// 32-byte output, the crate's source fails only on the password and salt
/// lengths, and otherwise fills the output with a value that depends on the
/// password and the salt alone.
#[verifier::external_body]
fn argon2_default_hash(password: &[u8], salt: &[u8]) -> (result: Result<[u8; 32], argon2::Error>)
    ensures
        result is Ok <==> argon2_accepts(password@, salt@),
        result matches Ok(key) ==> key@ == argon2_default_key(password@, salt@),
{
    let mut key_bytes = [0u8; 32];
    match Argon2::default().hash_password_into(password, salt, &mut key_bytes) {
        Ok(()) => Ok(key_bytes),
        Err(error) => Err(error),
    }
}

/// Derives the wallet's encryption key from the password's UTF-8 bytes and the
/// salt. The same password and salt always give the same key.
pub fn derive_encryption_key(password: &WalletPassword, salt: &[u8]) -> (result: Result<
    EncryptionKey,
    KeyDerivationError,
>)
    ensures
        result is Ok <==> argon2_accepts(encode_utf8(password@), salt@),
        result matches Ok(key) ==> key@ == argon2_default_key(encode_utf8(password@), salt@),
        result is Err ==> result == Err::<EncryptionKey, _>(KeyDerivationError::Failed),
{
    let password_bytes = password.expose_password_bytes_for_key_derivation_only();
    let key_bytes = match argon2_default_hash(password_bytes, salt) {
        Ok(bytes) => bytes,
        Err(_) => {
            return Err(KeyDerivationError::Failed);
        },
    };
    match EncryptionKey::new(vstd::slice::slice_to_vec(key_bytes.as_slice())) {
        Ok(key) => Ok(key),
        Err(_) => Err(KeyDerivationError::Failed),
    }
}

} // verus!
