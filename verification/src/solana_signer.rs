use vstd::prelude::*;

use ed25519_dalek::{Signer, SigningKey};

use crate::solana_wallet::GeneratedSolanaWallet;

verus! {

/// A 64-byte Ed25519 signature.
#[derive(Clone, Copy, PartialEq, Eq)]
pub struct SolanaSignature {
    bytes: [u8; 64],
}

impl View for SolanaSignature {
    type V = Seq<u8>;

    closed spec fn view(&self) -> Seq<u8> {
        self.bytes@
    }
}

impl SolanaSignature {
    pub fn new(bytes: [u8; 64]) -> (signature: Self)
        ensures
            signature@ == bytes@,
    {
        SolanaSignature { bytes }
    }

    pub fn as_bytes(&self) -> (bytes: &[u8; 64])
        ensures
            bytes@ == self@,
    {
        &self.bytes
    }

    /// The debug form names the type and the size, never the bytes.
    pub fn debug_string(&self) -> (text: String)
        ensures
            text@ == "SolanaSignature(<64 bytes>)"@,
    {
        String::from_str("SolanaSignature(<64 bytes>)")
    }
}

#[derive(Debug, Clone, Copy, PartialEq, Eq, Structural)]
pub enum SolanaSigningError {
    InvalidSecretKeyLength,
}

/// The Ed25519 signature (RFC 8032, deterministic) of `message` under a
/// 32-byte secret key.
pub uninterp spec fn ed25519_signature(secret: Seq<u8>, message: Seq<u8>) -> Seq<u8>;

/// `SigningKey::from_bytes(secret).sign(message).to_bytes()`: Ed25519 signing
/// is deterministic, so the signature depends on the key and the message alone.
#[verifier::external_body]
fn ed25519_sign(secret: &[u8; 32], message: &[u8]) -> (signature: [u8; 64])
    ensures
        signature@ == ed25519_signature(secret@, message@),
{
    SigningKey::from_bytes(secret).sign(message).to_bytes()
}

/// Signs `message` with the wallet's secret key, which must be 32 bytes long;
/// a wallet's key always is, so signing always succeeds. The wallet is only read.
pub fn sign_message(wallet: &GeneratedSolanaWallet, message: &[u8]) -> (result: Result<
    SolanaSignature,
    SolanaSigningError,
>)
    ensures
        result is Ok,
        result is Err <==> wallet@.secret.len() != 32,
        result is Err ==> result == Err::<SolanaSignature, _>(
            SolanaSigningError::InvalidSecretKeyLength,
        ),
        result matches Ok(signature) ==> signature@ == ed25519_signature(
            wallet@.secret,
            message@,
        ),
{
    let secret_bytes = wallet.secret_key().expose_secret_bytes_for_signing_only();
    if secret_bytes.len() != 32 {
        return Err(SolanaSigningError::InvalidSecretKeyLength);
    }
    let mut secret_array = [0u8; 32];
    let mut i: usize = 0;
    while i < 32
        invariant
            i <= 32,
            secret_bytes@.len() == 32,
            forall|j: int| 0 <= j < i ==> secret_array@[j] == secret_bytes@[j],
            secret_array@.len() == 32,
        decreases 32 - i,
    {
        secret_array[i] = secret_bytes[i];
        i = i + 1;
    }
    assert(secret_array@ == secret_bytes@);
    let signature = ed25519_sign(&secret_array, message);
    Ok(SolanaSignature::new(signature))
}

} // verus!
