use vstd::prelude::*;

use chacha20poly1305::aead::{Aead, KeyInit};
use chacha20poly1305::{ChaCha20Poly1305, Key, Nonce};

use crate::base64_codec::{
    base64_decode, base64_decoding, base64_encode, base64_encoding,
    lemma_base64_decoding_of_encoding,
};
use crate::encryption_key::EncryptionKey;

verus! {

#[derive(Debug, Clone, Copy, PartialEq, Eq, Structural)]
pub enum WalletEncryptionError {
    EncryptionFailed,
    DecryptionFailed,
}

impl WalletEncryptionError {
    pub fn message(self) -> (message: &'static str)
        ensures
            message@ == match self {
                WalletEncryptionError::EncryptionFailed => "Could not encrypt wallet data"@,
                WalletEncryptionError::DecryptionFailed => "Could not decrypt wallet data"@,
            },
    {
        match self {
            WalletEncryptionError::EncryptionFailed => "Could not encrypt wallet data",
            WalletEncryptionError::DecryptionFailed => "Could not decrypt wallet data",
        }
    }
}

/// An encrypted wallet as it is stored: a format version, the nonce and the
/// ciphertext, both in standard Base64.
#[derive(PartialEq, Eq)]
pub struct SerializableEncryptedWallet {
    version: u8,
    nonce: String,
    ciphertext: String,
}

pub struct StoredWalletFields {
    pub version: u8,
    pub nonce: Seq<char>,
    pub ciphertext: Seq<char>,
}

impl View for SerializableEncryptedWallet {
    type V = StoredWalletFields;

    closed spec fn view(&self) -> StoredWalletFields {
        StoredWalletFields { version: self.version, nonce: self.nonce@, ciphertext: self.ciphertext@ }
    }
}

impl Clone for SerializableEncryptedWallet {
    fn clone(&self) -> (copy: Self)
        ensures
            copy@ == self@,
    {
        SerializableEncryptedWallet {
            version: self.version,
            nonce: self.nonce.clone(),
            ciphertext: self.ciphertext.clone(),
        }
    }
}

impl SerializableEncryptedWallet {
    pub fn new(version: u8, nonce: String, ciphertext: String) -> (wallet: Self)
        ensures
            wallet@ == (StoredWalletFields { version, nonce: nonce@, ciphertext: ciphertext@ }),
    {
        SerializableEncryptedWallet { version, nonce, ciphertext }
    }

    pub fn version(&self) -> (version: u8)
        ensures
            version == self@.version,
    {
        self.version
    }

    pub fn nonce(&self) -> (nonce: &str)
        ensures
            nonce@ == self@.nonce,
    {
        self.nonce.as_str()
    }

    pub fn ciphertext(&self) -> (ciphertext: &str)
        ensures
            ciphertext@ == self@.ciphertext,
    {
        self.ciphertext.as_str()
    }

    /// The debug form never shows the nonce or the ciphertext.
    pub fn debug_string(&self) -> (text: String)
        ensures
            text@ == "SerializableEncryptedWallet(<encrypted>)"@,
    {
        String::from_str("SerializableEncryptedWallet(<encrypted>)")
    }
}

#[verifier::external_type_specification]
#[verifier::external_body]
pub struct ExAeadError(chacha20poly1305::Error);

/// The ChaCha20-Poly1305 (RFC 8439) ciphertext, with its 16-byte tag appended,
/// of `plaintext` under a 32-byte key and a 12-byte nonce, without associated data.
pub uninterp spec fn chacha20poly1305_seal(key: Seq<u8>, nonce: Seq<u8>, plaintext: Seq<u8>) -> Seq<u8>;

/// What ChaCha20-Poly1305 decryption gives for a ciphertext with its tag: the
/// plaintext when the tag checks out under the key and nonce, else nothing.
pub uninterp spec fn chacha20poly1305_open(key: Seq<u8>, nonce: Seq<u8>, ciphertext: Seq<u8>) -> Option<Seq<u8>>;

/// Whether the cipher accepts a plaintext: the crate's source refuses one of
/// `u32::MAX` blocks of 64 bytes or more.
pub open spec fn chacha20poly1305_accepts(plaintext: Seq<u8>) -> bool {
    plaintext.len() / 64 < 0xFFFF_FFFF
}

/// `ChaCha20Poly1305::new(key).encrypt(nonce, plaintext)`. The source refuses
/// only a plaintext that is too long; otherwise the result depends on the key,
/// nonce and plaintext alone, is the plaintext's length plus the 16-byte tag
/// that is appended to it, and decrypting it with the same key and nonce
/// gives the plaintext back. `Key::from_slice` and `Nonce::from_slice` panic on
/// other lengths than 32 and 12 bytes.
#[verifier::external_body]
fn chacha20poly1305_encrypt(key: &[u8], nonce: &[u8], plaintext: &[u8]) -> (result: Result<
    Vec<u8>,
    chacha20poly1305::Error,
>)
    requires
        key@.len() == 32,
        nonce@.len() == 12,
    ensures
        result is Ok <==> chacha20poly1305_accepts(plaintext@),
        result matches Ok(c) ==> c@ == chacha20poly1305_seal(key@, nonce@, plaintext@)
            && c@.len() == plaintext@.len() + 16 && chacha20poly1305_open(key@, nonce@, c@)
            == Some(plaintext@),
{
    ChaCha20Poly1305::new(Key::from_slice(key)).encrypt(Nonce::from_slice(nonce), plaintext)
}

/// `ChaCha20Poly1305::new(key).decrypt(nonce, ciphertext)`: the plaintext when
/// the tag checks out, an error otherwise, as `chacha20poly1305_open` names it.
#[verifier::external_body]
fn chacha20poly1305_decrypt(key: &[u8], nonce: &[u8], ciphertext: &[u8]) -> (result: Result<
    Vec<u8>,
    chacha20poly1305::Error,
>)
    requires
        key@.len() == 32,
        nonce@.len() == 12,
    ensures
        match result {
            Ok(p) => chacha20poly1305_open(key@, nonce@, ciphertext@) == Some(p@),
            Err(_) => chacha20poly1305_open(key@, nonce@, ciphertext@) is None,
        },
{
    ChaCha20Poly1305::new(Key::from_slice(key)).decrypt(Nonce::from_slice(nonce), ciphertext)
}

/// Decrypting a stored wallet cannot go ahead when its nonce and ciphertext
/// both decode but the nonce is not 12 bytes long.
pub open spec fn has_usable_nonce(wallet: StoredWalletFields) -> bool {
    match (base64_decoding(wallet.nonce), base64_decoding(wallet.ciphertext)) {
        (Some(nonce), Some(_)) => nonce.len() == 12,
        _ => true,
    }
}

/// What decrypting a stored wallet with a key gives: the plaintext, or a
/// decryption failure when the nonce or ciphertext is not Base64 or the tag
/// does not check out.
pub open spec fn wallet_decryption(wallet: StoredWalletFields, key: Seq<u8>) -> Result<
    Seq<u8>,
    WalletEncryptionError,
> {
    match (base64_decoding(wallet.nonce), base64_decoding(wallet.ciphertext)) {
        (Some(nonce), Some(ciphertext)) => match chacha20poly1305_open(key, nonce, ciphertext) {
            Some(plaintext) => Ok(plaintext),
            None => Err(WalletEncryptionError::DecryptionFailed),
        },
        _ => Err(WalletEncryptionError::DecryptionFailed),
    }
}

/// Encrypts wallet data under the key and nonce. The stored wallet has version
/// 1, the nonce and the sealed data (16 bytes longer than the plaintext) in
/// Base64, and decrypting it with the same key gives the plaintext back.
pub fn encrypt_wallet_data(plaintext: &[u8], key: &EncryptionKey, nonce_bytes: [u8; 12]) -> (result:
    Result<SerializableEncryptedWallet, WalletEncryptionError>)
    ensures
        result is Ok <==> chacha20poly1305_accepts(plaintext@),
        result is Err ==> result == Err::<SerializableEncryptedWallet, _>(
            WalletEncryptionError::EncryptionFailed,
        ),
        result matches Ok(wallet) ==> {
            &&& wallet@.version == 1
            &&& wallet@.nonce == base64_encoding(nonce_bytes@)
            &&& wallet@.ciphertext == base64_encoding(
                chacha20poly1305_seal(key@, nonce_bytes@, plaintext@),
            )
            &&& chacha20poly1305_seal(key@, nonce_bytes@, plaintext@).len() == plaintext@.len() + 16
            &&& base64_decoding(wallet@.ciphertext) == Some(
                chacha20poly1305_seal(key@, nonce_bytes@, plaintext@),
            )
            &&& has_usable_nonce(wallet@)
            &&& wallet_decryption(wallet@, key@) == Ok::<Seq<u8>, WalletEncryptionError>(plaintext@)
        },
{
    let key_bytes = key.expose_key_bytes_for_encryption_only();
    let ciphertext = match chacha20poly1305_encrypt(key_bytes, nonce_bytes.as_slice(), plaintext) {
        Ok(c) => c,
        Err(_) => {
            return Err(WalletEncryptionError::EncryptionFailed);
        },
    };
    let nonce_text = base64_encode(nonce_bytes.as_slice());
    let ciphertext_text = base64_encode(ciphertext.as_slice());
    proof {
        lemma_base64_decoding_of_encoding(nonce_bytes@);
        lemma_base64_decoding_of_encoding(ciphertext@);
    }
    Ok(SerializableEncryptedWallet::new(1, nonce_text, ciphertext_text))
}

/// Decrypts a stored wallet. The nonce must not decode to anything but 12
/// bytes when the ciphertext decodes too (see `try_decrypt_wallet_data`).
pub fn decrypt_wallet_data(encrypted: &SerializableEncryptedWallet, key: &EncryptionKey) -> (result:
    Result<Vec<u8>, WalletEncryptionError>)
    requires
        has_usable_nonce(encrypted@),
    ensures
        match result {
            Ok(plaintext) => wallet_decryption(encrypted@, key@) == Ok::<
                Seq<u8>,
                WalletEncryptionError,
            >(plaintext@),
            Err(e) => wallet_decryption(encrypted@, key@) == Err::<Seq<u8>, _>(e),
        },
{
    let nonce_bytes = match base64_decode(encrypted.nonce()) {
        Some(bytes) => bytes,
        None => {
            return Err(WalletEncryptionError::DecryptionFailed);
        },
    };
    let ciphertext = match base64_decode(encrypted.ciphertext()) {
        Some(bytes) => bytes,
        None => {
            return Err(WalletEncryptionError::DecryptionFailed);
        },
    };
    let key_bytes = key.expose_key_bytes_for_encryption_only();
    match chacha20poly1305_decrypt(key_bytes, nonce_bytes.as_slice(), ciphertext.as_slice()) {
        Ok(plaintext) => Ok(plaintext),
        Err(_) => Err(WalletEncryptionError::DecryptionFailed),
    }
}

/// Decrypts a stored wallet whatever it holds: `None` when its nonce decodes
/// to another length than 12 bytes while its ciphertext decodes too, and
/// otherwise what `decrypt_wallet_data` gives.
pub fn try_decrypt_wallet_data(encrypted: &SerializableEncryptedWallet, key: &EncryptionKey) -> (result:
    Option<Result<Vec<u8>, WalletEncryptionError>>)
    ensures
        result is None <==> !has_usable_nonce(encrypted@),
        result matches Some(outcome) ==> match outcome {
            Ok(plaintext) => wallet_decryption(encrypted@, key@) == Ok::<
                Seq<u8>,
                WalletEncryptionError,
            >(plaintext@),
            Err(e) => wallet_decryption(encrypted@, key@) == Err::<Seq<u8>, _>(e),
        },
{
    let usable = match (base64_decode(encrypted.nonce()), base64_decode(encrypted.ciphertext())) {
        (Some(nonce), Some(_)) => nonce.len() == 12,
        _ => true,
    };
    if usable {
        Some(decrypt_wallet_data(encrypted, key))
    } else {
        None
    }
}

} // verus!
