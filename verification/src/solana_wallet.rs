use vstd::prelude::*;

use ed25519_dalek::SigningKey;
use rand_core::{OsRng, RngCore};

use crate::address::Address;
use crate::base58::{base58_encode, base58_encoding, lemma_base58_of_32_bytes_is_solana_address};
use crate::chain_adapter::{is_base58_char, is_valid_solana_address};
use crate::secret::SecretBytes;
use crate::secure_random::SecureRandomError;
use crate::text::{contains_text, debug_quote};
use vstd::string::StringExecFns;

verus! {

/// The secret half of a Solana key pair.
#[derive(PartialEq, Eq)]
pub struct SolanaSecretKey {
    secret: SecretBytes,
}

impl View for SolanaSecretKey {
    type V = Seq<u8>;

    closed spec fn view(&self) -> Seq<u8> {
        self.secret@
    }
}

impl Clone for SolanaSecretKey {
    fn clone(&self) -> (copy: Self)
        ensures
            copy@ == self@,
    {
        SolanaSecretKey { secret: self.secret.clone() }
    }
}

impl SolanaSecretKey {
    pub fn new(secret: SecretBytes) -> (key: Self)
        ensures
            key@ == secret@,
    {
        SolanaSecretKey { secret }
    }

    pub fn len(&self) -> (len: usize)
        ensures
            len == self@.len(),
    {
        self.secret.len()
    }

    pub fn as_bytes(&self) -> (bytes: &[u8])
        ensures
            bytes@ == self@,
    {
        self.secret.as_bytes()
    }

    /// The key's bytes, for handing to the signer.
    pub fn expose_secret_bytes_for_signing_only(&self) -> (bytes: &[u8])
        ensures
            bytes@ == self@,
    {
        self.secret.as_bytes()
    }

    pub fn debug_string(&self) -> (text: String)
        ensures
            text@ == "SolanaSecretKey(<redacted>)"@,
    {
        String::from_str("SolanaSecretKey(<redacted>)")
    }
}

/// The public address of a Solana account.
#[derive(Debug, PartialEq, Eq)]
pub struct SolanaPublicAddress {
    address: Address,
}

impl View for SolanaPublicAddress {
    type V = Seq<char>;

    closed spec fn view(&self) -> Seq<char> {
        self.address@
    }
}

impl Clone for SolanaPublicAddress {
    fn clone(&self) -> (copy: Self)
        ensures
            copy@ == self@,
    {
        SolanaPublicAddress { address: self.address.clone() }
    }
}

impl SolanaPublicAddress {
    pub fn new(address: Address) -> (public_address: Self)
        ensures
            public_address@ == address@,
    {
        SolanaPublicAddress { address }
    }

    pub fn as_str(&self) -> (text: &str)
        ensures
            text@ == self@,
    {
        self.address.as_str()
    }
}

/// A freshly generated key pair: its public address and its secret key.
#[derive(PartialEq, Eq)]
pub struct GeneratedSolanaWallet {
    public_address: SolanaPublicAddress,
    secret_key: SolanaSecretKey,
}

/// What a wallet holds: its public address and its secret key bytes.
pub struct WalletKeys {
    pub address: Seq<char>,
    pub secret: Seq<u8>,
}

impl View for GeneratedSolanaWallet {
    type V = WalletKeys;

    closed spec fn view(&self) -> WalletKeys {
        WalletKeys { address: self.public_address@, secret: self.secret_key@ }
    }
}

impl Clone for GeneratedSolanaWallet {
    fn clone(&self) -> (copy: Self)
        ensures
            copy@ == self@,
    {
        proof {
            use_type_invariant(self);
        }
        GeneratedSolanaWallet {
            public_address: self.public_address.clone(),
            secret_key: self.secret_key.clone(),
        }
    }
}

impl GeneratedSolanaWallet {
    /// A wallet's secret key is 32 bytes and its address is the Base58 text of
    /// the key's 32-byte public key.
    #[verifier::type_invariant]
    closed spec fn keys_match(self) -> bool {
        &&& self.secret_key@.len() == 32
        &&& ed25519_public_key(self.secret_key@).len() == 32
        &&& self.public_address@ == base58_encoding(ed25519_public_key(self.secret_key@))
    }

    /// The public address: the Base58 text of the public key, which is always a
    /// well-formed Solana address.
    pub fn public_address(&self) -> (address: &SolanaPublicAddress)
        ensures
            address@ == self@.address,
            address@ == base58_encoding(ed25519_public_key(self@.secret)),
            is_valid_solana_address(address@),
    {
        proof {
            use_type_invariant(self);
            lemma_base58_of_32_bytes_is_solana_address(ed25519_public_key(self@.secret));
        }
        &self.public_address
    }

    /// The secret key; always 32 bytes.
    pub fn secret_key(&self) -> (key: &SolanaSecretKey)
        ensures
            key@ == self@.secret,
            key@.len() == 32,
    {
        proof {
            use_type_invariant(self);
        }
        &self.secret_key
    }

    /// The debug form shows the public address and hides the secret key.
    pub fn debug_string(&self) -> (text: String)
        ensures
            text@ == generated_wallet_debug_text(self@.address),
    {
        proof {
            use_type_invariant(self);
            lemma_base58_of_32_bytes_is_solana_address(ed25519_public_key(self@.secret));
        }
        let prefix = "GeneratedSolanaWallet { public_address: SolanaPublicAddress { address: Address(";
        let suffix = ") }, secret_key: \"<redacted>\" }";
        let mut text = String::from_str(prefix);
        let quoted = debug_quote(self.public_address.as_str());
        text.append(quoted.as_str());
        text.append(suffix);
        proof {
            reveal_strlit("GeneratedSolanaWallet { public_address: SolanaPublicAddress { address: Address(");
            reveal_strlit(") }, secret_key: \"<redacted>\" }");
            reveal_strlit("GeneratedSolanaWallet { public_address: SolanaPublicAddress { address: Address(\"");
            reveal_strlit("\") }, secret_key: \"<redacted>\" }");
            assert(text@ =~= generated_wallet_debug_text(self@.address));
        }
        text
    }
}

/// The debug form of a wallet with the given address: the address in quotes,
/// and `<redacted>` in place of the secret key.
pub open spec fn generated_wallet_debug_text(address: Seq<char>) -> Seq<char> {
    "GeneratedSolanaWallet { public_address: SolanaPublicAddress { address: Address(\""@ + address
        + "\") }, secret_key: \"<redacted>\" }"@
}

/// A wallet's debug form names the wallet and its public address and shows
/// `<redacted>` for the secret key: the secret key's own debug form,
/// `secret_key: SolanaSecretKey`, never occurs in it.
pub proof fn lemma_generated_wallet_debug_text_redacts_secret(address: Seq<char>)
    requires
        is_valid_solana_address(address),
    ensures
        contains_text(generated_wallet_debug_text(address), "GeneratedSolanaWallet"@),
        contains_text(generated_wallet_debug_text(address), "public_address"@),
        contains_text(generated_wallet_debug_text(address), "<redacted>"@),
        !contains_text(generated_wallet_debug_text(address), "secret_key: SolanaSecretKey"@),
{
    let prefix = "GeneratedSolanaWallet { public_address: SolanaPublicAddress { address: Address(\""@;
    let suffix = "\") }, secret_key: \"<redacted>\" }"@;
    let needle = "secret_key: SolanaSecretKey"@;
    let text = generated_wallet_debug_text(address);
    reveal_strlit("GeneratedSolanaWallet { public_address: SolanaPublicAddress { address: Address(\"");
    reveal_strlit("\") }, secret_key: \"<redacted>\" }");
    reveal_strlit("secret_key: SolanaSecretKey");
    reveal_strlit("GeneratedSolanaWallet");
    reveal_strlit("public_address");
    reveal_strlit("<redacted>");
    let a = address.len() as int;
    assert(prefix.len() == 80);
    assert(suffix.len() == 32);
    assert(text.len() == 112 + a);
    let name = "GeneratedSolanaWallet"@;
    let field = "public_address"@;
    assert(text.subrange(0, 0 + name.len() as int) =~= name);
    assert(text.subrange(24, 24 + field.len() as int) =~= field);
    let hidden = "<redacted>"@;
    assert(text.subrange(99 + a, 99 + a + hidden.len() as int) =~= hidden);
    assert forall|j: int| 0 <= j < 80 && #[trigger] prefix[j] == ':' implies j == 38 || j == 69 by {}
    assert forall|k: int| 0 <= k < 32 && #[trigger] suffix[k] == ':' implies k == 16 by {}
    assert forall|p: int|
        0 <= p && p + needle.len() <= text.len() implies #[trigger] text.subrange(
            p,
            p + needle.len(),
        ) != needle by {
        if text.subrange(p, p + 27) == needle {
            let window = text.subrange(p, p + 27);
            assert(window[10] == ':' && window[0] == 's' && window[12] == 'S');
            assert(text[p + 10] == ':' && text[p] == 's' && text[p + 12] == 'S');
            let j = p + 10;
            if j < 80 {
                assert(prefix[j] == ':');
            } else if j < 80 + a {
                assert(is_base58_char(address[j - 80]));
            } else {
                assert(suffix[j - 80 - a] == ':');
            }
        }
    }
}

/// The Ed25519 public key (RFC 8032) that belongs to a 32-byte secret key.
pub uninterp spec fn ed25519_public_key(secret: Seq<u8>) -> Seq<u8>;

/// `SigningKey::from_bytes(secret).verifying_key().to_bytes()`: the public key
/// of the secret key, which depends on the secret key alone.
#[verifier::external_body]
fn ed25519_public_key_bytes(secret: &[u8; 32]) -> (public: [u8; 32])
    ensures
        public@ == ed25519_public_key(secret@),
{
    SigningKey::from_bytes(secret).verifying_key().to_bytes()
}

/// `OsRng.try_fill_bytes(&mut secret)` on 32 bytes: the operating system's
/// random number generator, as `SigningKey::generate` draws a secret key from
/// it. `None` when the system's source fails. Nothing is stated of the bytes.
#[verifier::external_body]
fn random_secret_key_bytes() -> (secret: Option<[u8; 32]>) {
    let mut secret = [0u8; 32];
    match OsRng.try_fill_bytes(&mut secret) {
        Ok(()) => Some(secret),
        Err(_) => None,
    }
}

/// The wallet of a given secret key: its address is the Base58 text of the
/// key's Ed25519 public key, which is always a well-formed Solana address.
pub fn wallet_from_secret_key(secret: [u8; 32]) -> (wallet: GeneratedSolanaWallet)
    ensures
        wallet@.secret == secret@,
        wallet@.address == base58_encoding(ed25519_public_key(secret@)),
        is_valid_solana_address(wallet@.address),
{
    let public_key = ed25519_public_key_bytes(&secret);
    let public_address = base58_encode(public_key.as_slice());
    proof {
        lemma_base58_of_32_bytes_is_solana_address(public_key@);
    }
    let secret_key = vstd::slice::slice_to_vec(secret.as_slice());
    GeneratedSolanaWallet {
        public_address: SolanaPublicAddress::new(Address::new(public_address)),
        secret_key: SolanaSecretKey::new(SecretBytes::new(secret_key)),
    }
}

/// A new wallet from a fresh random secret key. When the operating system's
/// random source fails, there is no wallet. Whatever key comes out of it, it
/// has 32 bytes and the wallet's address is the one `wallet_from_secret_key`
/// gives for it.
pub fn generate_solana_wallet() -> (result: Result<GeneratedSolanaWallet, SecureRandomError>)
    ensures
        match result {
            Ok(wallet) => {
                &&& wallet@.secret.len() == 32
                &&& wallet@.address == base58_encoding(ed25519_public_key(wallet@.secret))
                &&& is_valid_solana_address(wallet@.address)
            },
            Err(e) => e == SecureRandomError::RandomGenerationFailed,
        },
{
    match random_secret_key_bytes() {
        Some(secret) => Ok(wallet_from_secret_key(secret)),
        None => Err(SecureRandomError::RandomGenerationFailed),
    }
}

} // verus!
