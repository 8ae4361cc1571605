use vstd::prelude::*;

verus! {

#[derive(Debug, Clone, Copy, PartialEq, Eq, Structural)]
pub enum EncryptionKeyError {
    InvalidLength,
}

impl EncryptionKeyError {
    pub fn message(self) -> (message: &'static str)
        ensures
            message@ == "Encryption key must be exactly 32 bytes"@,
    {
        match self {
            EncryptionKeyError::InvalidLength => "Encryption key must be exactly 32 bytes",
        }
    }
}

/// A symmetric key for wallet encryption; always exactly 32 bytes.
#[derive(PartialEq, Eq)]
pub struct EncryptionKey {
    bytes: Vec<u8>,
}

impl View for EncryptionKey {
    type V = Seq<u8>;

    closed spec fn view(&self) -> Seq<u8> {
        self.bytes@
    }
}

impl Clone for EncryptionKey {
    fn clone(&self) -> (copy: Self)
        ensures
            copy@ == self@,
    {
        proof {
            use_type_invariant(self);
        }
        EncryptionKey { bytes: self.bytes.clone() }
    }
}

impl EncryptionKey {
    #[verifier::type_invariant]
    closed spec fn has_key_length(self) -> bool {
        self.bytes@.len() == 32
    }

    /// Accepts exactly 32 bytes.
    pub fn new(bytes: Vec<u8>) -> (key: Result<Self, EncryptionKeyError>)
        ensures
            key is Ok <==> bytes@.len() == 32,
            key matches Ok(k) ==> k@ == bytes@,
            key is Err ==> key == Err::<Self, _>(EncryptionKeyError::InvalidLength),
    {
        if bytes.len() == 32 {
            Ok(EncryptionKey { bytes })
        } else {
            Err(EncryptionKeyError::InvalidLength)
        }
    }

    /// Always 32.
    pub fn len(&self) -> (len: usize)
        ensures
            len == self@.len(),
            len == 32,
    {
        proof {
            use_type_invariant(self);
        }
        self.bytes.len()
    }

    pub fn expose_key_bytes_for_encryption_only(&self) -> (bytes: &[u8])
        ensures
            bytes@ == self@,
            bytes@.len() == 32,
    {
        proof {
            use_type_invariant(self);
        }
        self.bytes.as_slice()
    }

    /// The debug form of a key never shows its bytes.
    pub fn debug_string(&self) -> (text: String)
        ensures
            text@ == "EncryptionKey(<redacted>)"@,
    {
        String::from_str("EncryptionKey(<redacted>)")
    }
}

} // verus!
