use vstd::prelude::*;

verus! {

/// Secret bytes that are kept out of debug output.
#[derive(PartialEq, Eq)]
pub struct SecretBytes {
    bytes: Vec<u8>,
}

impl View for SecretBytes {
    type V = Seq<u8>;

    closed spec fn view(&self) -> Seq<u8> {
        self.bytes@
    }
}

impl Clone for SecretBytes {
    fn clone(&self) -> (copy: Self)
        ensures
            copy@ == self@,
    {
        SecretBytes { bytes: self.bytes.clone() }
    }
}

impl SecretBytes {
    pub fn new(bytes: Vec<u8>) -> (secret: Self)
        ensures
            secret@ == bytes@,
    {
        SecretBytes { bytes }
    }

    pub fn len(&self) -> (len: usize)
        ensures
            len == self@.len(),
    {
        self.bytes.len()
    }

    pub fn is_empty(&self) -> (empty: bool)
        ensures
            empty == (self@.len() == 0),
    {
        self.bytes.len() == 0
    }

    pub fn as_bytes(&self) -> (bytes: &[u8])
        ensures
            bytes@ == self@,
    {
        self.bytes.as_slice()
    }

    /// The debug form of a secret never shows its bytes.
    pub fn debug_string(&self) -> (text: String)
        ensures
            text@ == "SecretBytes(<redacted>)"@,
    {
        String::from_str("SecretBytes(<redacted>)")
    }
}

} // verus!
