use vstd::prelude::*;

use vstd::arithmetic::div_mod::lemma_div_denominator;
use vstd::arithmetic::power::{lemma_pow_positive, pow};

verus! {

#[derive(Debug, Clone, Copy, PartialEq, Eq, Structural)]
pub enum SecureRandomError {
    BrowserWindowUnavailable,
    CryptoUnavailable,
    RandomGenerationFailed,
    InvalidNonceLength,
}

impl SecureRandomError {
    pub fn message(self) -> (message: &'static str)
        ensures
            message@ == match self {
                SecureRandomError::BrowserWindowUnavailable => "Browser window is unavailable"@,
                SecureRandomError::CryptoUnavailable => "Browser crypto API is unavailable"@,
                SecureRandomError::RandomGenerationFailed => "Could not generate secure random bytes"@,
                SecureRandomError::InvalidNonceLength => "Nonce must be exactly 12 bytes"@,
            },
    {
        match self {
            SecureRandomError::BrowserWindowUnavailable => "Browser window is unavailable",
            SecureRandomError::CryptoUnavailable => "Browser crypto API is unavailable",
            SecureRandomError::RandomGenerationFailed => "Could not generate secure random bytes",
            SecureRandomError::InvalidNonceLength => "Nonce must be exactly 12 bytes",
        }
    }
}

/// Byte `k` of the little-endian representation of `value`.
pub open spec fn little_endian_byte(value: nat, k: nat) -> nat
    decreases k,
{
    if k == 0 {
        value % 256
    } else {
        little_endian_byte(value / 256, (k - 1) as nat)
    }
}

/// The bytes that a clock reading of `nanos` nanoseconds gives: byte `i` is
/// byte `i % 16` of the 128-bit little-endian form of `nanos + i`, wrapping.
pub open spec fn clock_bytes(nanos: u128, length: nat) -> Seq<u8> {
    Seq::new(
        length,
        |i: int|
            little_endian_byte(
                ((nanos + i) % (u128::MAX as int + 1)) as nat,
                (i % 16) as nat,
            ) as u8,
    )
}

fn little_endian_byte_of(value: u128, k: usize) -> (byte: u8)
    requires
        k < 16,
    ensures
        byte == little_endian_byte(value as nat, k as nat),
{
    let mut rest = value;
    let mut i: usize = 0;
    while i < k
        invariant
            i <= k,
            little_endian_byte(rest as nat, (k - i) as nat) == little_endian_byte(
                value as nat,
                k as nat,
            ),
        decreases k - i,
    {
        rest = rest / 256;
        i = i + 1;
    }
    (rest % 256) as u8
}

/// Byte `k` of the little-endian form of a number is its base-256 digit of
/// weight `256^k`.
pub proof fn lemma_little_endian_byte_is_digit(value: nat, k: nat)
    ensures
        little_endian_byte(value, k) == (value as int / pow(256, k)) % 256,
    decreases k,
{
    reveal(pow);
    if k > 0 {
        lemma_little_endian_byte_is_digit(value / 256, (k - 1) as nat);
        lemma_pow_positive(256, (k - 1) as nat);
        lemma_div_denominator(value as int, 256, pow(256, (k - 1) as nat));
    }
}

/// A clock reading spread over `length` bytes gives exactly `length` bytes;
/// byte `i` is the base-256 digit of weight `256^(i % 16)` of the reading plus
/// `i`, taken modulo `2^128`.
pub proof fn lemma_clock_bytes_are_digits(nanos: u128, length: nat)
    ensures
        clock_bytes(nanos, length).len() == length,
        forall|i: int|
            0 <= i < length ==> #[trigger] clock_bytes(nanos, length)[i] as int == ((nanos + i)
                % (u128::MAX as int + 1) / pow(256, (i % 16) as nat)) % 256,
{
    assert forall|i: int| 0 <= i < length implies #[trigger] clock_bytes(nanos, length)[i] as int
        == ((nanos + i) % (u128::MAX as int + 1) / pow(
        256,
        (i % 16) as nat,
    )) % 256 by {
        let v = ((nanos + i) % (u128::MAX as int + 1)) as nat;
        lemma_little_endian_byte_is_digit(v, (i % 16) as nat);
    }
}

/// The bytes for a clock reading of `nanos`, as `clock_bytes` states them:
/// exactly `length` of them.
pub fn bytes_from_clock(nanos: u128, length: usize) -> (bytes: Vec<u8>)
    ensures
        bytes@ == clock_bytes(nanos, length as nat),
        bytes@.len() == length,
{
    let mut bytes: Vec<u8> = Vec::with_capacity(length);
    let mut index: usize = 0;
    while index < length
        invariant
            index <= length,
            bytes@ == clock_bytes(nanos, length as nat).subrange(0, index as int),
        decreases length - index,
    {
        let value = nanos.wrapping_add(index as u128);
        bytes.push(little_endian_byte_of(value, index % 16));
        index = index + 1;
    }
    bytes
}

/// A nonce from drawn random bytes: exactly 12 bytes are needed.
pub fn nonce_from_bytes(bytes: Vec<u8>) -> (result: Result<[u8; 12], SecureRandomError>)
    ensures
        result is Ok <==> bytes@.len() == 12,
        match result {
            Ok(nonce) => nonce@ == bytes@,
            Err(e) => e == SecureRandomError::InvalidNonceLength,
        },
{
    if bytes.len() != 12 {
        return Err(SecureRandomError::InvalidNonceLength);
    }
    let mut nonce = [0u8; 12];
    let mut i: usize = 0;
    while i < 12
        invariant
            i <= 12,
            bytes@.len() == 12,
            nonce@.len() == 12,
            forall|j: int| 0 <= j < i ==> nonce@[j] == bytes@[j],
        decreases 12 - i,
    {
        nonce[i] = bytes[i];
        i = i + 1;
    }
    assert(nonce@ == bytes@);
    Ok(nonce)
}

} // verus!
