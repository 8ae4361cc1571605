use vstd::prelude::*;
use vstd::string::{StrSliceExecFns, StringSliceAdditionalSpecFns};
use vstd::utf8::{encode_utf8, is_ascii_chars, is_ascii_chars_encode_utf8};

use crate::address::Address;
use crate::chain::{Chain, chain_default_network};
use crate::network::Network;
use crate::text::is_blank_text;

verus! {

broadcast use {vstd::string::group_string_axioms, vstd::slice::group_slice_axioms};

/// What the wallet needs to know about a chain: which chain it is, its
/// default network, and which addresses it accepts.
pub trait ChainAdapter {
    /// The chain this adapter serves.
    spec fn served_chain(&self) -> Chain;

    fn chain(&self) -> (chain: Chain)
        ensures
            chain == self.served_chain(),
    ;

    fn default_network(&self) -> (network: Network)
        ensures
            network == chain_default_network(self.served_chain()),
    ;

    /// No adapter accepts a blank address.
    fn is_valid_address(&self, address: &Address) -> (valid: bool)
        ensures
            valid ==> !is_blank_text(address@),
    ;
}

#[derive(Debug, Clone, Copy, PartialEq, Eq, Structural)]
pub struct EthereumAdapter;

#[derive(Debug, Clone, Copy, PartialEq, Eq, Structural)]
pub struct SolanaAdapter;

#[derive(Debug, Clone, Copy, PartialEq, Eq, Structural)]
pub struct BitcoinAdapter;

pub open spec fn is_ascii_hex_digit(c: char) -> bool {
    ||| '0' <= c <= '9'
    ||| 'a' <= c <= 'f'
    ||| 'A' <= c <= 'F'
}

pub open spec fn is_ascii_alphanumeric(c: char) -> bool {
    ||| '0' <= c <= '9'
    ||| 'a' <= c <= 'z'
    ||| 'A' <= c <= 'Z'
}

/// The characters of the Base58 (Bitcoin) alphabet: ASCII letters and digits
/// without `0`, `O`, `I` and `l`.
pub open spec fn is_base58_char(c: char) -> bool {
    is_ascii_alphanumeric(c) && c != '0' && c != 'O' && c != 'I' && c != 'l'
}

/// `0x` followed by exactly 40 hexadecimal digits.
pub open spec fn is_valid_ethereum_address(a: Seq<char>) -> bool {
    &&& a.len() == 42
    &&& a[0] == '0'
    &&& a[1] == 'x'
    &&& forall|i: int| 2 <= i < 42 ==> is_ascii_hex_digit(#[trigger] a[i])
}

/// 32 to 44 characters, all from the Base58 alphabet.
pub open spec fn is_valid_solana_address(a: Seq<char>) -> bool {
    &&& 32 <= a.len() <= 44
    &&& forall|i: int| 0 <= i < a.len() ==> is_base58_char(#[trigger] a[i])
}

/// A text is a valid Ethereum address exactly when it is 42 characters long,
/// starts with `0x`, and every other character is a digit or a letter from
/// `a` to `f` in either case, wherever it stands.
pub proof fn lemma_ethereum_address_is_0x_and_40_hex_digits(a: Seq<char>)
    ensures
        is_valid_ethereum_address(a) <==> {
            &&& a.len() == 42
            &&& a[0] == '0'
            &&& a[1] == 'x'
            &&& forall|i: int|
                2 <= i < 42 ==> {
                    let c = #[trigger] a[i];
                    ('0' <= c && c <= '9') || ('a' <= c && c <= 'f') || ('A' <= c && c <= 'F')
                }
        },
{
}

/// A text is a valid Solana address exactly when it has 32 to 44 characters,
/// each a digit from `1` to `9` or an ASCII letter other than `I`, `O` and `l`.
pub proof fn lemma_solana_address_is_32_to_44_base58_chars(a: Seq<char>)
    ensures
        is_valid_solana_address(a) <==> {
            &&& 32 <= a.len() <= 44
            &&& forall|i: int|
                0 <= i < a.len() ==> {
                    let c = #[trigger] a[i];
                    ||| ('1' <= c && c <= '9')
                    ||| ('A' <= c && c <= 'Z' && c != 'I' && c != 'O')
                    ||| ('a' <= c && c <= 'z' && c != 'l')
                }
        },
{
}

/// For an ASCII text, validity as a Bitcoin testnet address depends only on
/// its length, 26 to 90 characters, and its start: `m`, `n`, `2` or `tb1`.
pub proof fn lemma_ascii_bitcoin_testnet_address(a: Seq<char>)
    requires
        is_ascii_chars(a),
    ensures
        is_valid_bitcoin_testnet_address(a) <==> {
            &&& 26 <= a.len() <= 90
            &&& {
                ||| a[0] == 'm'
                ||| a[0] == 'n'
                ||| a[0] == '2'
                ||| (a[0] == 't' && a[1] == 'b' && a[2] == '1')
            }
        },
{
    is_ascii_chars_encode_utf8(a);
}

pub open spec fn starts_with_char(a: Seq<char>, c: char) -> bool {
    a.len() > 0 && a[0] == c
}

/// 26 to 90 bytes of UTF-8, starting with a testnet prefix: `m`, `n`, `2` or `tb1`.
pub open spec fn is_valid_bitcoin_testnet_address(a: Seq<char>) -> bool {
    &&& 26 <= encode_utf8(a).len() <= 90
    &&& {
        ||| starts_with_char(a, 'm')
        ||| starts_with_char(a, 'n')
        ||| starts_with_char(a, '2')
        ||| (a.len() >= 3 && a[0] == 't' && a[1] == 'b' && a[2] == '1')
    }
}

fn is_hex_digit(c: char) -> (result: bool)
    ensures
        result == is_ascii_hex_digit(c),
{
    ('0' <= c && c <= '9') || ('a' <= c && c <= 'f') || ('A' <= c && c <= 'F')
}

fn is_base58_digit(c: char) -> (result: bool)
    ensures
        result == is_base58_char(c),
{
    let alphanumeric = ('0' <= c && c <= '9') || ('a' <= c && c <= 'z') || ('A' <= c && c <= 'Z');
    alphanumeric && c != '0' && c != 'O' && c != 'I' && c != 'l'
}

impl ChainAdapter for EthereumAdapter {
    open spec fn served_chain(&self) -> Chain {
        Chain::Ethereum
    }

    fn chain(&self) -> (chain: Chain) {
        Chain::Ethereum
    }

    fn default_network(&self) -> (network: Network) {
        Chain::Ethereum.default_network()
    }

    fn is_valid_address(&self, address: &Address) -> (valid: bool)
        ensures
            valid == is_valid_ethereum_address(address@),
    {
        let value = address.as_str();
        if !value.is_ascii() {
            return false;
        }
        proof {
            is_ascii_chars_encode_utf8(value@);
            assert(value.spec_bytes() == encode_utf8(value@));
        }
        if value.as_bytes().len() != 42 {
            return false;
        }
        if value.get_char(0) != '0' || value.get_char(1) != 'x' {
            return false;
        }
        let mut i: usize = 2;
        while i < 42
            invariant
                2 <= i <= 42,
                value@ == address@,
                value@.len() == 42,
                forall|j: int| 2 <= j < i ==> is_ascii_hex_digit(#[trigger] value@[j]),
            decreases 42 - i,
        {
            if !is_hex_digit(value.get_char(i)) {
                return false;
            }
            i = i + 1;
        }
        true
    }
}

impl ChainAdapter for SolanaAdapter {
    open spec fn served_chain(&self) -> Chain {
        Chain::Solana
    }

    fn chain(&self) -> (chain: Chain) {
        Chain::Solana
    }

    fn default_network(&self) -> (network: Network) {
        Chain::Solana.default_network()
    }

    fn is_valid_address(&self, address: &Address) -> (valid: bool)
        ensures
            valid == is_valid_solana_address(address@),
    {
        let value = address.as_str();
        if !value.is_ascii() {
            return false;
        }
        proof {
            is_ascii_chars_encode_utf8(value@);
            assert(value.spec_bytes() == encode_utf8(value@));
        }
        let len = value.as_bytes().len();
        if len < 32 || len > 44 {
            return false;
        }
        let mut i: usize = 0;
        while i < len
            invariant
                i <= len,
                len == value@.len(),
                value@ == address@,
                forall|j: int| 0 <= j < i ==> is_base58_char(#[trigger] value@[j]),
            decreases len - i,
        {
            if !is_base58_digit(value.get_char(i)) {
                return false;
            }
            i = i + 1;
        }
        true
    }
}

impl ChainAdapter for BitcoinAdapter {
    open spec fn served_chain(&self) -> Chain {
        Chain::Bitcoin
    }

    fn chain(&self) -> (chain: Chain) {
        Chain::Bitcoin
    }

    fn default_network(&self) -> (network: Network) {
        Chain::Bitcoin.default_network()
    }

    fn is_valid_address(&self, address: &Address) -> (valid: bool)
        ensures
            valid == is_valid_bitcoin_testnet_address(address@),
    {
        let value = address.as_str();
        assert(value.spec_bytes() == encode_utf8(value@));
        let byte_len = value.as_bytes().len();
        if byte_len < 26 || byte_len > 90 {
            return false;
        }
        let char_len = value.unicode_len();
        if char_len == 0 {
            return false;
        }
        let first = value.get_char(0);
        if first == 'm' || first == 'n' || first == '2' {
            return true;
        }
        char_len >= 3 && first == 't' && value.get_char(1) == 'b' && value.get_char(2) == '1'
    }
}

} // verus!
