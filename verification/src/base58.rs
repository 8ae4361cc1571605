use vstd::prelude::*;

use crate::chain_adapter::{is_base58_char, is_valid_solana_address};

verus! {

/// `base` raised to `exp`.
pub open spec fn pow(base: nat, exp: nat) -> nat
    decreases exp,
{
    if exp == 0 {
        1
    } else {
        base * pow(base, (exp - 1) as nat)
    }
}

/// The number that `bytes` spell out in big-endian order.
pub open spec fn big_endian_value(bytes: Seq<u8>) -> nat
    decreases bytes.len(),
{
    if bytes.len() == 0 {
        0
    } else {
        big_endian_value(bytes.drop_last()) * 256 + bytes.last() as nat
    }
}

/// How many zero bytes `bytes` starts with.
pub open spec fn leading_zero_count(bytes: Seq<u8>) -> nat
    decreases bytes.len(),
{
    if bytes.len() > 0 && bytes[0] == 0 {
        1 + leading_zero_count(bytes.drop_first())
    } else {
        0
    }
}

/// The digit `d` (0 to 57) of the Bitcoin Base58 alphabet
/// `123456789ABCDEFGHJKLMNPQRSTUVWXYZabcdefghijkmnopqrstuvwxyz`.
pub open spec fn base58_digit_char(d: nat) -> char {
    if d < 9 {
        ('1' as nat + d) as char
    } else if d < 17 {
        ('A' as nat + (d - 9)) as char
    } else if d < 22 {
        ('J' as nat + (d - 17)) as char
    } else if d < 33 {
        ('P' as nat + (d - 22)) as char
    } else if d < 44 {
        ('a' as nat + (d - 33)) as char
    } else {
        ('m' as nat + (d - 44)) as char
    }
}

/// The base-58 digits of `n`, most significant first; none for zero.
pub open spec fn base58_digits(n: nat) -> Seq<char>
    decreases n,
{
    if n == 0 {
        seq![]
    } else {
        base58_digits(n / 58) + seq![base58_digit_char(n % 58)]
    }
}

/// Base58 with the Bitcoin alphabet: one `1` for each leading zero byte, then
/// the digits of the big-endian value of the bytes.
pub open spec fn base58_encoding(bytes: Seq<u8>) -> Seq<char> {
    Seq::new(leading_zero_count(bytes), |i: int| '1') + base58_digits(big_endian_value(bytes))
}

/// `bs58::encode(bytes).into_string()`: the bytes in Base58 with the Bitcoin
/// alphabet (the crate's default), as `base58_encoding` states it.
#[verifier::external_body]
pub(crate) fn base58_encode(bytes: &[u8]) -> (text: String)
    ensures
        text@ == base58_encoding(bytes@),
{
    bs58::encode(bytes).into_string()
}

proof fn lemma_pow_positive(base: nat, exp: nat)
    requires
        base >= 1,
    ensures
        pow(base, exp) >= 1,
    decreases exp,
{
    if exp > 0 {
        lemma_pow_positive(base, (exp - 1) as nat);
        assert(base * pow(base, (exp - 1) as nat) >= 1) by (nonlinear_arith)
            requires
                base >= 1,
                pow(base, (exp - 1) as nat) >= 1,
        ;
    }
}

proof fn lemma_pow_add(base: nat, x: nat, y: nat)
    ensures
        pow(base, x + y) == pow(base, x) * pow(base, y),
    decreases x,
{
    if x > 0 {
        let x1 = (x - 1) as nat;
        lemma_pow_add(base, x1, y);
        let p = pow(base, x1);
        let q = pow(base, y);
        assert(pow(base, x1 + y) == p * q);
        assert(pow(base, x + y) == base * pow(base, x1 + y));
        assert(pow(base, x) == base * p);
        assert(base * (p * q) == (base * p) * q) by (nonlinear_arith);
    } else {
        assert(pow(base, x) == 1);
        assert(1 * pow(base, y) == pow(base, y));
    }
}

proof fn lemma_pow_monotone(base: nat, x: nat, y: nat)
    requires
        base >= 1,
        x <= y,
    ensures
        pow(base, x) <= pow(base, y),
    decreases y,
{
    if x < y {
        lemma_pow_monotone(base, x, (y - 1) as nat);
        lemma_pow_positive(base, (y - 1) as nat);
        assert(pow(base, (y - 1) as nat) <= base * pow(base, (y - 1) as nat)) by (nonlinear_arith)
            requires
                base >= 1,
        ;
    }
}

proof fn lemma_pow_base_monotone(a: nat, b: nat, exp: nat)
    requires
        a <= b,
    ensures
        pow(a, exp) <= pow(b, exp),
    decreases exp,
{
    if exp > 0 {
        lemma_pow_base_monotone(a, b, (exp - 1) as nat);
        let pa = pow(a, (exp - 1) as nat);
        let pb = pow(b, (exp - 1) as nat);
        assert(a * pa <= b * pb) by (nonlinear_arith)
            requires
                a <= b,
                pa <= pb,
        ;
    }
}

proof fn lemma_256_pow_32_below_58_pow_44()
    ensures
        pow(256, 32) <= pow(58, 44),
{
    reveal_with_fuel(pow, 45);
    assert(pow(256, 32)
        == 115792089237316195423570985008687907853269984665640564039457584007913129639936nat);
    assert(pow(58, 44)
        == 389790918707373377135528568990913592653094657612049369038476873218241589149696nat);
}

/// 256^m is at most 58^(m + 12) for m up to 32.
proof fn lemma_byte_powers_below_digit_powers(m: nat)
    requires
        m <= 32,
    ensures
        pow(256, m) <= pow(58, m + 12),
{
    let r = (32 - m) as nat;
    lemma_256_pow_32_below_58_pow_44();
    lemma_pow_add(256, m, r);
    lemma_pow_add(58, m + 12, r);
    lemma_pow_base_monotone(58, 256, r);
    lemma_pow_positive(256, r);
    let a = pow(256, m);
    let b = pow(58, m + 12);
    let p = pow(256, r);
    let q = pow(58, r);
    assert(a <= b) by (nonlinear_arith)
        requires
            a * p <= b * q,
            q <= p,
            p >= 1,
    ;
}

proof fn lemma_value_front(bytes: Seq<u8>)
    requires
        bytes.len() > 0,
    ensures
        big_endian_value(bytes) == bytes[0] as nat * pow(256, (bytes.len() - 1) as nat)
            + big_endian_value(bytes.drop_first()),
    decreases bytes.len(),
{
    let x = bytes[0] as nat;
    if bytes.len() > 1 {
        let front = bytes.drop_last();
        let rest = bytes.drop_first();
        lemma_value_front(front);
        assert(front.drop_first() =~= rest.drop_last());
        assert(front[0] == bytes[0]);
        assert(rest.last() == bytes.last());
        let p = pow(256, (bytes.len() - 2) as nat);
        let y = big_endian_value(front.drop_first());
        assert(big_endian_value(front) == x * p + y);
        assert(big_endian_value(rest) == y * 256 + (bytes.last() as nat));
        assert(big_endian_value(bytes) == big_endian_value(front) * 256 + (bytes.last() as nat));
        assert(pow(256, (bytes.len() - 1) as nat) == 256 * p);
        assert((x * p + y) * 256 == x * (256 * p) + y * 256) by (nonlinear_arith);
        assert(big_endian_value(bytes) == x * (256 * p) + big_endian_value(rest));
    } else {
        assert(bytes.drop_last().len() == 0);
        assert(bytes.drop_first().len() == 0);
        assert(bytes.last() == bytes[0]);
        assert(pow(256, 0) == 1);
        assert(x * 1 == x);
        assert(big_endian_value(bytes.drop_first()) == 0);
        assert(big_endian_value(bytes.drop_last()) == 0);
        assert(big_endian_value(bytes) == big_endian_value(bytes.drop_last()) * 256 + (
        bytes.last() as nat));
        assert(0nat * 256 == 0);
        assert(big_endian_value(bytes) == x);
    }
}

proof fn lemma_value_below_power(bytes: Seq<u8>)
    ensures
        big_endian_value(bytes) < pow(256, bytes.len()),
    decreases bytes.len(),
{
    if bytes.len() > 0 {
        lemma_value_below_power(bytes.drop_last());
        let v = big_endian_value(bytes.drop_last());
        let p = pow(256, (bytes.len() - 1) as nat);
        assert(v * 256 + (bytes.last() as nat) < 256 * p) by (nonlinear_arith)
            requires
                v < p,
                bytes.last() < 256,
        ;
    }
}

/// Leading zero bytes add nothing to the value, and the first non-zero byte
/// fixes the value's order of magnitude.
proof fn lemma_value_after_zeros(bytes: Seq<u8>)
    ensures
        leading_zero_count(bytes) <= bytes.len(),
        leading_zero_count(bytes) == bytes.len() ==> big_endian_value(bytes) == 0,
        leading_zero_count(bytes) < bytes.len() ==> pow(
            256,
            (bytes.len() - leading_zero_count(bytes) - 1) as nat,
        ) <= big_endian_value(bytes) < pow(256, (bytes.len() - leading_zero_count(bytes)) as nat),
    decreases bytes.len(),
{
    if bytes.len() > 0 {
        lemma_value_front(bytes);
        if bytes[0] == 0 {
            lemma_value_after_zeros(bytes.drop_first());
            assert(0 * pow(256, (bytes.len() - 1) as nat) == 0);
        } else {
            lemma_value_below_power(bytes);
            lemma_pow_positive(256, (bytes.len() - 1) as nat);
            let x = bytes[0] as nat;
            let p = pow(256, (bytes.len() - 1) as nat);
            assert(p <= x * p) by (nonlinear_arith)
                requires
                    x >= 1,
            ;
        }
    }
}

/// `n` has exactly as many base-58 digits as its order of magnitude says.
proof fn lemma_digit_count(n: nat)
    ensures
        n == 0 ==> base58_digits(n).len() == 0,
        n > 0 ==> base58_digits(n).len() >= 1 && pow(58, (base58_digits(n).len() - 1) as nat) <= n
            < pow(58, base58_digits(n).len()),
    decreases n,
{
    if n > 0 {
        let q = n / 58;
        lemma_digit_count(q);
        let k = base58_digits(q).len();
        if q > 0 {
            let lo = pow(58, (k - 1) as nat);
            let hi = pow(58, k);
            assert(hi == 58 * lo);
            assert(58 * lo <= n && n < 58 * hi) by (nonlinear_arith)
                requires
                    lo <= q,
                    q < hi,
                    q == n / 58,
            ;
        }
    }
}

proof fn lemma_digit_char_in_alphabet(d: nat)
    requires
        d < 58,
    ensures
        is_base58_char(base58_digit_char(d)),
{
}

proof fn lemma_digits_in_alphabet(n: nat)
    ensures
        forall|i: int|
            0 <= i < base58_digits(n).len() ==> is_base58_char(#[trigger] base58_digits(n)[i]),
    decreases n,
{
    if n > 0 {
        let front = base58_digits(n / 58);
        let last = base58_digit_char(n % 58);
        lemma_digits_in_alphabet(n / 58);
        lemma_digit_char_in_alphabet(n % 58);
        assert(base58_digits(n) == front + seq![last]);
        assert forall|i: int| 0 <= i < base58_digits(n).len() implies is_base58_char(
            #[trigger] base58_digits(n)[i],
        ) by {
            if i < front.len() {
                assert(base58_digits(n)[i] == front[i]);
            } else {
                assert(base58_digits(n)[i] == last);
            }
        }
    }
}

/// The Base58 text of any 32 bytes is 32 to 44 characters of the Base58
/// alphabet, which is what a Solana address looks like.
pub proof fn lemma_base58_of_32_bytes_is_solana_address(bytes: Seq<u8>)
    requires
        bytes.len() == 32,
    ensures
        is_valid_solana_address(base58_encoding(bytes)),
{
    let z = leading_zero_count(bytes);
    let v = big_endian_value(bytes);
    let digits = base58_digits(v);
    let text = base58_encoding(bytes);
    lemma_value_after_zeros(bytes);
    lemma_digit_count(v);
    lemma_digits_in_alphabet(v);
    assert(is_base58_char('1'));
    if z < 32 {
        let k = digits.len();
        let m = (32 - z) as nat;
        lemma_byte_powers_below_digit_powers(m);
        if k - 1 >= m + 12 {
            lemma_pow_monotone(58, m + 12, (k - 1) as nat);
        }
        lemma_pow_base_monotone(58, 256, (m - 1) as nat);
        if k <= m - 1 {
            lemma_pow_monotone(58, k, (m - 1) as nat);
        }
    }
    assert forall|i: int| 0 <= i < text.len() implies is_base58_char(#[trigger] text[i]) by {
        if i >= z {
            assert(text[i] == digits[i - z]);
        }
    }
}

} // verus!
