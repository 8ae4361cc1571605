use vstd::prelude::*;

use base64::{engine::general_purpose, Engine};

verus! {

/// The character for the 6-bit value `v` in the standard alphabet of RFC 4648.
pub open spec fn base64_char(v: nat) -> char {
    if v < 26 {
        ('A' as nat + v) as char
    } else if v < 52 {
        ('a' as nat + (v - 26)) as char
    } else if v < 62 {
        ('0' as nat + (v - 52)) as char
    } else if v == 62 {
        '+'
    } else {
        '/'
    }
}

/// Standard Base64 (RFC 4648, section 4) with `=` padding: each group of three
/// bytes becomes four characters, and a final group of one or two bytes is
/// padded to four characters.
pub open spec fn base64_encoding(bytes: Seq<u8>) -> Seq<char>
    decreases bytes.len(),
{
    if bytes.len() == 0 {
        seq![]
    } else if bytes.len() == 1 {
        let b0 = bytes[0] as nat;
        seq![base64_char(b0 / 4), base64_char((b0 % 4) * 16), '=', '=']
    } else if bytes.len() == 2 {
        let b0 = bytes[0] as nat;
        let b1 = bytes[1] as nat;
        seq![
            base64_char(b0 / 4),
            base64_char((b0 % 4) * 16 + b1 / 16),
            base64_char((b1 % 16) * 4),
            '=',
        ]
    } else {
        let b0 = bytes[0] as nat;
        let b1 = bytes[1] as nat;
        let b2 = bytes[2] as nat;
        seq![
            base64_char(b0 / 4),
            base64_char((b0 % 4) * 16 + b1 / 16),
            base64_char((b1 % 16) * 4 + b2 / 64),
            base64_char(b2 % 64),
        ] + base64_encoding(bytes.subrange(3, bytes.len() as int))
    }
}

/// What the strict standard Base64 decoder gives for a text: the bytes whose
/// encoding the text is, or nothing where the text is no such encoding (it
/// refuses non-canonical padding and trailing bits, so it accepts exactly the
/// texts that `base64_encoding` gives).
pub open spec fn base64_decoding(text: Seq<char>) -> Option<Seq<u8>> {
    if exists|bytes: Seq<u8>| #[trigger] base64_encoding(bytes) == text {
        Some(choose|bytes: Seq<u8>| #[trigger] base64_encoding(bytes) == text)
    } else {
        None
    }
}

proof fn lemma_base64_char_injective(v: nat, w: nat)
    requires
        v < 64,
        w < 64,
        base64_char(v) == base64_char(w),
    ensures
        v == w,
{
}

proof fn lemma_base64_char_is_not_padding(v: nat)
    requires
        v < 64,
    ensures
        base64_char(v) != '=',
{
}

/// Three bytes are fixed by the four 6-bit groups that encode them.
proof fn lemma_sextets_fix_bytes(b0: u8, b1: u8, b2: u8, c0: u8, c1: u8, c2: u8)
    by (bit_vector)
    requires
        b0 / 4 == c0 / 4,
        (b0 % 4) * 16 + b1 / 16 == (c0 % 4) * 16 + c1 / 16,
        (b1 % 16) * 4 + b2 / 64 == (c1 % 16) * 4 + c2 / 64,
        b2 % 64 == c2 % 64,
    ensures
        b0 == c0,
        b1 == c1,
        b2 == c2,
{
}

/// Two different byte strings never have the same Base64 encoding.
pub proof fn lemma_base64_encoding_injective(first: Seq<u8>, second: Seq<u8>)
    requires
        base64_encoding(first) == base64_encoding(second),
    ensures
        first == second,
    decreases first.len(),
{
    let text = base64_encoding(first);
    if first.len() >= 3 {
        lemma_base64_char_is_not_padding((first[1] as nat % 16) * 4 + first[2] as nat / 64);
        lemma_base64_char_is_not_padding(first[2] as nat % 64);
    }
    if second.len() >= 3 {
        lemma_base64_char_is_not_padding((second[1] as nat % 16) * 4 + second[2] as nat / 64);
        lemma_base64_char_is_not_padding(second[2] as nat % 64);
    }
    if first.len() == 2 {
        lemma_base64_char_is_not_padding((first[1] as nat % 16) * 4);
    }
    if second.len() == 2 {
        lemma_base64_char_is_not_padding((second[1] as nat % 16) * 4);
    }
    if first.len() > 0 {
        assert(base64_encoding(first).len() >= 4);
    }
    if second.len() > 0 {
        assert(base64_encoding(second).len() >= 4);
    }
    if first.len() == 0 || second.len() == 0 {
        assert(first.len() == 0 && second.len() == 0);
        assert(first =~= second);
    } else {
        assert(first.len() == second.len() || (first.len() >= 3 && second.len() >= 3));
        let (b0, c0) = (first[0], second[0]);
        assert(text[0] == base64_char(b0 as nat / 4) && text[0] == base64_char(c0 as nat / 4));
        lemma_base64_char_injective(b0 as nat / 4, c0 as nat / 4);
        if first.len() == 1 {
            assert(text[1] == base64_char((b0 as nat % 4) * 16));
            assert(text[1] == base64_char((c0 as nat % 4) * 16));
            lemma_base64_char_injective((b0 as nat % 4) * 16, (c0 as nat % 4) * 16);
            lemma_sextets_fix_bytes(b0, 0, 0, c0, 0, 0);
            assert(first =~= second);
        } else {
            let (b1, c1) = (first[1], second[1]);
            assert(text[1] == base64_char((b0 as nat % 4) * 16 + b1 as nat / 16));
            assert(text[1] == base64_char((c0 as nat % 4) * 16 + c1 as nat / 16));
            lemma_base64_char_injective(
                (b0 as nat % 4) * 16 + b1 as nat / 16,
                (c0 as nat % 4) * 16 + c1 as nat / 16,
            );
            if first.len() == 2 {
                assert(text[2] == base64_char((b1 as nat % 16) * 4));
                assert(text[2] == base64_char((c1 as nat % 16) * 4));
                lemma_base64_char_injective((b1 as nat % 16) * 4, (c1 as nat % 16) * 4);
                lemma_sextets_fix_bytes(b0, b1, 0, c0, c1, 0);
                assert(first =~= second);
            } else {
                let (b2, c2) = (first[2], second[2]);
                assert(text[2] == base64_char((b1 as nat % 16) * 4 + b2 as nat / 64));
                assert(text[2] == base64_char((c1 as nat % 16) * 4 + c2 as nat / 64));
                assert(text[3] == base64_char(b2 as nat % 64));
                assert(text[3] == base64_char(c2 as nat % 64));
                lemma_base64_char_injective(
                    (b1 as nat % 16) * 4 + b2 as nat / 64,
                    (c1 as nat % 16) * 4 + c2 as nat / 64,
                );
                lemma_base64_char_injective(b2 as nat % 64, c2 as nat % 64);
                lemma_sextets_fix_bytes(b0, b1, b2, c0, c1, c2);
                let rest1 = first.subrange(3, first.len() as int);
                let rest2 = second.subrange(3, second.len() as int);
                assert(base64_encoding(rest1) =~= text.subrange(4, text.len() as int));
                assert(base64_encoding(rest2) =~= text.subrange(4, text.len() as int));
                lemma_base64_encoding_injective(rest1, rest2);
                assert(first =~= seq![b0, b1, b2] + rest1);
                assert(second =~= seq![c0, c1, c2] + rest2);
            }
        }
    }
}

/// Decoding the Base64 encoding of bytes gives the bytes back.
pub proof fn lemma_base64_decoding_of_encoding(bytes: Seq<u8>)
    ensures
        base64_decoding(base64_encoding(bytes)) == Some(bytes),
{
    let text = base64_encoding(bytes);
    assert(exists|b: Seq<u8>| #[trigger] base64_encoding(b) == text);
    let chosen = choose|b: Seq<u8>| #[trigger] base64_encoding(b) == text;
    lemma_base64_encoding_injective(chosen, bytes);
}

/// `general_purpose::STANDARD.encode(bytes)`: standard Base64 with padding,
/// as `base64_encoding` states it.
#[verifier::external_body]
pub(crate) fn base64_encode(bytes: &[u8]) -> (text: String)
    ensures
        text@ == base64_encoding(bytes@),
{
    general_purpose::STANDARD.encode(bytes)
}

/// `general_purpose::STANDARD.decode(text)`, with the crate's error turned
/// into `None`: it accepts exactly the texts that are the padded standard
/// encoding of some bytes, and gives those bytes back.
#[verifier::external_body]
pub(crate) fn base64_decode(text: &str) -> (bytes: Option<Vec<u8>>)
    ensures
        match bytes {
            Some(b) => base64_decoding(text@) == Some(b@),
            None => base64_decoding(text@) is None,
        },
{
    general_purpose::STANDARD.decode(text).ok()
}

} // verus!
