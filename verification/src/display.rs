use vstd::prelude::*;
use vstd::string::{StrSliceExecFns, StringExecFns, StringSliceAdditionalSpecFns};
use vstd::utf8::{decode_utf8, encode_utf8, encode_utf8_decode_utf8, is_char_boundary};

use crate::text::{is_whitespace, is_whitespace_char};

verus! {

broadcast use {vstd::string::group_string_axioms, vstd::slice::group_slice_axioms};

/// How many whitespace characters `text` starts with.
pub open spec fn leading_whitespace_count(text: Seq<char>) -> nat
    decreases text.len(),
{
    if text.len() > 0 && is_whitespace_char(text[0]) {
        1 + leading_whitespace_count(text.drop_first())
    } else {
        0
    }
}

/// How many whitespace characters `text` ends with.
pub open spec fn trailing_whitespace_count(text: Seq<char>) -> nat
    decreases text.len(),
{
    if text.len() > 0 && is_whitespace_char(text.last()) {
        1 + trailing_whitespace_count(text.drop_last())
    } else {
        0
    }
}

/// `text` without its leading and trailing whitespace, as `str::trim` gives it.
pub open spec fn trimmed(text: Seq<char>) -> Seq<char> {
    let rest = text.subrange(leading_whitespace_count(text) as int, text.len() as int);
    rest.subrange(0, rest.len() - trailing_whitespace_count(rest))
}

pub open spec fn digit_char(d: nat) -> char {
    ('0' as nat + d) as char
}

/// The decimal digits of `n`, as `format!("{}", n)` writes them.
pub open spec fn decimal_text(n: nat) -> Seq<char>
    decreases n,
{
    if n < 10 {
        seq![digit_char(n)]
    } else {
        decimal_text(n / 10).push(digit_char(n % 10))
    }
}

proof fn lemma_leading_count_bound(text: Seq<char>)
    ensures
        leading_whitespace_count(text) <= text.len(),
    decreases text.len(),
{
    if text.len() > 0 && is_whitespace_char(text[0]) {
        lemma_leading_count_bound(text.drop_first());
    }
}

proof fn lemma_leading_whitespace(text: Seq<char>)
    ensures
        leading_whitespace_count(text) <= text.len(),
        forall|i: int|
            0 <= i < leading_whitespace_count(text) ==> is_whitespace_char(#[trigger] text[i]),
        leading_whitespace_count(text) < text.len() ==> !is_whitespace_char(
            text[leading_whitespace_count(text) as int],
        ),
    decreases text.len(),
{
    if text.len() > 0 && is_whitespace_char(text[0]) {
        let rest = text.drop_first();
        lemma_leading_whitespace(rest);
        assert forall|i: int| 0 <= i < leading_whitespace_count(text) implies is_whitespace_char(
            #[trigger] text[i],
        ) by {
            if i > 0 {
                assert(text[i] == rest[i - 1]);
            }
        }
        if leading_whitespace_count(text) < text.len() {
            assert(text[leading_whitespace_count(text) as int] == rest[leading_whitespace_count(
                rest,
            ) as int]);
        }
    }
}

proof fn lemma_trailing_whitespace(text: Seq<char>)
    ensures
        trailing_whitespace_count(text) <= text.len(),
        forall|i: int|
            text.len() - trailing_whitespace_count(text) <= i < text.len() ==> is_whitespace_char(
                #[trigger] text[i],
            ),
        trailing_whitespace_count(text) < text.len() ==> !is_whitespace_char(
            text[text.len() - trailing_whitespace_count(text) - 1],
        ),
    decreases text.len(),
{
    if text.len() > 0 && is_whitespace_char(text.last()) {
        let rest = text.drop_last();
        lemma_trailing_whitespace(rest);
        assert forall|i: int|
            text.len() - trailing_whitespace_count(text) <= i < text.len() implies is_whitespace_char(
            #[trigger] text[i],
        ) by {
            if i < text.len() - 1 {
                assert(text[i] == rest[i]);
            }
        }
        if trailing_whitespace_count(text) < text.len() {
            assert(text[text.len() - trailing_whitespace_count(text) - 1] == rest[rest.len()
                - trailing_whitespace_count(rest) - 1]);
        }
    }
}

/// Trimming removes whitespace from both ends and nothing else: the result is
/// a run of the text, everything before and after that run is whitespace, and
/// a non-empty result starts and ends with a character that is not.
pub proof fn lemma_trimmed_drops_only_surrounding_whitespace(text: Seq<char>)
    ensures
        exists|start: int, end: int|
            {
                &&& 0 <= start <= end <= text.len()
                &&& trimmed(text) == text.subrange(start, end)
                &&& forall|i: int| 0 <= i < start ==> is_whitespace_char(#[trigger] text[i])
                &&& forall|i: int| end <= i < text.len() ==> is_whitespace_char(#[trigger] text[i])
                &&& start < end ==> !is_whitespace_char(text[start]) && !is_whitespace_char(
                    text[end - 1],
                )
            },
{
    lemma_leading_whitespace(text);
    let start = leading_whitespace_count(text) as int;
    let rest = text.subrange(start, text.len() as int);
    lemma_trailing_whitespace(rest);
    let end = start + rest.len() - trailing_whitespace_count(rest);
    assert(trimmed(text) =~= text.subrange(start, end));
    assert forall|i: int| end <= i < text.len() implies is_whitespace_char(#[trigger] text[i]) by {
        assert(text[i] == rest[i - start]);
    }
    if start < end {
        assert(text[start] == rest[0]);
        assert(text[end - 1] == rest[rest.len() - trailing_whitespace_count(rest) - 1]);
    }
}

/// The number that decimal digits stand for.
pub open spec fn decimal_value(digits: Seq<char>) -> nat
    decreases digits.len(),
{
    if digits.len() == 0 {
        0
    } else {
        decimal_value(digits.drop_last()) * 10 + ((digits.last() as nat) - ('0' as nat)) as nat
    }
}

/// The decimal text of `n` is made of the digits `0` to `9`, has no leading
/// zero unless it is `0` itself, and stands for `n`.
pub proof fn lemma_decimal_text_stands_for_its_number(n: nat)
    ensures
        decimal_text(n).len() > 0,
        forall|i: int|
            0 <= i < decimal_text(n).len() ==> '0' <= #[trigger] decimal_text(n)[i] <= '9',
        decimal_text(n)[0] == '0' ==> n == 0,
        decimal_value(decimal_text(n)) == n,
    decreases n,
{
    assert(digit_char(n % 10) as nat == '0' as nat + n % 10);
    if n >= 10 {
        lemma_decimal_text_stands_for_its_number(n / 10);
        let head = decimal_text(n / 10);
        assert(decimal_text(n).drop_last() =~= head);
        assert(decimal_text(n)[0] == head[0]);
        assert(decimal_value(decimal_text(n)) == (n / 10) * 10 + n % 10);
        assert((n / 10) * 10 + n % 10 == n) by (nonlinear_arith);
    } else {
        assert(decimal_text(n).drop_last() =~= Seq::<char>::empty());
        assert(decimal_value(Seq::<char>::empty()) == 0);
        assert(decimal_value(decimal_text(n)) == n % 10);
    }
}

/// `text.trim()`.
pub fn trim(text: &str) -> (result: &str)
    ensures
        result@ == trimmed(text@),
{
    let n = text.unicode_len();
    let mut start: usize = 0;
    assert(text@.subrange(0, n as int) =~= text@);
    while start < n && is_whitespace(text.get_char(start))
        invariant
            start <= n,
            n == text@.len(),
            leading_whitespace_count(text@) == start + leading_whitespace_count(
                text@.subrange(start as int, n as int),
            ),
        decreases n - start,
    {
        let ghost rest = text@.subrange(start as int, n as int);
        assert(rest.drop_first() =~= text@.subrange(start + 1, n as int));
        start = start + 1;
    }
    let ghost rest = text@.subrange(start as int, n as int);
    assert(leading_whitespace_count(rest) == 0);
    let mut end: usize = n;
    assert(rest.subrange(0, rest.len() as int) =~= rest);
    while end > start && is_whitespace(text.get_char(end - 1))
        invariant
            start <= end <= n,
            n == text@.len(),
            rest == text@.subrange(start as int, n as int),
            trailing_whitespace_count(rest) == (n - end) + trailing_whitespace_count(
                rest.subrange(0, end - start),
            ),
        decreases end,
    {
        let ghost front = rest.subrange(0, end - start);
        assert(front.drop_last() =~= rest.subrange(0, end - 1 - start));
        assert(front.last() == text@[end - 1]);
        end = end - 1;
    }
    let ghost front = rest.subrange(0, end - start);
    if end > start {
        assert(front.last() == text@[end - 1]);
    }
    assert(trailing_whitespace_count(front) == 0);
    proof {
        lemma_leading_count_bound(text@);
    }
    assert(trimmed(text@) =~= text@.subrange(start as int, end as int));
    text.substring_char(start, end)
}

fn digit_text(d: usize) -> (text: &'static str)
    requires
        d < 10,
    ensures
        text@ == seq![digit_char(d as nat)],
{
    proof {
        reveal_strlit("0");
        reveal_strlit("1");
        reveal_strlit("2");
        reveal_strlit("3");
        reveal_strlit("4");
        reveal_strlit("5");
        reveal_strlit("6");
        reveal_strlit("7");
        reveal_strlit("8");
        reveal_strlit("9");
    }
    if d == 0 {
        "0"
    } else if d == 1 {
        "1"
    } else if d == 2 {
        "2"
    } else if d == 3 {
        "3"
    } else if d == 4 {
        "4"
    } else if d == 5 {
        "5"
    } else if d == 6 {
        "6"
    } else if d == 7 {
        "7"
    } else if d == 8 {
        "8"
    } else {
        "9"
    }
}

/// Appends the decimal digits of `n`.
fn append_decimal(out: &mut String, n: usize)
    ensures
        final(out)@ == old(out)@ + decimal_text(n as nat),
    decreases n,
{
    if n >= 10 {
        append_decimal(out, n / 10);
    }
    out.append(digit_text(n % 10));
    assert(final(out)@ =~= old(out)@ + decimal_text(n as nat));
}

/// The name a new wallet gets: the requested name without surrounding
/// whitespace, or `Wallet <n>` for the `n`-th wallet when that leaves nothing.
pub fn wallet_name_or_default(requested: &str, existing_count: usize) -> (name: String)
    requires
        existing_count < usize::MAX,
    ensures
        name@ == if trimmed(requested@).len() == 0 {
            "Wallet "@ + decimal_text((existing_count + 1) as nat)
        } else {
            trimmed(requested@)
        },
{
    let trimmed_name = trim(requested);
    if trimmed_name.unicode_len() == 0 {
        let mut name = String::from_str("Wallet ");
        append_decimal(&mut name, existing_count + 1);
        name
    } else {
        String::from_str(trimmed_name)
    }
}

/// The address as `abcd...wxyz` when it is longer than 12 bytes, cut at byte
/// 4 and at 4 bytes before the end, which must fall between characters.
pub fn shorten_address(address: &str) -> (short: String)
    requires
        encode_utf8(address@).len() > 12 ==> is_char_boundary(encode_utf8(address@), 4)
            && is_char_boundary(
            encode_utf8(address@),
            encode_utf8(address@).len() - 4,
        ),
    ensures
        ({
            let bytes = encode_utf8(address@);
            short@ == if bytes.len() <= 12 {
                address@
            } else {
                decode_utf8(bytes.subrange(0, 4)) + "..."@ + decode_utf8(
                    bytes.subrange(bytes.len() - 4, bytes.len() as int),
                )
            }
        }),
{
    assert(address.spec_bytes() == encode_utf8(address@));
    let len = address.as_bytes().len();
    if len <= 12 {
        String::from_str(address)
    } else {
        let (head, _) = address.split_at(4);
        let (_, tail) = address.split_at(len - 4);
        assert(head.spec_bytes() == encode_utf8(head@));
        assert(tail.spec_bytes() == encode_utf8(tail@));
        proof {
            encode_utf8_decode_utf8(head@);
            encode_utf8_decode_utf8(tail@);
            reveal_strlit("...");
        }
        let mut short = String::from_str(head);
        short.append("...");
        short.append(tail);
        short
    }
}

} // verus!
