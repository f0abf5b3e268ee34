//! Helpers for text: comparison, decimal numerals and UTF-8 decoding.

use vstd::prelude::*;
use vstd::std_specs::iter::IteratorSpec;
use vstd::string::StrSliceExecFns;
use vstd::string::StringSliceAdditionalSpecFns;
use vstd::string::StringExecFns;
use vstd::utf8::*;

verus! {

/// Two encodings are equal exactly when the encoded texts are.
pub proof fn lemma_encode_utf8_injective(a: Seq<char>, b: Seq<char>)
    ensures
        (encode_utf8(a) == encode_utf8(b)) <==> (a == b),
{
    encode_utf8_decode_utf8(a);
    encode_utf8_decode_utf8(b);
}

/// Whether two string slices hold the same text.
pub fn same_text(a: &str, b: &str) -> (same: bool)
    ensures
        same == (a@ == b@),
{
    let x = a.as_bytes();
    let y = b.as_bytes();
    proof {
        lemma_encode_utf8_injective(a@, b@);
    }
    if x.len() != y.len() {
        return false;
    }
    let mut i: usize = 0;
    while i < x.len()
        invariant
            i <= x.len(),
            x.len() == y.len(),
            x@ == encode_utf8(a@),
            y@ == encode_utf8(b@),
            (encode_utf8(a@) == encode_utf8(b@)) <==> (a@ == b@),
            forall|k: int| 0 <= k < i ==> x@[k] == y@[k],
        decreases x.len() - i,
    {
        if x[i] != y[i] {
            return false;
        }
        i += 1;
    }
    assert(x@ =~= y@);
    true
}

/// The character of one decimal digit.
pub open spec fn digit(d: nat) -> char
    recommends
        d < 10,
{
    if d == 0 {
        '0'
    } else if d == 1 {
        '1'
    } else if d == 2 {
        '2'
    } else if d == 3 {
        '3'
    } else if d == 4 {
        '4'
    } else if d == 5 {
        '5'
    } else if d == 6 {
        '6'
    } else if d == 7 {
        '7'
    } else if d == 8 {
        '8'
    } else {
        '9'
    }
}

/// The decimal numeral of `n`: no sign, no leading zeros, `0` for zero.
pub open spec fn decimal(n: nat) -> Seq<char>
    decreases n,
{
    if n < 10 {
        seq![digit(n)]
    } else {
        decimal(n / 10).push(digit(n % 10))
    }
}

/// The one-character text of a decimal digit.
fn digit_text(d: u64) -> (text: &'static str)
    requires
        d < 10,
    ensures
        text@ == seq![digit(d as nat)],
{
    proof {
        reveal_strlit("0");
        reveal_strlit("1");
        reveal_strlit("2");
        reveal_strlit("3");
        reveal_strlit("4");
        reveal_strlit("5");
        reveal_strlit("6");
        reveal_strlit("7");
        reveal_strlit("8");
        reveal_strlit("9");
    }
    let text = if d == 0 {
        "0"
    } else if d == 1 {
        "1"
    } else if d == 2 {
        "2"
    } else if d == 3 {
        "3"
    } else if d == 4 {
        "4"
    } else if d == 5 {
        "5"
    } else if d == 6 {
        "6"
    } else if d == 7 {
        "7"
    } else if d == 8 {
        "8"
    } else {
        "9"
    };
    assert(text@ =~= seq![digit(d as nat)]);
    text
}

/// Appends the decimal numeral of `n` to `out`.
pub fn push_decimal(out: &mut String, n: u64)
    ensures
        final(out)@ == old(out)@ + decimal(n as nat),
    decreases n,
{
    if n >= 10 {
        push_decimal(out, n / 10);
    }
    out.append(digit_text(n % 10));
    assert(final(out)@ =~= old(out)@ + decimal(n as nat));
}

/// Where the field that starts at `from` ends: the position of the first
/// `sep` at or after `from`, or the length of `text` if there is none.
pub open spec fn field_end(text: Seq<char>, sep: char, from: int) -> int
    decreases text.len() - from,
{
    if from < 0 || from >= text.len() {
        text.len() as int
    } else if text[from] == sep {
        from
    } else {
        field_end(text, sep, from + 1)
    }
}

/// A position is the end of a field when no separator stands before it and
/// one stands at it, or the text ends there.
pub proof fn lemma_field_end(text: Seq<char>, sep: char, from: int, end: int)
    requires
        0 <= from <= end <= text.len(),
        forall|k: int| from <= k < end ==> text[k] != sep,
        end == text.len() || text[end] == sep,
    ensures
        field_end(text, sep, from) == end,
    decreases end - from,
{
    if from < end {
        lemma_field_end(text, sep, from + 1, end);
    }
}

/// Finds where the field that starts at character `from` ends.
pub fn find_field_end(text: &str, sep: char, from: usize) -> (end: usize)
    ensures
        end == field_end(text@, sep, from as int),
        end <= text@.len(),
        from <= text@.len() ==> from <= end,
{
    let total = text.unicode_len();
    if from >= total {
        return total;
    }
    let mut rest = text.chars();
    let mut at: usize = 0;
    loop
        invariant
            at <= total,
            total == text@.len(),
            from < total,
            rest.obeys_prophetic_iter_laws(),
            rest.remaining() == text@.skip(at as int),
            forall|k: int| from <= k < at ==> text@[k] != sep,
        decreases total - at,
    {
        match rest.next() {
            None => {
                proof {
                    lemma_field_end(text@, sep, from as int, at as int);
                }
                return at;
            },
            Some(c) => {
                assert(c == text@[at as int]);
                if at >= from && c == sep {
                    proof {
                        lemma_field_end(text@, sep, from as int, at as int);
                    }
                    return at;
                }
                assert(text@.skip(at as int).drop_first() =~= text@.skip(at as int + 1));
                at += 1;
            },
        }
    }
}

/// The bytes as text, if they are well-formed UTF-8.
///
/// Wraps `std::str::from_utf8`, which succeeds exactly on well-formed UTF-8
/// and then hands back the same bytes as a string slice.
#[verifier::external_body]
pub(crate) fn utf8_text<'a>(bytes: &'a [u8]) -> (text: Option<&'a str>)
    ensures
        text is Some <==> valid_utf8(bytes@),
        text matches Some(t) ==> t.spec_bytes() == bytes@,
{
    std::str::from_utf8(bytes).ok()
}

} // verus!
