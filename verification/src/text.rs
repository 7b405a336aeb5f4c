//! Text as bytes and as characters: decoding, trimming, slicing by byte
//! offsets, and decimal numerals.

use vstd::prelude::*;
use vstd::string::*;
use vstd::utf8::*;

verus! {

/// Whether `str::trim` counts `c` as whitespace, which it strips from both
/// ends of a text: the characters with the Unicode property White_Space.
pub uninterp spec fn white_space(c: char) -> bool;

/// How many characters at the front of `s` are whitespace.
pub open spec fn leading_space(s: Seq<char>) -> nat
    decreases s.len(),
{
    if s.len() > 0 && white_space(s.first()) {
        1 + leading_space(s.drop_first())
    } else {
        0
    }
}

/// How many characters at the back of `s` are whitespace.
pub open spec fn trailing_space(s: Seq<char>) -> nat
    decreases s.len(),
{
    if s.len() > 0 && white_space(s.last()) {
        1 + trailing_space(s.drop_last())
    } else {
        0
    }
}

/// `s` without the whitespace at its two ends.
pub open spec fn trimmed(s: Seq<char>) -> Seq<char> {
    if leading_space(s) == s.len() {
        Seq::empty()
    } else {
        s.subrange(leading_space(s) as int, s.len() - trailing_space(s))
    }
}

/// The part of `s` whose UTF-8 encoding lies between the byte offsets `from`
/// and `to` of the encoding of `s`.
pub open spec fn byte_slice(s: Seq<char>, from: int, to: int) -> Seq<char> {
    decode_utf8(encode_utf8(s).subrange(from, to))
}

/// Whether `from..to` is a range of byte offsets into the UTF-8 encoding of
/// `s` that cuts no character in two.
pub open spec fn slices_at(s: Seq<char>, from: int, to: int) -> bool {
    &&& 0 <= from <= to <= encode_utf8(s).len()
    &&& is_char_boundary(encode_utf8(s), from)
    &&& is_char_boundary(encode_utf8(s), to)
}

/// Whether `inner` is the part of `s` that starts at its character `a`, with
/// nothing but whitespace before it and after it.
pub open spec fn lies_at(s: Seq<char>, inner: Seq<char>, a: int) -> bool {
    &&& 0 <= a <= a + inner.len() <= s.len()
    &&& inner == s.subrange(a, a + inner.len())
    &&& forall|i: int| 0 <= i < a ==> white_space(#[trigger] s[i])
    &&& forall|i: int| a + inner.len() <= i < s.len() ==> white_space(#[trigger] s[i])
}

/// `core::str::from_utf8`, with its error dropped: the text that `bytes`
/// encode, which there is exactly when they are well-formed UTF-8, and whose
/// encoding is then `bytes` again.
#[verifier::external_body]
pub(crate) fn decode(bytes: &[u8]) -> (text: Option<&str>)
    ensures
        text is Some <==> valid_utf8(bytes@),
        text matches Some(s) ==> s.spec_bytes() == bytes@,
{
    core::str::from_utf8(bytes).ok()
}

/// `str::trim`: a part of `s` that neither starts nor ends with whitespace,
/// and outside of which `s` holds whitespace only.
#[verifier::external_body]
fn strip(s: &str) -> (inner: &str)
    ensures
        inner@.len() > 0 ==> !white_space(inner@.first()) && !white_space(inner@.last()),
        exists|a: int| lies_at(s@, inner@, a),
{
    s.trim()
}

/// A text whose first `a` characters are whitespace and whose next one, if
/// there is one, is not, has exactly `a` leading whitespace characters.
proof fn lemma_leading_space(s: Seq<char>, a: int)
    requires
        0 <= a <= s.len(),
        forall|i: int| 0 <= i < a ==> white_space(#[trigger] s[i]),
        a < s.len() ==> !white_space(s[a]),
    ensures
        leading_space(s) == a,
    decreases a,
{
    if a > 0 {
        let rest = s.drop_first();
        assert forall|i: int| 0 <= i < a - 1 implies white_space(#[trigger] rest[i]) by {
            assert(rest[i] == s[i + 1]);
        }
        lemma_leading_space(rest, a - 1);
    }
}

/// A text whose last `b` characters are whitespace and whose next one towards
/// the front, if there is one, is not, has exactly `b` trailing whitespace
/// characters.
proof fn lemma_trailing_space(s: Seq<char>, b: int)
    requires
        0 <= b <= s.len(),
        forall|i: int| s.len() - b <= i < s.len() ==> white_space(#[trigger] s[i]),
        b < s.len() ==> !white_space(s[s.len() - b - 1]),
    ensures
        trailing_space(s) == b,
    decreases b,
{
    if b > 0 {
        let rest = s.drop_last();
        assert forall|i: int| rest.len() - (b - 1) <= i < rest.len() implies white_space(
            #[trigger] rest[i],
        ) by {
            assert(rest[i] == s[i]);
        }
        lemma_trailing_space(rest, b - 1);
    }
}

/// The text without the whitespace at its two ends.
pub fn trim(s: &str) -> (inner: &str)
    ensures
        inner@ == trimmed(s@),
{
    let inner = strip(s);
    proof {
        let n = inner@.len() as int;
        let a = choose|a: int| lies_at(s@, inner@, a);
        if n == 0 {
            lemma_leading_space(s@, s@.len() as int);
            assert(inner@ =~= Seq::<char>::empty());
        } else {
            assert(inner@.first() == s@[a]);
            assert(inner@.last() == s@[a + n - 1]);
            lemma_leading_space(s@, a);
            lemma_trailing_space(s@, s@.len() - (a + n));
        }
    }
    inner
}

/// A character boundary of a text is one of each of its prefixes that end at
/// a character boundary and reach it.
proof fn lemma_boundary_in_prefix(bytes: Seq<u8>, from: int, to: int)
    requires
        valid_utf8(bytes),
        0 <= from <= to <= bytes.len(),
        is_char_boundary(bytes, from),
        is_char_boundary(bytes, to),
    ensures
        valid_utf8(bytes.subrange(0, to)),
        is_char_boundary(bytes.subrange(0, to), from),
{
    let front = bytes.subrange(0, to);
    valid_utf8_split(bytes, to);
    if from < to {
        is_char_boundary_iff_not_is_continuation_byte(bytes, from);
        is_char_boundary_iff_not_is_continuation_byte(front, from);
        assert(front[from] == bytes[from]);
    } else {
        is_char_boundary_start_end_of_seq(front);
    }
}

/// Cuts `s` at the byte offsets `from` and `to`: what comes before the range,
/// what lies in it, and what follows.
pub fn cut(s: &str, from: usize, to: usize) -> (parts: (&str, &str, &str))
    requires
        slices_at(s@, from as int, to as int),
    ensures
        parts.0@ == byte_slice(s@, 0, from as int),
        parts.1@ == byte_slice(s@, from as int, to as int),
        parts.2@ == byte_slice(s@, to as int, encode_utf8(s@).len() as int),
{
    broadcast use encode_utf8_valid_utf8, encode_utf8_decode_utf8;

    let (head, after) = s.split_at(to);
    proof {
        lemma_boundary_in_prefix(encode_utf8(s@), from as int, to as int);
    }
    let (before, inside) = head.split_at(from);
    proof {
        let bytes = encode_utf8(s@);
        let front = bytes.subrange(0, to as int);
        assert(front.subrange(0, from as int) =~= bytes.subrange(0, from as int));
        assert(front.subrange(from as int, front.len() as int) =~= bytes.subrange(
            from as int,
            to as int,
        ));
    }
    (before, inside, after)
}

/// The three parts that a range cuts a text into make up the text.
pub proof fn lemma_cut_joins(s: Seq<char>, from: int, to: int)
    requires
        slices_at(s, from, to),
    ensures
        byte_slice(s, 0, from) + byte_slice(s, from, to) + byte_slice(
            s,
            to,
            encode_utf8(s).len() as int,
        ) == s,
{
    broadcast use encode_utf8_valid_utf8, encode_utf8_decode_utf8;

    let bytes = encode_utf8(s);
    let front = bytes.subrange(0, to);
    decode_utf8_split(bytes, to);
    lemma_boundary_in_prefix(bytes, from, to);
    decode_utf8_split(front, from);
    assert(front.subrange(0, from) =~= bytes.subrange(0, from));
    assert(front.subrange(from, front.len() as int) =~= bytes.subrange(from, to));
}

/// Whether two texts are the same, character by character.
pub fn same_text(a: &str, b: &str) -> (same: bool)
    ensures
        same == (a@ == b@),
{
    broadcast use encode_utf8_decode_utf8;

    let x = a.as_bytes();
    let y = b.as_bytes();
    if x.len() != y.len() {
        return false;
    }
    let mut i: usize = 0;
    while i < x.len()
        invariant
            i <= x.len(),
            x.len() == y.len(),
            x@ == encode_utf8(a@),
            y@ == encode_utf8(b@),
            forall|j: int| 0 <= j < i ==> x@[j] == y@[j],
        decreases x.len() - i,
    {
        if x[i] != y[i] {
            return false;
        }
        i = i + 1;
    }
    assert(x@ =~= y@);
    assert(decode_utf8(encode_utf8(a@)) == decode_utf8(encode_utf8(b@)));
    true
}

/// The character that writes the digit `d`.
pub open spec fn digit(d: nat) -> char {
    if d == 0 {
        '0'
    } else if d == 1 {
        '1'
    } else if d == 2 {
        '2'
    } else if d == 3 {
        '3'
    } else if d == 4 {
        '4'
    } else if d == 5 {
        '5'
    } else if d == 6 {
        '6'
    } else if d == 7 {
        '7'
    } else if d == 8 {
        '8'
    } else {
        '9'
    }
}

/// The decimal numeral of `n`, without leading zeros.
pub open spec fn decimal(n: nat) -> Seq<char>
    decreases n,
{
    if n < 10 {
        seq![digit(n)]
    } else {
        decimal(n / 10).push(digit(n % 10))
    }
}

fn digit_text(d: u32) -> (s: &'static str)
    requires
        d < 10,
    ensures
        s@ == seq![digit(d as nat)],
{
    proof {
        reveal_strlit("0");
        reveal_strlit("1");
        reveal_strlit("2");
        reveal_strlit("3");
        reveal_strlit("4");
        reveal_strlit("5");
        reveal_strlit("6");
        reveal_strlit("7");
        reveal_strlit("8");
        reveal_strlit("9");
    }
    let s = if d == 0 {
        "0"
    } else if d == 1 {
        "1"
    } else if d == 2 {
        "2"
    } else if d == 3 {
        "3"
    } else if d == 4 {
        "4"
    } else if d == 5 {
        "5"
    } else if d == 6 {
        "6"
    } else if d == 7 {
        "7"
    } else if d == 8 {
        "8"
    } else {
        "9"
    };
    assert(s@ =~= seq![digit(d as nat)]);
    s
}

/// Writes `n` in decimal.
pub fn numeral(n: u32) -> (s: String)
    ensures
        s@ == decimal(n as nat),
    decreases n,
{
    if n < 10 {
        String::from_str(digit_text(n))
    } else {
        let s = numeral(n / 10).concat(digit_text(n % 10));
        assert(s@ =~= decimal(n as nat));
        s
    }
}

} // verus!
