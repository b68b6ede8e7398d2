//! Helpers on text: whitespace and trimming, the part of a list before its
//! first separator, numbers in decimal and in hexadecimal, and comparison
//! without regard to ASCII case.

use vstd::prelude::*;
use vstd::string::*;

verus! {

/// Whether `c` is white space: the code points with the Unicode property
/// White_Space.
pub open spec fn is_whitespace(c: char) -> bool {
    let u = c as u32;
    (0x09 <= u <= 0x0D) || u == 0x20 || u == 0x85 || u == 0xA0 || u == 0x1680 || (0x2000 <= u
        <= 0x200A) || u == 0x2028 || u == 0x2029 || u == 0x202F || u == 0x205F || u == 0x3000
}

/// How many characters of white space `s` begins with.
pub open spec fn leading_whitespace(s: Seq<char>) -> nat
    decreases s.len(),
{
    if s.len() > 0 && is_whitespace(s[0]) {
        1 + leading_whitespace(s.drop_first())
    } else {
        0
    }
}

/// How many characters of white space `s` ends with.
pub open spec fn trailing_whitespace(s: Seq<char>) -> nat
    decreases s.len(),
{
    if s.len() > 0 && is_whitespace(s.last()) {
        1 + trailing_whitespace(s.drop_last())
    } else {
        0
    }
}

/// `s` without the white space at its two ends.
pub open spec fn trimmed(s: Seq<char>) -> Seq<char> {
    let rest = s.skip(leading_whitespace(s) as int);
    rest.take(rest.len() - trailing_whitespace(rest))
}

/// The part of `s` before the first `sep`, or all of `s` where it holds none.
pub open spec fn first_token(s: Seq<char>, sep: char) -> Seq<char> {
    match s.index_of_first(sep) {
        Some(i) => s.take(i),
        None => s,
    }
}

/// The lower-case form of an ASCII letter; any other character unchanged.
pub open spec fn ascii_lower_char(c: char) -> char {
    if 'A' <= c <= 'Z' {
        ((c as u8 + 32) as u8) as char
    } else {
        c
    }
}

/// `s` with its ASCII letters in lower case.
pub open spec fn ascii_lower(s: Seq<char>) -> Seq<char> {
    Seq::new(s.len(), |i: int| ascii_lower_char(s[i]))
}

/// The digit `d` (below sixteen) as a character, lower case for ten to
/// fifteen.
pub open spec fn digit_char(d: nat) -> char {
    seq!['0', '1', '2', '3', '4', '5', '6', '7', '8', '9', 'a', 'b', 'c', 'd', 'e', 'f'][d as int]
}

/// `n` in decimal, without leading zeros.
pub open spec fn decimal(n: nat) -> Seq<char>
    decreases n,
{
    if n < 10 {
        seq![digit_char(n)]
    } else {
        decimal(n / 10).push(digit_char(n % 10))
    }
}

/// The lowest `width` hexadecimal digits of `n`, in lower case, the highest
/// first.
pub open spec fn lower_hex(n: nat, width: nat) -> Seq<char>
    decreases width,
{
    if width == 0 {
        Seq::empty()
    } else {
        lower_hex(n / 16, (width - 1) as nat).push(digit_char(n % 16))
    }
}

/// `lower_hex` gives exactly `width` digits.
pub proof fn lemma_lower_hex_len(n: nat, width: nat)
    ensures
        lower_hex(n, width).len() == width,
    decreases width,
{
    if width > 0 {
        lemma_lower_hex_len(n / 16, (width - 1) as nat);
    }
}

/// How many numbers `width` hexadecimal digits can tell apart: sixteen to the
/// power `width`.
pub open spec fn hex_capacity(width: nat) -> nat
    decreases width,
{
    if width == 0 {
        1
    } else {
        16 * hex_capacity((width - 1) as nat)
    }
}

/// Two digits below sixteen that are written alike are the same digit.
pub proof fn lemma_digit_char_injective(d: nat, e: nat)
    requires
        d < 16,
        e < 16,
        digit_char(d) == digit_char(e),
    ensures
        d == e,
{
}

/// Two numbers that fit in `width` hexadecimal digits and are written alike
/// are the same number.
pub proof fn lemma_lower_hex_injective(a: nat, b: nat, width: nat)
    requires
        a < hex_capacity(width),
        b < hex_capacity(width),
        lower_hex(a, width) == lower_hex(b, width),
    ensures
        a == b,
    decreases width,
{
    if width > 0 {
        let rest = (width - 1) as nat;
        let head_a = lower_hex(a / 16, rest);
        let head_b = lower_hex(b / 16, rest);
        assert(head_a.push(digit_char(a % 16)).last() == head_b.push(digit_char(b % 16)).last());
        lemma_digit_char_injective(a % 16, b % 16);
        assert(head_a.push(digit_char(a % 16)).drop_last() =~= head_a);
        assert(head_b.push(digit_char(b % 16)).drop_last() =~= head_b);
        lemma_lower_hex_injective(a / 16, b / 16, rest);
    }
}

/// Thirty-two hexadecimal digits hold every number of 128 bits.
pub proof fn lemma_hex_capacity_of_u128()
    ensures
        hex_capacity(32) == 0x1_0000_0000_0000_0000_0000_0000_0000_0000,
{
    reveal_with_fuel(hex_capacity, 33);
}

/// The first entry of a list wins: where `first` holds no `sep`, it is the
/// first token of itself and of itself followed by `sep` and anything else.
pub proof fn lemma_first_token_of_list(first: Seq<char>, rest: Seq<char>, sep: char)
    requires
        !first.contains(sep),
    ensures
        first_token(first, sep) == first,
        first_token(first + seq![sep] + rest, sep) == first,
{
    let list = first + seq![sep] + rest;
    first.index_of_first_ensures(sep);
    list.index_of_first_ensures(sep);
    assert(list[first.len() as int] == sep);
    assert(list.contains(sep));
    let i = list.index_of_first(sep)->0;
    if i < first.len() {
        assert(first[i] == sep);
        assert(first.contains(sep));
    }
    assert(list.take(first.len() as int) =~= first);
}

proof fn lemma_leading_whitespace(s: Seq<char>, k: int)
    requires
        0 <= k <= s.len(),
        forall|i: int| 0 <= i < k ==> is_whitespace(s[i]),
        k == s.len() || !is_whitespace(s[k]),
    ensures
        leading_whitespace(s) == k,
    decreases k,
{
    if k > 0 {
        let t = s.drop_first();
        assert forall|i: int| 0 <= i < k - 1 implies is_whitespace(t[i]) by {
            assert(t[i] == s[i + 1]);
        }
        lemma_leading_whitespace(t, k - 1);
    }
}

proof fn lemma_trailing_whitespace(s: Seq<char>, k: int)
    requires
        0 <= k <= s.len(),
        forall|i: int| s.len() - k <= i < s.len() ==> is_whitespace(s[i]),
        k == s.len() || !is_whitespace(s[s.len() - k - 1]),
    ensures
        trailing_whitespace(s) == k,
    decreases k,
{
    if k > 0 {
        let t = s.drop_last();
        assert forall|i: int| t.len() - (k - 1) <= i < t.len() implies is_whitespace(t[i]) by {
            assert(t[i] == s[i]);
        }
        lemma_trailing_whitespace(t, k - 1);
    }
}

/// What is trimmed neither begins nor ends with white space, and `s` is the
/// trimmed text with white space alone before and after it.
pub proof fn lemma_trimmed(s: Seq<char>)
    ensures
        trimmed(s).len() > 0 ==> !is_whitespace(trimmed(s).first()) && !is_whitespace(
            trimmed(s).last(),
        ),
        exists|before: Seq<char>, after: Seq<char>|
            s == before + trimmed(s) + after && (forall|i: int|
                0 <= i < before.len() ==> is_whitespace(#[trigger] before[i])) && (forall|i: int|
                0 <= i < after.len() ==> is_whitespace(#[trigger] after[i])),
{
    let lead = leading_whitespace(s) as int;
    lemma_leading_bounds(s);
    let rest = s.skip(lead);
    lemma_trailing_bounds(rest);
    let trail = trailing_whitespace(rest) as int;
    let before = s.take(lead);
    let after = rest.skip(rest.len() - trail);
    assert(s =~= before + trimmed(s) + after);
    if trimmed(s).len() > 0 {
        assert(trimmed(s).first() == s[lead]);
        assert(trimmed(s).last() == rest[rest.len() - trail - 1]);
    }
}

proof fn lemma_leading_bounds(s: Seq<char>)
    ensures
        leading_whitespace(s) <= s.len(),
        forall|i: int| 0 <= i < leading_whitespace(s) ==> is_whitespace(#[trigger] s[i]),
        leading_whitespace(s) == s.len() || !is_whitespace(s[leading_whitespace(s) as int]),
    decreases s.len(),
{
    if s.len() > 0 && is_whitespace(s[0]) {
        let t = s.drop_first();
        lemma_leading_bounds(t);
        assert forall|i: int| 0 <= i < leading_whitespace(s) implies is_whitespace(
            #[trigger] s[i],
        ) by {
            if i > 0 {
                assert(s[i] == t[i - 1]);
            }
        }
        if leading_whitespace(s) < s.len() {
            assert(s[leading_whitespace(s) as int] == t[leading_whitespace(t) as int]);
        }
    }
}

proof fn lemma_trailing_bounds(s: Seq<char>)
    ensures
        trailing_whitespace(s) <= s.len(),
        forall|i: int|
            s.len() - trailing_whitespace(s) <= i < s.len() ==> is_whitespace(#[trigger] s[i]),
        trailing_whitespace(s) == s.len() || !is_whitespace(
            s[s.len() - trailing_whitespace(s) - 1],
        ),
    decreases s.len(),
{
    if s.len() > 0 && is_whitespace(s.last()) {
        let t = s.drop_last();
        lemma_trailing_bounds(t);
        assert forall|i: int| s.len() - trailing_whitespace(s) <= i < s.len() implies is_whitespace(
            #[trigger] s[i],
        ) by {
            if i < s.len() - 1 {
                assert(s[i] == t[i]);
            }
        }
        if trailing_whitespace(s) < s.len() {
            assert(s[s.len() - trailing_whitespace(s) - 1] == t[t.len() - trailing_whitespace(t)
                - 1]);
        }
    }
}

/// Whether `c` is white space.
pub fn char_is_whitespace(c: char) -> (r: bool)
    ensures
        r == is_whitespace(c),
{
    let u: u32 = c as u32;
    (0x09 <= u && u <= 0x0D) || u == 0x20 || u == 0x85 || u == 0xA0 || u == 0x1680 || (0x2000 <= u
        && u <= 0x200A) || u == 0x2028 || u == 0x2029 || u == 0x202F || u == 0x205F || u == 0x3000
}

/// `s` without the white space at its two ends.
pub fn trim(s: &str) -> (r: String)
    ensures
        r@ == trimmed(s@),
{
    let n: usize = s.unicode_len();
    let mut start: usize = 0;
    while start < n && char_is_whitespace(s.get_char(start))
        invariant
            start <= n,
            n == s@.len(),
            forall|i: int| 0 <= i < start ==> is_whitespace(s@[i]),
        decreases n - start,
    {
        start += 1;
    }
    let mut end: usize = n;
    while end > start && char_is_whitespace(s.get_char(end - 1))
        invariant
            start <= end <= n,
            n == s@.len(),
            forall|i: int| end <= i < n ==> is_whitespace(s@[i]),
        decreases end,
    {
        end -= 1;
    }
    proof {
        lemma_leading_whitespace(s@, start as int);
        let rest = s@.skip(start as int);
        lemma_trailing_whitespace(rest, n - end);
        assert(trimmed(s@) =~= s@.subrange(start as int, end as int));
    }
    s.substring_char(start, end).to_owned()
}

/// The part of `text` before the first `sep`, or all of `text` where it
/// holds none.
pub(crate) fn ascii_first_token<'a>(text: &'a str, sep: u8) -> (r: &'a str)
    requires
        text.is_ascii(),
        sep < 128,
    ensures
        r@ == first_token(text@, sep as char),
        r.is_ascii(),
{
    broadcast use vstd::utf8::is_ascii_chars_nat_bound;

    let n: usize = text.as_bytes().len();
    proof {
        is_ascii_spec_bytes(text);
    }
    let mut i: usize = 0;
    while i < n && text.get_ascii(i) != sep
        invariant
            i <= n,
            n == text@.len(),
            text.is_ascii(),
            sep < 128,
            forall|k: int| 0 <= k < i ==> text@[k] != sep as char,
        decreases n - i,
    {
        i += 1;
    }
    proof {
        text@.index_of_first_ensures(sep as char);
        if i < n {
            assert(text@[i as int] == sep as char);
            assert(text@.contains(sep as char));
        } else {
            assert(text@.take(n as int) =~= text@);
        }
    }
    text.substring_ascii(0, i)
}

/// The digit `d` as text.
fn digit_text(d: u16) -> (r: &'static str)
    requires
        d < 10,
    ensures
        r@ == seq![digit_char(d as nat)],
{
    proof {
        reveal_strlit("0");
        reveal_strlit("1");
        reveal_strlit("2");
        reveal_strlit("3");
        reveal_strlit("4");
        reveal_strlit("5");
        reveal_strlit("6");
        reveal_strlit("7");
        reveal_strlit("8");
        reveal_strlit("9");
    }
    let r = if d == 0 {
        "0"
    } else if d == 1 {
        "1"
    } else if d == 2 {
        "2"
    } else if d == 3 {
        "3"
    } else if d == 4 {
        "4"
    } else if d == 5 {
        "5"
    } else if d == 6 {
        "6"
    } else if d == 7 {
        "7"
    } else if d == 8 {
        "8"
    } else {
        "9"
    };
    assert(r@ =~= seq![digit_char(d as nat)]);
    r
}

/// `n` in decimal, without leading zeros.
pub fn decimal_text(n: u16) -> (r: String)
    ensures
        r@ == decimal(n as nat),
    decreases n,
{
    if n < 10 {
        String::from_str(digit_text(n))
    } else {
        let mut r = decimal_text(n / 10);
        r.append(digit_text(n % 10));
        r
    }
}

/// The lower-case form of an ASCII letter; any other character unchanged.
pub fn char_to_ascii_lower(c: char) -> (r: char)
    ensures
        r == ascii_lower_char(c),
{
    let u: u32 = c as u32;
    if 65 <= u && u <= 90 {
        ((u + 32) as u8) as char
    } else {
        c
    }
}

/// Whether `a` and `b` are the same text once their ASCII letters are in
/// lower case.
pub fn eq_ignore_ascii_case(a: &str, b: &str) -> (r: bool)
    ensures
        r == (ascii_lower(a@) == ascii_lower(b@)),
{
    let n: usize = a.unicode_len();
    if b.unicode_len() != n {
        assert(ascii_lower(a@).len() != ascii_lower(b@).len());
        return false;
    }
    let mut i: usize = 0;
    while i < n
        invariant
            i <= n,
            n == a@.len(),
            n == b@.len(),
            forall|k: int| 0 <= k < i ==> ascii_lower_char(a@[k]) == ascii_lower_char(b@[k]),
        decreases n - i,
    {
        if char_to_ascii_lower(a.get_char(i)) != char_to_ascii_lower(b.get_char(i)) {
            assert(ascii_lower(a@)[i as int] != ascii_lower(b@)[i as int]);
            return false;
        }
        i += 1;
    }
    assert(ascii_lower(a@) =~= ascii_lower(b@));
    true
}

} // verus!
