//! Decimal text of unsigned integers, and where one text occurs in another.

use vstd::prelude::*;

verus! {

/// The character that stands for the decimal digit `d`.
pub open spec fn digit_char(d: nat) -> char {
    if d == 0 {
        '0'
    } else if d == 1 {
        '1'
    } else if d == 2 {
        '2'
    } else if d == 3 {
        '3'
    } else if d == 4 {
        '4'
    } else if d == 5 {
        '5'
    } else if d == 6 {
        '6'
    } else if d == 7 {
        '7'
    } else if d == 8 {
        '8'
    } else {
        '9'
    }
}

/// Whether `c` is one of the ten decimal digits.
pub open spec fn is_digit(c: char) -> bool {
    '0' <= c && c <= '9'
}

/// The decimal text of `n`: no sign, no leading zero but for `0` itself.
pub open spec fn decimal(n: nat) -> Seq<char>
    decreases n,
{
    if n < 10 {
        seq![digit_char(n)]
    } else {
        decimal(n / 10).push(digit_char(n % 10))
    }
}

/// The one-character text of a decimal digit.
fn digit_text(d: u64) -> (text: &'static str)
    requires
        d < 10,
    ensures
        text@ == seq![digit_char(d as nat)],
{
    proof {
        reveal_strlit("0");
        reveal_strlit("1");
        reveal_strlit("2");
        reveal_strlit("3");
        reveal_strlit("4");
        reveal_strlit("5");
        reveal_strlit("6");
        reveal_strlit("7");
        reveal_strlit("8");
        reveal_strlit("9");
    }
    let text = if d == 0 {
        "0"
    } else if d == 1 {
        "1"
    } else if d == 2 {
        "2"
    } else if d == 3 {
        "3"
    } else if d == 4 {
        "4"
    } else if d == 5 {
        "5"
    } else if d == 6 {
        "6"
    } else if d == 7 {
        "7"
    } else if d == 8 {
        "8"
    } else {
        "9"
    };
    assert(text@ =~= seq![digit_char(d as nat)]);
    text
}

/// Writes `n` in decimal.
pub fn to_decimal(n: u64) -> (text: String)
    ensures
        text@ == decimal(n as nat),
    decreases n,
{
    if n < 10 {
        String::from_str(digit_text(n))
    } else {
        let mut text = to_decimal(n / 10);
        text.append(digit_text(n % 10));
        text
    }
}

/// Whether `needle` stands in `hay` from index `at` on.
pub open spec fn occurs_at(hay: Seq<char>, needle: Seq<char>, at: int) -> bool {
    0 <= at && at + needle.len() <= hay.len() && hay.subrange(at, at + needle.len()) == needle
}

/// Whether `needle` stands somewhere in `hay`.
pub open spec fn contains(hay: Seq<char>, needle: Seq<char>) -> bool {
    exists|at: int| occurs_at(hay, needle, at)
}

/// Whether `needle` stands in `hay` at index `at` and nowhere else.
pub open spec fn only_at(hay: Seq<char>, needle: Seq<char>, at: int) -> bool {
    occurs_at(hay, needle, at) && forall|other: int|
        occurs_at(hay, needle, other) ==> other == at
}

/// Whether `needle` stands in `hay` exactly once.
pub open spec fn occurs_once(hay: Seq<char>, needle: Seq<char>) -> bool {
    exists|at: int| only_at(hay, needle, at)
}

/// Whether `hay` ends in `tail`.
pub open spec fn ends_with(hay: Seq<char>, tail: Seq<char>) -> bool {
    tail.len() <= hay.len() && hay.subrange(hay.len() - tail.len(), hay.len() as int) == tail
}

/// Wherever `b` stands in `text`, a character stands before it, and that
/// character is `a` at index `at` only. With `at` zero, `b` never follows `a`.
pub open spec fn pair_only_at(text: Seq<char>, a: char, b: char, at: int) -> bool {
    forall|k: int|
        0 <= k < text.len() && #[trigger] text[k] == b ==> k > 0 && (text[k - 1] == a ==> k == at)
}

/// A decimal text is made of digits, and of one at least.
pub proof fn lemma_decimal_digits(n: nat)
    ensures
        decimal(n).len() >= 1,
        forall|k: int| 0 <= k < decimal(n).len() ==> is_digit(#[trigger] decimal(n)[k]),
    decreases n,
{
    if n >= 10 {
        lemma_decimal_digits(n / 10);
    }
}

/// In a decimal text no character that is not a digit stands at all.
pub proof fn lemma_decimal_pairs(n: nat, a: char, b: char)
    requires
        !is_digit(b),
    ensures
        pair_only_at(decimal(n), a, b, 0),
{
    lemma_decimal_digits(n);
}

/// If `b` never follows `a` in two texts, nor starts the second, it never
/// follows `a` in the two put together.
pub proof fn lemma_pairs_concat(x: Seq<char>, y: Seq<char>, a: char, b: char)
    requires
        pair_only_at(x, a, b, 0),
        pair_only_at(y, a, b, 0),
    ensures
        pair_only_at(x + y, a, b, 0),
{
    let xy = x + y;
    assert forall|k: int| 0 <= k < xy.len() && #[trigger] xy[k] == b implies k > 0 && (xy[k - 1]
        == a ==> k == 0) by {
        if k < x.len() {
            assert(x[k] == b);
        } else {
            assert(y[k - x.len()] == b);
        }
    }
}

/// A text cannot hold `needle` where two neighbours of `needle` never
/// follow one another in it.
pub proof fn lemma_absent_by_pair(hay: Seq<char>, needle: Seq<char>, i: int)
    requires
        0 <= i,
        i + 1 < needle.len(),
        pair_only_at(hay, needle[i], needle[i + 1], 0),
    ensures
        !contains(hay, needle),
{
    assert forall|at: int| !occurs_at(hay, needle, at) by {
        if occurs_at(hay, needle, at) {
            let part = hay.subrange(at, at + needle.len());
            assert(part[i] == needle[i]);
            assert(part[i + 1] == needle[i + 1]);
            assert(hay[at + i + 1] == needle[i + 1]);
            assert(hay[at + i] == needle[i]);
        }
    }
}

/// Where the first two characters of `needle` follow one another once in
/// `w`, there where `needle` stands in it, and never in `x` nor `y`, then
/// `needle` stands once in the three put together.
pub proof fn lemma_once_by_pair(
    x: Seq<char>,
    w: Seq<char>,
    y: Seq<char>,
    needle: Seq<char>,
    p: int,
)
    requires
        needle.len() >= 2,
        pair_only_at(x, needle[0], needle[1], 0),
        pair_only_at(w, needle[0], needle[1], p + 1),
        pair_only_at(y, needle[0], needle[1], 0),
        occurs_at(w, needle, p),
    ensures
        only_at(x + w + y, needle, x.len() + p),
{
    let hay = x + w + y;
    let at = x.len() + p;
    assert(hay.subrange(at, at + needle.len()) =~= w.subrange(p, p + needle.len()));
    assert forall|other: int| occurs_at(hay, needle, other) implies other == at by {
        let part = hay.subrange(other, other + needle.len());
        assert(part[0] == needle[0]);
        assert(part[1] == needle[1]);
        let k = other + 1;
        assert(hay[k] == needle[1]);
        assert(hay[k - 1] == needle[0]);
        if k < x.len() {
            assert(x[k] == needle[1]);
        } else if k < x.len() + w.len() {
            assert(w[k - x.len()] == needle[1]);
        } else {
            assert(y[k - x.len() - w.len()] == needle[1]);
        }
    }
}

/// A text stands in what is put together from it and what surrounds it.
pub proof fn lemma_occurs_between(x: Seq<char>, w: Seq<char>, y: Seq<char>)
    ensures
        occurs_at(x + w + y, w, x.len() as int),
{
    assert((x + w + y).subrange(x.len() as int, (x.len() + w.len()) as int) =~= w);
}

/// What a text ends in, a longer text that ends in that text ends in too.
pub proof fn lemma_ends_with(x: Seq<char>, w: Seq<char>, tail: Seq<char>)
    requires
        ends_with(w, tail),
    ensures
        ends_with(x + w, tail),
{
    let hay = x + w;
    assert(hay.subrange(hay.len() - tail.len(), hay.len() as int) =~= w.subrange(
        w.len() - tail.len(),
        w.len() as int,
    ));
}

/// The digit that `c` stands for, where it is a decimal digit.
pub open spec fn digit_value(c: char) -> nat {
    if c == '0' {
        0
    } else if c == '1' {
        1
    } else if c == '2' {
        2
    } else if c == '3' {
        3
    } else if c == '4' {
        4
    } else if c == '5' {
        5
    } else if c == '6' {
        6
    } else if c == '7' {
        7
    } else if c == '8' {
        8
    } else {
        9
    }
}

/// Whether `text` is made of decimal digits only.
pub open spec fn all_digits(text: Seq<char>) -> bool {
    forall|k: int| 0 <= k < text.len() ==> is_digit(#[trigger] text[k])
}

/// The number that the decimal digits of `digits` write.
pub open spec fn number_of(digits: Seq<char>) -> nat
    decreases digits.len(),
{
    if digits.len() == 0 {
        0
    } else {
        number_of(digits.drop_last()) * 10 + digit_value(digits.last())
    }
}

/// `text` without the one plus sign that may stand before a number.
pub open spec fn unsigned_part(text: Seq<char>) -> Seq<char> {
    if text.len() > 1 && text[0] == '+' {
        text.skip(1)
    } else {
        text
    }
}

/// The number that `text` writes, where it writes one of at most `max`:
/// decimal digits, at least one, with or without one plus sign before
/// them and nothing else around them.
pub open spec fn unsigned_of(text: Seq<char>, max: nat) -> Option<nat> {
    let digits = unsigned_part(text);
    if digits.len() > 0 && all_digits(digits) && number_of(digits) <= max {
        Some(number_of(digits))
    } else {
        None
    }
}

/// The port that `text` names: a number of at most 65535.
pub open spec fn port_of(text: Seq<char>) -> Option<u16> {
    match unsigned_of(text, u16::MAX as nat) {
        Some(number) => Some(number as u16),
        None => None,
    }
}

/// The number that the first digits of a text write is at most the number
/// that all of them write.
pub proof fn lemma_number_grows(digits: Seq<char>, k: int)
    requires
        0 <= k <= digits.len(),
    ensures
        number_of(digits.take(k)) <= number_of(digits),
    decreases digits.len() - k,
{
    if k < digits.len() {
        lemma_number_grows(digits.drop_last(), k);
        assert(digits.drop_last().take(k) =~= digits.take(k));
    } else {
        assert(digits.take(k) =~= digits);
    }
}

/// The decimal text of a number reads back as that number.
pub proof fn law_decimal_reads_back(n: nat, max: nat)
    requires
        n <= max,
    ensures
        number_of(decimal(n)) == n,
        unsigned_of(decimal(n), max) == Some(n),
    decreases n,
{
    lemma_decimal_digits(n);
    let text = decimal(n);
    if n < 10 {
        assert(text.drop_last() =~= Seq::<char>::empty());
        assert(number_of(text.drop_last()) == 0);
    } else {
        law_decimal_reads_back(n / 10, max);
        assert(text.drop_last() =~= decimal(n / 10));
    }
    assert(is_digit(text[0]));
}

/// The digit that `c` stands for, if it is a decimal digit.
pub fn digit_of(c: char) -> (digit: Option<u32>)
    ensures
        digit is Some <==> is_digit(c),
        digit matches Some(d) ==> d == digit_value(c) && d < 10,
{
    match c {
        '0' => Some(0),
        '1' => Some(1),
        '2' => Some(2),
        '3' => Some(3),
        '4' => Some(4),
        '5' => Some(5),
        '6' => Some(6),
        '7' => Some(7),
        '8' => Some(8),
        '9' => Some(9),
        _ => None,
    }
}

/// Reads a number of at most `max`.
pub fn parse_unsigned(text: &str, max: u64) -> (number: Option<u64>)
    ensures
        number is Some <==> unsigned_of(text@, max as nat) is Some,
        number matches Some(n) ==> unsigned_of(text@, max as nat) == Some(n as nat),
{
    let len = text.unicode_len();
    let start: usize = if len > 1 && text.get_char(0) == '+' {
        1
    } else {
        0
    };
    let ghost digits = unsigned_part(text@);
    assert(digits =~= text@.skip(start as int));
    if start >= len {
        return None;
    }
    let mut value: u64 = 0;
    let mut at: usize = start;
    while at < len
        invariant
            start <= at <= len,
            len == text@.len(),
            digits == text@.skip(start as int),
            digits == unsigned_part(text@),
            all_digits(digits.take(at - start)),
            value == number_of(digits.take(at - start)),
            value <= max,
        decreases len - at,
    {
        let ghost read = digits.take(at - start);
        let ghost more = digits.take(at - start + 1);
        assert(more.drop_last() =~= read);
        assert(more.last() == text@[at as int]);
        proof {
            lemma_number_grows(digits, at - start + 1);
        }
        match digit_of(text.get_char(at)) {
            Some(digit) => {
                if value > max / 10 {
                    return None;
                }
                let tens = value * 10;
                if digit as u64 > max - tens {
                    return None;
                }
                value = tens + digit as u64;
            },
            None => {
                assert(!is_digit(digits[at - start]));
                return None;
            },
        }
        at = at + 1;
    }
    assert(digits.take(at - start) =~= digits);
    Some(value)
}

/// Reads a port number.
pub fn parse_port(text: &str) -> (port: Option<u16>)
    ensures
        port == port_of(text@),
{
    match parse_unsigned(text, 65535) {
        Some(number) => Some(number as u16),
        None => None,
    }
}

} // verus!
