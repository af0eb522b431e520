//! Verified text building blocks: decimal rendering of indices, space
//! padding for aligned columns, and a substring predicate used to state
//! where a secret is (and is not) allowed to appear.

use vstd::prelude::*;

verus! {

/// The decimal digit count of `n`: 1 for 0..=9, 2 for 10..=99, and so on.
/// For `n >= 1` this equals `floor(log10(n)) + 1` (see
/// [`lemma_digits_is_log10`]).
pub open spec fn spec_digits(n: nat) -> nat
    decreases n,
{
    if n < 10 {
        1
    } else {
        1 + spec_digits(n / 10)
    }
}

/// `10^k`.
pub open spec fn pow10(k: nat) -> nat
    decreases k,
{
    if k == 0 {
        1
    } else {
        10 * pow10((k - 1) as nat)
    }
}

/// The character for one decimal digit.
pub open spec fn digit_char(d: nat) -> char {
    if d == 0 {
        '0'
    } else if d == 1 {
        '1'
    } else if d == 2 {
        '2'
    } else if d == 3 {
        '3'
    } else if d == 4 {
        '4'
    } else if d == 5 {
        '5'
    } else if d == 6 {
        '6'
    } else if d == 7 {
        '7'
    } else if d == 8 {
        '8'
    } else {
        '9'
    }
}

/// The decimal rendering of `n`, most significant digit first.
pub open spec fn spec_dec(n: nat) -> Seq<char>
    decreases n,
{
    if n < 10 {
        seq![digit_char(n)]
    } else {
        spec_dec(n / 10).push(digit_char(n % 10))
    }
}

/// `n` spaces.
pub open spec fn spaces(n: nat) -> Seq<char>
    decreases n,
{
    if n == 0 {
        Seq::empty()
    } else {
        spaces((n - 1) as nat).push(' ')
    }
}

/// `s` padded with leading spaces up to width `w` (right alignment).
pub open spec fn pad_left(s: Seq<char>, w: nat) -> Seq<char> {
    if s.len() >= w {
        s
    } else {
        spaces((w - s.len()) as nat) + s
    }
}

/// `s` padded with trailing spaces up to width `w` (left alignment).
pub open spec fn pad_right(s: Seq<char>, w: nat) -> Seq<char> {
    if s.len() >= w {
        s
    } else {
        s + spaces((w - s.len()) as nat)
    }
}

/// `needle` occurs in `hay` starting at position `i`.
pub open spec fn contains_at(hay: Seq<char>, needle: Seq<char>, i: int) -> bool {
    0 <= i && i + needle.len() <= hay.len() && hay.subrange(i, i + needle.len()) == needle
}

/// `needle` occurs somewhere in `hay`.
pub open spec fn contains_seq(hay: Seq<char>, needle: Seq<char>) -> bool {
    exists|i: int| contains_at(hay, needle, i)
}

pub proof fn lemma_spaces_len(n: nat)
    ensures
        spaces(n).len() == n,
        forall|i: int| 0 <= i < n ==> spaces(n)[i] == ' ',
    decreases n,
{
    if n > 0 {
        lemma_spaces_len((n - 1) as nat);
    }
}

/// The decimal rendering of `n` has exactly `spec_digits(n)` characters.
pub proof fn lemma_dec_len(n: nat)
    ensures
        spec_dec(n).len() == spec_digits(n),
    decreases n,
{
    if n >= 10 {
        lemma_dec_len(n / 10);
    }
}

pub proof fn lemma_digits_le(n: nat)
    ensures
        spec_digits(n) <= n + 1,
    decreases n,
{
    if n >= 10 {
        lemma_digits_le(n / 10);
    }
}

/// The digit count is monotone: a number no larger than `m` needs no
/// more digits than `m` does.
pub proof fn lemma_digits_monotone(n: nat, m: nat)
    requires
        n <= m,
    ensures
        spec_digits(n) <= spec_digits(m),
    decreases m,
{
    if n >= 10 && m >= 10 {
        lemma_digits_monotone(n / 10, m / 10);
    }
}

/// The digit count is the integer form of `floor(log10(n)) + 1`: for
/// `n >= 1`, writing `w = spec_digits(n)`, the number lies between
/// `10^(w-1)` inclusive and `10^w` exclusive.
pub proof fn lemma_digits_is_log10(n: nat)
    requires
        n >= 1,
    ensures
        pow10((spec_digits(n) - 1) as nat) <= n,
        n < pow10(spec_digits(n)),
    decreases n,
{
    if n >= 10 {
        lemma_digits_is_log10(n / 10);
    }
}

/// One decimal digit as a borrowed one-character string.
fn digit_str(d: usize) -> (r: &'static str)
    requires
        d < 10,
    ensures
        r@ =~= seq![digit_char(d as nat)],
{
    proof {
        reveal_strlit("0");
        reveal_strlit("1");
        reveal_strlit("2");
        reveal_strlit("3");
        reveal_strlit("4");
        reveal_strlit("5");
        reveal_strlit("6");
        reveal_strlit("7");
        reveal_strlit("8");
        reveal_strlit("9");
    }
    if d == 0 {
        "0"
    } else if d == 1 {
        "1"
    } else if d == 2 {
        "2"
    } else if d == 3 {
        "3"
    } else if d == 4 {
        "4"
    } else if d == 5 {
        "5"
    } else if d == 6 {
        "6"
    } else if d == 7 {
        "7"
    } else if d == 8 {
        "8"
    } else {
        "9"
    }
}

/// The decimal rendering of `n`, as executable code.
pub fn usize_to_decimal(n: usize) -> (r: String)
    ensures
        r@ == spec_dec(n as nat),
    decreases n,
{
    if n < 10 {
        let mut r = String::new();
        r.append(digit_str(n));
        proof {
            assert(r@ =~= spec_dec(n as nat));
        }
        r
    } else {
        let mut r = usize_to_decimal(n / 10);
        r.append(digit_str(n % 10));
        proof {
            assert(r@ =~= spec_dec(n as nat));
        }
        r
    }
}

/// A string of `n` spaces.
pub fn repeat_spaces(n: usize) -> (r: String)
    ensures
        r@ == spaces(n as nat),
{
    let mut r = String::new();
    let mut i: usize = 0;
    while i < n
        invariant
            i <= n,
            r@ == spaces(i as nat),
        decreases n - i,
    {
        r.append(" ");
        proof {
            reveal_strlit(" ");
            assert(r@ =~= spaces((i + 1) as nat));
        }
        i = i + 1;
    }
    r
}

/// `s` right-aligned in a field of width `w`.
pub fn pad_left_str(s: String, w: usize) -> (r: String)
    ensures
        r@ == pad_left(s@, w as nat),
{
    let len = s.as_str().unicode_len();
    if len >= w {
        s
    } else {
        let r = repeat_spaces(w - len).concat(s.as_str());
        r
    }
}

/// `s` left-aligned in a field of width `w`.
pub fn pad_right_str(s: String, w: usize) -> (r: String)
    ensures
        r@ == pad_right(s@, w as nat),
{
    let len = s.as_str().unicode_len();
    if len >= w {
        s
    } else {
        let r = s.concat(repeat_spaces(w - len).as_str());
        r
    }
}

} // verus!
