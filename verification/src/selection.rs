//! Interactive disambiguation input: classifying one typed line as a
//! valid 1-based selection, an out-of-range number, or invalid input,
//! and resolving a whole sequence of lines to the first valid selection.

use vstd::prelude::*;

use crate::text::{spec_dec, usize_to_decimal};

verus! {

/// Whitespace stripped from both ends of a typed line before parsing.
pub open spec fn is_space(c: char) -> bool {
    c == ' ' || c == '\t' || c == '\n' || c == '\r'
}

pub open spec fn trim_start(s: Seq<char>) -> Seq<char>
    decreases s.len(),
{
    if s.len() > 0 && is_space(s[0]) {
        trim_start(s.drop_first())
    } else {
        s
    }
}

pub open spec fn trim_end(s: Seq<char>) -> Seq<char>
    decreases s.len(),
{
    if s.len() > 0 && is_space(s.last()) {
        trim_end(s.drop_last())
    } else {
        s
    }
}

/// The line with leading and trailing whitespace removed.
pub open spec fn trim_spec(s: Seq<char>) -> Seq<char> {
    trim_end(trim_start(s))
}

pub open spec fn is_digit(c: char) -> bool {
    '0' <= c && c <= '9'
}

pub open spec fn digit_val(c: char) -> nat {
    (c as int - '0' as int) as nat
}

pub open spec fn all_digits(s: Seq<char>) -> bool {
    forall|i: int| 0 <= i < s.len() ==> is_digit(s[i])
}

/// The numeric value of a digit sequence, most significant digit first.
pub open spec fn dec_val(s: Seq<char>) -> nat
    decreases s.len(),
{
    if s.len() == 0 {
        0
    } else {
        dec_val(s.drop_last()) * 10 + digit_val(s.last())
    }
}

/// An optional leading plus sign, as the standard integer parser accepts.
pub open spec fn strip_plus(s: Seq<char>) -> Seq<char> {
    if s.len() > 0 && s[0] == '+' {
        s.drop_first()
    } else {
        s
    }
}

/// The trimmed line parses as an unsigned machine integer: nonempty
/// digits after an optional plus sign, with a value that fits.
pub open spec fn parses_as_usize(s: Seq<char>) -> bool {
    strip_plus(s).len() > 0 && all_digits(strip_plus(s)) && dec_val(strip_plus(s)) <= usize::MAX
}

/// How one typed line is classified against a match set of `n` entries.
#[derive(PartialEq, Eq, Structural, Debug)]
pub enum Selection {
    /// The line does not parse as a number: a validation message is
    /// shown and the prompt is retried.
    Invalid,
    /// The line parses but the number is zero or greater than `n`: a
    /// range message is shown and the prompt is retried.
    OutOfRange,
    /// A valid 1-based selection in `[1, n]`: the loop terminates.
    Chosen(usize),
}

/// The classification of one typed line for a match set of `n` entries.
pub open spec fn selection_of(line: Seq<char>, n: nat) -> Selection {
    let t = strip_plus(trim_spec(line));
    if !parses_as_usize(trim_spec(line)) {
        Selection::Invalid
    } else if dec_val(t) == 0 || dec_val(t) > n {
        Selection::OutOfRange
    } else {
        Selection::Chosen(dec_val(t) as usize)
    }
}

fn is_space_char(c: char) -> (r: bool)
    ensures
        r == is_space(c),
{
    c == ' ' || c == '\t' || c == '\n' || c == '\r'
}

/// Trimming a run of leading spaces is taking a suffix.
proof fn lemma_trim_start_subrange(s: Seq<char>, a: int)
    requires
        0 <= a <= s.len(),
        forall|j: int| 0 <= j < a ==> is_space(s[j]),
        a == s.len() || !is_space(s[a]),
    ensures
        trim_start(s) =~= s.subrange(a, s.len() as int),
    decreases a,
{
    if a == 0 {
        assert(s.subrange(0, s.len() as int) =~= s);
    } else {
        let t = s.drop_first();
        assert(forall|j: int| 0 <= j < a - 1 ==> is_space(t[j]));
        lemma_trim_start_subrange(t, a - 1);
        assert(t.subrange(a - 1, t.len() as int) =~= s.subrange(a, s.len() as int));
    }
}

/// Trimming a run of trailing spaces is taking a prefix.
proof fn lemma_trim_end_subrange(s: Seq<char>, b: int)
    requires
        0 <= b <= s.len(),
        forall|j: int| b <= j < s.len() ==> is_space(s[j]),
        b == 0 || !is_space(s[b - 1]),
    ensures
        trim_end(s) =~= s.subrange(0, b),
    decreases s.len() - b,
{
    if b == s.len() {
        assert(s.subrange(0, s.len() as int) =~= s);
    } else {
        let t = s.drop_last();
        assert(forall|j: int| b <= j < t.len() ==> is_space(t[j]));
        lemma_trim_end_subrange(t, b);
        assert(t.subrange(0, b) =~= s.subrange(0, b));
    }
}

/// The numeric value of a digit prefix only grows as digits are added.
proof fn lemma_dec_val_prefix_monotone(t: Seq<char>, i: int, j: int)
    requires
        0 <= i <= j <= t.len(),
    ensures
        dec_val(t.take(i)) <= dec_val(t.take(j)),
    decreases j - i,
{
    if i < j {
        lemma_dec_val_prefix_monotone(t, i, j - 1);
        assert(t.take(j).drop_last() =~= t.take(j - 1));
    }
}

/// The index after a run of spaces starting at `i`.
fn skip_spaces(line: &str, i: usize) -> (r: usize)
    requires
        i <= line@.len(),
    ensures
        i <= r <= line@.len(),
        forall|j: int| i <= j < r ==> is_space(line@[j]),
        r == line@.len() || !is_space(line@[r as int]),
    decreases line@.len() - i,
{
    if i == line.unicode_len() {
        i
    } else if is_space_char(line.get_char(i)) {
        skip_spaces(line, i + 1)
    } else {
        i
    }
}

/// The index before which a run of trailing spaces ends: every character
/// in `[r, i)` is a space and `r` is 0 or preceded by a non-space.
fn skip_spaces_rev(line: &str, i: usize) -> (r: usize)
    requires
        i <= line@.len(),
    ensures
        r <= i,
        forall|j: int| r <= j < i ==> is_space(line@[j]),
        r == 0 || !is_space(line@[r - 1]),
    decreases i,
{
    if i == 0 {
        0
    } else if is_space_char(line.get_char(i - 1)) {
        skip_spaces_rev(line, i - 1)
    } else {
        i
    }
}

/// Classify one typed line against a match set of `n` entries: trim it,
/// accept an optional leading plus sign, and parse the decimal number.
pub fn parse_selection(line: &str, n: usize) -> (r: Selection)
    ensures
        r == selection_of(line@, n as nat),
{
    let len = line.unicode_len();
    let a = skip_spaces(line, 0);
    let b = skip_spaces_rev(line, len);
    if a >= b {
        proof {
            // Overlap of the two space runs means the whole line is
            // spaces, so the trimmed line is empty.
            if a < len {
                assert(is_space(line@[a as int]));
            }
            lemma_trim_start_subrange(line@, a as int);
            assert(trim_start(line@) =~= Seq::<char>::empty());
            assert(trim_spec(line@) =~= Seq::<char>::empty());
        }
        return Selection::Invalid;
    }
    let t = line.substring_char(a, b);
    proof {
        lemma_trim_start_subrange(line@, a as int);
        let suffix = line@.subrange(a as int, line@.len() as int);
        lemma_trim_end_subrange(suffix, b - a);
        assert(suffix.subrange(0, b - a) =~= line@.subrange(a as int, b as int));
        assert(trim_spec(line@) == t@);
    }
    let tlen = b - a;
    let start: usize = if t.get_char(0) == '+' {
        1
    } else {
        0
    };
    let ghost d = strip_plus(t@);
    proof {
        assert(d =~= t@.subrange(start as int, tlen as int));
    }
    if start == tlen {
        // A bare plus sign: no digits.
        return Selection::Invalid;
    }
    let mut val: usize = 0;
    let mut i: usize = start;
    while i < tlen
        invariant
            t@.len() == tlen,
            d == strip_plus(trim_spec(line@)),
            d =~= t@.subrange(start as int, tlen as int),
            start <= i <= tlen,
            start < tlen,
            n >= 0,
            forall|j: int| start <= j < i ==> is_digit(t@[j]),
            val == dec_val(d.take(i - start)),
        decreases tlen - i,
    {
        let c = t.get_char(i);
        if !('0' <= c && c <= '9') {
            proof {
                assert(d[i - start] == t@[i as int]);
                assert(!all_digits(d));
            }
            return Selection::Invalid;
        }
        let digit = (c as u32 as usize) - ('0' as u32 as usize);
        proof {
            assert(d.take(i - start + 1).drop_last() =~= d.take(i - start));
            assert(d.take(i - start + 1).last() == t@[i as int]);
            assert(digit == digit_val(t@[i as int]));
        }
        if val > (usize::MAX - digit) / 10 {
            proof {
                // The value of the digits read so far already exceeds the
                // machine range, and adding digits only grows it.
                assert(dec_val(d.take(i - start + 1)) > usize::MAX);
                lemma_dec_val_prefix_monotone(d, i - start + 1, d.len() as int);
                assert(d.take(d.len() as int) =~= d);
                assert(dec_val(d) > usize::MAX);
            }
            return Selection::Invalid;
        }
        val = val * 10 + digit;
        i = i + 1;
    }
    proof {
        assert(d.take(tlen - start) =~= d);
        assert(val == dec_val(d));
        assert(all_digits(d));
    }
    if val == 0 || val > n {
        Selection::OutOfRange
    } else {
        Selection::Chosen(val)
    }
}

/// The first valid selection in a sequence of typed lines, if any.
pub open spec fn spec_run_selection(lines: Seq<Seq<char>>, n: nat) -> Option<usize>
    decreases lines.len(),
{
    if lines.len() == 0 {
        None
    } else if selection_of(lines[0], n) is Chosen {
        Some(selection_of(lines[0], n)->Chosen_0)
    } else {
        spec_run_selection(lines.drop_first(), n)
    }
}

/// Resolve a whole sequence of typed lines to the first valid selection:
/// every invalid or out-of-range line is skipped (in the interactive
/// workflow it produces a message and a re-prompt) and the first line
/// classified as `Chosen` decides. The match set is not consulted and
/// cannot be altered by any line.
pub fn run_selection(lines: &Vec<String>, n: usize) -> (r: Option<usize>)
    ensures
        r == spec_run_selection(lines.deep_view(), n as nat),
        r is Some ==> 1 <= r->0 <= n,
{
    let m = lines.len();
    let mut i: usize = 0;
    proof {
        assert(lines.deep_view().skip(0) =~= lines.deep_view());
    }
    while i < m
        invariant
            m == lines@.len(),
            lines.deep_view().len() == m,
            forall|j: int| 0 <= j < m ==> lines.deep_view()[j] == lines@[j]@,
            i <= m,
            spec_run_selection(lines.deep_view(), n as nat) == spec_run_selection(
                lines.deep_view().skip(i as int),
                n as nat,
            ),
        decreases m - i,
    {
        let s = parse_selection(lines[i].as_str(), n);
        proof {
            assert(lines.deep_view().skip(i as int)[0] == lines@[i as int]@);
            assert(lines.deep_view().skip(i as int).drop_first() =~= lines.deep_view().skip(
                i + 1,
            ));
        }
        match s {
            Selection::Chosen(k) => {
                return Some(k);
            },
            _ => {},
        }
        i = i + 1;
    }
    proof {
        assert(lines.deep_view().skip(m as int) =~= Seq::<Seq<char>>::empty());
    }
    None
}

/// Law: any number of non-selecting lines (invalid or out of range)
/// followed by a line that selects `k` resolves to `k`; no earlier
/// invalid line changes the outcome.
pub proof fn lemma_selection_retry(lines: Seq<Seq<char>>, n: nat, m: int, k: usize)
    requires
        0 <= m < lines.len(),
        forall|j: int| 0 <= j < m ==> !(selection_of(lines[j], n) is Chosen),
        selection_of(lines[m], n) == Selection::Chosen(k),
    ensures
        spec_run_selection(lines, n) == Some(k),
    decreases m,
{
    if m == 0 {
    } else {
        let t = lines.drop_first();
        assert(forall|j: int| 0 <= j < m - 1 ==> !(selection_of(t[j], n) is Chosen));
        assert(t[m - 1] == lines[m]);
        lemma_selection_retry(t, n, m - 1, k);
    }
}

/// The range message shown when a parsed number is outside `[1, n]`.
pub open spec fn range_text(n: nat) -> Seq<char> {
    "Sorry, I need a number between 1 and "@ + spec_dec(n) + ". Let's try this again:"@
}

pub fn range_message(n: usize) -> (r: String)
    ensures
        r@ == range_text(n as nat),
{
    let mut r = String::from_str("Sorry, I need a number between 1 and ");
    r.append(usize_to_decimal(n).as_str());
    r.append(". Let's try this again:");
    proof {
        assert(r@ =~= range_text(n as nat));
    }
    r
}

} // verus!
