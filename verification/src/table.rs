//! The disambiguation table: a 1-indexed listing of every candidate's
//! name and username, with the index column sized to the digit count of
//! the row count and the name column sized to the longest name.

use vstd::prelude::*;

use crate::Credential;
use crate::text::{
    spec_digits, spec_dec, pad_left, pad_right, lemma_digits_le, lemma_dec_len,
    lemma_digits_monotone, lemma_spaces_len, usize_to_decimal, pad_left_str, pad_right_str,
};

verus! {

/// The length in characters of the longest credential name in the set.
pub open spec fn max_name_len(ms: Seq<Credential>) -> nat
    decreases ms.len(),
{
    if ms.len() == 0 {
        0
    } else {
        let rest = max_name_len(ms.drop_last());
        let last = ms.last().name@.len();
        if last > rest {
            last
        } else {
            rest
        }
    }
}

/// One rendered table line: the 1-based index right-aligned to the index
/// column width, the name left-aligned to the name column width, and the
/// username left-aligned to a fixed width of 30.
pub open spec fn row_text(index: nat, name: Seq<char>, username: Seq<char>, iw: nat, nw: nat) -> Seq<
    char,
> {
    pad_left(spec_dec(index), iw) + seq![' '] + pad_right(name, nw) + seq![' '] + pad_right(
        username,
        30,
    )
}

/// The width of the index column for a table of `n` rows: the decimal
/// digit count of `n`, which for `n >= 1` equals `floor(log10(n)) + 1`.
pub fn index_width(n: usize) -> (r: usize)
    ensures
        r == spec_digits(n as nat),
    decreases n,
{
    if n < 10 {
        1
    } else {
        let w = index_width(n / 10);
        proof {
            lemma_digits_le((n / 10) as nat);
        }
        w + 1
    }
}

/// The width of the name column: the longest name in the set.
pub fn name_column_width(ms: &Vec<Credential>) -> (r: usize)
    ensures
        r == max_name_len(ms@),
{
    let n = ms.len();
    let mut r: usize = 0;
    let mut i: usize = 0;
    while i < n
        invariant
            n == ms@.len(),
            i <= n,
            r == max_name_len(ms@.take(i as int)),
        decreases n - i,
    {
        let len = ms[i].name.as_str().unicode_len();
        if len > r {
            r = len;
        }
        proof {
            assert(ms@.take(i + 1).drop_last() =~= ms@.take(i as int));
            assert(ms@.take(i + 1).last() == ms@[i as int]);
        }
        i = i + 1;
    }
    proof {
        assert(ms@.take(n as int) =~= ms@);
    }
    r
}

/// Render one table line.
pub fn render_row(index: usize, name: &String, username: &String, iw: usize, nw: usize) -> (r:
    String)
    ensures
        r@ == row_text(index as nat, name@, username@, iw as nat, nw as nat),
{
    let mut r = pad_left_str(usize_to_decimal(index), iw);
    r.append(" ");
    let padded_name = pad_right_str(name.clone(), nw);
    r.append(padded_name.as_str());
    r.append(" ");
    let padded_user = pad_right_str(username.clone(), 30);
    r.append(padded_user.as_str());
    proof {
        reveal_strlit(" ");
        assert(" "@ =~= seq![' ']);
        assert(r@ =~= row_text(index as nat, name@, username@, iw as nat, nw as nat));
    }
    r
}

/// Render the whole disambiguation table: one line per candidate, with
/// 1-based indices in display order.
pub fn render_table(ms: &Vec<Credential>) -> (rows: Vec<String>)
    ensures
        rows@.len() == ms@.len(),
        forall|i: int|
            0 <= i < ms@.len() ==> rows@[i]@ == row_text(
                (i + 1) as nat,
                ms@[i].name@,
                ms@[i].username@,
                spec_digits(ms@.len()),
                max_name_len(ms@),
            ),
{
    let n = ms.len();
    let iw = index_width(n);
    let nw = name_column_width(ms);
    let mut rows: Vec<String> = Vec::new();
    let mut i: usize = 0;
    while i < n
        invariant
            n == ms@.len(),
            iw == spec_digits(n as nat),
            nw == max_name_len(ms@),
            i <= n,
            rows@.len() == i,
            forall|j: int|
                0 <= j < i ==> rows@[j]@ == row_text(
                    (j + 1) as nat,
                    ms@[j].name@,
                    ms@[j].username@,
                    spec_digits(n as nat),
                    max_name_len(ms@),
                ),
        decreases n - i,
    {
        let c = &ms[i];
        let line = render_row(i + 1, &c.name, &c.username, iw, nw);
        rows.push(line);
        i = i + 1;
    }
    rows
}

/// Law: in a table of `n` rows every index cell is exactly
/// `spec_digits(n)` characters wide — no 1-based index of a row
/// overflows the column computed from the row count.
pub proof fn lemma_index_column_width(n: nat, i: nat)
    requires
        1 <= i <= n,
    ensures
        pad_left(spec_dec(i), spec_digits(n)).len() == spec_digits(n),
{
    lemma_dec_len(i);
    lemma_digits_monotone(i, n);
    if spec_dec(i).len() < spec_digits(n) {
        lemma_spaces_len((spec_digits(n) - spec_dec(i).len()) as nat);
    }
}

} // verus!
