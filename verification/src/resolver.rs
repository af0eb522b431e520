//! The resolver: turns a query and the store's match set into either an
//! immediate resolution, a "not found" outcome, or the need for
//! interactive disambiguation. An exact (case-insensitive) name match
//! always wins over ambiguity; an empty match set is a normal outcome,
//! not a failure.

use vstd::prelude::*;

use crate::Credential;

verus! {

/// The lowercase equivalent of a character sequence, as computed by the
/// standard library. It depends on the characters alone.
pub uninterp spec fn lower_of(s: Seq<char>) -> Seq<char>;

/// Relies on str::to_lowercase: returns the lowercase equivalent of the
/// string, a function of its characters alone.
#[verifier::external_body]
fn lowercase(s: &str) -> (r: String)
    ensures
        r@ == lower_of(s@),
{
    s.to_lowercase()
}

/// The credential's name equals the query up to case.
pub open spec fn name_matches(c: Credential, q: Seq<char>) -> bool {
    lower_of(c.name@) == lower_of(q)
}

/// Position `i` holds the first credential whose name equals the query
/// up to case.
pub open spec fn exact_match_at(ms: Seq<Credential>, q: Seq<char>, i: int) -> bool {
    &&& 0 <= i < ms.len()
    &&& name_matches(ms[i], q)
    &&& forall|j: int| 0 <= j < i ==> !name_matches(ms[j], q)
}

/// How a query resolves against the store's match set.
#[derive(PartialEq, Eq, Structural, Debug)]
pub enum Resolution {
    /// The match set was empty; the workflow ends successfully with an
    /// informational message and no credential is delivered.
    NotFound,
    /// Some credential's name equals the query up to case; the field is
    /// the position of the first such credential, selected without any
    /// interactive prompt.
    Immediate(usize),
    /// One or more fuzzy matches but no exact name match: interactive
    /// disambiguation is required.
    Ambiguous,
}

/// Decide how the query resolves against the match set: `NotFound` on an
/// empty set, `Immediate` at the first exact (case-insensitive) name
/// match, `Ambiguous` otherwise.
pub fn classify(matches: &Vec<Credential>, query: &str) -> (r: Resolution)
    ensures
        (matches@.len() == 0) <==> (r is NotFound),
        (exists|i: int| 0 <= i < matches@.len() && name_matches(matches@[i], query@)) <==> (
        r is Immediate),
        r is Immediate ==> exact_match_at(matches@, query@, r->Immediate_0 as int),
        (r is Ambiguous) <==> (matches@.len() > 0 && forall|i: int|
            0 <= i < matches@.len() ==> !name_matches(matches@[i], query@)),
{
    let n = matches.len();
    if n == 0 {
        return Resolution::NotFound;
    }
    let lq = lowercase(query);
    let mut i: usize = 0;
    while i < n
        invariant
            n == matches@.len(),
            i <= n,
            lq@ == lower_of(query@),
            forall|j: int| 0 <= j < i ==> !name_matches(matches@[j], query@),
        decreases n - i,
    {
        let ln = lowercase(matches[i].name.as_str());
        if ln == lq {
            return Resolution::Immediate(i);
        }
        i = i + 1;
    }
    Resolution::Ambiguous
}

/// Check that the command line carries a query argument. The first free
/// argument is the command word itself, so fewer than two free arguments
/// means the query is missing: a usage error with exit code 1, reported
/// before any store access.
pub fn check_args(free: &Vec<String>) -> (r: Result<(), i32>)
    ensures
        (r is Ok) <==> free@.len() >= 2,
        r is Err ==> r->Err_0 == 1,
{
    if free.len() < 2 {
        return Err(1);
    }
    Ok(())
}

/// The informational message for a query with zero matches.
pub open spec fn not_found_text(q: Seq<char>) -> Seq<char> {
    "I can't find any passwords for \""@ + q + "\""@
}

pub fn not_found_message(query: &str) -> (r: String)
    ensures
        r@ == not_found_text(query@),
{
    let mut r = String::from_str("I can't find any passwords for \"");
    r.append(query);
    r.append("\"");
    proof {
        assert(r@ =~= not_found_text(query@));
    }
    r
}

/// How one invocation of the lookup workflow ends.
#[derive(PartialEq, Eq, Structural, Debug)]
pub enum Outcome {
    /// Zero matches: reported as information, and the workflow still
    /// terminates successfully — an empty result is not a failure.
    NotFound,
    /// Exactly one credential, by position in the captured match set,
    /// is to be delivered.
    Resolved(usize),
    /// The input stream ended before a valid selection was typed: a
    /// clean abort rather than an endless re-prompt.
    Aborted,
}

/// The whole resolution phase over a materialized sequence of typed
/// lines: an empty match set ends the workflow, an exact name match
/// bypasses disambiguation even when other candidates exist, and
/// otherwise the first valid typed selection decides. Exhausting the
/// input without a valid selection aborts cleanly.
pub fn resolve(matches: &Vec<Credential>, query: &str, input_lines: &Vec<String>) -> (r: Outcome)
    ensures
        (matches@.len() == 0) <==> (r is NotFound),
        (exists|i: int| 0 <= i < matches@.len() && name_matches(matches@[i], query@)) ==> (r
            is Resolved && exact_match_at(matches@, query@, r->Resolved_0 as int)),
        (matches@.len() > 0 && (forall|i: int|
            0 <= i < matches@.len() ==> !name_matches(matches@[i], query@))) ==> (
        match crate::selection::spec_run_selection(
            input_lines.deep_view(),
            matches@.len() as nat,
        ) {
            Some(k) => r == Outcome::Resolved((k - 1) as usize),
            None => r == Outcome::Aborted,
        }),
        r is Resolved ==> r->Resolved_0 < matches@.len(),
{
    match classify(matches, query) {
        Resolution::NotFound => Outcome::NotFound,
        Resolution::Immediate(i) => Outcome::Resolved(i),
        Resolution::Ambiguous => {
            let n = matches.len();
            match crate::selection::run_selection(input_lines, n) {
                Some(k) => Outcome::Resolved(k - 1),
                None => Outcome::Aborted,
            }
        },
    }
}

/// The process status of one finished invocation: zero matches and a
/// delivered credential both end successfully (a clipboard failure is
/// soft and does not change it); only an aborted disambiguation is a
/// failure.
pub fn outcome_status(outcome: &Outcome) -> (status: i32)
    ensures
        (status == 0) <==> !(outcome is Aborted),
        outcome is Aborted ==> status == 1,
{
    match outcome {
        Outcome::Aborted => 1,
        _ => 0,
    }
}

/// The credential at a validated 1-based selection index, taken from the
/// same captured match set that was rendered, so that positions stay
/// consistent between display and final lookup.
pub fn chosen_credential<'a>(matches: &'a Vec<Credential>, selection: usize) -> (r: &'a Credential)
    requires
        1 <= selection <= matches@.len(),
    ensures
        *r == matches@[selection - 1],
{
    &matches[selection - 1]
}

} // verus!
