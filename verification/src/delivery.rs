//! The delivery channel: releasing a resolved credential's secret
//! through exactly one of the two sanctioned channels. `Show` writes the
//! secret to the user-visible output; `Clipboard` hands it to the
//! clipboard subsystem and reports only the paste hint on success, or a
//! remediation hint (never the secret) on failure.

use vstd::prelude::*;

use crate::{Credential, SecretString};
use crate::text::{contains_at, contains_seq};

verus! {

/// The sanctioned output channel chosen by the user. `Clipboard` is the
/// default; `Show` requires an explicit flag.
#[derive(PartialEq, Eq, Structural, Clone, Copy, Debug)]
pub enum DeliveryMode {
    Show,
    Clipboard,
}

/// What the workflow does with a resolved credential: print one message
/// carrying the secret, or hand the bare secret to the clipboard
/// subsystem's copy operation. The two are mutually exclusive: under
/// `Show` the clipboard is never touched, and under `Clipboard` no
/// message carrying the secret exists.
pub enum DeliveryPlan {
    /// The message to print, the only place the raw secret may appear.
    ShowSecret(String),
    /// The value to hand to the clipboard subsystem's copy operation.
    CopySecret(SecretString),
}

/// The show-mode success message, the single sanctioned exposure of the
/// raw secret.
pub open spec fn show_text(name: Seq<char>, secret: Seq<char>) -> Seq<char> {
    "Alright! Here is your password for "@ + name + ": "@ + secret
}

/// The clipboard-mode success message: the name and the platform's paste
/// hint, never the secret.
pub open spec fn clipboard_success_text(name: Seq<char>, hint: Seq<char>) -> Seq<char> {
    "Alright! You can paste your "@ + name + " password anywhere with "@ + hint + "."@
}

/// The clipboard-failure message: built from the name alone — the secret
/// does not flow into this path — and suggesting the `--show` escape
/// hatch, which requires an explicit re-invocation.
pub open spec fn clipboard_failure_text(name: Seq<char>) -> Seq<char> {
    "Hmm, I tried to copy your new password to your clipboard, but something went wrong. You can see it with `rooster get '"@
        + name + "' --show`"@
}

/// Decide how the secret is released. Under `Show` the plan is the one
/// message that carries the secret and the clipboard is not involved;
/// under `Clipboard` the plan carries the secret to the copy operation
/// and no printable message holds it.
pub fn plan_delivery(c: &Credential, mode: DeliveryMode) -> (p: DeliveryPlan)
    ensures
        mode == DeliveryMode::Show ==> p is ShowSecret && p->ShowSecret_0@ == show_text(
            c.name@,
            c.secret@,
        ),
        mode == DeliveryMode::Clipboard ==> p is CopySecret && p->CopySecret_0@ == c.secret@,
{
    match mode {
        DeliveryMode::Show => {
            let mut m = String::from_str("Alright! Here is your password for ");
            m.append(c.name.as_str());
            m.append(": ");
            m.append(c.secret.expose().as_str());
            proof {
                assert(m@ =~= show_text(c.name@, c.secret@));
            }
            DeliveryPlan::ShowSecret(m)
        },
        DeliveryMode::Clipboard => DeliveryPlan::CopySecret(c.secret.duplicate()),
    }
}

/// The message reported after a clipboard copy attempt: the paste hint
/// on success, the remediation hint on failure. Both are functions of
/// the name and the hint alone; the secret is not an input to this step.
pub fn clipboard_report(name: &String, copied: bool, paste_hint: &str) -> (r: String)
    ensures
        copied ==> r@ == clipboard_success_text(name@, paste_hint@),
        !copied ==> r@ == clipboard_failure_text(name@),
{
    if copied {
        let mut m = String::from_str("Alright! You can paste your ");
        m.append(name.as_str());
        m.append(" password anywhere with ");
        m.append(paste_hint);
        m.append(".");
        proof {
            assert(m@ =~= clipboard_success_text(name@, paste_hint@));
        }
        m
    } else {
        let mut m = String::from_str(
            "Hmm, I tried to copy your new password to your clipboard, but something went wrong. You can see it with `rooster get '",
        );
        m.append(name.as_str());
        m.append("' --show`");
        proof {
            assert(m@ =~= clipboard_failure_text(name@));
        }
        m
    }
}

/// Law: the show-mode message carries both the credential's name and the
/// exact secret string, each at its designated position.
pub proof fn lemma_show_message_contains_secret(name: Seq<char>, secret: Seq<char>)
    ensures
        contains_seq(show_text(name, secret), name),
        contains_seq(show_text(name, secret), secret),
{
    let p1 = "Alright! Here is your password for "@;
    let p2 = ": "@;
    let full = show_text(name, secret);
    assert(full =~= p1 + name + p2 + secret);
    assert(full.subrange(p1.len() as int, (p1.len() + name.len()) as int) =~= name);
    assert(contains_at(full, name, p1.len() as int));
    let si = p1.len() + name.len() + p2.len();
    assert(full.subrange(si as int, (si + secret.len()) as int) =~= secret);
    assert(contains_at(full, secret, si as int));
}

/// Law: the clipboard-mode success message carries the credential's name
/// and the paste hint; the secret is not among its inputs.
pub proof fn lemma_success_message_contains_hint(name: Seq<char>, hint: Seq<char>)
    ensures
        contains_seq(clipboard_success_text(name, hint), name),
        contains_seq(clipboard_success_text(name, hint), hint),
{
    let p1 = "Alright! You can paste your "@;
    let p2 = " password anywhere with "@;
    let p3 = "."@;
    let full = clipboard_success_text(name, hint);
    assert(full =~= p1 + name + p2 + hint + p3);
    assert(full.subrange(p1.len() as int, (p1.len() + name.len()) as int) =~= name);
    assert(contains_at(full, name, p1.len() as int));
    let hi = p1.len() + name.len() + p2.len();
    assert(full.subrange(hi as int, (hi + hint.len()) as int) =~= hint);
    assert(contains_at(full, hint, hi as int));
}

/// Law: the clipboard-failure message, a function of the name alone,
/// spells out the `--show` escape hatch.
pub proof fn lemma_failure_message_suggests_show(name: Seq<char>)
    ensures
        contains_seq(clipboard_failure_text(name), "--show"@),
{
    reveal_strlit(
        "Hmm, I tried to copy your new password to your clipboard, but something went wrong. You can see it with `rooster get '",
    );
    reveal_strlit("' --show`");
    reveal_strlit("--show");
    let p1 =
        "Hmm, I tried to copy your new password to your clipboard, but something went wrong. You can see it with `rooster get '"@;
    let p2 = "' --show`"@;
    let full = clipboard_failure_text(name);
    assert(full =~= p1 + name + p2);
    let i = p1.len() + name.len() + 2;
    assert(full.subrange(i as int, (i + 6) as int) =~= "--show"@);
    assert(contains_at(full, "--show"@, i as int));
}

} // verus!
