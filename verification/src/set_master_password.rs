//! Changing the master password: the new password is typed twice at a
//! hidden prompt, and the change goes ahead only when both reads
//! succeeded and agree. The prompting itself and the store's
//! master-password change are the caller's; this decides.

use vstd::prelude::*;

use crate::SecretString;

verus! {

/// Decide the outcome of a master-password change from the two prompted
/// reads (`None` where a read failed). The change is owed exactly when
/// both reads succeeded and the confirmation matches; every other case
/// aborts with exit code 1, and the password to apply is the first one
/// typed.
pub fn callback_exec(first: Option<SecretString>, second: Option<SecretString>) -> (r: Result<
    SecretString,
    i32,
>)
    ensures
        (r is Ok) <==> (first is Some && second is Some && first->0@ == second->0@),
        r is Ok ==> r->Ok_0@ == first->0@,
        r is Err ==> r->Err_0 == 1,
{
    match first {
        Some(password) => {
            match second {
                Some(confirmation) => {
                    if *password.expose() == *confirmation.expose() {
                        Ok(password)
                    } else {
                        Err(1)
                    }
                },
                None => Err(1),
            }
        },
        None => Err(1),
    }
}

} // verus!
