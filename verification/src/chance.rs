//! An operation that fails by chance.

use vstd::prelude::*;

verus! {

/// What the operation reports when it succeeds.
pub open spec fn success_message() -> Seq<char> {
    "Operation successful"@
}

/// What the operation reports when it fails.
pub open spec fn failure_message() -> Seq<char> {
    "Random failure occurred"@
}

/// The result of the operation once it is known whether chance made it fail.
pub fn risky_outcome(failed: bool) -> (outcome: Result<String, String>)
    ensures
        match outcome {
            Ok(message) => !failed && message@ == success_message(),
            Err(message) => failed && message@ == failure_message(),
        },
{
    if failed {
        Err("Random failure occurred".to_owned())
    } else {
        Ok("Operation successful".to_owned())
    }
}

} // verus!
