//! Whether a verification transcript reports success.
use vstd::prelude::*;

use crate::text::{chars_of, contains, contains_in, lower_of, lowercase};

verus! {

/// The verdict on a lower-cased transcript: a success word (`pass`,
/// `success`) wins; otherwise a failure word (`fail`, `error`) fails it;
/// with neither it passes.
pub open spec fn verdict(lower: Seq<char>) -> bool {
    let has_fail = contains(lower, "fail"@) || contains(lower, "error"@);
    let has_pass = contains(lower, "pass"@) || contains(lower, "success"@);
    !has_fail || has_pass
}

/// The verdict on a transcript that is already in lower case.
pub fn verdict_of_lowered(lower: &str) -> (r: bool)
    ensures
        r == verdict(lower@),
{
    let chars = chars_of(lower);
    let n = chars.len();
    assert(chars@.subrange(0, n as int) =~= chars@);
    let has_fail = contains_in(&chars, 0, n, "fail") || contains_in(&chars, 0, n, "error");
    let has_pass = contains_in(&chars, 0, n, "pass") || contains_in(&chars, 0, n, "success");
    !has_fail || has_pass
}

/// Whether a verification run passed: never where the collaborator flagged
/// its result as an error; otherwise by the verdict on its transcript, read
/// without regard to case.
pub fn check_verification_passed(result_is_error: bool, output: &str) -> (r: bool)
    ensures
        r == (!result_is_error && verdict(lower_of(output@))),
{
    if result_is_error {
        return false;
    }
    let lower = lowercase(output);
    verdict_of_lowered(lower.as_str())
}

} // verus!
