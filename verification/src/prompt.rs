//! Validation of the prompt argument.

use vstd::prelude::*;

verus! {

/// Validate the prompt: an empty prompt is rejected with an error message,
/// any other prompt is returned unchanged.
pub fn check_prompt(prompt: &str) -> (r: Result<String, String>)
    ensures
        prompt@.len() == 0 <==> r is Err,
        r matches Ok(p) ==> p@ == prompt@,
        r matches Err(e) ==> e@ == "Prompt is empty"@,
{
    if prompt.is_empty() {
        return Err("Prompt is empty".to_owned());
    }
    Ok(prompt.to_owned())
}

} // verus!
