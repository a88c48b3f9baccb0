use crate::models::error::{InputError, InputErrorView};
use crate::utils::text::{trim, trimmed};
use vstd::prelude::*;

verus! {

/// Takes one line as it was read from the input: gives it without the white
/// space at its two ends. `line` is the outcome of reading: the line, or
/// the text of the failure.
pub fn leer_data(line: Result<String, String>) -> (r: Result<String, InputError>)
    ensures
        match line {
            Ok(text) => r is Ok && r->Ok_0@ == trimmed(text@),
            Err(cause) => r is Err && r->Err_0@ == (InputErrorView {
                message: "Failed to read from stdin"@,
                cause: Some(cause@),
            }),
        },
{
    match line {
        Ok(text) => Ok(trim(text.as_str())),
        Err(cause) => Err(InputError::with_cause("Failed to read from stdin", cause.as_str())),
    }
}

} // verus!
