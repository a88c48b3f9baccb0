use crate::models::error::{
    ExpenseError, ExpenseErrorKind, ExpenseErrorView, JsonFileError, JsonFileErrorView,
    located_text,
};
use crate::utils::file_utils::{JsonStructure, JsonStructureView};
use crate::utils::json::{JsonValue, JsonView, values_view};
use vstd::prelude::*;
use vstd::string::StringExecFns;

verus! {

/// The outcome of opening a document, by its views.
pub open spec fn opened_view(r: Result<JsonStructure, JsonFileError>) -> Result<
    JsonStructureView,
    JsonFileErrorView,
> {
    match r {
        Ok(document) => Ok(document@),
        Err(error) => Err(error@),
    }
}

/// Makes the error of an operation for a file that could not be read or
/// written: the message is `prefix`, then the line that reports `error`.
pub(crate) fn wrapped(
    kind: ExpenseErrorKind,
    prefix: &str,
    error: &JsonFileError,
    location: &str,
) -> (r: ExpenseError)
    ensures
        r@ == (ExpenseErrorView {
            kind,
            message: prefix@ + located_text(error@.location, error@.message),
            location: location@,
        }),
{
    let mut message = String::from_str(prefix);
    let text = error.to_text();
    message.append(text.as_str());
    ExpenseError::new(kind, message.as_str(), location)
}

/// The error of reading the list of expenses for a file that could not be
/// read; `location` names the operation.
pub open spec fn read_failure(error: JsonFileErrorView, location: Seq<char>) -> ExpenseErrorView {
    ExpenseErrorView {
        kind: ExpenseErrorKind::ReadError,
        message: "Error leyendo el archivo JSON: "@ + located_text(error.location, error.message),
        location,
    }
}

/// The error of reading the list of expenses for a document that is no
/// array; `location` names the operation.
pub open spec fn structure_failure(location: Seq<char>) -> ExpenseErrorView {
    ExpenseErrorView {
        kind: ExpenseErrorKind::ReadError,
        message: "Error en la estructura del JSON"@,
        location,
    }
}

/// The records of the list of expenses, or the error of the operation that
/// `location` names.
pub open spec fn records_of(
    expenses: Result<JsonStructureView, JsonFileErrorView>,
    location: Seq<char>,
) -> Result<Seq<JsonView>, ExpenseErrorView> {
    match expenses {
        Err(error) => Err(read_failure(error, location)),
        Ok(JsonStructureView::Object(_)) => Err(structure_failure(location)),
        Ok(JsonStructureView::Array(records)) => Ok(records),
    }
}

/// Takes the records out of the list of expenses, for the operation that
/// `location` names.
pub(crate) fn records(expenses: Result<JsonStructure, JsonFileError>, location: &str) -> (r:
    Result<Vec<JsonValue>, ExpenseError>)
    ensures
        match records_of(opened_view(expenses), location@) {
            Ok(records) => r is Ok && values_view(r->Ok_0@) == records,
            Err(error) => r is Err && r->Err_0@ == error,
        },
{
    match expenses {
        Ok(JsonStructure::Array(records)) => Ok(records),
        Ok(JsonStructure::Object(_)) => Err(
            ExpenseError::new(
                ExpenseErrorKind::ReadError,
                "Error en la estructura del JSON",
                location,
            ),
        ),
        Err(error) => Err(
            wrapped(
                ExpenseErrorKind::ReadError,
                "Error leyendo el archivo JSON: ",
                &error,
                location,
            ),
        ),
    }
}

/// The text of a string that may be missing.
pub open spec fn text_of(cell: Option<String>) -> Option<Seq<char>> {
    match cell {
        Some(text) => Some(text@),
        None => None,
    }
}

} // verus!
