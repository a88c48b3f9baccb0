use crate::models::error::{JsonFileError, JsonFileErrorKind, JsonFileErrorView};
use crate::utils::json::{
    JsonValue, JsonView, error_text, json_parsed, json_text, members_view, parse_value,
    values_view, write_value,
};
use vstd::prelude::*;
use vstd::string::StringExecFns;

verus! {

/// A JSON document: an object or an array.
#[derive(Debug, PartialEq)]
pub enum JsonStructure {
    Object(Vec<(String, JsonValue)>),
    Array(Vec<JsonValue>),
}

pub ghost enum JsonStructureView {
    Object(Seq<(Seq<char>, JsonView)>),
    Array(Seq<JsonView>),
}

impl View for JsonStructure {
    type V = JsonStructureView;

    open spec fn view(&self) -> JsonStructureView {
        match self {
            JsonStructure::Object(members) => JsonStructureView::Object(members_view(members@)),
            JsonStructure::Array(items) => JsonStructureView::Array(values_view(items@)),
        }
    }
}

impl JsonStructureView {
    /// The document as a JSON value.
    pub open spec fn value(self) -> JsonView {
        match self {
            JsonStructureView::Object(members) => JsonView::Object(members),
            JsonStructureView::Array(items) => JsonView::Array(items),
        }
    }
}

/// The document that a JSON value is, or the error for one that is neither an
/// object nor an array.
pub open spec fn document_of(path: Seq<char>, value: JsonView) -> Result<
    JsonStructureView,
    JsonFileErrorView,
> {
    match value {
        JsonView::Object(members) => Ok(JsonStructureView::Object(members)),
        JsonView::Array(items) => Ok(JsonStructureView::Array(items)),
        _ => Err(format_failure(path)),
    }
}

impl JsonStructure {
    /// Takes a JSON value, as it was read from the file at `path`, for a
    /// document. One that is neither an object nor an array gives
    /// `InvalidFormat`.
    pub fn from_value(path: &str, value: JsonValue) -> (r: Result<JsonStructure, JsonFileError>)
        ensures
            match document_of(path@, value@) {
                Ok(document) => r is Ok && r->Ok_0@ == document,
                Err(error) => r is Err && r->Err_0@ == error,
            },
    {
        match value {
            JsonValue::Object(members) => Ok(JsonStructure::Object(members)),
            JsonValue::Array(items) => Ok(JsonStructure::Array(items)),
            _ => Err(
                JsonFileError::new(
                    JsonFileErrorKind::InvalidFormat,
                    "El JSON no es ni un objeto ni un array",
                    path,
                ),
            ),
        }
    }

    /// The document as a JSON value.
    pub fn into_value(self) -> (r: JsonValue)
        ensures
            r@ == self@.value(),
    {
        match self {
            JsonStructure::Object(members) => JsonValue::Object(members),
            JsonStructure::Array(items) => JsonValue::Array(items),
        }
    }
}

/// How the file system refused a file.
#[derive(Debug, Clone, Copy, PartialEq, Eq, Structural)]
pub enum FileFailureKind {
    NotFound,
    PermissionDenied,
    Other,
}

/// A failure of the file system on one file, as the caller met it: its kind
/// and the message that came with it.
#[derive(Debug)]
pub struct FileFailure {
    pub kind: FileFailureKind,
    pub message: String,
}

/// The kind of error for a file that could not be opened or created:
/// `fallback` where the file system gave no plainer reason.
pub open spec fn failure_kind(
    kind: FileFailureKind,
    fallback: JsonFileErrorKind,
) -> JsonFileErrorKind {
    match kind {
        FileFailureKind::NotFound => JsonFileErrorKind::FileNotFound,
        FileFailureKind::PermissionDenied => JsonFileErrorKind::PermissionDenied,
        FileFailureKind::Other => fallback,
    }
}

/// The error for a file that could not be opened to be read.
pub open spec fn open_failure(path: Seq<char>, failure: FileFailure) -> JsonFileErrorView {
    JsonFileErrorView {
        kind: failure_kind(failure.kind, JsonFileErrorKind::ReadError),
        message: "No se pudo abrir el archivo: "@ + failure.message@,
        location: path,
    }
}

/// The error for a file that holds no JSON; `detail` is what the parser said.
pub open spec fn parse_failure(path: Seq<char>, detail: Seq<char>) -> JsonFileErrorView {
    JsonFileErrorView {
        kind: JsonFileErrorKind::ParseError,
        message: "Error al parsear el JSON: "@ + detail,
        location: path,
    }
}

/// The error for a file whose JSON is neither an object nor an array.
pub open spec fn format_failure(path: Seq<char>) -> JsonFileErrorView {
    JsonFileErrorView {
        kind: JsonFileErrorKind::InvalidFormat,
        message: "El JSON no es ni un objeto ni un array"@,
        location: path,
    }
}

/// The error for a file that could not be created or emptied to be written.
pub open spec fn create_failure(path: Seq<char>, failure: FileFailure) -> JsonFileErrorView {
    JsonFileErrorView {
        kind: failure_kind(failure.kind, JsonFileErrorKind::WriteError),
        message: "No se pudo modificar el archivo: "@ + failure.message@,
        location: path,
    }
}

/// The error for a document that could not be written; `detail` is what the
/// writer said.
pub open spec fn write_failure(path: Seq<char>, detail: Seq<char>) -> JsonFileErrorView {
    JsonFileErrorView {
        kind: JsonFileErrorKind::WriteError,
        message: "Error al escribir el archivo: "@ + detail,
        location: path,
    }
}

fn kind_of(kind: FileFailureKind, fallback: JsonFileErrorKind) -> (r: JsonFileErrorKind)
    ensures
        r == failure_kind(kind, fallback),
{
    match kind {
        FileFailureKind::NotFound => JsonFileErrorKind::FileNotFound,
        FileFailureKind::PermissionDenied => JsonFileErrorKind::PermissionDenied,
        FileFailureKind::Other => fallback,
    }
}

fn with_detail(kind: JsonFileErrorKind, prefix: &str, detail: &str, path: &str) -> (r:
    JsonFileError)
    ensures
        r@ == (JsonFileErrorView { kind, message: prefix@ + detail@, location: path@ }),
{
    let mut message = String::from_str(prefix);
    message.append(detail);
    JsonFileError::new(kind, message.as_str(), path)
}

/// Makes the error for a file that holds no JSON.
pub fn parse_error(path: &str, detail: &str) -> (r: JsonFileError)
    ensures
        r@ == parse_failure(path@, detail@),
{
    with_detail(JsonFileErrorKind::ParseError, "Error al parsear el JSON: ", detail, path)
}

/// Makes the error for a document that could not be written, be it that it
/// could not be turned into text or that the file did not take the text.
pub fn write_error(path: &str, detail: &str) -> (r: JsonFileError)
    ensures
        r@ == write_failure(path@, detail@),
{
    with_detail(JsonFileErrorKind::WriteError, "Error al escribir el archivo: ", detail, path)
}

/// Reads a JSON document from what the file at `path` held. `contents` is
/// the outcome of reading that file: its bytes, or how reading failed.
///
/// A file that could not be read gives `FileNotFound`, `PermissionDenied` or
/// `ReadError`; bytes that are no JSON give `ParseError`; JSON that is
/// neither an object nor an array gives `InvalidFormat`.
pub fn open_json(path: &str, contents: Result<Vec<u8>, FileFailure>) -> (r: Result<
    JsonStructure,
    JsonFileError,
>)
    ensures
        match contents {
            Err(failure) => r is Err && r->Err_0@ == open_failure(path@, failure),
            Ok(bytes) => match json_parsed(bytes@) {
                Some(value) => match document_of(path@, value) {
                    Ok(document) => r is Ok && r->Ok_0@ == document,
                    Err(error) => r is Err && r->Err_0@ == error,
                },
                None => r is Err && exists|detail: Seq<char>|
                    r->Err_0@ == #[trigger] parse_failure(path@, detail),
            },
        },
{
    let bytes = match contents {
        Ok(bytes) => bytes,
        Err(failure) => {
            return Err(
                with_detail(
                    kind_of(failure.kind, JsonFileErrorKind::ReadError),
                    "No se pudo abrir el archivo: ",
                    failure.message.as_str(),
                    path,
                ),
            );
        },
    };
    match parse_value(bytes.as_slice()) {
        Ok(value) => JsonStructure::from_value(path, value),
        Err(error) => {
            let detail = error_text(&error);
            let failed = parse_error(path, detail.as_str());
            assert(failed@ == parse_failure(path@, detail@));
            Err(failed)
        },
    }
}

/// Gives the text to write into the file at `path` for a document.
/// `created` is the outcome of creating or emptying that file, which comes
/// first.
///
/// A file that could not be created gives `FileNotFound`,
/// `PermissionDenied` or `WriteError`; a document that could not be turned
/// into text gives `WriteError`.
pub fn save_json(path: &str, json_data: JsonStructure, created: Result<(), FileFailure>) -> (r:
    Result<String, JsonFileError>)
    ensures
        match created {
            Err(failure) => r is Err && r->Err_0@ == create_failure(path@, failure),
            Ok(_) => match json_text(json_data@.value()) {
                Some(text) => r is Ok && r->Ok_0@ == text,
                None => r is Err && exists|detail: Seq<char>|
                    r->Err_0@ == #[trigger] write_failure(path@, detail),
            },
        },
{
    if let Err(failure) = created {
        return Err(
            with_detail(
                kind_of(failure.kind, JsonFileErrorKind::WriteError),
                "No se pudo modificar el archivo: ",
                failure.message.as_str(),
                path,
            ),
        );
    }
    let value = json_data.into_value();
    match write_value(&value) {
        Ok(text) => Ok(text),
        Err(error) => {
            let detail = error_text(&error);
            let failed = write_error(path, detail.as_str());
            assert(failed@ == write_failure(path@, detail@));
            Err(failed)
        },
    }
}

/// A document, taken as a JSON value and taken back for a document, is the
/// document it was: a document that is saved and opened again comes back as
/// it was wherever reading JSON gives back the value that was written.
pub proof fn lemma_value_is_document(path: Seq<char>, document: JsonStructureView)
    ensures
        document_of(path, document.value()) == Ok::<JsonStructureView, JsonFileErrorView>(
            document,
        ),
{
}

} // verus!
