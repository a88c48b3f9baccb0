use vstd::prelude::*;
use vstd::string::StringExecFns;

verus! {

/// What an `InputError` holds: its message and, where one was given, the
/// text of the failure that caused it.
pub ghost struct InputErrorView {
    pub message: Seq<char>,
    pub cause: Option<Seq<char>>,
}

/// A line could not be read from the input stream.
#[derive(Debug)]
pub struct InputError {
    message: String,
    cause: Option<String>,
}

impl View for InputError {
    type V = InputErrorView;

    closed spec fn view(&self) -> InputErrorView {
        InputErrorView {
            message: self.message@,
            cause: match self.cause {
                Some(c) => Some(c@),
                None => None,
            },
        }
    }
}

impl InputError {
    pub fn new(msg: &str) -> (r: InputError)
        ensures
            r@ == (InputErrorView { message: msg@, cause: None }),
    {
        InputError { message: String::from_str(msg), cause: None }
    }

    pub fn with_cause(msg: &str, cause: &str) -> (r: InputError)
        ensures
            r@ == (InputErrorView { message: msg@, cause: Some(cause@) }),
    {
        InputError { message: String::from_str(msg), cause: Some(String::from_str(cause)) }
    }

    pub fn message(&self) -> (r: &str)
        ensures
            r@ == self@.message,
    {
        self.message.as_str()
    }

    /// The text of the failure behind this error, if one was recorded.
    pub fn source(&self) -> (r: Option<&str>)
        ensures
            r is Some <==> self@.cause is Some,
            r is Some ==> r->Some_0@ == self@.cause->Some_0,
    {
        match &self.cause {
            Some(c) => Some(c.as_str()),
            None => None,
        }
    }

    /// The line that reports this error: its message.
    pub fn to_text(&self) -> (r: String)
        ensures
            r@ == self@.message,
    {
        String::from_str(self.message.as_str())
    }
}

/// Why a line is no command.
#[derive(Debug, Clone, Copy, PartialEq, Eq, Structural)]
pub enum ConfigErrorKind {
    EmptyInput,
    InvalidCommand,
    MissingArguments,
    InvalidTypeData,
}

pub ghost struct ConfigErrorView {
    pub kind: ConfigErrorKind,
    pub message: Seq<char>,
}

/// A line was read and is no command.
#[derive(Debug)]
pub struct ConfigError {
    kind: ConfigErrorKind,
    message: String,
}

impl View for ConfigError {
    type V = ConfigErrorView;

    closed spec fn view(&self) -> ConfigErrorView {
        ConfigErrorView { kind: self.kind, message: self.message@ }
    }
}

impl ConfigError {
    pub fn new(kind: ConfigErrorKind, message: &str) -> (r: Self)
        ensures
            r@ == (ConfigErrorView { kind, message: message@ }),
    {
        ConfigError { kind, message: String::from_str(message) }
    }

    pub fn kind(&self) -> (r: &ConfigErrorKind)
        ensures
            *r == self@.kind,
    {
        &self.kind
    }

    pub fn message(&self) -> (r: &str)
        ensures
            r@ == self@.message,
    {
        self.message.as_str()
    }

    /// The line that reports this error.
    pub fn to_text(&self) -> (r: String)
        ensures
            r@ == "Error de configuración: "@ + self@.message,
    {
        let mut text = String::from_str("Error de configuración: ");
        text.append(self.message.as_str());
        text
    }
}

/// Why an operation on the expenses failed.
#[derive(Debug, Clone, Copy, PartialEq, Eq, Structural)]
pub enum ExpenseErrorKind {
    CreateError,
    EmptyDescription,
    InvalidAmountType,
    ReadError,
    WriteError,
    InvalidMonth,
    InvalidDateFormat,
}

pub ghost struct ExpenseErrorView {
    pub kind: ExpenseErrorKind,
    pub message: Seq<char>,
    pub location: Seq<char>,
}

/// An operation on the expenses failed.
#[derive(Debug)]
pub struct ExpenseError {
    kind: ExpenseErrorKind,
    message: String,
    location: String,
}

impl View for ExpenseError {
    type V = ExpenseErrorView;

    closed spec fn view(&self) -> ExpenseErrorView {
        ExpenseErrorView { kind: self.kind, message: self.message@, location: self.location@ }
    }
}

/// The line that reports an error of a file or of an expense: where it
/// happened, then what.
pub open spec fn located_text(location: Seq<char>, message: Seq<char>) -> Seq<char> {
    "Error en '"@ + location + "': "@ + message
}

fn located(location: &str, message: &str) -> (r: String)
    ensures
        r@ == located_text(location@, message@),
{
    let mut text = String::from_str("Error en '");
    text.append(location);
    text.append("': ");
    text.append(message);
    text
}

impl ExpenseError {
    pub fn new(kind: ExpenseErrorKind, message: &str, location: &str) -> (r: Self)
        ensures
            r@ == (ExpenseErrorView { kind, message: message@, location: location@ }),
    {
        ExpenseError {
            kind,
            message: String::from_str(message),
            location: String::from_str(location),
        }
    }

    pub fn kind(&self) -> (r: &ExpenseErrorKind)
        ensures
            *r == self@.kind,
    {
        &self.kind
    }

    pub fn message(&self) -> (r: &String)
        ensures
            r@ == self@.message,
    {
        &self.message
    }

    pub fn location(&self) -> (r: &String)
        ensures
            r@ == self@.location,
    {
        &self.location
    }

    /// The line that reports this error.
    pub fn to_text(&self) -> (r: String)
        ensures
            r@ == located_text(self@.location, self@.message),
    {
        located(self.location.as_str(), self.message.as_str())
    }
}

/// Why a JSON file could not be read or written.
#[derive(Debug, Clone, Copy, PartialEq, Eq, Structural)]
pub enum JsonFileErrorKind {
    /// The file is not there.
    FileNotFound,
    /// The file may not be read or written.
    PermissionDenied,
    /// The file could not be read.
    ReadError,
    /// The file could not be written.
    WriteError,
    /// The file does not hold JSON.
    ParseError,
    /// The file holds JSON that is neither an object nor an array.
    InvalidFormat,
    ModifyError,
    DeleteError,
    CreateError,
}

pub ghost struct JsonFileErrorView {
    pub kind: JsonFileErrorKind,
    pub message: Seq<char>,
    pub location: Seq<char>,
}

/// A JSON file could not be read or written.
#[derive(Debug)]
pub struct JsonFileError {
    kind: JsonFileErrorKind,
    message: String,
    location: String,
}

impl View for JsonFileError {
    type V = JsonFileErrorView;

    closed spec fn view(&self) -> JsonFileErrorView {
        JsonFileErrorView { kind: self.kind, message: self.message@, location: self.location@ }
    }
}

impl JsonFileError {
    pub fn new(kind: JsonFileErrorKind, message: &str, location: &str) -> (r: Self)
        ensures
            r@ == (JsonFileErrorView { kind, message: message@, location: location@ }),
    {
        JsonFileError {
            kind,
            message: String::from_str(message),
            location: String::from_str(location),
        }
    }

    pub fn kind(&self) -> (r: &JsonFileErrorKind)
        ensures
            *r == self@.kind,
    {
        &self.kind
    }

    pub fn message(&self) -> (r: &String)
        ensures
            r@ == self@.message,
    {
        &self.message
    }

    pub fn location(&self) -> (r: &String)
        ensures
            r@ == self@.location,
    {
        &self.location
    }

    /// The line that reports this error.
    pub fn to_text(&self) -> (r: String)
        ensures
            r@ == located_text(self@.location, self@.message),
    {
        located(self.location.as_str(), self.message.as_str())
    }
}

} // verus!
