use expense_tracker::models::error::{
    ConfigError, ConfigErrorKind, ExpenseError, ExpenseErrorKind, InputError, JsonFileError,
    JsonFileErrorKind,
};

#[test]
fn input_error_without_cause() {
    let e = InputError::new("no line");
    assert_eq!(e.message(), "no line");
    assert_eq!(e.source(), None);
    assert_eq!(e.to_text(), "no line");
}

#[test]
fn input_error_with_cause() {
    let e = InputError::with_cause("no line", "broken pipe");
    assert_eq!(e.message(), "no line");
    assert_eq!(e.source(), Some("broken pipe"));
    assert_eq!(e.to_text(), "no line");
}

#[test]
fn config_error_keeps_kind_and_message() {
    let e = ConfigError::new(ConfigErrorKind::EmptyInput, "nada");
    assert_eq!(*e.kind(), ConfigErrorKind::EmptyInput);
    assert_eq!(e.message(), "nada");
    assert_eq!(e.to_text(), "Error de configuración: nada");
}

#[test]
fn expense_error_keeps_its_parts() {
    let e = ExpenseError::new(ExpenseErrorKind::ReadError, "malo", "Expense::list");
    assert_eq!(*e.kind(), ExpenseErrorKind::ReadError);
    assert_eq!(e.message(), "malo");
    assert_eq!(e.location(), "Expense::list");
    assert_eq!(e.to_text(), "Error en 'Expense::list': malo");
}

#[test]
fn json_file_error_keeps_its_parts() {
    let e = JsonFileError::new(JsonFileErrorKind::InvalidFormat, "malo", "./DB/ids.json");
    assert_eq!(*e.kind(), JsonFileErrorKind::InvalidFormat);
    assert_eq!(e.message(), "malo");
    assert_eq!(e.location(), "./DB/ids.json");
    assert_eq!(e.to_text(), "Error en './DB/ids.json': malo");
}

#[test]
fn error_kinds_are_told_apart() {
    assert_ne!(ConfigErrorKind::InvalidCommand, ConfigErrorKind::MissingArguments);
    assert_ne!(ExpenseErrorKind::InvalidMonth, ExpenseErrorKind::InvalidDateFormat);
    assert_ne!(JsonFileErrorKind::ModifyError, JsonFileErrorKind::DeleteError);
    assert_ne!(JsonFileErrorKind::CreateError, JsonFileErrorKind::WriteError);
}
