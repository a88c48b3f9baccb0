use expense_tracker::models::config::Config;
use expense_tracker::models::error::{ExpenseErrorKind, JsonFileError, JsonFileErrorKind};
use expense_tracker::models::expense::{Amount, Expense};
use expense_tracker::models::listing::Row;
use expense_tracker::utils::file_utils::{open_json, save_json, JsonStructure};
use expense_tracker::utils::json::JsonValue;

fn amount(x: f64) -> Amount {
    Amount::new(x.to_bits(), serde_json::Number::from_f64(x))
}

fn fraction(x: f64) -> JsonValue {
    JsonValue::Number(serde_json::Number::from_f64(x).unwrap())
}

fn text(s: &str) -> JsonValue {
    JsonValue::Text(String::from(s))
}

fn opened(path: &str, contents: &str) -> Result<JsonStructure, JsonFileError> {
    open_json(path, Ok(contents.as_bytes().to_vec()))
}

fn ids(contents: &str) -> Result<JsonStructure, JsonFileError> {
    opened("./DB/ids.json", contents)
}

fn list(contents: &str) -> Result<JsonStructure, JsonFileError> {
    opened("./DB/expenses.json", contents)
}

fn missing() -> Result<JsonStructure, JsonFileError> {
    Err(JsonFileError::new(JsonFileErrorKind::FileNotFound, "no file", "./DB/expenses.json"))
}

fn record(id: &str, description: &str, x: f64, created_at: &str) -> String {
    format!(
        "{{\"amount\":{:?},\"created_at\":\"{}\",\"description\":\"{}\",\"id\":\"{}\"}}",
        x, created_at, description, id
    )
}

fn total(amounts: &[JsonValue]) -> f64 {
    let mut sum = 0.0;
    for value in amounts {
        sum += match value {
            JsonValue::Integer(i) => *i as f64,
            JsonValue::Number(n) => n.as_f64().unwrap_or(0.0),
            other => panic!("{:?} is no number", other),
        };
    }
    sum
}

const NOW: &str = "2024-05-17T08:30:00.123456Z";
const SECONDS: i64 = 1715934600;
const NANOS: u32 = 123_456_000;

#[test]
fn add_from_an_empty_state() {
    let config = Config::build("add --description coffee --amount 4.5").unwrap();
    let x: f64 = config.amount.parse().unwrap();
    let (expense, new_ids) =
        Expense::build(&config.descripcion, amount(x), SECONDS, NANOS, ids("{\"id\": 0}")).unwrap();
    assert_eq!(expense.id, "0");
    assert_eq!(expense.description, "coffee");
    assert_eq!(expense.amount, amount(4.5));
    assert_eq!(expense.created_at, NOW);
    assert_eq!(save_json("./DB/ids.json", new_ids, Ok(())).unwrap(), "{\"id\":1}");

    let new_list = expense.store(list("[]")).unwrap();
    let written = save_json("./DB/expenses.json", new_list, Ok(())).unwrap();
    assert_eq!(
        written,
        "[{\"amount\":4.5,\"created_at\":\"2024-05-17T08:30:00.123456Z\",\
         \"description\":\"coffee\",\"id\":\"0\"}]"
    );
    let reopened = list(&written).unwrap();
    assert_eq!(
        reopened,
        JsonStructure::Array(vec![JsonValue::Object(vec![
            (String::from("amount"), fraction(4.5)),
            (String::from("created_at"), text(NOW)),
            (String::from("description"), text("coffee")),
            (String::from("id"), text("0")),
        ])])
    );
}

#[test]
fn add_raises_counter_and_count_by_one() {
    let before = format!("[{},{}]", record("3", "a", 1.0, NOW), record("5", "b", 2.0, NOW));
    let (expense, new_ids) =
        Expense::build("tea", amount(2.25), SECONDS, NANOS, ids("{\"id\": 41, \"owner\": \"ana\"}")).unwrap();
    assert_eq!(expense.id, "41");
    assert_eq!(
        new_ids,
        JsonStructure::Object(vec![
            (String::from("id"), JsonValue::Integer(42)),
            (String::from("owner"), text("ana")),
        ])
    );
    let after = expense.store(list(&before)).unwrap();
    match (list(&before).unwrap(), after) {
        (JsonStructure::Array(old), JsonStructure::Array(new)) => {
            assert_eq!(new.len(), old.len() + 1);
            assert_eq!(&new[..old.len()], &old[..]);
            assert_eq!(new[old.len()].get("id"), Some(&text("41")));
            assert_eq!(new[old.len()].get("amount"), Some(&fraction(2.25)));
        }
        other => panic!("{:?}", other),
    }
}

#[test]
fn add_does_not_reuse_identifiers() {
    let (first, new_ids) = Expense::build("a", amount(1.0), SECONDS, NANOS, ids("{\"id\": 7}")).unwrap();
    let written = save_json("./DB/ids.json", new_ids, Ok(())).unwrap();
    let (second, new_ids) = Expense::build("b", amount(1.0), SECONDS, NANOS, ids(&written)).unwrap();
    assert_eq!(first.id, "7");
    assert_eq!(second.id, "8");
    assert_eq!(save_json("./DB/ids.json", new_ids, Ok(())).unwrap(), "{\"id\":9}");
}

#[test]
fn add_refuses_an_empty_description() {
    let error = Expense::build("", amount(4.5), SECONDS, NANOS, ids("{\"id\": 0}")).unwrap_err();
    assert_eq!(*error.kind(), ExpenseErrorKind::EmptyDescription);
    assert_eq!(error.message(), "La descripcion no puede estar vacia");
    assert_eq!(error.location(), "Expense::build");
    let error = Expense::build("", amount(-1.0), SECONDS, NANOS, missing()).unwrap_err();
    assert_eq!(*error.kind(), ExpenseErrorKind::EmptyDescription);
}

#[test]
fn add_refuses_an_amount_that_is_not_above_zero() {
    for x in [0.0, -0.0, -4.5, f64::NEG_INFINITY, f64::NAN, -f64::NAN, -f64::MIN_POSITIVE] {
        let error = Expense::build("tea", amount(x), SECONDS, NANOS, ids("{\"id\": 0}")).unwrap_err();
        assert_eq!(*error.kind(), ExpenseErrorKind::InvalidAmountType, "{:?}", x);
        assert_eq!(error.message(), "El monto debe ser mayor a 0");
        assert_eq!(error.location(), "Expense::build");
    }
    let error = Expense::build("tea", amount(0.0), SECONDS, NANOS, missing()).unwrap_err();
    assert_eq!(*error.kind(), ExpenseErrorKind::InvalidAmountType);
}

#[test]
fn amount_above_zero_is_told_from_the_bits() {
    for x in [4.5, 1.0, f64::MIN_POSITIVE, 5e-324, f64::MAX, f64::INFINITY] {
        assert!(amount(x).positive(), "{:?}", x);
        assert_eq!(amount(x).positive(), x > 0.0);
    }
    for x in [0.0, -0.0, -1.0, -5e-324, f64::NEG_INFINITY, f64::NAN] {
        assert!(!amount(x).positive(), "{:?}", x);
        assert_eq!(amount(x).positive(), x > 0.0);
    }
}

#[test]
fn add_stores_null_for_an_amount_without_end() {
    let (expense, _) =
        Expense::build("all", amount(f64::INFINITY), SECONDS, NANOS, ids("{\"id\": 0}")).unwrap();
    let new_list = expense.store(list("[]")).unwrap();
    let written = save_json("./DB/expenses.json", new_list, Ok(())).unwrap();
    assert!(written.starts_with("[{\"amount\":null,"));
}

#[test]
fn add_needs_a_counter() {
    let cases = [
        "{}",
        "{\"id\": \"0\"}",
        "{\"id\": 1.5}",
        "{\"id\": null}",
        "{\"ID\": 1}",
        "{\"id\": 18446744073709551615}",
    ];
    for case in cases {
        let error = Expense::build("tea", amount(1.0), SECONDS, NANOS, ids(case)).unwrap_err();
        assert_eq!(*error.kind(), ExpenseErrorKind::CreateError, "{:?}", case);
        assert_eq!(error.message(), "La clave id no fue encontrada en el archivo json");
    }
    let error = Expense::build("tea", amount(1.0), SECONDS, NANOS, ids("[]")).unwrap_err();
    assert_eq!(*error.kind(), ExpenseErrorKind::CreateError);
    assert_eq!(error.message(), "Error en archivo JSON: es un array");
    let error = Expense::build("tea", amount(1.0), SECONDS, NANOS, ids("{\"id\": 9223372036854775807}"))
        .unwrap_err();
    assert_eq!(*error.kind(), ExpenseErrorKind::CreateError);
    assert_eq!(error.message(), "El id ya no puede crecer");
}

#[test]
fn add_takes_a_counter_below_zero() {
    let (expense, new_ids) = Expense::build("tea", amount(1.0), SECONDS, NANOS, ids("{\"id\": -1}")).unwrap();
    assert_eq!(expense.id, "-1");
    assert_eq!(save_json("./DB/ids.json", new_ids, Ok(())).unwrap(), "{\"id\":0}");
}

#[test]
fn add_wraps_the_errors_of_the_files() {
    let error = Expense::build("tea", amount(1.0), SECONDS, NANOS, missing()).unwrap_err();
    assert_eq!(*error.kind(), ExpenseErrorKind::CreateError);
    assert_eq!(
        error.message(),
        "Error en archivo JSON: Error en './DB/expenses.json': no file"
    );
    assert_eq!(error.location(), "Expense::build");

    let (expense, _) = Expense::build("tea", amount(1.0), SECONDS, NANOS, ids("{\"id\": 0}")).unwrap();
    let error = expense.store(missing()).unwrap_err();
    assert_eq!(*error.kind(), ExpenseErrorKind::CreateError);
    assert_eq!(error.location(), "Expense::build");

    let (expense, _) = Expense::build("tea", amount(1.0), SECONDS, NANOS, ids("{\"id\": 0}")).unwrap();
    let error = expense.store(list("{}")).unwrap_err();
    assert_eq!(*error.kind(), ExpenseErrorKind::CreateError);
    assert_eq!(error.message(), "Error en archivo JSON: no es un array");

    let failed = JsonFileError::new(JsonFileErrorKind::WriteError, "disk full", "ids.json");
    let error = Expense::create_failed(&failed);
    assert_eq!(*error.kind(), ExpenseErrorKind::CreateError);
    assert_eq!(error.message(), "Error en archivo JSON: Error en 'ids.json': disk full");
}

#[test]
fn add_writes_the_moment_as_json_does() {
    let at = |seconds: i64, nanos: u32| -> String {
        let (expense, _) =
            Expense::build("tea", amount(1.0), seconds, nanos, ids("{\"id\": 0}")).unwrap();
        expense.created_at
    };
    assert_eq!(at(0, 0), "1970-01-01T00:00:00Z");
    assert_eq!(at(1715934600, 0), "2024-05-17T08:30:00Z");
    assert_eq!(at(1715934600, 120_000_000), "2024-05-17T08:30:00.120Z");
    assert_eq!(at(1715934600, 123_456_000), "2024-05-17T08:30:00.123456Z");
    assert_eq!(at(1715934600, 1), "2024-05-17T08:30:00.000000001Z");
    assert_eq!(at(-1, 999_999_999), "1969-12-31T23:59:59.999999999Z");
}

#[test]
fn add_refuses_a_moment_out_of_reach() {
    for (seconds, nanos) in [(i64::MAX, 0), (i64::MIN, 0), (0, 2_000_000_000)] {
        let error =
            Expense::build("tea", amount(1.0), seconds, nanos, ids("{\"id\": 0}")).unwrap_err();
        assert_eq!(*error.kind(), ExpenseErrorKind::CreateError);
        assert_eq!(error.message(), "La fecha no se puede escribir");
        assert_eq!(error.location(), "Expense::build");
    }
    let error = Expense::build_at("tea", amount(1.0), None, ids("{\"id\": 0}")).unwrap_err();
    assert_eq!(error.message(), "La fecha no se puede escribir");
    let error = Expense::build_at("", amount(1.0), None, ids("{\"id\": 0}")).unwrap_err();
    assert_eq!(*error.kind(), ExpenseErrorKind::EmptyDescription);
    let error = Expense::build_at("tea", amount(0.0), None, ids("[]")).unwrap_err();
    assert_eq!(*error.kind(), ExpenseErrorKind::InvalidAmountType);
}

#[test]
fn add_takes_the_moment_as_it_is_given() {
    let (expense, new_ids) = Expense::build_at(
        "tea",
        amount(1.0),
        Some(String::from("2030-01-01T00:00:00Z")),
        ids("{\"id\": 4}"),
    )
    .unwrap();
    assert_eq!(expense.created_at, "2030-01-01T00:00:00Z");
    assert_eq!(expense.id, "4");
    assert_eq!(save_json("./DB/ids.json", new_ids, Ok(())).unwrap(), "{\"id\":5}");
}

#[test]
fn rows_are_made_from_what_was_read() {
    let record = JsonValue::Object(vec![
        (String::from("amount"), JsonValue::Integer(3)),
        (String::from("created_at"), text(NOW)),
        (String::from("id"), text("0")),
    ]);
    let row = Row::build(&record, Some(String::from("3")), true).unwrap();
    assert_eq!(row.cells(), vec!["0", "3", NOW]);
    let error = Row::build(&record, Some(String::from("3")), false).unwrap_err();
    assert_eq!(error.message(), "Error leyendo la fecha");
    let error = Row::build(&record, None, true).unwrap_err();
    assert_eq!(error.message(), "Error leyendo el monto");
    let bare = JsonValue::Object(vec![(String::from("description"), text("tea"))]);
    let row = Row::build(&bare, Some(String::from("3")), false).unwrap();
    assert_eq!(row.cells(), vec!["tea"]);
    assert_eq!(row.amount, None);
}

#[test]
fn records_fall_in_the_month_that_was_read() {
    let dated = JsonValue::Object(vec![(String::from("created_at"), text(NOW))]);
    let undated = JsonValue::Object(vec![(String::from("created_at"), JsonValue::Integer(5))]);
    assert_eq!(Expense::counts_in(&dated, Some(5), 5), Some(true));
    assert_eq!(Expense::counts_in(&dated, Some(6), 5), Some(false));
    assert_eq!(Expense::counts_in(&dated, None, 5), None);
    assert_eq!(Expense::counts_in(&undated, None, 5), Some(false));
    assert_eq!(Expense::counts_in(&undated, Some(5), 5), Some(false));
    assert_eq!(Expense::counts_in(&JsonValue::Null, Some(5), 5), Some(false));
}

#[test]
fn record_holds_the_four_fields_by_key() {
    let expense = Expense {
        id: String::from("12"),
        description: String::from("té"),
        amount: amount(0.5),
        created_at: String::from(NOW),
    };
    assert_eq!(
        expense.into_json(),
        JsonValue::Object(vec![
            (String::from("amount"), fraction(0.5)),
            (String::from("created_at"), text(NOW)),
            (String::from("description"), text("té")),
            (String::from("id"), text("12")),
        ])
    );
    assert_eq!(amount(f64::NAN).into_json(), JsonValue::Null);
}

#[test]
fn delete_leaves_the_other_record() {
    let before = format!("[{},{}]", record("0", "a", 1.0, NOW), record("1", "b", 2.0, NOW));
    let after = Expense::delete("0", list(&before)).unwrap();
    let expected = list(&format!("[{}]", record("1", "b", 2.0, NOW))).unwrap();
    assert_eq!(after, expected);
}

#[test]
fn delete_takes_several_identifiers() {
    let before = format!(
        "[{},{},{},{}]",
        record("0", "a", 1.0, NOW),
        record("1", "b", 2.0, NOW),
        record("2", "c", 3.0, NOW),
        record("1", "d", 4.0, NOW)
    );
    let after = Expense::delete(" 1\t0  9 ", list(&before)).unwrap();
    let expected = list(&format!("[{}]", record("2", "c", 3.0, NOW))).unwrap();
    assert_eq!(after, expected);
}

#[test]
fn delete_of_an_absent_identifier_changes_nothing() {
    let before = format!("[{},{}]", record("0", "a", 1.0, NOW), record("1", "b", 2.0, NOW));
    let once = Expense::delete("1", list(&before)).unwrap();
    let written = save_json("./DB/expenses.json", once, Ok(())).unwrap();
    let twice = Expense::delete("1", list(&written)).unwrap();
    assert_eq!(twice, list(&written).unwrap());
    assert_eq!(Expense::delete("", list(&before)).unwrap(), list(&before).unwrap());
    assert_eq!(Expense::delete("7", list("[]")).unwrap(), JsonStructure::Array(vec![]));
}

#[test]
fn delete_matches_whole_texts_only() {
    let before = "[{\"id\":\"10\"},{\"id\":10},{\"id\":\"1\",\"x\":[1,{\"y\":null}]},{},7,\
                  {\"id\":\" 1\"},{\"id\":null}]";
    let after = Expense::delete("10 01", list(before)).unwrap();
    let expected =
        list("[{\"id\":10},{\"id\":\"1\",\"x\":[1,{\"y\":null}]},{},7,{\"id\":\" 1\"},{\"id\":null}]")
            .unwrap();
    assert_eq!(after, expected);
}

#[test]
fn delete_reports_a_list_that_cannot_be_read() {
    let error = Expense::delete("1", missing()).unwrap_err();
    assert_eq!(*error.kind(), ExpenseErrorKind::ReadError);
    assert_eq!(
        error.message(),
        "Error leyendo el archivo JSON: Error en './DB/expenses.json': no file"
    );
    assert_eq!(error.location(), "Expense::delete");
    let error = Expense::delete("1", list("{\"id\": \"1\"}")).unwrap_err();
    assert_eq!(*error.kind(), ExpenseErrorKind::ReadError);
    assert_eq!(error.message(), "Error en la estructura del JSON");
    let failed = JsonFileError::new(JsonFileErrorKind::WriteError, "disk full", "e.json");
    let error = Expense::write_failed(&failed);
    assert_eq!(*error.kind(), ExpenseErrorKind::WriteError);
    assert_eq!(error.message(), "Error escribiendo los datos: Error en 'e.json': disk full");
    assert_eq!(error.location(), "Expense::delete");
}

#[test]
fn list_of_nothing_is_the_header_alone() {
    let rows = Expense::list(list("[]")).unwrap();
    assert_eq!(rows, Vec::<Row>::new());
    assert_eq!(Expense::table(&rows), vec![vec!["ID", "Description", "Amount", "Created At"]]);
    assert_eq!(Expense::header(), vec!["ID", "Description", "Amount", "Created At"]);
}

#[test]
fn list_gives_one_row_for_each_record() {
    let before = format!(
        "[{},{}]",
        record("0", "coffee", 4.5, "2024-05-17T08:30:00.123456Z"),
        record("1", "tea", 2.0, "2024-06-01T00:00:00Z")
    );
    let rows = Expense::list(list(&before)).unwrap();
    assert_eq!(rows.len(), 2);
    assert_eq!(
        rows[0],
        Row {
            id: Some(String::from("0")),
            description: Some(String::from("coffee")),
            amount: Some(String::from("4.5")),
            created_at: Some(String::from("2024-05-17T08:30:00.123456Z")),
        }
    );
    assert_eq!(rows[1].amount, Some(String::from("2.0")));
    assert_eq!(
        Expense::table(&rows),
        vec![
            vec!["ID", "Description", "Amount", "Created At"],
            vec!["0", "coffee", "4.5", "2024-05-17T08:30:00.123456Z"],
            vec!["1", "tea", "2.0", "2024-06-01T00:00:00Z"],
        ]
    );
}

#[test]
fn list_leaves_out_the_fields_that_a_record_lacks() {
    let before = "[{\"id\":\"0\"},{\"description\":7,\"amount\":\"x\"},{},\
                  {\"id\":3,\"amount\":[1,2],\"created_at\":\"2024-06-01 10:00:00+02:00\"},5]";
    let rows = Expense::list(list(before)).unwrap();
    assert_eq!(
        Expense::table(&rows),
        vec![
            vec!["ID", "Description", "Amount", "Created At"],
            vec!["0"],
            vec!["N/A", "\"x\""],
            vec![],
            vec!["N/A", "[1,2]", "2024-06-01 10:00:00+02:00"],
            vec![],
        ]
    );
    assert_eq!(rows[1].id, None);
    assert_eq!(rows[1].description, Some(String::from("N/A")));
}

#[test]
fn list_fails_on_a_moment_that_does_not_read() {
    for moment in ["\"yesterday\"", "\"2024-13-01T00:00:00Z\"", "\"2024-05-17T08:30:00\"", "17", "null"] {
        let before = format!("[{{\"id\":\"0\"}},{{\"id\":\"1\",\"created_at\":{}}}]", moment);
        let error = Expense::list(list(&before)).unwrap_err();
        assert_eq!(*error.kind(), ExpenseErrorKind::ReadError, "{}", moment);
        assert_eq!(error.message(), "Error leyendo la fecha");
        assert_eq!(error.location(), "Expense::list");
    }
}

#[test]
fn list_reports_a_list_that_cannot_be_read() {
    let error = Expense::list(missing()).unwrap_err();
    assert_eq!(*error.kind(), ExpenseErrorKind::ReadError);
    assert_eq!(error.location(), "Expense::list");
    let error = Expense::list(list("{}")).unwrap_err();
    assert_eq!(*error.kind(), ExpenseErrorKind::ReadError);
    assert_eq!(error.message(), "Error en la estructura del JSON");
}

#[test]
fn summary_without_filter_takes_every_amount() {
    let before = format!(
        "[{},{},{{\"amount\":3}},{{\"amount\":\"9\"}},{{\"id\":\"x\"}},{{\"amount\":null}},7]",
        record("0", "a", 4.5, "not a moment"),
        record("1", "b", 2.25, NOW)
    );
    let amounts = Expense::summary("", list(&before)).unwrap();
    assert_eq!(amounts, vec![fraction(4.5), fraction(2.25), JsonValue::Integer(3)]);
    assert_eq!(total(&amounts), 9.75);
    assert_eq!(Expense::summary("", list("[]")).unwrap(), vec![]);
}

#[test]
fn summary_does_not_depend_on_the_order() {
    let a = record("0", "a", 4.5, NOW);
    let b = record("1", "b", 2.25, NOW);
    let c = record("2", "c", 8.0, NOW);
    let one = Expense::summary("", list(&format!("[{},{},{}]", a, b, c))).unwrap();
    let other = Expense::summary("", list(&format!("[{},{},{}]", c, a, b))).unwrap();
    assert_eq!(one, vec![fraction(4.5), fraction(2.25), fraction(8.0)]);
    assert_eq!(other, vec![fraction(8.0), fraction(4.5), fraction(2.25)]);
    assert_eq!(total(&one), 14.75);
    assert_eq!(total(&other), 14.75);
}

#[test]
fn summary_of_a_month_takes_its_records() {
    let before = format!(
        "[{},{},{},{{\"amount\":50}},{{\"amount\":60,\"created_at\":5}},\
         {{\"created_at\":\"2020-05-01T00:00:00.0Z\"}}]",
        record("0", "a", 4.5, "2024-05-17T08:30:00.123456Z"),
        record("1", "b", 2.0, "2024-06-01T00:00:00.000000Z"),
        record("2", "c", 1.0, "2023-05-31T23:59:59.999999Z")
    );
    assert_eq!(
        Expense::summary("5", list(&before)).unwrap(),
        vec![fraction(4.5), fraction(1.0)]
    );
    assert_eq!(Expense::summary("06", list(&before)).unwrap(), vec![fraction(2.0)]);
    assert_eq!(Expense::summary("+7", list(&before)).unwrap(), vec![]);
}

#[test]
fn summary_refuses_what_is_no_month() {
    let before = format!("[{}]", record("0", "a", 4.5, NOW));
    for filter in ["13", "0", "enero", "1.5", "-1", "1 2", "x"] {
        let error = Expense::summary(filter, list(&before)).unwrap_err();
        assert_eq!(*error.kind(), ExpenseErrorKind::InvalidMonth, "{:?}", filter);
        assert_eq!(error.message(), "Mes no valido");
        assert_eq!(error.location(), "Expense::summary");
    }
    let error = Expense::summary("13", list("[]")).unwrap_err();
    assert_eq!(*error.kind(), ExpenseErrorKind::InvalidMonth);
    let error = Expense::summary("0", list("[]")).unwrap_err();
    assert_eq!(*error.kind(), ExpenseErrorKind::InvalidMonth);
}

#[test]
fn summary_of_a_month_fails_on_a_moment_that_does_not_read() {
    for moment in ["yesterday", "2024-05-17 08:30:00Z", "2024-05-17T08:30:00+00:00", "2024-05-17"] {
        let before = format!(
            "[{},{}]",
            record("0", "a", 4.5, NOW),
            record("1", "b", 2.0, moment)
        );
        let error = Expense::summary("5", list(&before)).unwrap_err();
        assert_eq!(*error.kind(), ExpenseErrorKind::InvalidDateFormat, "{:?}", moment);
        assert_eq!(error.message(), "Formato de fecha no valido");
        assert_eq!(error.location(), "Expense::summary");
    }
}

#[test]
fn summary_reports_a_list_that_cannot_be_read() {
    let error = Expense::summary("", missing()).unwrap_err();
    assert_eq!(*error.kind(), ExpenseErrorKind::ReadError);
    assert_eq!(error.location(), "Expense::summary");
    let error = Expense::summary("13", list("{}")).unwrap_err();
    assert_eq!(*error.kind(), ExpenseErrorKind::ReadError);
    assert_eq!(error.message(), "Error en la estructura del JSON");
}
