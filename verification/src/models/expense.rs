use crate::models::error::{
    ExpenseError, ExpenseErrorKind, ExpenseErrorView, JsonFileError, JsonFileErrorView,
    located_text,
};
use crate::models::records::{opened_view, text_of, wrapped};
use crate::utils::dates::{moment_text, write_moment};
use crate::utils::file_utils::{JsonStructure, JsonStructureView};
use crate::utils::json::{
    JsonValue, JsonView, find_member, key_index, lemma_key_index_from, lookup, members_view,
    values_view,
};
use crate::utils::numbers::{decimal, decimal_text};
use vstd::prelude::*;
use vstd::string::StringExecFns;

verus! {

/// An amount of money: a double, held as the pattern of its 64 bits, beside
/// the JSON number that stands for it in a record. A double that is not
/// finite has no such number.
#[derive(Debug, PartialEq)]
pub struct Amount {
    pub bits: u64,
    pub number: Option<serde_json::Number>,
}

impl Amount {
    /// Whether the double is above zero: its sign bit is clear, and it is
    /// neither zero nor a NaN. Infinity is above zero.
    pub open spec fn is_positive(self) -> bool {
        0 < self.bits <= 0x7FF0_0000_0000_0000u64
    }

    /// What a record holds for the amount: its number, or `null` where it
    /// has none.
    pub open spec fn json(self) -> JsonView {
        match self.number {
            Some(n) => JsonView::Number(n),
            None => JsonView::Null,
        }
    }

    pub fn new(bits: u64, number: Option<serde_json::Number>) -> (r: Amount)
        ensures
            r == (Amount { bits, number }),
    {
        Amount { bits, number }
    }

    /// Tells whether the amount is above zero.
    pub fn positive(&self) -> (r: bool)
        ensures
            r == self.is_positive(),
    {
        0 < self.bits && self.bits <= 0x7FF0_0000_0000_0000u64
    }

    /// Gives what a record holds for the amount.
    pub fn into_json(self) -> (r: JsonValue)
        ensures
            r@ == self.json(),
    {
        match self.number {
            Some(n) => JsonValue::Number(n),
            None => JsonValue::Null,
        }
    }
}

/// One expense.
#[derive(Debug, PartialEq)]
pub struct Expense {
    pub id: String,
    pub description: String,
    pub amount: Amount,
    /// The moment the expense was recorded, in the form of RFC 3339 and in
    /// UTC.
    pub created_at: String,
}

pub ghost struct ExpenseView {
    pub id: Seq<char>,
    pub description: Seq<char>,
    pub amount: Amount,
    pub created_at: Seq<char>,
}

impl View for Expense {
    type V = ExpenseView;

    open spec fn view(&self) -> ExpenseView {
        ExpenseView {
            id: self.id@,
            description: self.description@,
            amount: self.amount,
            created_at: self.created_at@,
        }
    }
}

impl ExpenseView {
    /// The record that stands for the expense in the list of expenses: an
    /// object of four members, in the order of their keys.
    pub open spec fn record(self) -> JsonView {
        JsonView::Object(
            seq![
                ("amount"@, self.amount.json()),
                ("created_at"@, JsonView::Text(self.created_at)),
                ("description"@, JsonView::Text(self.description)),
                ("id"@, JsonView::Text(self.id)),
            ],
        )
    }
}

/// The number that the document of identifiers holds under `id`, where it
/// is an object that holds an integer there.
pub open spec fn counter(ids: JsonStructureView) -> Option<i64> {
    match ids {
        JsonStructureView::Object(members) => match lookup(members, "id"@) {
            Some(JsonView::Integer(i)) => Some(i),
            _ => None,
        },
        JsonStructureView::Array(_) => None,
    }
}

/// The document of identifiers with `next` under `id`, and all else as it
/// was.
pub open spec fn with_counter(ids: JsonStructureView, next: i64) -> JsonStructureView {
    match ids {
        JsonStructureView::Object(members) => JsonStructureView::Object(
            members.update(key_index(members, "id"@), ("id"@, JsonView::Integer(next))),
        ),
        JsonStructureView::Array(_) => ids,
    }
}

/// An error of `Expense::build`.
pub open spec fn build_failure(kind: ExpenseErrorKind, message: Seq<char>) -> ExpenseErrorView {
    ExpenseErrorView { kind, message, location: "Expense::build"@ }
}

/// The error of `Expense::build` for a file that could not be read or
/// written.
pub open spec fn file_failure(error: JsonFileErrorView) -> ExpenseErrorView {
    build_failure(
        ExpenseErrorKind::CreateError,
        "Error en archivo JSON: "@ + located_text(error.location, error.message),
    )
}

/// The error of `Expense::build` for a document of identifiers that holds
/// no integer under `id`.
pub open spec fn missing_counter() -> ExpenseErrorView {
    build_failure(
        ExpenseErrorKind::CreateError,
        "La clave id no fue encontrada en el archivo json"@,
    )
}

/// What `Expense::build` returns. `moment` is the text of the present
/// moment, or nothing where it could not be written.
pub open spec fn built(
    description: Seq<char>,
    amount: Amount,
    moment: Option<Seq<char>>,
    ids: Result<JsonStructureView, JsonFileErrorView>,
) -> Result<(ExpenseView, JsonStructureView), ExpenseErrorView> {
    if description.len() == 0 {
        Err(
            build_failure(
                ExpenseErrorKind::EmptyDescription,
                "La descripcion no puede estar vacia"@,
            ),
        )
    } else if !amount.is_positive() {
        Err(build_failure(ExpenseErrorKind::InvalidAmountType, "El monto debe ser mayor a 0"@))
    } else if moment is None {
        Err(build_failure(ExpenseErrorKind::CreateError, "La fecha no se puede escribir"@))
    } else {
        match ids {
            Err(error) => Err(file_failure(error)),
            Ok(JsonStructureView::Array(_)) => Err(
                build_failure(ExpenseErrorKind::CreateError, "Error en archivo JSON: es un array"@),
            ),
            Ok(document) => match counter(document) {
                None => Err(missing_counter()),
                Some(id) => if id == i64::MAX {
                    Err(
                        build_failure(
                            ExpenseErrorKind::CreateError,
                            "El id ya no puede crecer"@,
                        ),
                    )
                } else {
                    Ok(
                        (
                            ExpenseView {
                                id: decimal(id as int),
                                description,
                                amount,
                                created_at: moment->Some_0,
                            },
                            with_counter(document, (id + 1) as i64),
                        ),
                    )
                },
            },
        }
    }
}

/// What `Expense::store` returns.
pub open spec fn stored(
    expense: ExpenseView,
    expenses: Result<JsonStructureView, JsonFileErrorView>,
) -> Result<JsonStructureView, ExpenseErrorView> {
    match expenses {
        Err(error) => Err(file_failure(error)),
        Ok(JsonStructureView::Object(_)) => Err(
            build_failure(ExpenseErrorKind::CreateError, "Error en archivo JSON: no es un array"@),
        ),
        Ok(JsonStructureView::Array(records)) => Ok(
            JsonStructureView::Array(records.push(expense.record())),
        ),
    }
}

impl Expense {
    /// Makes the record that stands for the expense in the list of expenses.
    pub fn into_json(self) -> (r: JsonValue)
        ensures
            r@ == self@.record(),
    {
        let mut members: Vec<(String, JsonValue)> = Vec::new();
        members.push((String::from_str("amount"), self.amount.into_json()));
        members.push((String::from_str("created_at"), JsonValue::Text(self.created_at)));
        members.push((String::from_str("description"), JsonValue::Text(self.description)));
        members.push((String::from_str("id"), JsonValue::Text(self.id)));
        assert(members_view(members@) =~= self@.record()->Object_0);
        JsonValue::Object(members)
    }

    /// Makes the error of `build` and of `store` for a file that could not
    /// be read or written.
    pub fn create_failed(error: &JsonFileError) -> (r: ExpenseError)
        ensures
            r@ == file_failure(error@),
    {
        wrapped(ExpenseErrorKind::CreateError, "Error en archivo JSON: ", error, "Expense::build")
    }

    /// The first half of adding an expense: checks the description and the
    /// amount, takes the next identifier from the document of identifiers
    /// and gives the expense together with that document, its counter one
    /// higher, which is to be saved before anything else is done. `seconds`
    /// and `nanos` give the present moment, counted from the start of 1970
    /// in UTC; `ids` is the outcome of opening the document.
    ///
    /// The expense gets the identifier that the document held, not the one
    /// that it holds afterwards.
    pub fn build(
        description: &str,
        amount: Amount,
        seconds: i64,
        nanos: u32,
        ids: Result<JsonStructure, JsonFileError>,
    ) -> (r: Result<(Expense, JsonStructure), ExpenseError>)
        ensures
            match built(description@, amount, moment_text(seconds, nanos), opened_view(ids)) {
                Ok((expense, document)) => r is Ok && r->Ok_0.0@ == expense && r->Ok_0.1@
                    == document,
                Err(error) => r is Err && r->Err_0@ == error,
            },
    {
        Expense::build_at(description, amount, write_moment(seconds, nanos), ids)
    }

    /// Does what `build` does, for a moment that is given as its text:
    /// `created_at` is that text, or nothing where the moment could not be
    /// written.
    pub fn build_at(
        description: &str,
        amount: Amount,
        created_at: Option<String>,
        ids: Result<JsonStructure, JsonFileError>,
    ) -> (r: Result<(Expense, JsonStructure), ExpenseError>)
        ensures
            match built(description@, amount, text_of(created_at), opened_view(ids)) {
                Ok((expense, document)) => r is Ok && r->Ok_0.0@ == expense && r->Ok_0.1@
                    == document,
                Err(error) => r is Err && r->Err_0@ == error,
            },
    {
        if description.is_empty() {
            return Err(
                ExpenseError::new(
                    ExpenseErrorKind::EmptyDescription,
                    "La descripcion no puede estar vacia",
                    "Expense::build",
                ),
            );
        }
        if !amount.positive() {
            return Err(
                ExpenseError::new(
                    ExpenseErrorKind::InvalidAmountType,
                    "El monto debe ser mayor a 0",
                    "Expense::build",
                ),
            );
        }
        let created_at = match created_at {
            Some(text) => text,
            None => {
                return Err(
                    ExpenseError::new(
                        ExpenseErrorKind::CreateError,
                        "La fecha no se puede escribir",
                        "Expense::build",
                    ),
                );
            },
        };
        let mut members = match ids {
            Ok(JsonStructure::Object(members)) => members,
            Ok(JsonStructure::Array(_)) => {
                return Err(
                    ExpenseError::new(
                        ExpenseErrorKind::CreateError,
                        "Error en archivo JSON: es un array",
                        "Expense::build",
                    ),
                );
            },
            Err(error) => {
                return Err(Expense::create_failed(&error));
            },
        };
        let place = find_member(&members, "id");
        let id = if place < members.len() {
            members[place].1.as_i64()
        } else {
            None
        };
        let id = match id {
            Some(id) => id,
            None => {
                return Err(
                    ExpenseError::new(
                        ExpenseErrorKind::CreateError,
                        "La clave id no fue encontrada en el archivo json",
                        "Expense::build",
                    ),
                );
            },
        };
        if id == i64::MAX {
            return Err(
                ExpenseError::new(
                    ExpenseErrorKind::CreateError,
                    "El id ya no puede crecer",
                    "Expense::build",
                ),
            );
        }
        let ghost before = members_view(members@);
        let old = members.remove(place);
        members.insert(place, (old.0, JsonValue::Integer(id + 1)));
        assert(members_view(members@) =~= before.update(
            place as int,
            ("id"@, JsonView::Integer((id + 1) as i64)),
        )) by {
            lemma_key_index_from(before, "id"@, 0);
        }
        let expense = Expense {
            id: decimal_text(id),
            description: String::from_str(description),
            amount,
            created_at,
        };
        Ok((expense, JsonStructure::Object(members)))
    }

    /// The second half of adding an expense: puts its record at the end of
    /// the list of expenses and gives the list, which is to be saved.
    /// `expenses` is the outcome of opening the list.
    pub fn store(self, expenses: Result<JsonStructure, JsonFileError>) -> (r: Result<
        JsonStructure,
        ExpenseError,
    >)
        ensures
            match stored(self@, opened_view(expenses)) {
                Ok(document) => r is Ok && r->Ok_0@ == document,
                Err(error) => r is Err && r->Err_0@ == error,
            },
    {
        let mut records = match expenses {
            Ok(JsonStructure::Array(records)) => records,
            Ok(JsonStructure::Object(_)) => {
                return Err(
                    ExpenseError::new(
                        ExpenseErrorKind::CreateError,
                        "Error en archivo JSON: no es un array",
                        "Expense::build",
                    ),
                );
            },
            Err(error) => {
                return Err(Expense::create_failed(&error));
            },
        };
        let ghost before = values_view(records@);
        let ghost record = self@.record();
        records.push(self.into_json());
        assert(values_view(records@) =~= before.push(record));
        Ok(JsonStructure::Array(records))
    }
}

} // verus!
