use crate::models::error::{
    ExpenseError, ExpenseErrorKind, ExpenseErrorView, JsonFileError, JsonFileErrorView,
};
use crate::models::expense::Expense;
use crate::models::records::{opened_view, records, records_of, text_of};
use crate::utils::dates::{is_timestamp, timestamp_readable};
use crate::utils::file_utils::{JsonStructure, JsonStructureView};
use crate::utils::json::{JsonValue, JsonView, json_text, values_view, write_value};
use crate::utils::text::texts;
use vstd::prelude::*;
use vstd::string::StringExecFns;

verus! {

/// One line of the table of expenses: for each of the four columns the
/// text to show, or nothing where the record lacks the field.
#[derive(Debug, PartialEq)]
pub struct Row {
    pub id: Option<String>,
    pub description: Option<String>,
    /// The amount as JSON writes it.
    pub amount: Option<String>,
    /// The moment as the record holds it, in UTC. To show it in local time
    /// is left to the caller.
    pub created_at: Option<String>,
}

pub ghost struct RowView {
    pub id: Option<Seq<char>>,
    pub description: Option<Seq<char>>,
    pub amount: Option<Seq<char>>,
    pub created_at: Option<Seq<char>>,
}

impl View for Row {
    type V = RowView;

    open spec fn view(&self) -> RowView {
        RowView {
            id: text_of(self.id),
            description: text_of(self.description),
            amount: text_of(self.amount),
            created_at: text_of(self.created_at),
        }
    }
}

/// The views of a sequence of rows.
pub open spec fn rows_view(rows: Seq<Row>) -> Seq<RowView> {
    Seq::new(rows.len(), |i: int| rows[i]@)
}

/// What a row shows for a field that should hold a text: the text, `N/A`
/// where the field holds something else, nothing where the record lacks it.
pub open spec fn text_cell(record: JsonView, key: Seq<char>) -> Option<Seq<char>> {
    match record.member(key) {
        None => None,
        Some(JsonView::Text(text)) => Some(text),
        Some(_) => Some("N/A"@),
    }
}

/// An error of `Expense::list`.
pub open spec fn list_failure(message: Seq<char>) -> ExpenseErrorView {
    ExpenseErrorView { kind: ExpenseErrorKind::ReadError, message, location: "Expense::list"@ }
}

/// Whether the moment of a record can be shown: it is a text that reads as
/// a moment in UTC.
pub open spec fn is_moment(value: JsonView) -> bool {
    value is Text && timestamp_readable(value->Text_0)
}

/// The row of a record, given the text of its amount, or nothing where the
/// amount could not be written, and whether its moment reads as one. Both
/// count only where the record has the field.
pub open spec fn row_given(record: JsonView, amount: Option<Seq<char>>, readable: bool) -> Result<
    RowView,
    ExpenseErrorView,
> {
    let moment = record.member("created_at"@);
    if record.member("amount"@) is Some && amount is None {
        Err(list_failure("Error leyendo el monto"@))
    } else if moment is Some && !(moment->Some_0 is Text && readable) {
        Err(list_failure("Error leyendo la fecha"@))
    } else {
        Ok(
            RowView {
                id: text_cell(record, "id"@),
                description: text_cell(record, "description"@),
                amount: if record.member("amount"@) is Some {
                    amount
                } else {
                    None
                },
                created_at: match moment {
                    Some(value) => Some(value->Text_0),
                    None => None,
                },
            },
        )
    }
}

/// The text of the amount of a record, as JSON writes it.
pub open spec fn amount_text(record: JsonView) -> Option<Seq<char>> {
    match record.member("amount"@) {
        Some(value) => json_text(value),
        None => None,
    }
}

/// Whether a record holds a text under `created_at` that reads as a moment.
pub open spec fn has_moment(record: JsonView) -> bool {
    match record.member("created_at"@) {
        Some(value) => is_moment(value),
        None => false,
    }
}

/// The row of a record, or the error for a record whose amount cannot be
/// written or whose moment cannot be read.
pub open spec fn row_of(record: JsonView) -> Result<RowView, ExpenseErrorView> {
    row_given(record, amount_text(record), has_moment(record))
}

/// The rows of the records in their order, or the error of the first record
/// that has one.
pub open spec fn rows_of(records: Seq<JsonView>) -> Result<Seq<RowView>, ExpenseErrorView>
    decreases records.len(),
{
    if records.len() == 0 {
        Ok(Seq::empty())
    } else {
        match rows_of(records.drop_last()) {
            Err(error) => Err(error),
            Ok(rows) => match row_of(records.last()) {
                Err(error) => Err(error),
                Ok(row) => Ok(rows.push(row)),
            },
        }
    }
}

/// What `Expense::list` returns.
pub open spec fn listed(expenses: Result<JsonStructureView, JsonFileErrorView>) -> Result<
    Seq<RowView>,
    ExpenseErrorView,
> {
    match records_of(expenses, "Expense::list"@) {
        Ok(records) => rows_of(records),
        Err(error) => Err(error),
    }
}

/// The titles of the four columns.
pub open spec fn header() -> Seq<Seq<char>> {
    seq!["ID"@, "Description"@, "Amount"@, "Created At"@]
}

/// A cell for a text; none for a missing one.
pub open spec fn cell(text: Option<Seq<char>>) -> Seq<Seq<char>> {
    match text {
        Some(text) => seq![text],
        None => Seq::empty(),
    }
}

/// The cells of a row: those of the fields that the record has, in the
/// order of the columns.
pub open spec fn cells(row: RowView) -> Seq<Seq<char>> {
    cell(row.id) + cell(row.description) + cell(row.amount) + cell(row.created_at)
}

/// The table: the titles, then the cells of each row.
pub open spec fn table_of(rows: Seq<RowView>) -> Seq<Seq<Seq<char>>> {
    Seq::new(
        rows.len() + 1,
        |i: int|
            if i == 0 {
                header()
            } else {
                cells(rows[i - 1])
            },
    )
}

/// The texts of the lines of a table.
pub open spec fn grid(lines: Seq<Vec<String>>) -> Seq<Seq<Seq<char>>> {
    Seq::new(lines.len(), |i: int| texts(lines[i]@))
}

fn text_field(record: &JsonValue, key: &str) -> (r: Option<String>)
    ensures
        text_of(r) == text_cell(record@, key@),
{
    match record.get(key) {
        None => None,
        Some(value) => match value.as_str() {
            Some(text) => Some(String::from_str(text)),
            None => Some(String::from_str("N/A")),
        },
    }
}

fn make_row(record: &JsonValue) -> (r: Result<Row, ExpenseError>)
    ensures
        match row_of(record@) {
            Ok(row) => r is Ok && r->Ok_0@ == row,
            Err(error) => r is Err && r->Err_0@ == error,
        },
{
    let amount = match record.get("amount") {
        Some(value) => match write_value(value) {
            Ok(text) => Some(text),
            Err(_) => None,
        },
        None => None,
    };
    let readable = match record.get("created_at") {
        Some(value) => match value.as_str() {
            Some(text) => is_timestamp(text),
            None => false,
        },
        None => false,
    };
    Row::build(record, amount, readable)
}

fn push_cell(line: &mut Vec<String>, text: &Option<String>)
    ensures
        texts(final(line)@) == texts(old(line)@) + cell(text_of(*text)),
{
    let ghost before = texts(line@);
    match text {
        Some(text) => {
            line.push(text.clone());
            assert(texts(line@) =~= before + seq![text@]);
        },
        None => {
            assert(texts(line@) =~= before + Seq::<Seq<char>>::empty());
        },
    }
}

impl Row {
    /// Makes the row of a record. `amount` is the text of its amount as
    /// JSON writes it, or nothing where that could not be written;
    /// `readable` tells whether the text under `created_at` reads as a
    /// moment. Both count only where the record has the field.
    ///
    /// The row shows a field that should hold a text and holds something
    /// else as `N/A`. A moment that is no text, or does not read, is an
    /// error.
    pub fn build(record: &JsonValue, amount: Option<String>, readable: bool) -> (r: Result<
        Row,
        ExpenseError,
    >)
        ensures
            match row_given(record@, text_of(amount), readable) {
                Ok(row) => r is Ok && r->Ok_0@ == row,
                Err(error) => r is Err && r->Err_0@ == error,
            },
    {
        let amount = match record.get("amount") {
            Some(_) => {
                if amount.is_none() {
                    return Err(
                        ExpenseError::new(
                            ExpenseErrorKind::ReadError,
                            "Error leyendo el monto",
                            "Expense::list",
                        ),
                    );
                }
                amount
            },
            None => None,
        };
        let moment = match record.get("created_at") {
            None => None,
            Some(value) => {
                let text = match value.as_str() {
                    Some(text) => if readable {
                        Some(String::from_str(text))
                    } else {
                        None
                    },
                    None => None,
                };
                if text.is_none() {
                    return Err(
                        ExpenseError::new(
                            ExpenseErrorKind::ReadError,
                            "Error leyendo la fecha",
                            "Expense::list",
                        ),
                    );
                }
                text
            },
        };
        Ok(
            Row {
                id: text_field(record, "id"),
                description: text_field(record, "description"),
                amount,
                created_at: moment,
            },
        )
    }

    /// The cells of the row.
    pub fn cells(&self) -> (r: Vec<String>)
        ensures
            texts(r@) == cells(self@),
    {
        let mut line: Vec<String> = Vec::new();
        assert(texts(line@) =~= Seq::<Seq<char>>::empty());
        push_cell(&mut line, &self.id);
        push_cell(&mut line, &self.description);
        push_cell(&mut line, &self.amount);
        push_cell(&mut line, &self.created_at);
        assert(texts(line@) =~= cells(self@));
        line
    }
}

impl Expense {
    /// Gives the rows of the table of expenses, one for each record and in
    /// the order of the list. `expenses` is the outcome of opening the list.
    ///
    /// A record may lack any field. One that holds a moment which does not
    /// read as one fails the whole operation.
    pub fn list(expenses: Result<JsonStructure, JsonFileError>) -> (r: Result<
        Vec<Row>,
        ExpenseError,
    >)
        ensures
            match listed(opened_view(expenses)) {
                Ok(rows) => r is Ok && rows_view(r->Ok_0@) == rows,
                Err(error) => r is Err && r->Err_0@ == error,
            },
    {
        let all = match records(expenses, "Expense::list") {
            Ok(all) => all,
            Err(error) => {
                return Err(error);
            },
        };
        let ghost views = values_view(all@);
        let mut rows: Vec<Row> = Vec::new();
        let mut i: usize = 0;
        assert(views.take(0) =~= Seq::empty());
        assert(rows_view(rows@) =~= Seq::empty());
        while i < all.len()
            invariant
                i <= all.len(),
                views == values_view(all@),
                listed(opened_view(expenses)) == rows_of(views),
                rows_of(views.take(i as int)) == Ok::<Seq<RowView>, ExpenseErrorView>(
                    rows_view(rows@),
                ),
            decreases all.len() - i,
        {
            let ghost before = rows_view(rows@);
            proof {
                assert(views.take(i + 1).drop_last() =~= views.take(i as int));
                assert(views.take(i + 1).last() == all@[i as int]@);
            }
            match make_row(&all[i]) {
                Ok(row) => {
                    rows.push(row);
                    assert(rows_view(rows@) =~= before.push(row@));
                },
                Err(error) => {
                    proof {
                        lemma_rows_fail(views, i as int);
                    }
                    return Err(error);
                },
            }
            i += 1;
        }
        assert(views.take(all.len() as int) =~= views);
        Ok(rows)
    }

    /// The titles of the four columns.
    pub fn header() -> (r: Vec<String>)
        ensures
            texts(r@) == header(),
    {
        let mut line: Vec<String> = Vec::new();
        line.push(String::from_str("ID"));
        line.push(String::from_str("Description"));
        line.push(String::from_str("Amount"));
        line.push(String::from_str("Created At"));
        assert(texts(line@) =~= header());
        line
    }

    /// Lays out the table of expenses: the titles, then one line for each
    /// row.
    pub fn table(rows: &Vec<Row>) -> (r: Vec<Vec<String>>)
        ensures
            grid(r@) == table_of(rows_view(rows@)),
    {
        let mut lines: Vec<Vec<String>> = Vec::new();
        lines.push(Expense::header());
        let ghost all = rows_view(rows@);
        let mut i: usize = 0;
        assert(grid(lines@) =~= table_of(all.take(0)));
        while i < rows.len()
            invariant
                i <= rows.len(),
                all == rows_view(rows@),
                grid(lines@) == table_of(all.take(i as int)),
            decreases rows.len() - i,
        {
            let ghost before = grid(lines@);
            let line = rows[i].cells();
            lines.push(line);
            assert(grid(lines@) =~= before.push(cells(all[i as int])));
            assert(table_of(all.take(i + 1)) =~= table_of(all.take(i as int)).push(
                cells(all[i as int]),
            ));
            i += 1;
        }
        assert(all.take(rows.len() as int) =~= all);
        lines
    }
}

/// Where the rows of the first records are made and the next record has an
/// error, that error is the error of the whole list.
pub proof fn lemma_rows_fail(records: Seq<JsonView>, i: int)
    requires
        0 <= i < records.len(),
        rows_of(records.take(i)) is Ok,
        row_of(records[i]) is Err,
    ensures
        rows_of(records) == Err::<Seq<RowView>, ExpenseErrorView>(row_of(records[i])->Err_0),
    decreases records.len(),
{
    if i + 1 == records.len() {
        assert(records.drop_last() =~= records.take(i));
    } else {
        assert(records.drop_last().take(i) =~= records.take(i));
        lemma_rows_fail(records.drop_last(), i);
    }
}

} // verus!
