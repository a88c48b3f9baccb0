use crate::models::error::{
    ExpenseError, ExpenseErrorKind, ExpenseErrorView, JsonFileError, JsonFileErrorView,
};
use crate::models::expense::Expense;
use crate::models::records::{opened_view, records, records_of};
use crate::utils::dates::{month_in, timestamp_month};
use crate::utils::file_utils::{JsonStructure, JsonStructureView};
use crate::utils::json::{JsonValue, JsonView, find_member, values_view};
use crate::utils::numbers::{month_of, parse_month};
use vstd::prelude::*;

verus! {

/// The form in which `Expense::summary` reads the moment of a record.
pub open spec fn date_format() -> Seq<char> {
    "%Y-%m-%dT%H:%M:%S%.fZ"@
}

/// The amount of a record, where it holds a number under `amount`. Anything
/// else there counts for nothing in a total.
pub open spec fn amount_of(record: JsonView) -> Option<JsonView> {
    match record.member("amount"@) {
        Some(value) => if value is Integer || value is Number {
            Some(value)
        } else {
            None
        },
        None => None,
    }
}

/// Whether a record falls in a month, given the month that was read from
/// the text under `created_at`, or nothing where none could be read: the
/// answer, or nothing where the record holds a text there and no month was
/// read from it. A record without a text there falls in no month.
pub open spec fn counted(record: JsonView, read: Option<u32>, month: u32) -> Option<bool> {
    match record.member("created_at"@) {
        Some(JsonView::Text(_)) => match read {
            Some(m) => Some(m == month),
            None => None,
        },
        _ => Some(false),
    }
}

/// The month of a record: that of the moment which the text under
/// `created_at` writes in the form of `date_format`.
pub open spec fn month_read(record: JsonView) -> Option<u32> {
    match record.member("created_at"@) {
        Some(JsonView::Text(text)) => timestamp_month(text, date_format()),
        _ => None,
    }
}

/// Whether a record falls in a month of any year, or nothing where it holds
/// a text under `created_at` that does not read as a moment.
pub open spec fn in_month(record: JsonView, month: u32) -> Option<bool> {
    counted(record, month_read(record), month)
}

/// The amounts of all records, in their order.
pub open spec fn all_amounts(records: Seq<JsonView>) -> Seq<JsonView> {
    records.filter_map(|record: JsonView| amount_of(record))
}

/// The amounts of the records that fall in a month, in their order, or
/// nothing where the moment of some record cannot be read.
pub open spec fn month_amounts(records: Seq<JsonView>, month: u32) -> Option<Seq<JsonView>>
    decreases records.len(),
{
    if records.len() == 0 {
        Some(Seq::empty())
    } else {
        match (month_amounts(records.drop_last(), month), in_month(records.last(), month)) {
            (Some(amounts), Some(true)) => match amount_of(records.last()) {
                Some(amount) => Some(amounts.push(amount)),
                None => Some(amounts),
            },
            (Some(amounts), Some(false)) => Some(amounts),
            _ => None,
        }
    }
}

/// An error of `Expense::summary`.
pub open spec fn summary_failure(kind: ExpenseErrorKind, message: Seq<char>) -> ExpenseErrorView {
    ExpenseErrorView { kind, message, location: "Expense::summary"@ }
}

/// What `Expense::summary` returns.
pub open spec fn summed(
    filter: Seq<char>,
    expenses: Result<JsonStructureView, JsonFileErrorView>,
) -> Result<Seq<JsonView>, ExpenseErrorView> {
    match records_of(expenses, "Expense::summary"@) {
        Err(error) => Err(error),
        Ok(records) => if filter.len() == 0 {
            Ok(all_amounts(records))
        } else {
            match month_of(filter) {
                None => Err(summary_failure(ExpenseErrorKind::InvalidMonth, "Mes no valido"@)),
                Some(month) => match month_amounts(records, month) {
                    Some(amounts) => Ok(amounts),
                    None => Err(
                        summary_failure(
                            ExpenseErrorKind::InvalidDateFormat,
                            "Formato de fecha no valido"@,
                        ),
                    ),
                },
            }
        },
    }
}

fn falls_in(record: &JsonValue, month: u32) -> (r: Option<bool>)
    ensures
        r == in_month(record@, month),
{
    let read = match record.get("created_at") {
        Some(value) => match value.as_str() {
            Some(text) => month_in(text, "%Y-%m-%dT%H:%M:%S%.fZ"),
            None => None,
        },
        None => None,
    };
    Expense::counts_in(record, read, month)
}

fn take_amount(record: JsonValue) -> (r: Option<JsonValue>)
    ensures
        r is Some <==> amount_of(record@) is Some,
        r is Some ==> amount_of(record@) == Some(r->Some_0@),
{
    match record {
        JsonValue::Object(members) => {
            let mut members = members;
            let place = find_member(&members, "amount");
            if place < members.len() {
                let found = members.remove(place);
                match found.1 {
                    JsonValue::Integer(i) => Some(JsonValue::Integer(i)),
                    JsonValue::Number(n) => Some(JsonValue::Number(n)),
                    _ => None,
                }
            } else {
                None
            }
        },
        _ => None,
    }
}

fn collect_all(records: Vec<JsonValue>) -> (r: Vec<JsonValue>)
    ensures
        values_view(r@) == all_amounts(values_view(records@)),
{
    let mut out: Vec<JsonValue> = Vec::new();
    let ghost all = values_view(records@);
    let ghost pick = |record: JsonView| amount_of(record);
    proof {
        assert(all.take(0) =~= Seq::empty());
        assert(values_view(out@) =~= Seq::empty());
    }
    for record in iter: records
        invariant
            iter.seq() == records@,
            all == values_view(records@),
            pick == |record: JsonView| amount_of(record),
            values_view(out@) == all.take(iter.index() as int).filter_map(pick),
    {
        let ghost i = iter.index() as int;
        let ghost before = values_view(out@);
        proof {
            assert(record == records@[i]);
            assert(all.take(i + 1).drop_last() =~= all.take(i));
            assert(all.take(i + 1).last() == record@);
        }
        match take_amount(record) {
            Some(amount) => {
                out.push(amount);
                assert(values_view(out@) =~= before + seq![amount@]);
            },
            None => {},
        }
    }
    assert(all.take(records@.len() as int) =~= all);
    out
}

fn collect_month(records: Vec<JsonValue>, month: u32) -> (r: Option<Vec<JsonValue>>)
    ensures
        match month_amounts(values_view(records@), month) {
            Some(amounts) => r is Some && values_view(r->Some_0@) == amounts,
            None => r is None,
        },
{
    let mut out: Vec<JsonValue> = Vec::new();
    let ghost all = values_view(records@);
    proof {
        assert(all.take(0) =~= Seq::empty());
        assert(values_view(out@) =~= Seq::empty());
    }
    for record in iter: records
        invariant
            iter.seq() == records@,
            all == values_view(records@),
            month_amounts(all.take(iter.index() as int), month) == Some(values_view(out@)),
    {
        let ghost i = iter.index() as int;
        let ghost before = values_view(out@);
        proof {
            assert(record == records@[i]);
            assert(all.take(i + 1).drop_last() =~= all.take(i));
            assert(all.take(i + 1).last() == record@);
        }
        match falls_in(&record, month) {
            None => {
                proof {
                    lemma_month_fails(all, month, i);
                }
                return None;
            },
            Some(false) => {},
            Some(true) => match take_amount(record) {
                Some(amount) => {
                    out.push(amount);
                    assert(values_view(out@) =~= before.push(amount@));
                },
                None => {},
            },
        }
    }
    assert(all.take(records@.len() as int) =~= all);
    Some(out)
}

/// Where the moment of one record cannot be read, the amounts of the month
/// cannot be told.
pub proof fn lemma_month_fails(records: Seq<JsonView>, month: u32, i: int)
    requires
        0 <= i < records.len(),
        in_month(records[i], month) is None,
    ensures
        month_amounts(records, month) is None,
    decreases records.len(),
{
    if i + 1 < records.len() {
        lemma_month_fails(records.drop_last(), month, i);
    }
}

impl Expense {
    /// Tells whether a record falls in a month. `read` is the month that
    /// was read from the text under `created_at`, or nothing where none
    /// could be read. The answer is nothing where the record holds a text
    /// there and no month was read from it; a record without a text there
    /// falls in no month.
    pub fn counts_in(record: &JsonValue, read: Option<u32>, month: u32) -> (r: Option<bool>)
        ensures
            r == counted(record@, read, month),
    {
        match record.get("created_at") {
            Some(value) => match value.as_str() {
                Some(_) => match read {
                    Some(m) => Some(m == month),
                    None => None,
                },
                None => Some(false),
            },
            None => Some(false),
        }
    }

    /// Gives the amounts that make up a total, in the order of the list:
    /// those of all records where `filter` is empty, else those of the
    /// records of the month that `filter` names, of whatever year.
    /// `expenses` is the outcome of opening the list. The caller adds the
    /// amounts up.
    ///
    /// A filter that is no number from 1 to 12 gives `InvalidMonth`. Under
    /// a filter, a record whose moment does not read in the form
    /// `YYYY-MM-DDTHH:MM:SS.ffffffZ` gives `InvalidDateFormat`.
    pub fn summary(filter: &str, expenses: Result<JsonStructure, JsonFileError>) -> (r: Result<
        Vec<JsonValue>,
        ExpenseError,
    >)
        ensures
            match summed(filter@, opened_view(expenses)) {
                Ok(amounts) => r is Ok && values_view(r->Ok_0@) == amounts,
                Err(error) => r is Err && r->Err_0@ == error,
            },
    {
        let all = match records(expenses, "Expense::summary") {
            Ok(all) => all,
            Err(error) => {
                return Err(error);
            },
        };
        if filter.is_empty() {
            return Ok(collect_all(all));
        }
        let month = match parse_month(filter) {
            Some(month) => month,
            None => {
                return Err(
                    ExpenseError::new(
                        ExpenseErrorKind::InvalidMonth,
                        "Mes no valido",
                        "Expense::summary",
                    ),
                );
            },
        };
        match collect_month(all, month) {
            Some(amounts) => Ok(amounts),
            None => Err(
                ExpenseError::new(
                    ExpenseErrorKind::InvalidDateFormat,
                    "Formato de fecha no valido",
                    "Expense::summary",
                ),
            ),
        }
    }
}

} // verus!
