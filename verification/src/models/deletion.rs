use crate::models::error::{
    ExpenseError, ExpenseErrorKind, ExpenseErrorView, JsonFileError, JsonFileErrorView,
    located_text,
};
use crate::models::expense::Expense;
use crate::models::records::{opened_view, records, records_of, wrapped};
use crate::utils::file_utils::{JsonStructure, JsonStructureView};
use crate::utils::json::{JsonValue, JsonView, values_view};
use crate::utils::text::{split_whitespace, str_eq, texts, tokens};
use vstd::prelude::*;

verus! {

/// Whether a record is among those to delete: it holds a text under `id`,
/// and that text is one of the targets.
pub open spec fn targeted(record: JsonView, targets: Seq<Seq<char>>) -> bool {
    match record.member("id"@) {
        Some(JsonView::Text(id)) => targets.contains(id),
        _ => false,
    }
}

/// The records that stay when the targets are deleted, in their order.
pub open spec fn kept(records: Seq<JsonView>, targets: Seq<Seq<char>>) -> Seq<JsonView> {
    records.filter(|record: JsonView| !targeted(record, targets))
}

fn contains_text(targets: &Vec<String>, text: &str) -> (r: bool)
    ensures
        r == texts(targets@).contains(text@),
{
    let mut i: usize = 0;
    while i < targets.len()
        invariant
            i <= targets.len(),
            forall|k: int| 0 <= k < i ==> texts(targets@)[k] != text@,
        decreases targets.len() - i,
    {
        if str_eq(targets[i].as_str(), text) {
            assert(texts(targets@)[i as int] == text@);
            return true;
        }
        i += 1;
    }
    false
}

fn is_targeted(record: &JsonValue, targets: &Vec<String>) -> (r: bool)
    ensures
        r == targeted(record@, texts(targets@)),
{
    match record.get("id") {
        Some(id) => match id.as_str() {
            Some(text) => contains_text(targets, text),
            None => false,
        },
        None => false,
    }
}

fn retain(records: Vec<JsonValue>, targets: &Vec<String>) -> (r: Vec<JsonValue>)
    ensures
        values_view(r@) == kept(values_view(records@), texts(targets@)),
{
    let mut out: Vec<JsonValue> = Vec::new();
    let ghost all = values_view(records@);
    let ghost keep = |record: JsonView| !targeted(record, texts(targets@));
    proof {
        reveal(Seq::filter);
        assert(all.take(0) =~= Seq::empty());
        assert(values_view(out@) =~= Seq::empty());
    }
    for record in iter: records
        invariant
            iter.seq() == records@,
            all == values_view(records@),
            keep == |record: JsonView| !targeted(record, texts(targets@)),
            values_view(out@) == all.take(iter.index() as int).filter(keep),
    {
        let ghost i = iter.index() as int;
        let ghost before = values_view(out@);
        proof {
            reveal(Seq::filter);
            assert(record == records@[i]);
            assert(all.take(i + 1).drop_last() =~= all.take(i));
            assert(all.take(i + 1).last() == record@);
        }
        if !is_targeted(&record, targets) {
            out.push(record);
            assert(values_view(out@) =~= before.push(record@));
        }
    }
    assert(all.take(records@.len() as int) =~= all);
    out
}

/// What `Expense::delete` returns.
pub open spec fn deleted(
    ids: Seq<char>,
    expenses: Result<JsonStructureView, JsonFileErrorView>,
) -> Result<JsonStructureView, ExpenseErrorView> {
    match records_of(expenses, "Expense::delete"@) {
        Ok(records) => Ok(JsonStructureView::Array(kept(records, tokens(ids)))),
        Err(error) => Err(error),
    }
}

/// The error of `Expense::delete` for a list that could not be saved.
pub open spec fn save_failure(error: JsonFileErrorView) -> ExpenseErrorView {
    ExpenseErrorView {
        kind: ExpenseErrorKind::WriteError,
        message: "Error escribiendo los datos: "@ + located_text(error.location, error.message),
        location: "Expense::delete"@,
    }
}

impl Expense {
    /// Deletes from the list of expenses every record whose `id` is a text
    /// that `ids_string` names, and gives the list, which is to be saved.
    /// `ids_string` holds the identifiers, with white space between them;
    /// `expenses` is the outcome of opening the list.
    ///
    /// A record without a text under `id` stays. An identifier that no
    /// record has is no error.
    pub fn delete(ids_string: &str, expenses: Result<JsonStructure, JsonFileError>) -> (r: Result<
        JsonStructure,
        ExpenseError,
    >)
        ensures
            match deleted(ids_string@, opened_view(expenses)) {
                Ok(document) => r is Ok && r->Ok_0@ == document,
                Err(error) => r is Err && r->Err_0@ == error,
            },
    {
        let all = match records(expenses, "Expense::delete") {
            Ok(all) => all,
            Err(error) => {
                return Err(error);
            },
        };
        let targets = split_whitespace(ids_string);
        Ok(JsonStructure::Array(retain(all, &targets)))
    }

    /// Makes the error of `delete` for a list that could not be saved.
    pub fn write_failed(error: &JsonFileError) -> (r: ExpenseError)
        ensures
            r@ == save_failure(error@),
    {
        wrapped(
            ExpenseErrorKind::WriteError,
            "Error escribiendo los datos: ",
            error,
            "Expense::delete",
        )
    }
}

} // verus!
