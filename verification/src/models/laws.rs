use crate::models::error::{ExpenseErrorKind, ExpenseErrorView, JsonFileErrorView};
use crate::models::deletion::{deleted, kept, targeted};
use crate::models::expense::{
    Amount, ExpenseView, build_failure, built, counter, stored, with_counter,
};
use crate::models::listing::{RowView, cells, header, row_of, rows_of, table_of};
use crate::models::summary::{all_amounts, amount_of, summary_failure, summed};
use crate::utils::file_utils::JsonStructureView;
use crate::utils::json::{JsonView, key_index, key_index_from, lemma_key_index_from};
use crate::utils::numbers::{decimal, digits_value, is_digits, month_of};
use crate::utils::text::tokens;
use vstd::prelude::*;

verus! {

/// Putting another value under a key that is there moves no key: the first
/// place of every key stays where it was.
pub proof fn lemma_update_keeps_places(
    members: Seq<(Seq<char>, JsonView)>,
    key: Seq<char>,
    value: JsonView,
    other: Seq<char>,
    start: int,
)
    requires
        key_index(members, key) < members.len(),
        0 <= start <= members.len(),
    ensures
        key_index_from(members.update(key_index(members, key), (key, value)), other, start)
            == key_index_from(members, other, start),
    decreases members.len() - start,
{
    lemma_key_index_from(members, key, 0);
    if start < members.len() {
        lemma_update_keeps_places(members, key, value, other, start + 1);
    }
}

/// Adding an expense raises the counter of identifiers by exactly one, and
/// gives the expense the identifier that the counter held before.
pub proof fn lemma_build_advances_counter(
    description: Seq<char>,
    amount: Amount,
    moment: Option<Seq<char>>,
    ids: JsonStructureView,
)
    requires
        built(description, amount, moment, Ok(ids)) is Ok,
    ensures
        counter(ids) is Some,
        counter(built(description, amount, moment, Ok(ids))->Ok_0.1) == Some(
            (counter(ids)->Some_0 + 1) as i64,
        ),
        counter(ids)->Some_0 + 1 <= i64::MAX,
        built(description, amount, moment, Ok(ids))->Ok_0.0.id == decimal(
            counter(ids)->Some_0 as int,
        ),
{
    let members = ids->Object_0;
    let id = counter(ids)->Some_0;
    let next = (id + 1) as i64;
    lemma_key_index_from(members, "id"@, 0);
    lemma_update_keeps_places(members, "id"@, JsonView::Integer(next), "id"@, 0);
    assert(with_counter(ids, next)->Object_0 == members.update(
        key_index(members, "id"@),
        ("id"@, JsonView::Integer(next)),
    ));
}

/// Adding an expense raises the number of records by exactly one: the list
/// is the one before, with the record of the expense at its end.
pub proof fn lemma_store_appends(expense: ExpenseView, records: Seq<JsonView>)
    ensures
        stored(expense, Ok(JsonStructureView::Array(records))) is Ok,
        stored(expense, Ok(JsonStructureView::Array(records)))->Ok_0->Array_0.len()
            == records.len() + 1,
        stored(expense, Ok(JsonStructureView::Array(records)))->Ok_0->Array_0.drop_last()
            == records,
        stored(expense, Ok(JsonStructureView::Array(records)))->Ok_0->Array_0.last()
            == expense.record(),
{
    assert(records.push(expense.record()).drop_last() =~= records);
}

/// An expense without a description is refused with `EmptyDescription`,
/// whatever the amount and the document of identifiers. Nothing is given
/// back that could be saved.
pub proof fn lemma_empty_description_refused(
    amount: Amount,
    moment: Option<Seq<char>>,
    ids: Result<JsonStructureView, JsonFileErrorView>,
)
    ensures
        built(Seq::empty(), amount, moment, ids) == Err::<
            (ExpenseView, JsonStructureView),
            ExpenseErrorView,
        >(
            build_failure(
                ExpenseErrorKind::EmptyDescription,
                "La descripcion no puede estar vacia"@,
            ),
        ),
{
}

/// An expense whose amount is zero, below zero or no number is refused with
/// `InvalidAmountType`, whatever the document of identifiers. A double is
/// zero where all its bits but the first are clear, and below zero where
/// the first is set. Nothing is given back that could be saved.
pub proof fn lemma_amount_refused(
    description: Seq<char>,
    amount: Amount,
    moment: Option<Seq<char>>,
    ids: Result<JsonStructureView, JsonFileErrorView>,
)
    requires
        description.len() > 0,
        amount.bits == 0 || amount.bits >= 0x8000_0000_0000_0000u64 || amount.bits
            > 0x7FF0_0000_0000_0000u64,
    ensures
        built(description, amount, moment, ids) == Err::<
            (ExpenseView, JsonStructureView),
            ExpenseErrorView,
        >(build_failure(ExpenseErrorKind::InvalidAmountType, "El monto debe ser mayor a 0"@)),
{
}

/// Deleting identifiers that no record has leaves the list as it is.
pub proof fn lemma_delete_absent(records: Seq<JsonView>, targets: Seq<Seq<char>>)
    requires
        forall|i: int| 0 <= i < records.len() ==> !targeted(#[trigger] records[i], targets),
    ensures
        kept(records, targets) == records,
    decreases records.len(),
{
    reveal(Seq::filter);
    if records.len() > 0 {
        lemma_delete_absent(records.drop_last(), targets);
        assert(records.drop_last().push(records.last()) =~= records);
    }
}

/// After a deletion no record is left that the same identifiers name.
pub proof fn lemma_kept_untargeted(records: Seq<JsonView>, targets: Seq<Seq<char>>)
    ensures
        forall|i: int|
            0 <= i < kept(records, targets).len() ==> !targeted(
                #[trigger] kept(records, targets)[i],
                targets,
            ),
    decreases records.len(),
{
    reveal(Seq::filter);
    if records.len() > 0 {
        lemma_kept_untargeted(records.drop_last(), targets);
    }
}

/// Deleting the same identifiers a second time changes nothing, and is no
/// error.
pub proof fn lemma_delete_twice(ids: Seq<char>, records: Seq<JsonView>)
    ensures
        deleted(ids, Ok(JsonStructureView::Array(records))) is Ok,
        deleted(ids, Ok(deleted(ids, Ok(JsonStructureView::Array(records)))->Ok_0)) == deleted(
            ids,
            Ok(JsonStructureView::Array(records)),
        ),
{
    let targets = tokens(ids);
    lemma_kept_untargeted(records, targets);
    lemma_delete_absent(kept(records, targets), targets);
}

/// A month that reads is a number from 1 to 12.
pub proof fn lemma_month_in_range(filter: Seq<char>)
    ensures
        month_of(filter) is Some ==> 1 <= month_of(filter)->Some_0 <= 12,
{
}

/// A filter of digits that write a number outside 1 to 12 names no month,
/// and a summary under it fails with `InvalidMonth` whatever the records.
pub proof fn lemma_month_refused(filter: Seq<char>, records: Seq<JsonView>)
    requires
        is_digits(filter),
        digits_value(filter) < 1 || digits_value(filter) > 12,
    ensures
        month_of(filter) is None,
        summed(filter, Ok(JsonStructureView::Array(records))) == Err::<
            Seq<JsonView>,
            ExpenseErrorView,
        >(summary_failure(ExpenseErrorKind::InvalidMonth, "Mes no valido"@)),
{
}

/// The amounts of a list, as a bag: those of the list without one record,
/// and the amount of that record where it has one.
pub proof fn lemma_amounts_without(records: Seq<JsonView>, i: int)
    requires
        0 <= i < records.len(),
    ensures
        all_amounts(records).to_multiset() == match amount_of(records[i]) {
            Some(amount) => all_amounts(records.remove(i)).to_multiset().insert(amount),
            None => all_amounts(records.remove(i)).to_multiset(),
        },
    decreases records.len(),
{
    broadcast use vstd::seq_lib::group_to_multiset_ensures;

    let pick = |record: JsonView| amount_of(record);
    if i + 1 == records.len() {
        assert(records.remove(i) =~= records.drop_last());
        match amount_of(records[i]) {
            Some(amount) => {
                assert(all_amounts(records) =~= all_amounts(records.drop_last()).push(amount));
            },
            None => {},
        }
    } else {
        let front = records.drop_last();
        let last = records.last();
        lemma_amounts_without(front, i);
        assert(records.remove(i).drop_last() =~= front.remove(i));
        assert(records.remove(i).last() == last);
        match amount_of(last) {
            Some(amount) => {
                assert(all_amounts(records) =~= all_amounts(front).push(amount));
                assert(all_amounts(records.remove(i)) =~= all_amounts(front.remove(i)).push(
                    amount,
                ));
                match amount_of(records[i]) {
                    Some(other) => {
                        assert(all_amounts(front.remove(i)).to_multiset().insert(other).insert(
                            amount,
                        ) =~= all_amounts(front.remove(i)).to_multiset().insert(amount).insert(
                            other,
                        ));
                    },
                    None => {},
                }
            },
            None => {
                assert(all_amounts(records) == all_amounts(front));
                assert(all_amounts(records.remove(i)) == all_amounts(front.remove(i)));
            },
        }
    }
}

/// The amounts that a summary without a filter hands out do not depend on
/// the order of the records: two lists that hold the same records, in
/// whatever order, give the same amounts, each as often.
pub proof fn lemma_amounts_any_order(first: Seq<JsonView>, second: Seq<JsonView>)
    requires
        first.to_multiset() == second.to_multiset(),
    ensures
        all_amounts(first).to_multiset() == all_amounts(second).to_multiset(),
    decreases first.len(),
{
    broadcast use vstd::seq_lib::group_to_multiset_ensures;

    first.to_multiset_ensures();
    second.to_multiset_ensures();
    if first.len() == 0 {
        assert(second.len() == 0);
        assert(first =~= second);
    } else {
        let last = first.last();
        assert(first.contains(last));
        assert(second.to_multiset().count(last) > 0);
        assert(second.contains(last));
        let i = choose|i: int| 0 <= i < second.len() && second[i] == last;
        assert(first.remove(first.len() - 1) =~= first.drop_last());
        assert(first.drop_last().to_multiset() =~= second.remove(i).to_multiset());
        lemma_amounts_any_order(first.drop_last(), second.remove(i));
        lemma_amounts_without(first, first.len() - 1);
        lemma_amounts_without(second, i);
    }
}

/// A summary without a filter hands out the amount of every record that has
/// one, whatever the moments of the records.
pub proof fn lemma_summary_of_all(records: Seq<JsonView>)
    ensures
        summed(Seq::empty(), Ok(JsonStructureView::Array(records))) == Ok::<
            Seq<JsonView>,
            ExpenseErrorView,
        >(all_amounts(records)),
{
}

/// A list that can be shown gives one row for each record, in the order of
/// the records.
pub proof fn lemma_rows_in_order(records: Seq<JsonView>)
    requires
        rows_of(records) is Ok,
    ensures
        rows_of(records)->Ok_0.len() == records.len(),
        forall|i: int|
            0 <= i < records.len() ==> row_of(#[trigger] records[i]) == Ok::<
                RowView,
                ExpenseErrorView,
            >(rows_of(records)->Ok_0[i]),
    decreases records.len(),
{
    if records.len() > 0 {
        lemma_rows_in_order(records.drop_last());
        assert forall|i: int| 0 <= i < records.len() implies row_of(#[trigger] records[i]) == Ok::<
            RowView,
            ExpenseErrorView,
        >(rows_of(records)->Ok_0[i]) by {
            if i < records.len() - 1 {
                assert(records[i] == records.drop_last()[i]);
            }
        }
    }
}

/// The table starts with the titles and has one line for each row behind
/// them: a table of no rows is the titles alone.
pub proof fn lemma_table_shape(rows: Seq<RowView>)
    ensures
        table_of(rows).len() == rows.len() + 1,
        table_of(rows)[0] == header(),
        forall|i: int| 0 <= i < rows.len() ==> #[trigger] table_of(rows)[i + 1] == cells(rows[i]),
        table_of(Seq::empty()) == seq![header()],
{
    assert(table_of(Seq::empty()) =~= seq![header()]);
}

} // verus!
