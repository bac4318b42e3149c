//! The answer to the queries for one question: the question in full and
//! its options, ordered by sort order and then by id.

use vstd::prelude::*;
use crate::db::error::{BankError, StorageFault};
use crate::db::rows::{decode_detail, decode_option, detail_of, option_of};
use crate::db::types::{option_views, DetailView, OptionItem, OptionView, QuestionDetail};
use crate::db::value::{table, Cell, SqlValue};

verus! {

/// What the query for the question `id` gives when the storage has
/// answered with `rows`: no row means that there is no such question;
/// else the first row is the question, and must carry that id.
pub open spec fn question_of(id: int, rows: Seq<Seq<Cell>>) -> Result<DetailView, BankError> {
    if rows.len() == 0 {
        Err(BankError::NotFound)
    } else {
        match detail_of(rows[0]) {
            None => Err(BankError::Storage(StorageFault::MalformedRow)),
            Some(d) => if d.id != id {
                Err(BankError::Storage(StorageFault::UnexpectedRow))
            } else {
                Ok(d)
            },
        }
    }
}

/// The view of a question's result.
pub open spec fn question_view(r: Result<QuestionDetail, BankError>) -> Result<
    DetailView,
    BankError,
> {
    match r {
        Ok(d) => Ok(d@),
        Err(e) => Err(e),
    }
}

/// Turns the rows that the storage returned for the question `id` into
/// the question, still without options.
pub fn question_from_rows(id: i64, rows: &Vec<Vec<SqlValue>>) -> (r: Result<
    QuestionDetail,
    BankError,
>)
    ensures
        question_view(r) == question_of(id as int, table(rows@)),
        (r matches Err(e) && e is NotFound) <==> rows@.len() == 0,
        r matches Ok(d) ==> d.id == id,
{
    if rows.len() == 0 {
        return Err(BankError::NotFound);
    }
    match decode_detail(&rows[0]) {
        None => Err(BankError::Storage(StorageFault::MalformedRow)),
        Some(d) => {
            if d.id != id {
                Err(BankError::Storage(StorageFault::UnexpectedRow))
            } else {
                Ok(d)
            }
        },
    }
}

/// Every row stands for an option.
pub open spec fn all_options(rows: Seq<Seq<Cell>>) -> bool {
    forall|i: int| 0 <= i < rows.len() ==> option_of(#[trigger] rows[i]) is Some
}

/// The options that the rows stand for, row by row.
pub open spec fn options_of(rows: Seq<Seq<Cell>>) -> Seq<OptionView> {
    Seq::new(rows.len(), |i: int| option_of(rows[i])->0)
}

/// Every option of the list belongs to the question `id`.
pub open spec fn all_belong(list: Seq<OptionView>, id: int) -> bool {
    forall|i: int| 0 <= i < list.len() ==> (#[trigger] list[i]).question_id == id
}

/// `a` may stand before `b`: it has the smaller sort order, or the same
/// sort order and no greater id.
pub open spec fn option_le(a: OptionView, b: OptionView) -> bool {
    a.sort_order < b.sort_order || (a.sort_order == b.sort_order && a.id <= b.id)
}

/// The options stand in the order of their sort order, and those of one
/// sort order in the order of their ids.
pub open spec fn options_ordered(list: Seq<OptionView>) -> bool {
    forall|i: int, j: int|
        0 <= i < j < list.len() ==> option_le(#[trigger] list[i], #[trigger] list[j])
}

/// What the query for the options of the question `id` gives when the
/// storage has answered with `rows`: the options they stand for, provided
/// each row is an option of that question and they are in order; else the
/// first of these that fails, as a fault of the storage.
pub open spec fn question_options_of(id: int, rows: Seq<Seq<Cell>>) -> Result<
    Seq<OptionView>,
    BankError,
> {
    if !all_options(rows) {
        Err(BankError::Storage(StorageFault::MalformedRow))
    } else if !all_belong(options_of(rows), id) {
        Err(BankError::Storage(StorageFault::UnexpectedRow))
    } else if !options_ordered(options_of(rows)) {
        Err(BankError::Storage(StorageFault::Unordered))
    } else {
        Ok(options_of(rows))
    }
}

/// The view of an option list's result.
pub open spec fn options_view(r: Result<Vec<OptionItem>, BankError>) -> Result<
    Seq<OptionView>,
    BankError,
> {
    match r {
        Ok(list) => Ok(option_views(list@)),
        Err(e) => Err(e),
    }
}

/// Reads an option from each row, or nothing if a row is none.
pub fn decode_options(rows: &Vec<Vec<SqlValue>>) -> (r: Option<Vec<OptionItem>>)
    ensures
        r is Some <==> all_options(table(rows@)),
        r matches Some(list) ==> option_views(list@) == options_of(table(rows@)),
{
    let mut out: Vec<OptionItem> = Vec::new();
    let mut i: usize = 0;
    while i < rows.len()
        invariant
            i <= rows.len(),
            out.len() == i,
            forall|k: int| 0 <= k < i ==> option_of(#[trigger] table(rows@)[k]) == Some(out@[k]@),
        decreases rows.len() - i,
    {
        match decode_option(&rows[i]) {
            Some(o) => {
                out.push(o);
            },
            None => {
                assert(option_of(table(rows@)[i as int]) is None);
                return None;
            },
        }
        i = i + 1;
    }
    Some(out)
}

/// Whether every option of the list belongs to the question `id`.
pub fn options_belong(list: &Vec<OptionItem>, id: i64) -> (r: bool)
    ensures
        r == all_belong(option_views(list@), id as int),
{
    let mut i: usize = 0;
    while i < list.len()
        invariant
            i <= list.len(),
            forall|k: int| 0 <= k < i ==> (#[trigger] option_views(list@)[k]).question_id == id,
        decreases list.len() - i,
    {
        if list[i].question_id != id {
            assert(option_views(list@)[i as int].question_id != id);
            return false;
        }
        i = i + 1;
    }
    true
}

/// Whether the options stand in the order of sort order and id.
pub fn options_in_order(list: &Vec<OptionItem>) -> (r: bool)
    ensures
        r == options_ordered(option_views(list@)),
{
    if list.len() < 2 {
        return true;
    }
    let ghost views = option_views(list@);
    let mut i: usize = 1;
    while i < list.len()
        invariant
            1 <= i <= list.len(),
            views == option_views(list@),
            forall|a: int, b: int|
                0 <= a < b < i ==> option_le(#[trigger] views[a], #[trigger] views[b]),
        decreases list.len() - i,
    {
        let prev = &list[i - 1];
        let next = &list[i];
        let in_order = prev.sort_order < next.sort_order || (prev.sort_order == next.sort_order
            && prev.id <= next.id);
        if !in_order {
            assert(!option_le(views[i - 1], views[i as int]));
            return false;
        }
        i = i + 1;
    }
    true
}

/// Turns the rows that the storage returned for the options of the
/// question `id` into the options, after checking that they are what was
/// asked for.
pub fn options_from_rows(id: i64, rows: &Vec<Vec<SqlValue>>) -> (r: Result<
    Vec<OptionItem>,
    BankError,
>)
    ensures
        options_view(r) == question_options_of(id as int, table(rows@)),
        r matches Ok(list) ==> all_belong(option_views(list@), id as int) && options_ordered(
            option_views(list@),
        ),
{
    let list = match decode_options(rows) {
        Some(list) => list,
        None => {
            return Err(BankError::Storage(StorageFault::MalformedRow));
        },
    };
    if !options_belong(&list, id) {
        return Err(BankError::Storage(StorageFault::UnexpectedRow));
    }
    if !options_in_order(&list) {
        return Err(BankError::Storage(StorageFault::Unordered));
    }
    Ok(list)
}

/// The question `d` with `options` as its options.
pub open spec fn with_options(d: DetailView, options: Seq<OptionView>) -> DetailView {
    DetailView { options, ..d }
}

/// Gives a question its options.
pub fn attach_options(question: QuestionDetail, options: Vec<OptionItem>) -> (d: QuestionDetail)
    ensures
        d@ == with_options(question@, option_views(options@)),
{
    QuestionDetail { options, ..question }
}

} // verus!
