//! The answer to a listing query: the questions that the filters admit,
//! in ascending order of id.

use vstd::prelude::*;
use crate::db::error::{BankError, StorageFault};
use crate::db::rows::{decode_summary, summary_of};
use crate::db::types::{Filters, FiltersView, QuestionSummary, SummaryView};
use crate::db::value::{table, Cell, SqlValue};
use crate::text::same_text;

verus! {

/// The views of a list of questions, in the list's order.
pub open spec fn summary_views(list: Seq<QuestionSummary>) -> Seq<SummaryView> {
    list.map_values(|s: QuestionSummary| s@)
}

/// Every row stands for a listed question.
pub open spec fn all_summaries(rows: Seq<Seq<Cell>>) -> bool {
    forall|i: int| 0 <= i < rows.len() ==> summary_of(#[trigger] rows[i]) is Some
}

/// The listed questions that the rows stand for, row by row.
pub open spec fn summaries_of(rows: Seq<Seq<Cell>>) -> Seq<SummaryView> {
    Seq::new(rows.len(), |i: int| summary_of(rows[i])->0)
}

/// A condition that is present holds of `held` when `held` is that very
/// text; an absent text never equals one. An absent condition holds of
/// everything.
pub open spec fn admits(wanted: Option<Seq<char>>, held: Option<Seq<char>>) -> bool {
    wanted is Some ==> held == wanted
}

/// The question meets every condition that is present.
pub open spec fn matches_filters(s: SummaryView, f: FiltersView) -> bool {
    &&& admits(f.topic, s.topic)
    &&& admits(f.q_type, Some(s.q_type))
    &&& admits(f.difficulty, s.difficulty)
}

/// Every question of the list meets every condition that is present.
pub open spec fn all_match(list: Seq<SummaryView>, f: FiltersView) -> bool {
    forall|i: int| 0 <= i < list.len() ==> matches_filters(#[trigger] list[i], f)
}

/// The ids rise strictly along the list.
pub open spec fn ascending_ids(list: Seq<SummaryView>) -> bool {
    forall|i: int, j: int|
        0 <= i < j < list.len() ==> (#[trigger] list[i]).id < (#[trigger] list[j]).id
}

/// What a listing returns when the storage has answered with `rows`: the
/// questions they stand for, provided each row is a question that the
/// filters admit and the ids rise strictly; else the first of these that
/// fails, as a fault of the storage.
pub open spec fn listing_of(rows: Seq<Seq<Cell>>, f: FiltersView) -> Result<
    Seq<SummaryView>,
    BankError,
> {
    if !all_summaries(rows) {
        Err(BankError::Storage(StorageFault::MalformedRow))
    } else if !all_match(summaries_of(rows), f) {
        Err(BankError::Storage(StorageFault::UnexpectedRow))
    } else if !ascending_ids(summaries_of(rows)) {
        Err(BankError::Storage(StorageFault::Unordered))
    } else {
        Ok(summaries_of(rows))
    }
}

/// The view of a listing's result.
pub open spec fn listing_view(r: Result<Vec<QuestionSummary>, BankError>) -> Result<
    Seq<SummaryView>,
    BankError,
> {
    match r {
        Ok(list) => Ok(summary_views(list@)),
        Err(e) => Err(e),
    }
}

/// Reads a listed question from each row, or nothing if a row is none.
pub fn decode_summaries(rows: &Vec<Vec<SqlValue>>) -> (r: Option<Vec<QuestionSummary>>)
    ensures
        r is Some <==> all_summaries(table(rows@)),
        r matches Some(list) ==> summary_views(list@) == summaries_of(table(rows@)),
{
    let mut out: Vec<QuestionSummary> = Vec::new();
    let mut i: usize = 0;
    while i < rows.len()
        invariant
            i <= rows.len(),
            out.len() == i,
            forall|k: int| 0 <= k < i ==> summary_of(#[trigger] table(rows@)[k]) == Some(out@[k]@),
        decreases rows.len() - i,
    {
        match decode_summary(&rows[i]) {
            Some(s) => {
                out.push(s);
            },
            None => {
                assert(summary_of(table(rows@)[i as int]) is None);
                return None;
            },
        }
        i = i + 1;
    }
    Some(out)
}

/// Whether a condition holds of a text that may be absent.
pub fn condition_admits(wanted: &Option<String>, held: &Option<String>) -> (r: bool)
    ensures
        r == admits(crate::db::types::opt_text(*wanted), crate::db::types::opt_text(*held)),
{
    match wanted {
        None => true,
        Some(w) => match held {
            None => false,
            Some(h) => same_text(w, h),
        },
    }
}

/// Whether a question meets every condition that is present.
pub fn summary_matches(s: &QuestionSummary, filters: &Filters) -> (r: bool)
    ensures
        r == matches_filters(s@, filters@),
{
    let type_ok = match &filters.q_type {
        None => true,
        Some(w) => same_text(w, &s.q_type),
    };
    condition_admits(&filters.topic, &s.topic) && type_ok && condition_admits(
        &filters.difficulty,
        &s.difficulty,
    )
}

/// Whether every question of the list meets every condition that is
/// present.
pub fn summaries_match(list: &Vec<QuestionSummary>, filters: &Filters) -> (r: bool)
    ensures
        r == all_match(summary_views(list@), filters@),
{
    let mut i: usize = 0;
    while i < list.len()
        invariant
            i <= list.len(),
            forall|k: int|
                0 <= k < i ==> matches_filters(#[trigger] summary_views(list@)[k], filters@),
        decreases list.len() - i,
    {
        if !summary_matches(&list[i], filters) {
            assert(!matches_filters(summary_views(list@)[i as int], filters@));
            return false;
        }
        i = i + 1;
    }
    true
}

/// Whether the ids rise strictly along the list.
pub fn ids_ascending(list: &Vec<QuestionSummary>) -> (r: bool)
    ensures
        r == ascending_ids(summary_views(list@)),
{
    if list.len() < 2 {
        return true;
    }
    let ghost views = summary_views(list@);
    let mut i: usize = 1;
    while i < list.len()
        invariant
            1 <= i <= list.len(),
            views == summary_views(list@),
            forall|a: int, b: int|
                0 <= a < b < i ==> (#[trigger] views[a]).id < (#[trigger] views[b]).id,
        decreases list.len() - i,
    {
        if list[i - 1].id >= list[i].id {
            assert(!(views[i - 1].id < views[i as int].id));
            return false;
        }
        i = i + 1;
    }
    true
}

/// Turns the rows that the storage returned for a listing into the
/// listing, after checking that they are what was asked for.
pub fn summaries_from_rows(rows: &Vec<Vec<SqlValue>>, filters: &Filters) -> (r: Result<
    Vec<QuestionSummary>,
    BankError,
>)
    ensures
        listing_view(r) == listing_of(table(rows@), filters@),
        r matches Ok(list) ==> all_match(summary_views(list@), filters@) && ascending_ids(
            summary_views(list@),
        ),
{
    let list = match decode_summaries(rows) {
        Some(list) => list,
        None => {
            return Err(BankError::Storage(StorageFault::MalformedRow));
        },
    };
    if !summaries_match(&list, filters) {
        return Err(BankError::Storage(StorageFault::UnexpectedRow));
    }
    if !ids_ascending(&list) {
        return Err(BankError::Storage(StorageFault::Unordered));
    }
    Ok(list)
}

} // verus!
