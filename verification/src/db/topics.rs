//! The answer to the topics query: the topics in use, each once, in
//! ascending order.

use vstd::prelude::*;
use crate::db::error::{BankError, StorageFault};
use crate::db::rows::{decode_topic, topic_of};
use crate::db::value::{table, Cell, SqlValue};
use crate::text::{strictly_ascending, text_views, texts_ascending};

verus! {

/// Every row stands for a topic.
pub open spec fn all_topics(rows: Seq<Seq<Cell>>) -> bool {
    forall|i: int| 0 <= i < rows.len() ==> topic_of(#[trigger] rows[i]) is Some
}

/// The topics that the rows stand for, row by row.
pub open spec fn topics_of(rows: Seq<Seq<Cell>>) -> Seq<Seq<char>> {
    Seq::new(rows.len(), |i: int| topic_of(rows[i])->0)
}

/// What the topics query gives when the storage has answered with `rows`:
/// the topics they stand for, provided each row is a topic and each topic
/// comes strictly before the next; else the first of these that fails, as
/// a fault of the storage.
pub open spec fn topic_list_of(rows: Seq<Seq<Cell>>) -> Result<Seq<Seq<char>>, BankError> {
    if !all_topics(rows) {
        Err(BankError::Storage(StorageFault::MalformedRow))
    } else if !strictly_ascending(topics_of(rows)) {
        Err(BankError::Storage(StorageFault::Unordered))
    } else {
        Ok(topics_of(rows))
    }
}

/// The view of a topic list's result.
pub open spec fn topics_view(r: Result<Vec<String>, BankError>) -> Result<
    Seq<Seq<char>>,
    BankError,
> {
    match r {
        Ok(list) => Ok(text_views(list@)),
        Err(e) => Err(e),
    }
}

/// Reads a topic from each row, or nothing if a row is none.
pub fn decode_topics(rows: &Vec<Vec<SqlValue>>) -> (r: Option<Vec<String>>)
    ensures
        r is Some <==> all_topics(table(rows@)),
        r matches Some(list) ==> text_views(list@) == topics_of(table(rows@)),
{
    let mut out: Vec<String> = Vec::new();
    let mut i: usize = 0;
    while i < rows.len()
        invariant
            i <= rows.len(),
            out.len() == i,
            forall|k: int| 0 <= k < i ==> topic_of(#[trigger] table(rows@)[k]) == Some(out@[k]@),
        decreases rows.len() - i,
    {
        match decode_topic(&rows[i]) {
            Some(t) => {
                out.push(t);
            },
            None => {
                assert(topic_of(table(rows@)[i as int]) is None);
                return None;
            },
        }
        i = i + 1;
    }
    Some(out)
}

/// Turns the rows that the storage returned for the topics query into the
/// list of topics, after checking that they are what was asked for.
pub fn topics_from_rows(rows: &Vec<Vec<SqlValue>>) -> (r: Result<Vec<String>, BankError>)
    ensures
        topics_view(r) == topic_list_of(table(rows@)),
        r matches Ok(list) ==> strictly_ascending(text_views(list@)),
{
    let list = match decode_topics(rows) {
        Some(list) => list,
        None => {
            return Err(BankError::Storage(StorageFault::MalformedRow));
        },
    };
    if !texts_ascending(&list) {
        return Err(BankError::Storage(StorageFault::Unordered));
    }
    Ok(list)
}

} // verus!
