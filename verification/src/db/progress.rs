//! The bank's progress table: for each answered question, how often it
//! was answered and how often correctly.

use vstd::prelude::*;
use std::collections::HashMap;
use crate::db::rows::{decode_progress, progress_of};
use crate::db::types::{ProgressEntry, ProgressView};
use crate::db::value::{table, Cell, SqlValue};

verus! {

broadcast use vstd::std_specs::hash::group_hash_axioms;

/// The views of the entries of a progress table, question by question.
pub open spec fn progress_views(m: Map<i64, ProgressEntry>) -> Map<i64, ProgressView> {
    m.map_values(|p: ProgressEntry| p@)
}

/// The table that the rows of the progress table stand for: each row that
/// is a progress entry is entered under its question, a later row
/// overriding an earlier one; a row of another shape is passed over. A
/// question without a row has no entry.
pub open spec fn progress_map_of(rows: Seq<Seq<Cell>>) -> Map<i64, ProgressView>
    decreases rows.len(),
{
    if rows.len() == 0 {
        Map::empty()
    } else {
        let rest = progress_map_of(rows.drop_last());
        match progress_of(rows.last()) {
            Some(p) => rest.insert(p.question_id as i64, p),
            None => rest,
        }
    }
}

/// Each entry of the table stands under its own question.
pub open spec fn keyed_by_question(m: Map<i64, ProgressView>) -> bool {
    forall|k: i64| m.contains_key(k) ==> (#[trigger] m[k]).question_id == k
}

/// Each entry of the table that the rows stand for is entered under its
/// own question.
pub proof fn lemma_progress_keyed_by_question(rows: Seq<Seq<Cell>>)
    ensures
        keyed_by_question(progress_map_of(rows)),
    decreases rows.len(),
{
    if rows.len() > 0 {
        lemma_progress_keyed_by_question(rows.drop_last());
    }
}

/// Turns the rows that the storage returned for the progress table into
/// the table.
pub fn progress_from_rows(rows: &Vec<Vec<SqlValue>>) -> (m: HashMap<i64, ProgressEntry>)
    ensures
        progress_views(m@) == progress_map_of(table(rows@)),
        keyed_by_question(progress_views(m@)),
{
    let mut m: HashMap<i64, ProgressEntry> = HashMap::new();
    let mut i: usize = 0;
    while i < rows.len()
        invariant
            i <= rows.len(),
            progress_views(m@) == progress_map_of(table(rows@).subrange(0, i as int)),
        decreases rows.len() - i,
    {
        assert(table(rows@).subrange(0, i + 1).drop_last() =~= table(rows@).subrange(0, i as int));
        match decode_progress(&rows[i]) {
            Some(p) => {
                m.insert(p.question_id, p);
            },
            None => {},
        }
        i = i + 1;
    }
    assert(table(rows@).subrange(0, rows@.len() as int) =~= table(rows@));
    proof {
        lemma_progress_keyed_by_question(table(rows@));
    }
    m
}

} // verus!
