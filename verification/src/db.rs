//! One open question bank.

pub mod error;
pub mod listing;
pub mod meta;
pub mod progress;
pub mod query;
pub mod question;
pub mod rows;
pub mod storage;
pub mod topics;
pub mod types;
pub mod value;

pub use crate::db::error::{BankError, StorageFault};
pub use crate::db::meta::{Meta, MetaEntry};
pub use crate::db::types::{Filters, OptionItem, ProgressEntry, QuestionDetail, QuestionSummary};

use vstd::prelude::*;
use std::collections::HashMap;
use crate::db::listing::{all_match, ascending_ids, summaries_from_rows, summary_views};
use crate::db::meta::meta_from_rows;
use crate::db::progress::{keyed_by_question, progress_from_rows, progress_views};
use crate::db::query::{
    list_query, question_params, save_progress_params, CHECK_FORMAT_SQL, CLEAR_PROGRESS_SQL,
    CREATE_PROGRESS_SQL, FOREIGN_KEYS_SQL, META_SQL, OPTIONS_SQL, PROGRESS_SQL, QUESTION_SQL,
    SAVE_PROGRESS_SQL, TOPICS_SQL,
};
use crate::db::question::{
    all_belong, attach_options, options_from_rows, options_ordered, question_from_rows,
};
use crate::db::storage::{error_text, execute, execute_batch, open_connection, query_rows};
use crate::db::topics::topics_from_rows;
use crate::db::value::SqlParam;
use crate::text::{strictly_ascending, text_views};

verus! {

/// The storage engine has failed.
pub open spec fn is_engine_fault(e: BankError) -> bool {
    e matches BankError::Storage(StorageFault::Engine(_))
}

/// The error for a failure that the storage engine reported with `message`.
fn engine_fault(message: String) -> (r: BankError)
    ensures
        r == BankError::Storage(StorageFault::Engine(message)),
{
    BankError::Storage(StorageFault::Engine(message))
}

/// A bank that is open. It owns the connection to the bank's file.
pub struct QuizBank {
    conn: rusqlite::Connection,
}

impl QuizBank {
    /// Opens the bank at `path` and makes sure that it has a progress
    /// table, leaving a table that is there as it is. A file that is
    /// missing is not made.
    ///
    /// Fails with a storage error where the file is missing, cannot be
    /// opened or is no database, and with a schema error where the
    /// progress table cannot be made.
    pub fn open(path: &str) -> (r: Result<QuizBank, BankError>)
        ensures
            r matches Err(e) ==> is_engine_fault(e) || e is Schema,
    {
        let conn = match open_connection(path, false) {
            Ok(conn) => conn,
            Err(e) => {
                return Err(engine_fault(error_text(&e)));
            },
        };
        match execute_batch(&conn, FOREIGN_KEYS_SQL) {
            Ok(_) => {},
            Err(e) => {
                return Err(engine_fault(error_text(&e)));
            },
        }
        match execute_batch(&conn, CHECK_FORMAT_SQL) {
            Ok(_) => {},
            Err(e) => {
                return Err(engine_fault(error_text(&e)));
            },
        }
        match execute_batch(&conn, CREATE_PROGRESS_SQL) {
            Ok(_) => {},
            Err(e) => {
                return Err(BankError::Schema(error_text(&e)));
            },
        }
        Ok(QuizBank { conn })
    }

    /// The bank's meta table, which has no keys where the table has no
    /// rows. Fails only where the storage engine does.
    pub fn get_meta(&self) -> (r: Result<Meta, BankError>)
        ensures
            r matches Err(e) ==> is_engine_fault(e),
    {
        let none: Vec<SqlParam> = Vec::new();
        match query_rows(&self.conn, META_SQL, &none) {
            Ok(rows) => Ok(meta_from_rows(&rows)),
            Err(e) => Err(engine_fault(error_text(&e))),
        }
    }

    /// The questions that meet every condition of `filters` that is
    /// present, in strictly ascending order of id. The conditions' values
    /// are bound to the query, never written into it.
    pub fn list_questions(&self, filters: &Filters) -> (r: Result<Vec<QuestionSummary>, BankError>)
        ensures
            match r {
                Ok(list) => all_match(summary_views(list@), filters@) && ascending_ids(
                    summary_views(list@),
                ),
                Err(e) => e is Storage,
            },
    {
        let q = list_query(filters);
        match query_rows(&self.conn, q.sql.as_str(), &q.params) {
            Ok(rows) => summaries_from_rows(&rows, filters),
            Err(e) => Err(engine_fault(error_text(&e))),
        }
    }

    /// The question `id` in full, with its options in the order of their
    /// sort order and, where that is the same, of their ids.
    ///
    /// Fails with `NotFound` where the bank has no such question.
    pub fn get_question(&self, id: i64) -> (r: Result<QuestionDetail, BankError>)
        ensures
            match r {
                Ok(d) => d.id == id && all_belong(d@.options, id as int) && options_ordered(
                    d@.options,
                ),
                Err(e) => e is NotFound || e is Storage,
            },
    {
        let params = question_params(id);
        let question = match query_rows(&self.conn, QUESTION_SQL, &params) {
            Ok(rows) => question_from_rows(id, &rows)?,
            Err(e) => {
                return Err(engine_fault(error_text(&e)));
            },
        };
        let options = match query_rows(&self.conn, OPTIONS_SQL, &params) {
            Ok(rows) => options_from_rows(id, &rows)?,
            Err(e) => {
                return Err(engine_fault(error_text(&e)));
            },
        };
        Ok(attach_options(question, options))
    }

    /// The topics that questions of the bank have, each once, in strictly
    /// ascending order. A question without a topic adds none.
    pub fn get_topics(&self) -> (r: Result<Vec<String>, BankError>)
        ensures
            match r {
                Ok(list) => strictly_ascending(text_views(list@)),
                Err(e) => e is Storage,
            },
    {
        let none: Vec<SqlParam> = Vec::new();
        match query_rows(&self.conn, TOPICS_SQL, &none) {
            Ok(rows) => topics_from_rows(&rows),
            Err(e) => Err(engine_fault(error_text(&e))),
        }
    }

    /// Counts one answer more for the question `question_id`, correct or
    /// not, and keeps `answer` as its last answer. The storage counts, in
    /// one statement. Fails only where the storage engine does.
    pub fn save_progress(&self, question_id: i64, answer: &str, correct: bool) -> (r: Result<
        (),
        BankError,
    >)
        ensures
            r matches Err(e) ==> is_engine_fault(e),
    {
        let params = save_progress_params(question_id, answer, correct);
        match execute(&self.conn, SAVE_PROGRESS_SQL, &params) {
            Ok(_) => Ok(()),
            Err(e) => Err(engine_fault(error_text(&e))),
        }
    }

    /// The progress of every question that was answered, under the
    /// question's id. Fails only where the storage engine does.
    pub fn get_progress(&self) -> (r: Result<HashMap<i64, ProgressEntry>, BankError>)
        ensures
            match r {
                Ok(m) => keyed_by_question(progress_views(m@)),
                Err(e) => is_engine_fault(e),
            },
    {
        let none: Vec<SqlParam> = Vec::new();
        match query_rows(&self.conn, PROGRESS_SQL, &none) {
            Ok(rows) => Ok(progress_from_rows(&rows)),
            Err(e) => Err(engine_fault(error_text(&e))),
        }
    }

    /// Forgets the progress of every question. Fails only where the
    /// storage engine does.
    pub fn clear_progress(&self) -> (r: Result<(), BankError>)
        ensures
            r matches Err(e) ==> is_engine_fault(e),
    {
        let none: Vec<SqlParam> = Vec::new();
        match execute(&self.conn, CLEAR_PROGRESS_SQL, &none) {
            Ok(_) => Ok(()),
            Err(e) => Err(engine_fault(error_text(&e))),
        }
    }
}

} // verus!
