//! The statements that a bank is read and updated with.

use vstd::prelude::*;
use vstd::string::*;
use crate::db::types::{Filters, FiltersView};
use crate::db::value::{param_views, ParamView, SqlParam};

verus! {

/// The listing query before its conditions: every question.
pub const LIST_HEAD: &'static str =
    "SELECT id, type, topic, difficulty, question_zh, question_en, image_path FROM questions WHERE 1=1";

/// The condition on the topic, its value to be bound.
pub const TOPIC_CLAUSE: &'static str = " AND topic = ?";

/// The condition on the type, its value to be bound.
pub const TYPE_CLAUSE: &'static str = " AND type = ?";

/// The condition on the difficulty, its value to be bound.
pub const DIFFICULTY_CLAUSE: &'static str = " AND difficulty = ?";

/// The end of the listing query: in ascending order of id.
pub const ORDER_CLAUSE: &'static str = " ORDER BY id";

/// A statement and the values bound to its `?`, in order.
#[derive(Debug, Clone, PartialEq, Eq)]
pub struct Query {
    pub sql: String,
    pub params: Vec<SqlParam>,
}

pub struct QueryView {
    pub sql: Seq<char>,
    pub params: Seq<ParamView>,
}

impl View for Query {
    type V = QueryView;

    open spec fn view(&self) -> QueryView {
        QueryView { sql: self.sql@, params: param_views(self.params@) }
    }
}

/// `clause` where `value` is present, nothing where it is absent.
pub open spec fn clause_for(value: Option<Seq<char>>, clause: Seq<char>) -> Seq<char> {
    if value is Some {
        clause
    } else {
        Seq::empty()
    }
}

/// The bound value of a condition that is present.
pub open spec fn param_for(value: Option<Seq<char>>) -> Seq<ParamView> {
    match value {
        Some(v) => seq![ParamView::Text(v)],
        None => Seq::empty(),
    }
}

/// The text of the listing query: one `?` condition for each filter that
/// is present, in the order topic, type, difficulty, then the ordering by
/// id. The text holds no filter's value.
pub open spec fn list_sql(f: FiltersView) -> Seq<char> {
    LIST_HEAD@ + clause_for(f.topic, TOPIC_CLAUSE@) + clause_for(f.q_type, TYPE_CLAUSE@)
        + clause_for(f.difficulty, DIFFICULTY_CLAUSE@) + ORDER_CLAUSE@
}

/// The values bound to the listing query: those of the filters that are
/// present, in the order of their conditions.
pub open spec fn list_params(f: FiltersView) -> Seq<ParamView> {
    param_for(f.topic) + param_for(f.q_type) + param_for(f.difficulty)
}

/// The same conditions are present in `f` and in `g`.
pub open spec fn same_conditions(f: FiltersView, g: FiltersView) -> bool {
    &&& f.topic is Some <==> g.topic is Some
    &&& f.q_type is Some <==> g.q_type is Some
    &&& f.difficulty is Some <==> g.difficulty is Some
}

/// How many conditions are present.
pub open spec fn condition_count(f: FiltersView) -> nat {
    (if f.topic is Some {
        1nat
    } else {
        0nat
    }) + (if f.q_type is Some {
        1nat
    } else {
        0nat
    }) + (if f.difficulty is Some {
        1nat
    } else {
        0nat
    })
}

/// The text of the listing query is fixed by which conditions are
/// present: no value of a filter is part of it. Each value is bound
/// instead, one for each condition that is present.
pub proof fn lemma_list_sql_holds_no_value(f: FiltersView, g: FiltersView)
    requires
        same_conditions(f, g),
    ensures
        list_sql(f) == list_sql(g),
        list_params(f).len() == condition_count(f),
{
}

/// The listing query for `filters`.
pub fn list_query(filters: &Filters) -> (q: Query)
    ensures
        q@.sql == list_sql(filters@),
        q@.params == list_params(filters@),
{
    let mut sql = String::from_str(LIST_HEAD);
    let mut params: Vec<SqlParam> = Vec::new();
    if let Some(t) = &filters.topic {
        sql.append(TOPIC_CLAUSE);
        params.push(SqlParam::Text(t.clone()));
    }
    if let Some(t) = &filters.q_type {
        sql.append(TYPE_CLAUSE);
        params.push(SqlParam::Text(t.clone()));
    }
    if let Some(d) = &filters.difficulty {
        sql.append(DIFFICULTY_CLAUSE);
        params.push(SqlParam::Text(d.clone()));
    }
    sql.append(ORDER_CLAUSE);
    Query { sql, params }
}

/// Every key of the meta table with its value.
pub const META_SQL: &'static str = "SELECT key, value FROM meta";

/// The question of one id, in full.
pub const QUESTION_SQL: &'static str =
    "SELECT id, type, topic, difficulty, question_zh, question_en, image_path, explanation_zh, explanation_en FROM questions WHERE id = ?";

/// The options of one question, by sort order and then by id.
pub const OPTIONS_SQL: &'static str =
    "SELECT id, question_id, label, text_zh, text_en, is_correct, explanation_zh, explanation_en, sort_order FROM options WHERE question_id = ? ORDER BY sort_order, id";

/// The topics in use, each once, in ascending order.
pub const TOPICS_SQL: &'static str =
    "SELECT DISTINCT topic FROM questions WHERE topic IS NOT NULL ORDER BY topic";

/// One answer more for a question: a first row with one answer, or one
/// more on the row that is there, in a single statement, so that the
/// storage itself counts.
pub const SAVE_PROGRESS_SQL: &'static str =
    "INSERT INTO progress (question_id, answered, correct, last_answer, updated_at) VALUES (?1, 1, ?2, ?3, datetime('now')) ON CONFLICT(question_id) DO UPDATE SET answered = answered + 1, correct = correct + ?2, last_answer = ?3, updated_at = datetime('now')";

/// Every row of the progress table.
pub const PROGRESS_SQL: &'static str =
    "SELECT question_id, answered, correct, last_answer FROM progress";

/// Forget all progress.
pub const CLEAR_PROGRESS_SQL: &'static str = "DELETE FROM progress";

/// Read the file's header, which fails where the file is no database.
pub const CHECK_FORMAT_SQL: &'static str = "PRAGMA schema_version;";

/// Have the storage enforce that an option belongs to a question.
pub const FOREIGN_KEYS_SQL: &'static str = "PRAGMA foreign_keys = ON;";

/// The progress table, made only where there is none yet.
pub const CREATE_PROGRESS_SQL: &'static str =
    "CREATE TABLE IF NOT EXISTS progress (question_id INTEGER PRIMARY KEY, answered INTEGER DEFAULT 0, correct INTEGER DEFAULT 0, last_answer TEXT, updated_at TEXT DEFAULT (datetime('now')));";

/// The value bound to the queries for one question: its id.
pub open spec fn question_params_of(id: int) -> Seq<ParamView> {
    seq![ParamView::Integer(id)]
}

/// The value to bind to the queries for the question `id`.
pub fn question_params(id: i64) -> (params: Vec<SqlParam>)
    ensures
        param_views(params@) == question_params_of(id as int),
{
    let mut params: Vec<SqlParam> = Vec::new();
    params.push(SqlParam::Integer(id));
    params
}

/// The values bound when an answer is saved: the question, 1 for a
/// correct answer and 0 for a wrong one, and the answer.
pub open spec fn save_progress_params_of(question_id: int, answer: Seq<char>, correct: bool) -> Seq<
    ParamView,
> {
    seq![
        ParamView::Integer(question_id),
        ParamView::Integer(if correct { 1 } else { 0 }),
        ParamView::Text(answer),
    ]
}

/// The values to bind when an answer to `question_id` is saved.
pub fn save_progress_params(question_id: i64, answer: &str, correct: bool) -> (params: Vec<
    SqlParam,
>)
    ensures
        param_views(params@) == save_progress_params_of(question_id as int, answer@, correct),
{
    let mut params: Vec<SqlParam> = Vec::new();
    params.push(SqlParam::Integer(question_id));
    let counted: i64 = if correct { 1 } else { 0 };
    params.push(SqlParam::Integer(counted));
    params.push(SqlParam::Text(String::from_str(answer)));
    params
}

} // verus!
