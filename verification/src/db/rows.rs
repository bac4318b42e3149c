//! From the rows that the storage returns to the values of a bank.

use vstd::prelude::*;
use crate::db::types::{
    opt_text, DetailView, OptionItem, OptionView, ProgressEntry, ProgressView, QuestionDetail,
    QuestionSummary, SummaryView,
};
use crate::db::value::{
    cells, flag_of, int32_of, integer_of, optional_text_of, text_of, Cell, SqlValue,
};

verus! {

/// The listed question that a row of the questions table stands for: its
/// seven columns are id, type, topic, difficulty, the question in two
/// languages and the image. A row of another shape stands for none.
pub open spec fn summary_of(row: Seq<Cell>) -> Option<SummaryView> {
    if row.len() != 7 {
        None
    } else {
        match (
            integer_of(row[0]),
            text_of(row[1]),
            optional_text_of(row[2]),
            optional_text_of(row[3]),
            text_of(row[4]),
            optional_text_of(row[5]),
            optional_text_of(row[6]),
        ) {
            (
                Some(id),
                Some(q_type),
                Some(topic),
                Some(difficulty),
                Some(question_zh),
                Some(question_en),
                Some(image_path),
            ) => Some(
                SummaryView { id, q_type, topic, difficulty, question_zh, question_en, image_path },
            ),
            _ => None,
        }
    }
}

/// The view of a listed question that may be absent.
pub open spec fn opt_summary(o: Option<QuestionSummary>) -> Option<SummaryView> {
    match o {
        Some(s) => Some(s@),
        None => None,
    }
}

/// Reads a listed question from a row.
pub fn decode_summary(row: &Vec<SqlValue>) -> (r: Option<QuestionSummary>)
    ensures
        opt_summary(r) == summary_of(cells(row@)),
{
    if row.len() != 7 {
        return None;
    }
    let id = row[0].as_integer()?;
    let q_type = row[1].as_text()?;
    let topic = row[2].as_optional_text()?;
    let difficulty = row[3].as_optional_text()?;
    let question_zh = row[4].as_text()?;
    let question_en = row[5].as_optional_text()?;
    let image_path = row[6].as_optional_text()?;
    Some(QuestionSummary { id, q_type, topic, difficulty, question_zh, question_en, image_path })
}

/// The question in full that a row of the questions table stands for,
/// before its options are known: the seven columns of a listed question
/// and the explanation in two languages.
pub open spec fn detail_of(row: Seq<Cell>) -> Option<DetailView> {
    if row.len() != 9 {
        None
    } else {
        match (
            summary_of(row.subrange(0, 7)),
            optional_text_of(row[7]),
            optional_text_of(row[8]),
        ) {
            (Some(s), Some(explanation_zh), Some(explanation_en)) => Some(
                DetailView {
                    id: s.id,
                    q_type: s.q_type,
                    topic: s.topic,
                    difficulty: s.difficulty,
                    question_zh: s.question_zh,
                    question_en: s.question_en,
                    image_path: s.image_path,
                    explanation_zh,
                    explanation_en,
                    options: Seq::empty(),
                },
            ),
            _ => None,
        }
    }
}

/// The view of a question in full that may be absent.
pub open spec fn opt_detail(o: Option<QuestionDetail>) -> Option<DetailView> {
    match o {
        Some(d) => Some(d@),
        None => None,
    }
}

/// Reads a question in full, without options, from a row.
pub fn decode_detail(row: &Vec<SqlValue>) -> (r: Option<QuestionDetail>)
    ensures
        opt_detail(r) == detail_of(cells(row@)),
{
    if row.len() != 9 {
        return None;
    }
    let id = row[0].as_integer()?;
    let q_type = row[1].as_text()?;
    let topic = row[2].as_optional_text()?;
    let difficulty = row[3].as_optional_text()?;
    let question_zh = row[4].as_text()?;
    let question_en = row[5].as_optional_text()?;
    let image_path = row[6].as_optional_text()?;
    let explanation_zh = row[7].as_optional_text()?;
    let explanation_en = row[8].as_optional_text()?;
    let d = QuestionDetail {
        id,
        q_type,
        topic,
        difficulty,
        question_zh,
        question_en,
        image_path,
        explanation_zh,
        explanation_en,
        options: Vec::new(),
    };
    assert(d@.options =~= Seq::empty());
    Some(d)
}

/// The option that a row of the options table stands for: its nine
/// columns are id, question, label, the text in two languages, whether it
/// is correct, the explanation in two languages and the sort order.
pub open spec fn option_of(row: Seq<Cell>) -> Option<OptionView> {
    if row.len() != 9 {
        None
    } else {
        match (
            integer_of(row[0]),
            integer_of(row[1]),
            text_of(row[2]),
            text_of(row[3]),
            optional_text_of(row[4]),
            flag_of(row[5]),
            optional_text_of(row[6]),
            optional_text_of(row[7]),
            int32_of(row[8]),
        ) {
            (
                Some(id),
                Some(question_id),
                Some(label),
                Some(text_zh),
                Some(text_en),
                Some(is_correct),
                Some(explanation_zh),
                Some(explanation_en),
                Some(sort_order),
            ) => Some(
                OptionView {
                    id,
                    question_id,
                    label,
                    text_zh,
                    text_en,
                    is_correct,
                    explanation_zh,
                    explanation_en,
                    sort_order,
                },
            ),
            _ => None,
        }
    }
}

/// The view of an option that may be absent.
pub open spec fn opt_option(o: Option<OptionItem>) -> Option<OptionView> {
    match o {
        Some(v) => Some(v@),
        None => None,
    }
}

/// Reads an option from a row.
pub fn decode_option(row: &Vec<SqlValue>) -> (r: Option<OptionItem>)
    ensures
        opt_option(r) == option_of(cells(row@)),
{
    if row.len() != 9 {
        return None;
    }
    let id = row[0].as_integer()?;
    let question_id = row[1].as_integer()?;
    let label = row[2].as_text()?;
    let text_zh = row[3].as_text()?;
    let text_en = row[4].as_optional_text()?;
    let is_correct = row[5].as_flag()?;
    let explanation_zh = row[6].as_optional_text()?;
    let explanation_en = row[7].as_optional_text()?;
    let sort_order = row[8].as_int32()?;
    Some(
        OptionItem {
            id,
            question_id,
            label,
            text_zh,
            text_en,
            is_correct,
            explanation_zh,
            explanation_en,
            sort_order,
        },
    )
}

/// The key and value that a row of the meta table stands for: two texts.
pub open spec fn meta_pair_of(row: Seq<Cell>) -> Option<(Seq<char>, Seq<char>)> {
    if row.len() != 2 {
        None
    } else {
        match (text_of(row[0]), text_of(row[1])) {
            (Some(k), Some(v)) => Some((k, v)),
            _ => None,
        }
    }
}

/// The views of a key and a value that may be absent.
pub open spec fn opt_pair(o: Option<(String, String)>) -> Option<(Seq<char>, Seq<char>)> {
    match o {
        Some((k, v)) => Some((k@, v@)),
        None => None,
    }
}

/// Reads a key and its value from a row.
pub fn decode_meta_pair(row: &Vec<SqlValue>) -> (r: Option<(String, String)>)
    ensures
        opt_pair(r) == meta_pair_of(cells(row@)),
{
    if row.len() != 2 {
        return None;
    }
    let k = row[0].as_text()?;
    let v = row[1].as_text()?;
    Some((k, v))
}

/// The topic that a row of the topics query stands for: one text.
pub open spec fn topic_of(row: Seq<Cell>) -> Option<Seq<char>> {
    if row.len() != 1 {
        None
    } else {
        text_of(row[0])
    }
}

/// Reads a topic from a row.
pub fn decode_topic(row: &Vec<SqlValue>) -> (r: Option<String>)
    ensures
        opt_text(r) == topic_of(cells(row@)),
{
    if row.len() != 1 {
        return None;
    }
    row[0].as_text()
}

/// The progress that a row of the progress table stands for: its four
/// columns are the question, how often it was answered, how often
/// correctly, and the last answer.
pub open spec fn progress_of(row: Seq<Cell>) -> Option<ProgressView> {
    if row.len() != 4 {
        None
    } else {
        match (integer_of(row[0]), int32_of(row[1]), int32_of(row[2]), optional_text_of(row[3])) {
            (Some(question_id), Some(answered), Some(correct), Some(last_answer)) => Some(
                ProgressView { question_id, answered, correct, last_answer },
            ),
            _ => None,
        }
    }
}

/// The view of a progress entry that may be absent.
pub open spec fn opt_progress(o: Option<ProgressEntry>) -> Option<ProgressView> {
    match o {
        Some(p) => Some(p@),
        None => None,
    }
}

/// Reads a progress entry from a row.
pub fn decode_progress(row: &Vec<SqlValue>) -> (r: Option<ProgressEntry>)
    ensures
        opt_progress(r) == progress_of(cells(row@)),
{
    if row.len() != 4 {
        return None;
    }
    let question_id = row[0].as_integer()?;
    let answered = row[1].as_int32()?;
    let correct = row[2].as_int32()?;
    let last_answer = row[3].as_optional_text()?;
    Some(ProgressEntry { question_id, answered, correct, last_answer })
}

} // verus!
