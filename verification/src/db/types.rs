//! What a bank holds, as values and as their mathematical views.

use vstd::prelude::*;

verus! {

/// The view of a text that may be absent.
pub open spec fn opt_text(o: Option<String>) -> Option<Seq<char>> {
    match o {
        Some(s) => Some(s@),
        None => None,
    }
}

/// A question as it is listed: without explanations and options.
#[derive(Debug, Clone, PartialEq, Eq)]
pub struct QuestionSummary {
    pub id: i64,
    pub q_type: String,
    pub topic: Option<String>,
    pub difficulty: Option<String>,
    pub question_zh: String,
    pub question_en: Option<String>,
    pub image_path: Option<String>,
}

pub struct SummaryView {
    pub id: int,
    pub q_type: Seq<char>,
    pub topic: Option<Seq<char>>,
    pub difficulty: Option<Seq<char>>,
    pub question_zh: Seq<char>,
    pub question_en: Option<Seq<char>>,
    pub image_path: Option<Seq<char>>,
}

impl View for QuestionSummary {
    type V = SummaryView;

    open spec fn view(&self) -> SummaryView {
        SummaryView {
            id: self.id as int,
            q_type: self.q_type@,
            topic: opt_text(self.topic),
            difficulty: opt_text(self.difficulty),
            question_zh: self.question_zh@,
            question_en: opt_text(self.question_en),
            image_path: opt_text(self.image_path),
        }
    }
}

/// One answer option of a question.
#[derive(Debug, Clone, PartialEq, Eq)]
pub struct OptionItem {
    pub id: i64,
    pub question_id: i64,
    pub label: String,
    pub text_zh: String,
    pub text_en: Option<String>,
    pub is_correct: bool,
    pub explanation_zh: Option<String>,
    pub explanation_en: Option<String>,
    pub sort_order: i32,
}

pub struct OptionView {
    pub id: int,
    pub question_id: int,
    pub label: Seq<char>,
    pub text_zh: Seq<char>,
    pub text_en: Option<Seq<char>>,
    pub is_correct: bool,
    pub explanation_zh: Option<Seq<char>>,
    pub explanation_en: Option<Seq<char>>,
    pub sort_order: int,
}

impl View for OptionItem {
    type V = OptionView;

    open spec fn view(&self) -> OptionView {
        OptionView {
            id: self.id as int,
            question_id: self.question_id as int,
            label: self.label@,
            text_zh: self.text_zh@,
            text_en: opt_text(self.text_en),
            is_correct: self.is_correct,
            explanation_zh: opt_text(self.explanation_zh),
            explanation_en: opt_text(self.explanation_en),
            sort_order: self.sort_order as int,
        }
    }
}

/// The views of a list of options, in the list's order.
pub open spec fn option_views(options: Seq<OptionItem>) -> Seq<OptionView> {
    options.map_values(|o: OptionItem| o@)
}

/// A question in full: with its explanations and its options.
#[derive(Debug, Clone, PartialEq, Eq)]
pub struct QuestionDetail {
    pub id: i64,
    pub q_type: String,
    pub topic: Option<String>,
    pub difficulty: Option<String>,
    pub question_zh: String,
    pub question_en: Option<String>,
    pub image_path: Option<String>,
    pub explanation_zh: Option<String>,
    pub explanation_en: Option<String>,
    pub options: Vec<OptionItem>,
}

pub struct DetailView {
    pub id: int,
    pub q_type: Seq<char>,
    pub topic: Option<Seq<char>>,
    pub difficulty: Option<Seq<char>>,
    pub question_zh: Seq<char>,
    pub question_en: Option<Seq<char>>,
    pub image_path: Option<Seq<char>>,
    pub explanation_zh: Option<Seq<char>>,
    pub explanation_en: Option<Seq<char>>,
    pub options: Seq<OptionView>,
}

impl View for QuestionDetail {
    type V = DetailView;

    open spec fn view(&self) -> DetailView {
        DetailView {
            id: self.id as int,
            q_type: self.q_type@,
            topic: opt_text(self.topic),
            difficulty: opt_text(self.difficulty),
            question_zh: self.question_zh@,
            question_en: opt_text(self.question_en),
            image_path: opt_text(self.image_path),
            explanation_zh: opt_text(self.explanation_zh),
            explanation_en: opt_text(self.explanation_en),
            options: option_views(self.options@),
        }
    }
}

/// Up to three equality conditions on listed questions. An absent
/// condition admits every question.
#[derive(Debug, Clone, PartialEq, Eq)]
pub struct Filters {
    pub topic: Option<String>,
    pub q_type: Option<String>,
    pub difficulty: Option<String>,
}

pub struct FiltersView {
    pub topic: Option<Seq<char>>,
    pub q_type: Option<Seq<char>>,
    pub difficulty: Option<Seq<char>>,
}

impl View for Filters {
    type V = FiltersView;

    open spec fn view(&self) -> FiltersView {
        FiltersView {
            topic: opt_text(self.topic),
            q_type: opt_text(self.q_type),
            difficulty: opt_text(self.difficulty),
        }
    }
}

impl Default for Filters {
    /// The filters that admit every question.
    fn default() -> (f: Filters)
        ensures
            f@ == (FiltersView { topic: None, q_type: None, difficulty: None }),
    {
        Filters { topic: None, q_type: None, difficulty: None }
    }
}

/// The answers given so far to one question.
#[derive(Debug, Clone, PartialEq, Eq)]
pub struct ProgressEntry {
    pub question_id: i64,
    pub answered: i32,
    pub correct: i32,
    pub last_answer: Option<String>,
}

pub struct ProgressView {
    pub question_id: int,
    pub answered: int,
    pub correct: int,
    pub last_answer: Option<Seq<char>>,
}

impl View for ProgressEntry {
    type V = ProgressView;

    open spec fn view(&self) -> ProgressView {
        ProgressView {
            question_id: self.question_id as int,
            answered: self.answered as int,
            correct: self.correct as int,
            last_answer: opt_text(self.last_answer),
        }
    }
}

} // verus!
