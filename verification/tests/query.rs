use quizbank::db::query::list_query;
use quizbank::db::types::Filters;
use quizbank::db::value::SqlParam;

#[test]
fn list_query_without_filters_has_no_conditions() {
    let q = list_query(&Filters { topic: None, q_type: None, difficulty: None });
    assert_eq!(
        q.sql,
        "SELECT id, type, topic, difficulty, question_zh, question_en, image_path FROM questions WHERE 1=1 ORDER BY id"
    );
    assert!(q.params.is_empty());
}

#[test]
fn list_query_binds_present_filters_in_order() {
    let q = list_query(&Filters {
        topic: Some("O'Neil".to_string()),
        q_type: None,
        difficulty: Some("hard".to_string()),
    });
    assert_eq!(
        q.sql,
        "SELECT id, type, topic, difficulty, question_zh, question_en, image_path FROM questions WHERE 1=1 AND topic = ? AND difficulty = ? ORDER BY id"
    );
    assert_eq!(
        q.params,
        vec![SqlParam::Text("O'Neil".to_string()), SqlParam::Text("hard".to_string())]
    );
}

#[test]
fn list_query_with_all_filters_has_three_conditions() {
    let q = list_query(&Filters {
        topic: Some("t".to_string()),
        q_type: Some("single".to_string()),
        difficulty: Some("d".to_string()),
    });
    assert_eq!(
        q.sql,
        "SELECT id, type, topic, difficulty, question_zh, question_en, image_path FROM questions WHERE 1=1 AND topic = ? AND type = ? AND difficulty = ? ORDER BY id"
    );
    assert_eq!(
        q.params,
        vec![
            SqlParam::Text("t".to_string()),
            SqlParam::Text("single".to_string()),
            SqlParam::Text("d".to_string()),
        ]
    );
}

#[test]
fn list_query_text_does_not_depend_on_the_values() {
    let a = list_query(&Filters { topic: Some("a".to_string()), q_type: None, difficulty: None });
    let b = list_query(&Filters {
        topic: Some("'; DROP TABLE questions; --".to_string()),
        q_type: None,
        difficulty: None,
    });
    assert_eq!(a.sql, b.sql);
    assert_eq!(a.sql.matches('?').count(), a.params.len());
}

#[test]
fn default_filters_admit_everything() {
    let f = Filters::default();
    assert_eq!(f, Filters { topic: None, q_type: None, difficulty: None });
    assert!(list_query(&f).params.is_empty());
}

#[test]
fn question_params_bind_the_id() {
    assert_eq!(quizbank::db::query::question_params(42), vec![SqlParam::Integer(42)]);
}

#[test]
fn save_progress_params_count_a_correct_answer_as_one() {
    assert_eq!(
        quizbank::db::query::save_progress_params(7, "B", true),
        vec![SqlParam::Integer(7), SqlParam::Integer(1), SqlParam::Text("B".to_string())]
    );
    assert_eq!(
        quizbank::db::query::save_progress_params(-3, "", false),
        vec![SqlParam::Integer(-3), SqlParam::Integer(0), SqlParam::Text(String::new())]
    );
}
