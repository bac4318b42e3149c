use quizbank::db::{BankError, Filters, QuizBank, StorageFault};
use rusqlite::Connection;

/// A bank kept in memory under `name`, with three questions, their
/// options and two meta rows. The connection keeps the bank alive.
fn sample_bank(name: &str) -> (Connection, String) {
    let path = format!("file:{}?mode=memory&cache=shared", name);
    let conn = Connection::open(&path).unwrap();
    conn.execute_batch(
        "CREATE TABLE questions (
            id INTEGER PRIMARY KEY, type TEXT NOT NULL, topic TEXT, difficulty TEXT,
            question_zh TEXT NOT NULL, question_en TEXT, image_path TEXT,
            explanation_zh TEXT, explanation_en TEXT);
         CREATE TABLE options (
            id INTEGER PRIMARY KEY, question_id INTEGER NOT NULL REFERENCES questions(id),
            label TEXT NOT NULL, text_zh TEXT NOT NULL, text_en TEXT, is_correct INTEGER NOT NULL,
            explanation_zh TEXT, explanation_en TEXT, sort_order INTEGER NOT NULL);
         CREATE TABLE meta (key TEXT PRIMARY KEY, value TEXT NOT NULL);
         INSERT INTO questions VALUES
            (3, 'single', 'math', 'easy', 'q3', 'three', NULL, 'e3', NULL),
            (1, 'single', 'math', 'hard', 'q1', NULL, 'one.png', NULL, 'why one'),
            (2, 'multi', NULL, 'easy', 'q2', 'two', NULL, NULL, NULL),
            (7, 'single', 'it''s', NULL, 'q7', NULL, NULL, NULL, NULL);
         INSERT INTO options VALUES
            (10, 1, 'B', 'b', NULL, 0, NULL, NULL, 2),
            (11, 1, 'A', 'a', 'a-en', 1, 'yes', NULL, 1),
            (13, 1, 'D', 'd', NULL, 0, NULL, NULL, 3),
            (12, 1, 'C', 'c', NULL, 0, NULL, NULL, 3),
            (20, 2, 'A', 'x', NULL, 1, NULL, NULL, 1);
         INSERT INTO meta VALUES ('title', 'Sample'), ('version', '2');",
    )
    .unwrap();
    (conn, path)
}

fn no_filters() -> Filters {
    Filters { topic: None, q_type: None, difficulty: None }
}

#[test]
fn open_creates_the_progress_table_once() {
    let (conn, path) = sample_bank("open_creates");
    {
        let bank = QuizBank::open(&path).unwrap();
        bank.save_progress(1, "A", true).unwrap();
    }
    let bank = QuizBank::open(&path).unwrap();
    let progress = bank.get_progress().unwrap();
    assert_eq!(progress.len(), 1);
    assert_eq!(progress[&1].answered, 1);
    let columns: i64 = conn
        .query_row("SELECT COUNT(*) FROM pragma_table_info('progress')", [], |r| r.get(0))
        .unwrap();
    assert_eq!(columns, 5);
}

#[test]
fn open_fails_with_a_storage_error_on_a_missing_directory() {
    let r = QuizBank::open("/nonexistent-directory-for-banks/none.db");
    match r {
        Err(BankError::Storage(StorageFault::Engine(message))) => assert!(!message.is_empty()),
        _ => panic!("expected a storage error"),
    }
}

#[test]
fn list_questions_without_filters_is_ascending_by_id() {
    let (_conn, path) = sample_bank("list_all");
    let bank = QuizBank::open(&path).unwrap();
    let list = bank.list_questions(&no_filters()).unwrap();
    let ids: Vec<i64> = list.iter().map(|q| q.id).collect();
    assert_eq!(ids, vec![1, 2, 3, 7]);
    assert_eq!(list[0].q_type, "single");
    assert_eq!(list[0].topic, Some("math".to_string()));
    assert_eq!(list[0].difficulty, Some("hard".to_string()));
    assert_eq!(list[0].question_zh, "q1");
    assert_eq!(list[0].question_en, None);
    assert_eq!(list[0].image_path, Some("one.png".to_string()));
}

#[test]
fn list_questions_applies_every_present_filter() {
    let (_conn, path) = sample_bank("list_filtered");
    let bank = QuizBank::open(&path).unwrap();
    let by_topic = bank
        .list_questions(&Filters { topic: Some("math".to_string()), ..no_filters() })
        .unwrap();
    assert_eq!(by_topic.iter().map(|q| q.id).collect::<Vec<_>>(), vec![1, 3]);
    let by_type = bank
        .list_questions(&Filters { q_type: Some("multi".to_string()), ..no_filters() })
        .unwrap();
    assert_eq!(by_type.iter().map(|q| q.id).collect::<Vec<_>>(), vec![2]);
    let by_both = bank
        .list_questions(&Filters {
            topic: Some("math".to_string()),
            q_type: Some("single".to_string()),
            difficulty: Some("easy".to_string()),
        })
        .unwrap();
    assert_eq!(by_both.iter().map(|q| q.id).collect::<Vec<_>>(), vec![3]);
    let none = bank
        .list_questions(&Filters { difficulty: Some("medium".to_string()), ..no_filters() })
        .unwrap();
    assert!(none.is_empty());
}

#[test]
fn list_questions_binds_values_with_quotes() {
    let (_conn, path) = sample_bank("list_quotes");
    let bank = QuizBank::open(&path).unwrap();
    let list = bank
        .list_questions(&Filters { topic: Some("it's".to_string()), ..no_filters() })
        .unwrap();
    assert_eq!(list.iter().map(|q| q.id).collect::<Vec<_>>(), vec![7]);
    let injected = bank
        .list_questions(&Filters { topic: Some("x' OR '1'='1".to_string()), ..no_filters() })
        .unwrap();
    assert!(injected.is_empty());
}

#[test]
fn get_question_orders_options_by_sort_order_then_id() {
    let (_conn, path) = sample_bank("get_question");
    let bank = QuizBank::open(&path).unwrap();
    let q = bank.get_question(1).unwrap();
    assert_eq!(q.id, 1);
    assert_eq!(q.explanation_zh, None);
    assert_eq!(q.explanation_en, Some("why one".to_string()));
    assert_eq!(q.options.iter().map(|o| o.id).collect::<Vec<_>>(), vec![11, 10, 12, 13]);
    assert_eq!(q.options[0].label, "A");
    assert!(q.options[0].is_correct);
    assert_eq!(q.options[0].text_en, Some("a-en".to_string()));
    assert_eq!(q.options[0].explanation_zh, Some("yes".to_string()));
    assert_eq!(q.options[0].sort_order, 1);
    assert!(!q.options[1].is_correct);
    assert!(q.options.iter().all(|o| o.question_id == 1));
}

#[test]
fn get_question_without_options_has_none() {
    let (_conn, path) = sample_bank("get_question_bare");
    let bank = QuizBank::open(&path).unwrap();
    let q = bank.get_question(3).unwrap();
    assert!(q.options.is_empty());
    assert_eq!(q.explanation_zh, Some("e3".to_string()));
}

#[test]
fn get_question_on_an_unknown_id_is_not_found() {
    let (_conn, path) = sample_bank("get_question_missing");
    let bank = QuizBank::open(&path).unwrap();
    assert_eq!(bank.get_question(99), Err(BankError::NotFound));
    assert_eq!(bank.get_question(-1), Err(BankError::NotFound));
    assert_eq!(BankError::NotFound.message(), "Query returned no rows");
}

#[test]
fn get_topics_is_sorted_without_duplicates_or_nulls() {
    let (_conn, path) = sample_bank("topics");
    let bank = QuizBank::open(&path).unwrap();
    assert_eq!(bank.get_topics().unwrap(), vec!["it's".to_string(), "math".to_string()]);
}

#[test]
fn get_meta_maps_each_key_to_its_value() {
    let (_conn, path) = sample_bank("meta");
    let bank = QuizBank::open(&path).unwrap();
    let meta = bank.get_meta().unwrap();
    assert_eq!(meta.len(), 2);
    assert_eq!(meta.get("title"), Some(&"Sample".to_string()));
    assert_eq!(meta.get("version"), Some(&"2".to_string()));
    assert_eq!(meta.get("author"), None);
}

#[test]
fn get_meta_of_an_empty_table_is_empty() {
    let (conn, path) = sample_bank("meta_empty");
    conn.execute("DELETE FROM meta", []).unwrap();
    let bank = QuizBank::open(&path).unwrap();
    assert_eq!(bank.get_meta().unwrap().len(), 0);
}

#[test]
fn get_meta_fails_where_the_table_is_missing() {
    let (conn, path) = sample_bank("meta_missing");
    conn.execute_batch("DROP TABLE meta").unwrap();
    let bank = QuizBank::open(&path).unwrap();
    assert!(matches!(bank.get_meta(), Err(BankError::Storage(StorageFault::Engine(_)))));
}

#[test]
fn save_progress_twice_accumulates() {
    let (_conn, path) = sample_bank("save_twice");
    let bank = QuizBank::open(&path).unwrap();
    bank.save_progress(1, "A", true).unwrap();
    bank.save_progress(1, "B", false).unwrap();
    let progress = bank.get_progress().unwrap();
    assert_eq!(progress.len(), 1);
    let entry = &progress[&1];
    assert_eq!(entry.question_id, 1);
    assert_eq!(entry.answered, 2);
    assert_eq!(entry.correct, 1);
    assert_eq!(entry.last_answer, Some("B".to_string()));
}

#[test]
fn save_progress_first_answer_counts_one() {
    let (_conn, path) = sample_bank("save_first");
    let bank = QuizBank::open(&path).unwrap();
    bank.save_progress(2, "X", false).unwrap();
    bank.save_progress(3, "Y", true).unwrap();
    let progress = bank.get_progress().unwrap();
    assert_eq!(progress.len(), 2);
    assert_eq!((progress[&2].answered, progress[&2].correct), (1, 0));
    assert_eq!((progress[&3].answered, progress[&3].correct), (1, 1));
    assert!(progress.values().all(|p| p.correct <= p.answered));
}

#[test]
fn get_progress_has_no_entry_for_unanswered_questions() {
    let (_conn, path) = sample_bank("progress_none");
    let bank = QuizBank::open(&path).unwrap();
    assert!(bank.get_progress().unwrap().is_empty());
}

#[test]
fn clear_progress_restarts_the_counts() {
    let (_conn, path) = sample_bank("clear");
    let bank = QuizBank::open(&path).unwrap();
    bank.save_progress(1, "A", true).unwrap();
    bank.save_progress(1, "A", true).unwrap();
    bank.save_progress(2, "B", false).unwrap();
    bank.clear_progress().unwrap();
    assert!(bank.get_progress().unwrap().is_empty());
    bank.save_progress(1, "C", false).unwrap();
    let progress = bank.get_progress().unwrap();
    assert_eq!(progress.len(), 1);
    assert_eq!((progress[&1].answered, progress[&1].correct), (1, 0));
    assert_eq!(progress[&1].last_answer, Some("C".to_string()));
    bank.clear_progress().unwrap();
    bank.save_progress(1, "D", true).unwrap();
    let progress = bank.get_progress().unwrap();
    assert_eq!((progress[&1].answered, progress[&1].correct), (1, 1));
}

#[test]
fn list_questions_rejects_a_row_of_the_wrong_shape() {
    let (conn, path) = sample_bank("list_malformed");
    conn.execute("INSERT INTO questions (id, type, question_zh) VALUES (50, 5, 'q')", []).unwrap();
    conn.execute("UPDATE questions SET type = x'00ff' WHERE id = 50", []).unwrap();
    let bank = QuizBank::open(&path).unwrap();
    assert_eq!(
        bank.list_questions(&no_filters()),
        Err(BankError::Storage(StorageFault::MalformedRow))
    );
}

#[test]
fn open_fails_with_a_schema_error_where_the_table_cannot_be_made() {
    let (conn, path) = sample_bank("open_schema");
    conn.execute_batch("CREATE INDEX progress ON questions(topic)").unwrap();
    match QuizBank::open(&path) {
        Err(BankError::Schema(message)) => assert!(message.contains("progress")),
        Err(e) => panic!("expected a schema error, got {:?}", e),
        Ok(_) => panic!("expected a schema error"),
    }
}

#[test]
fn open_keeps_the_progress_that_is_there() {
    let (conn, path) = sample_bank("open_keeps");
    conn.execute_batch(
        "CREATE TABLE progress (question_id INTEGER PRIMARY KEY, answered INTEGER DEFAULT 0,
            correct INTEGER DEFAULT 0, last_answer TEXT, updated_at TEXT DEFAULT (datetime('now')));
         INSERT INTO progress (question_id, answered, correct, last_answer) VALUES (2, 9, 4, 'C');",
    )
    .unwrap();
    let bank = QuizBank::open(&path).unwrap();
    let progress = bank.get_progress().unwrap();
    assert_eq!((progress[&2].answered, progress[&2].correct), (9, 4));
    bank.save_progress(2, "D", true).unwrap();
    let progress = bank.get_progress().unwrap();
    assert_eq!((progress[&2].answered, progress[&2].correct), (10, 5));
    assert_eq!(progress[&2].last_answer, Some("D".to_string()));
}

#[test]
fn get_progress_passes_over_rows_of_another_shape() {
    let (conn, path) = sample_bank("progress_shape");
    let bank = QuizBank::open(&path).unwrap();
    bank.save_progress(1, "A", true).unwrap();
    conn.execute("INSERT INTO progress (question_id, answered, correct) VALUES (2, 'x', 0)", [])
        .unwrap();
    let progress = bank.get_progress().unwrap();
    assert_eq!(progress.len(), 1);
    assert!(progress.contains_key(&1));
}

#[test]
fn get_topics_rejects_topics_that_sort_differently() {
    let (conn, path) = sample_bank("topics_nocase");
    conn.execute_batch(
        "DROP TABLE questions;
         CREATE TABLE questions (
            id INTEGER PRIMARY KEY, type TEXT NOT NULL, topic TEXT COLLATE NOCASE, difficulty TEXT,
            question_zh TEXT NOT NULL, question_en TEXT, image_path TEXT,
            explanation_zh TEXT, explanation_en TEXT);
         INSERT INTO questions (id, type, topic, question_zh) VALUES
            (1, 'single', 'b', 'q'), (2, 'single', 'C', 'q'), (3, 'single', 'a', 'q');",
    )
    .unwrap();
    let bank = QuizBank::open(&path).unwrap();
    assert_eq!(bank.get_topics(), Err(BankError::Storage(StorageFault::Unordered)));
}

#[test]
fn list_questions_rejects_a_row_that_matches_only_loosely() {
    let (conn, path) = sample_bank("list_nocase");
    conn.execute_batch(
        "DROP TABLE questions;
         CREATE TABLE questions (
            id INTEGER PRIMARY KEY, type TEXT NOT NULL, topic TEXT COLLATE NOCASE, difficulty TEXT,
            question_zh TEXT NOT NULL, question_en TEXT, image_path TEXT,
            explanation_zh TEXT, explanation_en TEXT);
         INSERT INTO questions (id, type, topic, question_zh) VALUES (1, 'single', 'Math', 'q');",
    )
    .unwrap();
    let bank = QuizBank::open(&path).unwrap();
    let exact = Filters { topic: Some("Math".to_string()), q_type: None, difficulty: None };
    assert_eq!(bank.list_questions(&exact).unwrap().len(), 1);
    let loose = Filters { topic: Some("math".to_string()), q_type: None, difficulty: None };
    assert_eq!(
        bank.list_questions(&loose),
        Err(BankError::Storage(StorageFault::UnexpectedRow))
    );
}

#[test]
fn list_questions_matches_every_combination_of_filters() {
    let (_conn, path) = sample_bank("list_combinations");
    let bank = QuizBank::open(&path).unwrap();
    let questions = [
        (1, "single", Some("math"), Some("hard")),
        (2, "multi", None, Some("easy")),
        (3, "single", Some("math"), Some("easy")),
        (7, "single", Some("it's"), None),
    ];
    let topics = [None, Some("math"), Some("it's"), Some("none")];
    let types = [None, Some("single"), Some("multi")];
    let difficulties = [None, Some("easy"), Some("hard")];
    for topic in topics {
        for q_type in types {
            for difficulty in difficulties {
                let filters = Filters {
                    topic: topic.map(str::to_string),
                    q_type: q_type.map(str::to_string),
                    difficulty: difficulty.map(str::to_string),
                };
                let expected: Vec<i64> = questions
                    .iter()
                    .filter(|q| topic.is_none() || q.2 == topic)
                    .filter(|q| q_type.is_none() || Some(q.1) == q_type)
                    .filter(|q| difficulty.is_none() || q.3 == difficulty)
                    .map(|q| q.0)
                    .collect();
                let list = bank.list_questions(&filters).unwrap();
                assert_eq!(list.iter().map(|q| q.id).collect::<Vec<_>>(), expected);
                assert!(list.windows(2).all(|w| w[0].id < w[1].id));
            }
        }
    }
}

#[test]
fn open_does_not_make_a_missing_file() {
    let path = "/tmp/quizbank-test-missing-bank.db";
    assert!(!std::path::Path::new(path).exists());
    assert!(matches!(QuizBank::open(path), Err(BankError::Storage(StorageFault::Engine(_)))));
    assert!(!std::path::Path::new(path).exists());
}

#[test]
fn open_fails_with_a_storage_error_on_a_file_that_is_no_database() {
    match QuizBank::open("file:/etc/passwd?mode=ro") {
        Err(BankError::Storage(StorageFault::Engine(message))) => {
            assert!(message.contains("not a database"))
        }
        Err(e) => panic!("expected a storage error, got {:?}", e),
        Ok(_) => panic!("expected a storage error"),
    }
}

#[test]
fn open_reads_a_bank_from_a_file() {
    let path = "/tmp/quizbank-test-file-bank.db";
    {
        let conn = Connection::open(path).unwrap();
        conn.execute_batch(
            "DROP TABLE IF EXISTS progress;
             CREATE TABLE IF NOT EXISTS meta (key TEXT PRIMARY KEY, value TEXT NOT NULL);
             INSERT OR REPLACE INTO meta VALUES ('title', 'On disk');",
        )
        .unwrap();
    }
    {
        let bank = QuizBank::open(path).unwrap();
        assert_eq!(bank.get_meta().unwrap().get("title"), Some(&"On disk".to_string()));
        bank.save_progress(4, "A", false).unwrap();
    }
    let bank = QuizBank::open(path).unwrap();
    assert_eq!(bank.get_progress().unwrap()[&4].answered, 1);
}
