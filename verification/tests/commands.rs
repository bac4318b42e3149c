use quizbank::commands::{
    add_watch_folder, bank_title, folders_from_parse, get_bank_list, is_watched, load_settings,
    remove_bank_by_path, remove_watch_folder, require_open, save_settings, BankInfo,
};
use quizbank::db::{BankError, QuizBank};
use quizbank::watcher::FolderEntry;

fn file(path: &str, file_name: &str) -> FolderEntry {
    FolderEntry { path: path.to_string(), file_name: file_name.to_string(), is_dir: false }
}

fn strings(items: &[&str]) -> Vec<String> {
    items.iter().map(|s| s.to_string()).collect()
}

#[test]
fn bank_title_is_the_name_without_the_extension() {
    assert_eq!(bank_title("algebra.db"), "algebra");
    assert_eq!(bank_title("a.b.db"), "a.b");
    assert_eq!(bank_title("题库.db"), "题库");
    assert_eq!(bank_title("..db"), ".");
    assert_eq!(bank_title("notes.txt"), "notes.txt");
    assert_eq!(bank_title(".db"), ".db");
    assert_eq!(bank_title(""), "");
}

#[test]
fn bank_title_agrees_with_the_stem_of_a_bank_path() {
    for name in ["a.db", "a.b.db", "..db", "é.db", "x y.db"] {
        let stem = std::path::Path::new(name).file_stem().unwrap().to_string_lossy().to_string();
        assert_eq!(bank_title(name), stem);
    }
}

#[test]
fn get_bank_list_goes_folder_by_folder() {
    let listings = vec![
        Some(vec![file("/one/b.db", "b.db"), file("/one/readme.md", "readme.md")]),
        None,
        Some(vec![]),
        Some(vec![
            file("/two/a.db", "a.db"),
            FolderEntry { path: "/two/d.db".to_string(), file_name: "d.db".to_string(), is_dir: true },
            file("/two/c.db", "c.db"),
        ]),
    ];
    assert_eq!(
        get_bank_list(&listings),
        vec![
            BankInfo { path: "/one/b.db".to_string(), title: "b".to_string() },
            BankInfo { path: "/two/a.db".to_string(), title: "a".to_string() },
            BankInfo { path: "/two/c.db".to_string(), title: "c".to_string() },
        ]
    );
    assert!(get_bank_list(&vec![]).is_empty());
}

#[test]
fn add_watch_folder_enters_a_folder_once() {
    let mut folders = Vec::new();
    add_watch_folder(&mut folders, "/a".to_string());
    add_watch_folder(&mut folders, "/b".to_string());
    add_watch_folder(&mut folders, "/a".to_string());
    assert_eq!(folders, strings(&["/a", "/b"]));
    assert!(is_watched(&folders, &"/b".to_string()));
    assert!(!is_watched(&folders, &"/B".to_string()));
}

#[test]
fn remove_watch_folder_takes_every_occurrence() {
    let mut folders = strings(&["/a", "/b", "/a", "/c"]);
    remove_watch_folder(&mut folders, "/a");
    assert_eq!(folders, strings(&["/b", "/c"]));
    remove_watch_folder(&mut folders, "/missing");
    assert_eq!(folders, strings(&["/b", "/c"]));
    remove_watch_folder(&mut folders, "/c");
    remove_watch_folder(&mut folders, "/b");
    assert!(folders.is_empty());
}

#[test]
fn remove_bank_by_path_stops_watching_the_parent() {
    let mut folders = strings(&["/a", "/b"]);
    remove_bank_by_path(&mut folders, &Some("/a".to_string()));
    assert_eq!(folders, strings(&["/b"]));
    remove_bank_by_path(&mut folders, &None);
    assert_eq!(folders, strings(&["/b"]));
}

#[test]
fn load_settings_reads_a_json_array_of_strings() {
    assert_eq!(
        load_settings(&Some("[\"/a\", \"C:\\\\banks\", \"\\u4e2d\"]".to_string())),
        strings(&["/a", "C:\\banks", "中"])
    );
    assert!(load_settings(&Some("[]".to_string())).is_empty());
}

#[test]
fn load_settings_of_anything_else_is_empty() {
    assert!(load_settings(&None).is_empty());
    assert!(load_settings(&Some(String::new())).is_empty());
    assert!(load_settings(&Some("{\"folders\": []}".to_string())).is_empty());
    assert!(load_settings(&Some("[1, 2]".to_string())).is_empty());
    assert!(load_settings(&Some("[\"/a\"".to_string())).is_empty());
    assert!(folders_from_parse(None).is_empty());
    assert_eq!(folders_from_parse(Some(strings(&["x"]))), strings(&["x"]));
}

#[test]
fn save_settings_writes_an_indented_json_array() {
    assert_eq!(save_settings(&strings(&["/a", "b\"c"])), Some("[\n  \"/a\",\n  \"b\\\"c\"\n]".to_string()));
    assert_eq!(save_settings(&vec![]), Some("[]".to_string()));
}

#[test]
fn settings_survive_saving_and_loading() {
    let folders = strings(&["/banks/one", "D:\\题库", ""]);
    assert_eq!(load_settings(&save_settings(&folders)), folders);
}

#[test]
fn require_open_without_a_bank_is_not_open() {
    let none: Option<QuizBank> = None;
    match require_open(&none) {
        Err(e) => {
            assert_eq!(e, BankError::NotOpen);
            assert_eq!(e.message(), "No bank loaded");
        }
        Ok(_) => panic!("no bank is open"),
    }
}

#[test]
fn require_open_hands_out_the_open_bank() {
    let bank = Some(QuizBank::open("file:require_open?mode=memory&cache=shared").unwrap());
    let opened = require_open(&bank).ok().unwrap();
    assert!(opened.get_progress().unwrap().is_empty());
}
