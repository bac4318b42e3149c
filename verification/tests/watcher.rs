use quizbank::watcher::{
    any_bank_file, event_qualifies, folders_to_watch, is_bank_file, scan_folder, EventKind,
    FolderEntry, FsEvent, WatchFolder, WatchInput, WatcherState,
};

fn entry(path: &str, file_name: &str, is_dir: bool) -> FolderEntry {
    FolderEntry { path: path.to_string(), file_name: file_name.to_string(), is_dir }
}

fn event(kind: EventKind, names: &[&str]) -> FsEvent {
    FsEvent { kind, file_names: names.iter().map(|n| n.to_string()).collect() }
}

/// Runs the loop as a caller does, and counts how often it is told to
/// raise the signal.
fn drive(inputs: Vec<WatchInput>) -> (WatcherState, usize) {
    let mut state = WatcherState::new();
    let mut signals = 0;
    let mut pending = inputs.into_iter();
    loop {
        if state.is_terminated() {
            return (state, signals);
        }
        if state.awaits_input() {
            match pending.next() {
                Some(input) => state = state.on_input(input),
                None => return (state, signals),
            }
        } else {
            if state.must_notify() {
                signals += 1;
            }
            state = state.advance();
        }
    }
}

#[test]
fn is_bank_file_wants_a_stem_and_the_extension() {
    assert!(is_bank_file("a.db"));
    assert!(is_bank_file("my bank.v2.db"));
    assert!(is_bank_file("题库.db"));
    assert!(is_bank_file("..db"));
    assert!(!is_bank_file(".db"));
    assert!(!is_bank_file("db"));
    assert!(!is_bank_file(""));
    assert!(!is_bank_file("a.DB"));
    assert!(!is_bank_file("a.db "));
    assert!(!is_bank_file("a.dbx"));
    assert!(!is_bank_file("a.db.bak"));
    assert!(!is_bank_file("b.txt"));
    assert!(!is_bank_file("adb"));
}

#[test]
fn is_bank_file_agrees_with_the_extension_of_a_path() {
    let names = ["a.db", ".db", "..db", "a.b.db", "db", "a.", "a.DB", "x.db.txt", "é.db", "a"];
    for name in names {
        let by_path = std::path::Path::new(name).extension().map_or(false, |e| e == "db");
        assert_eq!(is_bank_file(name), by_path);
    }
}

#[test]
fn scan_folder_returns_only_the_bank_file() {
    let listing = Some(vec![
        entry("/banks/a.db", "a.db", false),
        entry("/banks/b.txt", "b.txt", false),
        entry("/banks/sub", "sub", true),
    ]);
    assert_eq!(scan_folder(&listing), vec![entry("/banks/a.db", "a.db", false)]);
}

#[test]
fn scan_folder_keeps_the_order_and_skips_folders() {
    let listing = Some(vec![
        entry("/b/z.db", "z.db", false),
        entry("/b/dir.db", "dir.db", true),
        entry("/b/.db", ".db", false),
        entry("/b/a.db", "a.db", false),
    ]);
    assert_eq!(
        scan_folder(&listing),
        vec![entry("/b/z.db", "z.db", false), entry("/b/a.db", "a.db", false)]
    );
}

#[test]
fn scan_folder_of_a_missing_folder_is_empty() {
    assert!(scan_folder(&None).is_empty());
    assert!(scan_folder(&Some(vec![])).is_empty());
}

#[test]
fn folders_to_watch_leaves_out_missing_folders() {
    let folders = vec![
        WatchFolder { path: "/a".to_string(), exists: true },
        WatchFolder { path: "/gone".to_string(), exists: false },
        WatchFolder { path: "/b".to_string(), exists: true },
    ];
    assert_eq!(folders_to_watch(&folders), vec!["/a".to_string(), "/b".to_string()]);
    assert!(folders_to_watch(&vec![]).is_empty());
}

#[test]
fn event_qualifies_wants_a_bank_file_and_a_change() {
    assert!(event_qualifies(&event(EventKind::Create, &["a.db"])));
    assert!(event_qualifies(&event(EventKind::Modify, &["notes.txt", "a.db"])));
    assert!(event_qualifies(&event(EventKind::Remove, &["a.db"])));
    assert!(!event_qualifies(&event(EventKind::Access, &["a.db"])));
    assert!(!event_qualifies(&event(EventKind::Any, &["a.db"])));
    assert!(!event_qualifies(&event(EventKind::Other, &["a.db"])));
    assert!(!event_qualifies(&event(EventKind::Create, &["a.txt"])));
    assert!(!event_qualifies(&event(EventKind::Modify, &[])));
    assert!(any_bank_file(&vec!["x".to_string(), "y.db".to_string()]));
    assert!(!any_bank_file(&vec![]));
}

#[test]
fn watcher_passes_through_filtering_and_notifying() {
    let e = event(EventKind::Create, &["a.db"]);
    let s = WatcherState::new();
    assert_eq!(s, WatcherState::Idle);
    assert!(s.awaits_input() && !s.must_notify() && !s.is_terminated());
    let s = s.on_input(WatchInput::Event(e.clone()));
    assert_eq!(s, WatcherState::Filtering(e));
    assert!(!s.awaits_input() && !s.must_notify());
    let s = s.advance();
    assert_eq!(s, WatcherState::Notifying);
    assert!(s.must_notify());
    let s = s.advance();
    assert_eq!(s, WatcherState::Idle);
}

#[test]
fn watcher_drops_an_event_that_does_not_qualify() {
    let s = WatcherState::new().on_input(WatchInput::Event(event(EventKind::Modify, &["b.txt"])));
    assert_eq!(s.advance(), WatcherState::Idle);
    let s = WatcherState::new().on_input(WatchInput::Event(event(EventKind::Access, &["a.db"])));
    assert_eq!(s.advance(), WatcherState::Idle);
}

#[test]
fn watcher_stays_idle_on_timeout_and_ends_on_disconnect() {
    assert_eq!(WatcherState::new().on_input(WatchInput::Timeout), WatcherState::Idle);
    assert_eq!(WatcherState::new().advance(), WatcherState::Idle);
    let s = WatcherState::new().on_input(WatchInput::Disconnected);
    assert_eq!(s, WatcherState::Terminated);
    assert!(s.is_terminated());
    let s = s.on_input(WatchInput::Event(event(EventKind::Create, &["a.db"])));
    assert_eq!(s, WatcherState::Terminated);
    assert_eq!(s.advance(), WatcherState::Terminated);
}

#[test]
fn watcher_takes_no_input_while_it_works() {
    let e = event(EventKind::Create, &["a.db"]);
    let s = WatcherState::Filtering(e.clone()).on_input(WatchInput::Disconnected);
    assert_eq!(s, WatcherState::Filtering(e));
    assert_eq!(WatcherState::Notifying.on_input(WatchInput::Timeout), WatcherState::Notifying);
}

#[test]
fn event_without_bank_file_raises_no_signal() {
    let (state, signals) = drive(vec![
        WatchInput::Event(event(EventKind::Create, &["b.txt"])),
        WatchInput::Event(event(EventKind::Remove, &["sub"])),
        WatchInput::Timeout,
    ]);
    assert_eq!(signals, 0);
    assert_eq!(state, WatcherState::Idle);
}

#[test]
fn burst_of_events_raises_one_signal_each() {
    let mut inputs = Vec::new();
    for _ in 0..5 {
        inputs.push(WatchInput::Event(event(EventKind::Modify, &["a.db"])));
    }
    inputs.push(WatchInput::Event(event(EventKind::Access, &["a.db"])));
    inputs.push(WatchInput::Timeout);
    inputs.push(WatchInput::Event(event(EventKind::Create, &["c.db"])));
    inputs.push(WatchInput::Event(event(EventKind::Remove, &["c.db", "d.db"])));
    let (state, signals) = drive(inputs);
    assert_eq!(signals, 7);
    assert_eq!(state, WatcherState::Idle);
}

#[test]
fn nothing_is_signalled_after_the_source_is_closed() {
    let (state, signals) = drive(vec![
        WatchInput::Event(event(EventKind::Create, &["a.db"])),
        WatchInput::Disconnected,
        WatchInput::Event(event(EventKind::Create, &["b.db"])),
    ]);
    assert_eq!(signals, 1);
    assert_eq!(state, WatcherState::Terminated);
}
