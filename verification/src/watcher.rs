//! Which files are banks, which changes of a folder concern banks, and
//! the states of the loop that watches for such changes.
//!
//! The library does not touch the file system. The caller lists a folder
//! and hands over the entries; the caller receives the file-system events
//! and hands them over one by one, and raises the signal when told to.

use vstd::prelude::*;
use vstd::string::*;
use crate::text::text_views;

verus! {

/// What ends the name of every bank file: a dot and the extension.
pub open spec fn bank_suffix() -> Seq<char> {
    seq!['.', 'd', 'b']
}

/// The file name has the bank extension: it ends in `.db`, and something
/// stands before that dot. The match is exact, letter case included.
pub open spec fn has_bank_extension(name: Seq<char>) -> bool {
    name.len() > 3 && name.subrange(name.len() - 3, name.len() as int) == bank_suffix()
}

/// A bank file's name without the extension.
pub open spec fn bank_stem(name: Seq<char>) -> Seq<char> {
    name.subrange(0, name.len() - 3)
}

/// A name with the bank extension is its stem followed by `.db`.
pub proof fn lemma_bank_name_is_stem_and_suffix(name: Seq<char>)
    requires
        has_bank_extension(name),
    ensures
        bank_stem(name).len() > 0,
        name == bank_stem(name) + bank_suffix(),
{
}

/// Whether `name`, the last component of a path, has the bank extension.
pub fn is_bank_file(name: &str) -> (r: bool)
    ensures
        r == has_bank_extension(name@),
{
    let n: usize = name.unicode_len();
    if n <= 3 {
        return false;
    }
    let r = name.get_char(n - 3) == '.' && name.get_char(n - 2) == 'd' && name.get_char(n - 1)
        == 'b';
    assert(r ==> name@.subrange(n - 3, n as int) =~= bank_suffix());
    r
}

/// One entry of a folder, as the caller found it there.
#[derive(Debug, Clone, PartialEq, Eq)]
pub struct FolderEntry {
    /// Where the entry is.
    pub path: String,
    /// The last component of `path`.
    pub file_name: String,
    /// Whether the entry is a folder itself.
    pub is_dir: bool,
}

pub struct EntryView {
    pub path: Seq<char>,
    pub file_name: Seq<char>,
    pub is_dir: bool,
}

impl View for FolderEntry {
    type V = EntryView;

    open spec fn view(&self) -> EntryView {
        EntryView { path: self.path@, file_name: self.file_name@, is_dir: self.is_dir }
    }
}

/// The views of a list of entries, in the list's order.
pub open spec fn entry_views(list: Seq<FolderEntry>) -> Seq<EntryView> {
    list.map_values(|e: FolderEntry| e@)
}

/// The entry is a bank: a file, not a folder, with the bank extension.
pub open spec fn is_bank_entry(e: EntryView) -> bool {
    !e.is_dir && has_bank_extension(e.file_name)
}

/// The banks among the entries of a folder, in the order of the entries.
pub open spec fn banks_among(entries: Seq<EntryView>) -> Seq<EntryView> {
    entries.filter(|e: EntryView| is_bank_entry(e))
}

/// The view of a folder's listing that may be absent.
pub open spec fn listing_view(listing: Option<Vec<FolderEntry>>) -> Option<Seq<EntryView>> {
    match listing {
        Some(entries) => Some(entry_views(entries@)),
        None => None,
    }
}

/// The banks of a folder whose listing is `listing`: its entries that are
/// banks. A folder that is missing or cannot be read has no listing, and
/// has no banks.
pub open spec fn banks_of(listing: Option<Seq<EntryView>>) -> Seq<EntryView> {
    match listing {
        Some(entries) => banks_among(entries),
        None => Seq::empty(),
    }
}

/// The banks directly inside a folder, given the folder's listing, or
/// `None` for a folder that is missing or cannot be read. Folders inside
/// it are not entered.
pub fn scan_folder(listing: &Option<Vec<FolderEntry>>) -> (banks: Vec<FolderEntry>)
    ensures
        entry_views(banks@) == banks_of(listing_view(*listing)),
{
    let mut banks: Vec<FolderEntry> = Vec::new();
    let entries = match listing {
        Some(entries) => entries,
        None => {
            return banks;
        },
    };
    let ghost all = entry_views(entries@);
    let ghost pred = |e: EntryView| is_bank_entry(e);
    let mut i: usize = 0;
    assert(entry_views(banks@) =~= all.subrange(0, 0).filter(pred)) by {
        reveal(Seq::filter);
    }
    while i < entries.len()
        invariant
            i <= entries.len(),
            all == entry_views(entries@),
            pred == (|e: EntryView| is_bank_entry(e)),
            entry_views(banks@) == all.subrange(0, i as int).filter(pred),
        decreases entries.len() - i,
    {
        let entry = &entries[i];
        proof {
            reveal(Seq::filter);
            assert(all.subrange(0, i + 1).drop_last() =~= all.subrange(0, i as int));
        }
        if !entry.is_dir && is_bank_file(entry.file_name.as_str()) {
            banks.push(
                FolderEntry {
                    path: entry.path.clone(),
                    file_name: entry.file_name.clone(),
                    is_dir: entry.is_dir,
                },
            );
        }
        i = i + 1;
    }
    assert(all.subrange(0, entries@.len() as int) =~= all);
    banks
}

/// A folder that the caller was asked to watch.
#[derive(Debug, Clone, PartialEq, Eq)]
pub struct WatchFolder {
    pub path: String,
    /// Whether the folder is there when the watching starts.
    pub exists: bool,
}

pub struct WatchFolderView {
    pub path: Seq<char>,
    pub exists: bool,
}

impl View for WatchFolder {
    type V = WatchFolderView;

    open spec fn view(&self) -> WatchFolderView {
        WatchFolderView { path: self.path@, exists: self.exists }
    }
}

/// The views of a list of folders, in the list's order.
pub open spec fn folder_views(list: Seq<WatchFolder>) -> Seq<WatchFolderView> {
    list.map_values(|f: WatchFolder| f@)
}

/// The folders to subscribe to: those that are there, in the order given.
pub open spec fn present_folders(folders: Seq<WatchFolderView>) -> Seq<Seq<char>> {
    folders.filter(|f: WatchFolderView| f.exists).map_values(|f: WatchFolderView| f.path)
}

/// The paths of the folders to subscribe to. A folder that is not there
/// when the watching starts is left out, and stays out.
pub fn folders_to_watch(folders: &Vec<WatchFolder>) -> (paths: Vec<String>)
    ensures
        text_views(paths@) == present_folders(folder_views(folders@)),
{
    let mut paths: Vec<String> = Vec::new();
    let ghost all = folder_views(folders@);
    let ghost pred = |f: WatchFolderView| f.exists;
    let ghost path_of = |f: WatchFolderView| f.path;
    let mut i: usize = 0;
    assert(text_views(paths@) =~= all.subrange(0, 0).filter(pred).map_values(path_of)) by {
        reveal(Seq::filter);
    }
    while i < folders.len()
        invariant
            i <= folders.len(),
            all == folder_views(folders@),
            pred == (|f: WatchFolderView| f.exists),
            path_of == (|f: WatchFolderView| f.path),
            text_views(paths@) == all.subrange(0, i as int).filter(pred).map_values(path_of),
        decreases folders.len() - i,
    {
        let folder = &folders[i];
        proof {
            reveal(Seq::filter);
            assert(all.subrange(0, i + 1).drop_last() =~= all.subrange(0, i as int));
        }
        if folder.exists {
            let ghost kept = all.subrange(0, i as int).filter(pred);
            paths.push(folder.path.clone());
            assert(kept.push(folder@).map_values(path_of) =~= kept.map_values(path_of).push(
                folder@.path,
            ));
        }
        i = i + 1;
    }
    assert(all.subrange(0, folders@.len() as int) =~= all);
    paths
}

/// What kind of change a file-system event reports.
#[derive(Debug, Clone, Copy, PartialEq, Eq)]
pub enum EventKind {
    /// A change of which no more is known.
    Any,
    /// A file was read or opened; nothing has changed.
    Access,
    Create,
    Modify,
    Remove,
    /// An event of another kind.
    Other,
}

/// A file-system event: its kind, and the file name (the last component)
/// of each path it affects.
#[derive(Debug, Clone, PartialEq, Eq)]
pub struct FsEvent {
    pub kind: EventKind,
    pub file_names: Vec<String>,
}

pub struct FsEventView {
    pub kind: EventKind,
    pub file_names: Seq<Seq<char>>,
}

impl View for FsEvent {
    type V = FsEventView;

    open spec fn view(&self) -> FsEventView {
        FsEventView { kind: self.kind, file_names: text_views(self.file_names@) }
    }
}

/// The kind says that something was created, modified or removed.
pub open spec fn is_change(kind: EventKind) -> bool {
    kind is Create || kind is Modify || kind is Remove
}

/// One of the names is that of a bank file.
pub open spec fn touches_bank(names: Seq<Seq<char>>) -> bool {
    exists|i: int| 0 <= i < names.len() && has_bank_extension(#[trigger] names[i])
}

/// The event is one to signal: it affects a bank file, and creates,
/// modifies or removes.
pub open spec fn qualifies(e: FsEventView) -> bool {
    touches_bank(e.file_names) && is_change(e.kind)
}

/// Whether one of the names is that of a bank file.
pub fn any_bank_file(names: &Vec<String>) -> (r: bool)
    ensures
        r == touches_bank(text_views(names@)),
{
    let mut i: usize = 0;
    while i < names.len()
        invariant
            i <= names.len(),
            forall|k: int| 0 <= k < i ==> !has_bank_extension(#[trigger] text_views(names@)[k]),
        decreases names.len() - i,
    {
        if is_bank_file(names[i].as_str()) {
            assert(has_bank_extension(text_views(names@)[i as int]));
            return true;
        }
        i = i + 1;
    }
    false
}

/// Whether the event is one to signal.
pub fn event_qualifies(event: &FsEvent) -> (r: bool)
    ensures
        r == qualifies(event@),
{
    if !any_bank_file(&event.file_names) {
        return false;
    }
    match event.kind {
        EventKind::Create => true,
        EventKind::Modify => true,
        EventKind::Remove => true,
        _ => false,
    }
}

/// What the wait for the next file-system event ended with.
#[derive(Debug, Clone, PartialEq, Eq)]
pub enum WatchInput {
    /// An event arrived.
    Event(FsEvent),
    /// No event arrived within the time to wait.
    Timeout,
    /// The source of the events is closed; there will be no more.
    Disconnected,
}

pub enum InputView {
    Event(FsEventView),
    Timeout,
    Disconnected,
}

impl View for WatchInput {
    type V = InputView;

    open spec fn view(&self) -> InputView {
        match *self {
            WatchInput::Event(e) => InputView::Event(e@),
            WatchInput::Timeout => InputView::Timeout,
            WatchInput::Disconnected => InputView::Disconnected,
        }
    }
}

/// Where the watch loop stands.
#[derive(Debug, Clone, PartialEq, Eq)]
pub enum WatcherState {
    /// Waiting for the next event, for a bounded time.
    Idle,
    /// An event has arrived and is to be judged.
    Filtering(FsEvent),
    /// The signal that the banks have changed is to be raised, once.
    Notifying,
    /// The source of the events is closed. Nothing follows.
    Terminated,
}

pub enum StateView {
    Idle,
    Filtering(FsEventView),
    Notifying,
    Terminated,
}

impl View for WatcherState {
    type V = StateView;

    open spec fn view(&self) -> StateView {
        match *self {
            WatcherState::Idle => StateView::Idle,
            WatcherState::Filtering(e) => StateView::Filtering(e@),
            WatcherState::Notifying => StateView::Notifying,
            WatcherState::Terminated => StateView::Terminated,
        }
    }
}

/// The state after the wait has ended with `input`. Only a watcher that
/// is waiting takes an input: an event is then to be judged, a timeout
/// leaves it waiting, and a closed source ends it.
pub open spec fn after_input(state: StateView, input: InputView) -> StateView {
    match state {
        StateView::Idle => match input {
            InputView::Event(e) => StateView::Filtering(e),
            InputView::Timeout => StateView::Idle,
            InputView::Disconnected => StateView::Terminated,
        },
        other => other,
    }
}

/// The state after the work of `state` is done: an event that was judged
/// is to be signalled if it qualifies and is dropped if not; after the
/// signal the watcher waits again. In the other states there is no work.
pub open spec fn after_work(state: StateView) -> StateView {
    match state {
        StateView::Filtering(e) => if qualifies(e) {
            StateView::Notifying
        } else {
            StateView::Idle
        },
        StateView::Notifying => StateView::Idle,
        other => other,
    }
}

impl WatcherState {
    /// The state in which the watching starts.
    pub fn new() -> (s: WatcherState)
        ensures
            s@ == StateView::Idle,
    {
        WatcherState::Idle
    }

    /// Whether the caller is to wait for the next event now.
    pub fn awaits_input(&self) -> (r: bool)
        ensures
            r == (self@ is Idle),
    {
        match self {
            WatcherState::Idle => true,
            _ => false,
        }
    }

    /// Whether the caller is to raise the signal now.
    pub fn must_notify(&self) -> (r: bool)
        ensures
            r == (self@ is Notifying),
    {
        match self {
            WatcherState::Notifying => true,
            _ => false,
        }
    }

    /// Whether the watching has ended.
    pub fn is_terminated(&self) -> (r: bool)
        ensures
            r == (self@ is Terminated),
    {
        match self {
            WatcherState::Terminated => true,
            _ => false,
        }
    }

    /// The state after the wait has ended with `input`.
    pub fn on_input(self, input: WatchInput) -> (next: WatcherState)
        ensures
            next@ == after_input(self@, input@),
    {
        match self {
            WatcherState::Idle => match input {
                WatchInput::Event(e) => WatcherState::Filtering(e),
                WatchInput::Timeout => WatcherState::Idle,
                WatchInput::Disconnected => WatcherState::Terminated,
            },
            other => other,
        }
    }

    /// The state after the work of this state is done.
    pub fn advance(self) -> (next: WatcherState)
        ensures
            next@ == after_work(self@),
    {
        match self {
            WatcherState::Filtering(e) => {
                if event_qualifies(&e) {
                    WatcherState::Notifying
                } else {
                    WatcherState::Idle
                }
            },
            WatcherState::Notifying => WatcherState::Idle,
            other => other,
        }
    }
}

/// How often the signal is raised while a watcher in `state` does its
/// work until it waits again or has ended: once for each time that it is
/// in the state `Notifying`.
pub open spec fn signals_while_settling(state: StateView) -> nat {
    (if state is Notifying {
        1nat
    } else {
        0nat
    }) + (if after_work(state) is Notifying {
        1nat
    } else {
        0nat
    })
}

/// One turn of the loop: the wait ends with `input`, and the watcher does
/// its work until it waits again or has ended. Gives the state then, and
/// how often the signal was raised.
pub open spec fn turn(state: StateView, input: InputView) -> (StateView, nat) {
    let entered = after_input(state, input);
    (after_work(after_work(entered)), signals_while_settling(entered))
}

/// The turns of the loop for `inputs`, one after the other from `state`.
/// Gives the state at the end, and how often the signal was raised.
pub open spec fn run(state: StateView, inputs: Seq<InputView>) -> (StateView, nat)
    decreases inputs.len(),
{
    if inputs.len() == 0 {
        (state, 0)
    } else {
        let (s, n) = run(state, inputs.drop_last());
        let (next, k) = turn(s, inputs.last());
        (next, n + k)
    }
}

/// The input is an event to signal.
pub open spec fn is_qualifying(input: InputView) -> bool {
    input matches InputView::Event(e) && qualifies(e)
}

/// How many of the inputs are events to signal.
pub open spec fn qualifying_count(inputs: Seq<InputView>) -> nat {
    inputs.filter(|i: InputView| is_qualifying(i)).len()
}

/// A waiting watcher raises the signal exactly once for an event that
/// qualifies and never for any other input, and then waits again, unless
/// the source is closed, which ends it.
pub proof fn lemma_turn_of_waiting_watcher(input: InputView)
    ensures
        turn(StateView::Idle, input).1 == (if is_qualifying(input) {
            1nat
        } else {
            0nat
        }),
        turn(StateView::Idle, input).0 == (if input is Disconnected {
            StateView::Terminated
        } else {
            StateView::Idle
        }),
{
}

/// An event that affects no bank file raises no signal, whatever its
/// kind; nor does one that affects a bank file without creating,
/// modifying or removing.
pub proof fn lemma_other_events_raise_nothing(e: FsEventView)
    requires
        !touches_bank(e.file_names) || !is_change(e.kind),
    ensures
        turn(StateView::Idle, InputView::Event(e)).1 == 0,
{
}

/// A watcher that has ended stays so and raises nothing.
pub proof fn lemma_terminated_is_final(inputs: Seq<InputView>)
    ensures
        run(StateView::Terminated, inputs) == (StateView::Terminated, 0nat),
    decreases inputs.len(),
{
    if inputs.len() > 0 {
        lemma_terminated_is_final(inputs.drop_last());
    }
}

/// While the source stays open, the signal is raised once for each event
/// that qualifies, however closely the events follow each other, and the
/// watcher waits again after each.
pub proof fn lemma_one_signal_per_qualifying_event(inputs: Seq<InputView>)
    requires
        forall|i: int| 0 <= i < inputs.len() ==> !(#[trigger] inputs[i] is Disconnected),
    ensures
        run(StateView::Idle, inputs) == (StateView::Idle, qualifying_count(inputs)),
    decreases inputs.len(),
{
    reveal(Seq::filter);
    if inputs.len() > 0 {
        lemma_one_signal_per_qualifying_event(inputs.drop_last());
        lemma_turn_of_waiting_watcher(inputs.last());
    }
}

/// Once the source is closed the watcher has ended: the signal was
/// raised once for each qualifying event before that, and is raised for
/// nothing that comes after.
pub proof fn lemma_closed_source_ends_the_run(before: Seq<InputView>, after: Seq<InputView>)
    requires
        forall|i: int| 0 <= i < before.len() ==> !(#[trigger] before[i] is Disconnected),
    ensures
        run(StateView::Idle, before + seq![InputView::Disconnected] + after) == (
            StateView::Terminated,
            qualifying_count(before),
        ),
    decreases after.len(),
{
    let all = before + seq![InputView::Disconnected] + after;
    if after.len() == 0 {
        assert(all.drop_last() =~= before);
        lemma_one_signal_per_qualifying_event(before);
    } else {
        assert(all.drop_last() =~= before + seq![InputView::Disconnected] + after.drop_last());
        lemma_closed_source_ends_the_run(before, after.drop_last());
    }
}

} // verus!
