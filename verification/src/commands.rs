//! What stands between the user interface and the banks: the list of
//! watched folders, the banks found in them, and the bank that is open.

use vstd::prelude::*;
use vstd::string::*;
use std::collections::HashMap;
use crate::db::error::BankError;
use crate::db::listing::{all_match, ascending_ids, summary_views};
use crate::db::meta::Meta;
use crate::db::progress::{keyed_by_question, progress_views};
use crate::db::question::{all_belong, options_ordered};
use crate::db::types::{opt_text, Filters, ProgressEntry, QuestionDetail, QuestionSummary};
use crate::db::{is_engine_fault, QuizBank};
use crate::json::{
    json_pretty_list, json_string_list, opt_text_list, parse_string_list, render_string_list,
};
use crate::text::{strictly_ascending, text_views};
use crate::watcher::{
    bank_stem, bank_suffix, banks_of, entry_views, has_bank_extension, is_bank_file,
    lemma_bank_name_is_stem_and_suffix, listing_view, scan_folder, EntryView, FolderEntry,
};

verus! {

/// A bank as it is offered for opening.
#[derive(Debug, Clone, PartialEq, Eq)]
pub struct BankInfo {
    pub path: String,
    pub title: String,
}

pub struct BankInfoView {
    pub path: Seq<char>,
    pub title: Seq<char>,
}

impl View for BankInfo {
    type V = BankInfoView;

    open spec fn view(&self) -> BankInfoView {
        BankInfoView { path: self.path@, title: self.title@ }
    }
}

/// The views of a list of banks, in the list's order.
pub open spec fn info_views(list: Seq<BankInfo>) -> Seq<BankInfoView> {
    list.map_values(|b: BankInfo| b@)
}

/// The title under which a file is offered: a bank file's name without
/// its extension; the whole name of any other file.
pub open spec fn title_of(file_name: Seq<char>) -> Seq<char> {
    if has_bank_extension(file_name) {
        bank_stem(file_name)
    } else {
        file_name
    }
}

/// The title under which the file named `file_name` is offered.
pub fn bank_title(file_name: &str) -> (title: String)
    ensures
        title@ == title_of(file_name@),
        has_bank_extension(file_name@) ==> title@ + bank_suffix() == file_name@,
{
    if is_bank_file(file_name) {
        proof {
            lemma_bank_name_is_stem_and_suffix(file_name@);
        }
        let n: usize = file_name.unicode_len();
        String::from_str(file_name.substring_char(0, n - 3))
    } else {
        String::from_str(file_name)
    }
}

/// The bank that a folder's entry is offered as.
pub open spec fn bank_info_of(e: EntryView) -> BankInfoView {
    BankInfoView { path: e.path, title: title_of(e.file_name) }
}

/// The banks of the watched folders, folder by folder in the order of
/// the folders, each folder's banks in the order of its listing.
pub open spec fn bank_list_of(listings: Seq<Option<Seq<EntryView>>>) -> Seq<BankInfoView>
    decreases listings.len(),
{
    if listings.len() == 0 {
        Seq::empty()
    } else {
        bank_list_of(listings.drop_last()) + banks_of(listings.last()).map_values(
            |e: EntryView| bank_info_of(e),
        )
    }
}

/// The views of the listings of a list of folders, folder by folder.
pub open spec fn listing_views(listings: Seq<Option<Vec<FolderEntry>>>) -> Seq<
    Option<Seq<EntryView>>,
> {
    listings.map_values(|l: Option<Vec<FolderEntry>>| listing_view(l))
}

/// The banks to offer, given the listing of each watched folder, or
/// `None` for a folder that is missing or cannot be read.
pub fn get_bank_list(listings: &Vec<Option<Vec<FolderEntry>>>) -> (banks: Vec<BankInfo>)
    ensures
        info_views(banks@) == bank_list_of(listing_views(listings@)),
{
    let mut banks: Vec<BankInfo> = Vec::new();
    let mut i: usize = 0;
    let ghost all = listing_views(listings@);
    while i < listings.len()
        invariant
            i <= listings.len(),
            all == listing_views(listings@),
            info_views(banks@) == bank_list_of(all.subrange(0, i as int)),
        decreases listings.len() - i,
    {
        let found = scan_folder(&listings[i]);
        let ghost done = info_views(banks@);
        let ghost offered = banks_of(all[i as int]).map_values(|e: EntryView| bank_info_of(e));
        proof {
            assert(all.subrange(0, i + 1).drop_last() =~= all.subrange(0, i as int));
        }
        let mut j: usize = 0;
        while j < found.len()
            invariant
                j <= found.len(),
                entry_views(found@) == banks_of(all[i as int]),
                offered == banks_of(all[i as int]).map_values(|e: EntryView| bank_info_of(e)),
                info_views(banks@) == done + offered.subrange(0, j as int),
            decreases found.len() - j,
        {
            let entry = &found[j];
            let ghost before = info_views(banks@);
            banks.push(
                BankInfo { path: entry.path.clone(), title: bank_title(entry.file_name.as_str()) },
            );
            assert(info_views(banks@) =~= before.push(bank_info_of(entry@)));
            assert(offered.subrange(0, j + 1) =~= offered.subrange(0, j as int).push(
                bank_info_of(entry@),
            ));
            j = j + 1;
        }
        i = i + 1;
    }
    assert(all.subrange(0, listings@.len() as int) =~= all);
    banks
}

/// The list of watched folders after `path` was asked to be watched: a
/// folder that is on the list is not entered again.
pub open spec fn with_folder(folders: Seq<Seq<char>>, path: Seq<char>) -> Seq<Seq<char>> {
    if folders.contains(path) {
        folders
    } else {
        folders.push(path)
    }
}

/// The list of watched folders without `path`, wherever it stands.
pub open spec fn without_folder(folders: Seq<Seq<char>>, path: Seq<char>) -> Seq<Seq<char>> {
    folders.filter(|f: Seq<char>| f != path)
}

/// Whether `path` is on the list.
pub fn is_watched(folders: &Vec<String>, path: &String) -> (r: bool)
    ensures
        r == text_views(folders@).contains(path@),
{
    let mut i: usize = 0;
    while i < folders.len()
        invariant
            i <= folders.len(),
            forall|k: int| 0 <= k < i ==> (#[trigger] text_views(folders@)[k]) != path@,
        decreases folders.len() - i,
    {
        if folders[i] == *path {
            assert(text_views(folders@)[i as int] == path@);
            return true;
        }
        i = i + 1;
    }
    false
}

/// Puts `path` on the list of watched folders, unless it is there.
pub fn add_watch_folder(folders: &mut Vec<String>, path: String)
    ensures
        text_views(final(folders)@) == with_folder(text_views(old(folders)@), path@),
{
    if !is_watched(folders, &path) {
        folders.push(path);
    }
}

/// Takes `path` off the list of watched folders.
pub fn remove_watch_folder(folders: &mut Vec<String>, path: &str)
    ensures
        text_views(final(folders)@) == without_folder(text_views(old(folders)@), path@),
{
    let unwanted = String::from_str(path);
    let mut kept: Vec<String> = Vec::new();
    let ghost all = text_views(folders@);
    let ghost pred = |f: Seq<char>| f != path@;
    let mut i: usize = 0;
    assert(text_views(kept@) =~= all.subrange(0, 0).filter(pred)) by {
        reveal(Seq::filter);
    }
    while i < folders.len()
        invariant
            i <= folders.len(),
            unwanted@ == path@,
            all == text_views(folders@),
            pred == (|f: Seq<char>| f != path@),
            text_views(kept@) == all.subrange(0, i as int).filter(pred),
        decreases folders.len() - i,
    {
        proof {
            reveal(Seq::filter);
            assert(all.subrange(0, i + 1).drop_last() =~= all.subrange(0, i as int));
        }
        if folders[i] != unwanted {
            kept.push(folders[i].clone());
        }
        i = i + 1;
    }
    assert(all.subrange(0, folders@.len() as int) =~= all);
    *folders = kept;
}

/// The list of watched folders after a bank was taken away whose file
/// lies in the folder `parent`: that folder is no longer watched. A bank
/// whose path names no folder changes nothing.
pub open spec fn without_parent(folders: Seq<Seq<char>>, parent: Option<Seq<char>>) -> Seq<
    Seq<char>,
> {
    match parent {
        Some(p) => without_folder(folders, p),
        None => folders,
    }
}

/// Stops watching the folder of a bank that is taken away. `parent` is
/// the folder that the bank's path lies in, if the path names one.
pub fn remove_bank_by_path(folders: &mut Vec<String>, parent: &Option<String>)
    ensures
        text_views(final(folders)@) == without_parent(text_views(old(folders)@), opt_text(*parent)),
{
    match parent {
        Some(p) => remove_watch_folder(folders, p.as_str()),
        None => {},
    }
}

/// The bank that is open, or the failure that none is.
pub fn require_open(bank: &Option<QuizBank>) -> (r: Result<&QuizBank, BankError>)
    ensures
        match r {
            Ok(b) => *bank == Some(*b),
            Err(e) => *bank is None && e == BankError::NotOpen,
        },
{
    match bank {
        Some(b) => Ok(b),
        None => Err(BankError::NotOpen),
    }
}

/// The watched folders that a stored list stands for: the list, where
/// there is one; no folder, where there is none.
pub open spec fn settings_of(parsed: Option<Seq<Seq<char>>>) -> Seq<Seq<char>> {
    match parsed {
        Some(list) => list,
        None => Seq::empty(),
    }
}

/// The watched folders, given what the settings were read as.
pub fn folders_from_parse(parsed: Option<Vec<String>>) -> (folders: Vec<String>)
    ensures
        text_views(folders@) == settings_of(opt_text_list(parsed)),
{
    match parsed {
        Some(list) => list,
        None => {
            let folders: Vec<String> = Vec::new();
            folders
        },
    }
}

/// The watched folders that the settings file holds: `data` is the text
/// of the file, or `None` where it cannot be read. A file that is missing
/// or is no JSON array of strings holds no folder.
pub fn load_settings(data: &Option<String>) -> (folders: Vec<String>)
    ensures
        text_views(folders@) == match *data {
            Some(text) => settings_of(json_string_list(text@)),
            None => Seq::empty(),
        },
{
    match data {
        Some(text) => folders_from_parse(parse_string_list(text.as_str())),
        None => folders_from_parse(None),
    }
}

/// The text to store for the list of watched folders: the list as an
/// indented JSON array, or `None` where it cannot be written as one, in
/// which case nothing is to be stored.
pub fn save_settings(folders: &Vec<String>) -> (text: Option<String>)
    ensures
        opt_text(text) == json_pretty_list(text_views(folders@)),
{
    render_string_list(folders)
}

/// Opens the bank at `path` in place of the bank that is open, if any.
/// Where that fails, the bank that was open stays open.
pub fn open_bank(path: &str, bank: &mut Option<QuizBank>) -> (r: Result<(), BankError>)
    ensures
        match r {
            Ok(_) => *final(bank) is Some,
            Err(e) => *final(bank) == *old(bank) && (is_engine_fault(e) || e is Schema),
        },
{
    let opened = QuizBank::open(path)?;
    *bank = Some(opened);
    Ok(())
}

/// Closes the bank that is open, if any. This never fails.
pub fn close_bank(bank: &mut Option<QuizBank>) -> (r: Result<(), BankError>)
    ensures
        r is Ok,
        *final(bank) is None,
{
    *bank = None;
    Ok(())
}

/// The meta table of the open bank.
pub fn get_bank_meta(bank: &Option<QuizBank>) -> (r: Result<Meta, BankError>)
    ensures
        r matches Err(e) ==> (e is NotOpen <==> *bank is None) && (e is NotOpen || is_engine_fault(
            e,
        )),
        r is Ok ==> *bank is Some,
{
    require_open(bank)?.get_meta()
}

/// The questions of the open bank that `filters` admit, in strictly
/// ascending order of id.
pub fn get_questions(filters: &Filters, bank: &Option<QuizBank>) -> (r: Result<
    Vec<QuestionSummary>,
    BankError,
>)
    ensures
        match r {
            Ok(list) => *bank is Some && all_match(summary_views(list@), filters@) && ascending_ids(
                summary_views(list@),
            ),
            Err(e) => (e is NotOpen <==> *bank is None) && (e is NotOpen || e is Storage),
        },
{
    require_open(bank)?.list_questions(filters)
}

/// The question `id` of the open bank in full, with its options in
/// order.
pub fn get_question_detail(id: i64, bank: &Option<QuizBank>) -> (r: Result<
    QuestionDetail,
    BankError,
>)
    ensures
        match r {
            Ok(d) => *bank is Some && d.id == id && all_belong(d@.options, id as int)
                && options_ordered(d@.options),
            Err(e) => (e is NotOpen <==> *bank is None) && (e is NotOpen || e is NotFound
                || e is Storage),
        },
{
    require_open(bank)?.get_question(id)
}

/// The topics of the open bank, each once, in strictly ascending order.
pub fn get_topics(bank: &Option<QuizBank>) -> (r: Result<Vec<String>, BankError>)
    ensures
        match r {
            Ok(list) => *bank is Some && strictly_ascending(text_views(list@)),
            Err(e) => (e is NotOpen <==> *bank is None) && (e is NotOpen || e is Storage),
        },
{
    require_open(bank)?.get_topics()
}

/// Counts one answer more for a question of the open bank.
pub fn save_progress(question_id: i64, answer: &str, correct: bool, bank: &Option<QuizBank>) -> (r:
    Result<(), BankError>)
    ensures
        r matches Err(e) ==> (e is NotOpen <==> *bank is None) && (e is NotOpen || is_engine_fault(
            e,
        )),
        r is Ok ==> *bank is Some,
{
    require_open(bank)?.save_progress(question_id, answer, correct)
}

/// The progress of every answered question of the open bank.
pub fn get_progress(bank: &Option<QuizBank>) -> (r: Result<HashMap<i64, ProgressEntry>, BankError>)
    ensures
        match r {
            Ok(m) => *bank is Some && keyed_by_question(progress_views(m@)),
            Err(e) => (e is NotOpen <==> *bank is None) && (e is NotOpen || is_engine_fault(e)),
        },
{
    require_open(bank)?.get_progress()
}

/// Forgets the progress of every question of the open bank.
pub fn reset_progress(bank: &Option<QuizBank>) -> (r: Result<(), BankError>)
    ensures
        r matches Err(e) ==> (e is NotOpen <==> *bank is None) && (e is NotOpen || is_engine_fault(
            e,
        )),
        r is Ok ==> *bank is Some,
{
    require_open(bank)?.clear_progress()
}

} // verus!
