//! How an operation on a bank fails.

use vstd::prelude::*;
use vstd::string::*;

verus! {

/// What was wrong with the storage or with what it returned.
#[derive(Debug, Clone, PartialEq, Eq)]
pub enum StorageFault {
    /// The storage engine reported a failure; its message.
    Engine(String),
    /// A row has not the columns that the bank's tables have.
    MalformedRow,
    /// A row was returned that the query did not ask for.
    UnexpectedRow,
    /// Rows were returned in another order than the query asked for.
    Unordered,
}

/// The failures of the operations on a bank.
#[derive(Debug, Clone, PartialEq, Eq)]
pub enum BankError {
    /// The operation needs an open bank and none is open.
    NotOpen,
    /// No question has the id that was asked for.
    NotFound,
    /// Reading or writing the bank failed, or the bank is malformed.
    Storage(StorageFault),
    /// The progress table could not be set up; the engine's message.
    Schema(String),
}

pub const NOT_OPEN_TEXT: &'static str = "No bank loaded";

pub const NOT_FOUND_TEXT: &'static str = "Query returned no rows";

pub const MALFORMED_ROW_TEXT: &'static str = "The bank holds a row with unexpected columns";

pub const UNEXPECTED_ROW_TEXT: &'static str = "The bank returned a row that was not asked for";

pub const UNORDERED_TEXT: &'static str = "The bank returned rows out of order";

/// The message of a storage fault.
pub open spec fn fault_text(f: StorageFault) -> Seq<char> {
    match f {
        StorageFault::Engine(m) => m@,
        StorageFault::MalformedRow => MALFORMED_ROW_TEXT@,
        StorageFault::UnexpectedRow => UNEXPECTED_ROW_TEXT@,
        StorageFault::Unordered => UNORDERED_TEXT@,
    }
}

/// The message of an error.
pub open spec fn error_message(e: BankError) -> Seq<char> {
    match e {
        BankError::NotOpen => NOT_OPEN_TEXT@,
        BankError::NotFound => NOT_FOUND_TEXT@,
        BankError::Storage(f) => fault_text(f),
        BankError::Schema(m) => m@,
    }
}

impl BankError {
    /// The message to show for this error.
    pub fn message(&self) -> (text: String)
        ensures
            text@ == error_message(*self),
    {
        match self {
            BankError::NotOpen => String::from_str(NOT_OPEN_TEXT),
            BankError::NotFound => String::from_str(NOT_FOUND_TEXT),
            BankError::Storage(StorageFault::Engine(m)) => m.clone(),
            BankError::Storage(StorageFault::MalformedRow) => String::from_str(MALFORMED_ROW_TEXT),
            BankError::Storage(StorageFault::UnexpectedRow) => String::from_str(
                UNEXPECTED_ROW_TEXT,
            ),
            BankError::Storage(StorageFault::Unordered) => String::from_str(UNORDERED_TEXT),
            BankError::Schema(m) => m.clone(),
        }
    }
}

} // verus!
