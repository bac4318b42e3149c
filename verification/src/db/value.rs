//! Single values as SQLite stores them, and how a column is read from one.

use vstd::prelude::*;
use crate::db::types::opt_text;

verus! {

/// One cell of a row. A real number is only told apart from the other
/// kinds; no column of a bank holds one.
#[derive(Debug, Clone, PartialEq, Eq)]
pub enum SqlValue {
    Null,
    Integer(i64),
    Real,
    Text(String),
    Blob(Vec<u8>),
}

/// What a cell holds. An integer of SQLite has 64 bits.
pub enum Cell {
    Null,
    Integer(i64),
    Real,
    Text(Seq<char>),
    Blob(Seq<u8>),
}

impl View for SqlValue {
    type V = Cell;

    open spec fn view(&self) -> Cell {
        match *self {
            SqlValue::Null => Cell::Null,
            SqlValue::Integer(i) => Cell::Integer(i),
            SqlValue::Real => Cell::Real,
            SqlValue::Text(s) => Cell::Text(s@),
            SqlValue::Blob(b) => Cell::Blob(b@),
        }
    }
}

/// What the cells of a row hold, from left to right.
pub open spec fn cells(row: Seq<SqlValue>) -> Seq<Cell> {
    row.map_values(|v: SqlValue| v@)
}

/// What the cells of a list of rows hold, row by row.
pub open spec fn table(rows: Seq<Vec<SqlValue>>) -> Seq<Seq<Cell>> {
    rows.map_values(|r: Vec<SqlValue>| cells(r@))
}

/// A value bound to a `?` of a statement.
#[derive(Debug, Clone, PartialEq, Eq)]
pub enum SqlParam {
    Integer(i64),
    Text(String),
}

pub enum ParamView {
    Integer(int),
    Text(Seq<char>),
}

impl View for SqlParam {
    type V = ParamView;

    open spec fn view(&self) -> ParamView {
        match *self {
            SqlParam::Integer(i) => ParamView::Integer(i as int),
            SqlParam::Text(s) => ParamView::Text(s@),
        }
    }
}

/// The views of a list of bound values, in the list's order.
pub open spec fn param_views(params: Seq<SqlParam>) -> Seq<ParamView> {
    params.map_values(|p: SqlParam| p@)
}

/// An integer column: only an integer is one.
pub open spec fn integer_of(c: Cell) -> Option<int> {
    match c {
        Cell::Integer(i) => Some(i as int),
        _ => None,
    }
}

/// An integer column of 32 bits: an integer within that range.
pub open spec fn int32_of(c: Cell) -> Option<int> {
    match c {
        Cell::Integer(i) => if i32::MIN <= i <= i32::MAX {
            Some(i as int)
        } else {
            None
        },
        _ => None,
    }
}

/// A truth value column: an integer, true unless it is zero.
pub open spec fn flag_of(c: Cell) -> Option<bool> {
    match c {
        Cell::Integer(i) => Some(i != 0),
        _ => None,
    }
}

/// A text column: only a text is one.
pub open spec fn text_of(c: Cell) -> Option<Seq<char>> {
    match c {
        Cell::Text(s) => Some(s),
        _ => None,
    }
}

/// A text column that may be empty: a text, or null for the absent text.
pub open spec fn optional_text_of(c: Cell) -> Option<Option<Seq<char>>> {
    match c {
        Cell::Null => Some(None),
        Cell::Text(s) => Some(Some(s)),
        _ => None,
    }
}

/// The view of a number that may be absent.
pub open spec fn opt_int(o: Option<i64>) -> Option<int> {
    match o {
        Some(i) => Some(i as int),
        None => None,
    }
}

/// The view of a 32-bit number that may be absent.
pub open spec fn opt_int32(o: Option<i32>) -> Option<int> {
    match o {
        Some(i) => Some(i as int),
        None => None,
    }
}

/// The view of a text column that may be empty, where it was read.
pub open spec fn opt_opt_text(o: Option<Option<String>>) -> Option<Option<Seq<char>>> {
    match o {
        Some(t) => Some(opt_text(t)),
        None => None,
    }
}

impl SqlValue {
    /// Reads an integer column.
    pub fn as_integer(&self) -> (r: Option<i64>)
        ensures
            opt_int(r) == integer_of(self@),
    {
        match self {
            SqlValue::Integer(i) => Some(*i),
            _ => None,
        }
    }

    /// Reads an integer column of 32 bits.
    pub fn as_int32(&self) -> (r: Option<i32>)
        ensures
            opt_int32(r) == int32_of(self@),
    {
        match self {
            SqlValue::Integer(i) => {
                if -2147483648 <= *i && *i <= 2147483647 {
                    Some(*i as i32)
                } else {
                    None
                }
            },
            _ => None,
        }
    }

    /// Reads a truth value column.
    pub fn as_flag(&self) -> (r: Option<bool>)
        ensures
            r == flag_of(self@),
    {
        match self {
            SqlValue::Integer(i) => Some(*i != 0),
            _ => None,
        }
    }

    /// Reads a text column.
    pub fn as_text(&self) -> (r: Option<String>)
        ensures
            opt_text(r) == text_of(self@),
    {
        match self {
            SqlValue::Text(s) => Some(s.clone()),
            _ => None,
        }
    }

    /// Reads a text column that may be empty.
    pub fn as_optional_text(&self) -> (r: Option<Option<String>>)
        ensures
            opt_opt_text(r) == optional_text_of(self@),
    {
        match self {
            SqlValue::Null => Some(None),
            SqlValue::Text(s) => Some(Some(s.clone())),
            _ => None,
        }
    }
}

} // verus!
