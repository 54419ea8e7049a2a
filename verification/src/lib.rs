//! Scaffolding logic for journal-style text files.
//!
//! The library decides what a new entry file is called and what its initial
//! content is.  Two entry kinds exist: a diary entry (one file per calendar
//! month, named `YYYYMM.md`, holding one dated section per day of that month)
//! and a note entry (one file per note, named by a time-ordered identifier).
//! All filesystem work is left to the caller; the functions here go from plain
//! values to plain values.

use vstd::prelude::*;

pub mod date;
pub mod naming;
pub mod rollover;
pub mod render;
pub mod ident;
pub mod clock;
pub mod commands;

verus! {

/// True exactly of the ASCII decimal digits.
pub open spec fn is_digit_char(c: char) -> bool {
    '0' <= c && c <= '9'
}

/// Numeric value of an ASCII decimal digit.
pub open spec fn digit_val(c: char) -> int {
    c as int - '0' as int
}

/// The digit character for a value between 0 and 9.
pub open spec fn digit_char(d: int) -> char {
    if d == 0 {
        '0'
    } else if d == 1 {
        '1'
    } else if d == 2 {
        '2'
    } else if d == 3 {
        '3'
    } else if d == 4 {
        '4'
    } else if d == 5 {
        '5'
    } else if d == 6 {
        '6'
    } else if d == 7 {
        '7'
    } else if d == 8 {
        '8'
    } else {
        '9'
    }
}

/// Two zero-padded decimal digits of a value between 0 and 99.
pub open spec fn two_digits(v: int) -> Seq<char> {
    seq![digit_char(v / 10), digit_char(v % 10)]
}

/// Four zero-padded decimal digits of a value between 0 and 9999.
pub open spec fn four_digits(v: int) -> Seq<char> {
    seq![
        digit_char(v / 1000),
        digit_char((v / 100) % 10),
        digit_char((v / 10) % 10),
        digit_char(v % 10),
    ]
}

/// The ways an input can be invalid.
#[derive(Clone, Copy, Debug, PartialEq, Eq, Structural)]
pub enum InvalidReason {
    /// The target path does not exist.
    MissingTarget,
    /// The target is not a regular file where one is required.
    NotAFile,
    /// The target is not a directory where one is required.
    NotADirectory,
    /// The target file holds bytes where an empty one is required.
    NotEmpty,
    /// Both format flags were given at once.
    ConflictingFlags,
    /// The chosen diary month's year cannot be written with four digits.
    YearOutOfRange,
}

/// The ways an invocation can fail.
#[derive(Clone, Copy, Debug, PartialEq, Eq, Structural)]
pub enum EntryError {
    /// The target path is missing, of the wrong kind, non-empty where
    /// emptiness is required, or the format flags conflict.
    InvalidInput(InvalidReason),
    /// A filesystem operation failed.
    IoFailure,
    /// The computed output file name is already taken.
    AlreadyExists,
    /// No subcommand was given.
    NoCommand,
    /// An unrecognized subcommand was given.
    UnknownCommand,
}

impl EntryError {
    /// The text each failure reports.
    pub open spec fn spec_message(self) -> Seq<char> {
        match self {
            EntryError::InvalidInput(InvalidReason::MissingTarget) => "target does not exist"@,
            EntryError::InvalidInput(InvalidReason::NotAFile) => "target is not a file"@,
            EntryError::InvalidInput(InvalidReason::NotADirectory) => "target is not a directory"@,
            EntryError::InvalidInput(InvalidReason::NotEmpty) => "target is not empty"@,
            EntryError::InvalidInput(InvalidReason::ConflictingFlags) => "can't specify both diary and note outputs"@,
            EntryError::InvalidInput(InvalidReason::YearOutOfRange) => "year out of range for a diary file name"@,
            EntryError::IoFailure => "io operation failed"@,
            EntryError::AlreadyExists => "output file already exists"@,
            EntryError::NoCommand => "no subcommand provided"@,
            EntryError::UnknownCommand => "unknown subcommand"@,
        }
    }

    /// A single-line description of the failure.
    pub fn message(&self) -> (r: &'static str)
        ensures
            r@ == self.spec_message(),
            r@.len() > 0,
    {
        proof {
            reveal_strlit("target does not exist");
            reveal_strlit("target is not a file");
            reveal_strlit("target is not a directory");
            reveal_strlit("target is not empty");
            reveal_strlit("can't specify both diary and note outputs");
            reveal_strlit("year out of range for a diary file name");
            reveal_strlit("io operation failed");
            reveal_strlit("output file already exists");
            reveal_strlit("no subcommand provided");
            reveal_strlit("unknown subcommand");
        }
        match self {
            EntryError::InvalidInput(InvalidReason::MissingTarget) => "target does not exist",
            EntryError::InvalidInput(InvalidReason::NotAFile) => "target is not a file",
            EntryError::InvalidInput(InvalidReason::NotADirectory) => "target is not a directory",
            EntryError::InvalidInput(InvalidReason::NotEmpty) => "target is not empty",
            EntryError::InvalidInput(InvalidReason::ConflictingFlags) => {
                "can't specify both diary and note outputs"
            },
            EntryError::InvalidInput(InvalidReason::YearOutOfRange) => {
                "year out of range for a diary file name"
            },
            EntryError::IoFailure => "io operation failed",
            EntryError::AlreadyExists => "output file already exists",
            EntryError::NoCommand => "no subcommand provided",
            EntryError::UnknownCommand => "unknown subcommand",
        }
    }
}

/// The two entry formats the tool can scaffold.
#[derive(Clone, Copy, Debug, PartialEq, Eq, Structural)]
pub enum EntryKind {
    Diary,
    Note,
}

} // verus!
