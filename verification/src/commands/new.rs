//! Options for creating a new entry file inside a directory.
//!
//! The target must exist and be a directory; the working directory is its
//! canonical form, which the caller resolves and hands in together with the
//! facts it observed on the filesystem.

use vstd::prelude::*;
use crate::{EntryError, EntryKind, InvalidReason};

verus! {

/// Resolved options of the directory-target command: the canonical working
/// directory and the entry kind to scaffold.
pub struct EntryOptions {
    pub cwd: String,
    pub kind: EntryKind,
}

impl EntryOptions {
    /// Validates the directory-target invocation.  The target must be an
    /// existing directory, and at most one format flag may be set; the kind
    /// defaults to a note when neither flag is given.  `cwd` is the
    /// target's canonicalized path.
    pub fn new(cwd: String, exists: bool, is_dir: bool, diary: bool, note: bool) -> (r: Result<
        EntryOptions,
        EntryError,
    >)
        ensures
            r is Ok <==> (exists && is_dir && !(diary && note)),
            r matches Ok(o) ==> o.cwd == cwd && o.kind == (if diary {
                EntryKind::Diary
            } else {
                EntryKind::Note
            }),
            r matches Err(e) ==> e == EntryError::InvalidInput(
                if !exists {
                    InvalidReason::MissingTarget
                } else if !is_dir {
                    InvalidReason::NotADirectory
                } else {
                    InvalidReason::ConflictingFlags
                },
            ),
    {
        if !exists {
            return Err(EntryError::InvalidInput(InvalidReason::MissingTarget));
        }
        if !is_dir {
            return Err(EntryError::InvalidInput(InvalidReason::NotADirectory));
        }
        let kind = if diary && note {
            return Err(EntryError::InvalidInput(InvalidReason::ConflictingFlags));
        } else if diary {
            EntryKind::Diary
        } else {
            EntryKind::Note
        };
        Ok(EntryOptions { cwd, kind })
    }
}

} // verus!
