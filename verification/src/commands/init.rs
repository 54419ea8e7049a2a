//! Options for initializing a pre-existing empty file as a new entry.
//!
//! The target must exist, be a regular file, and hold zero bytes; the
//! working directory is the file's parent.  The caller observes those facts
//! on the filesystem and hands them in as plain values.

use vstd::prelude::*;
use crate::{EntryError, EntryKind, InvalidReason};

verus! {

/// Resolved options of the file-target command: the seed file's path, the
/// directory it lies in, and the entry kind to scaffold.
pub struct EntryOptions {
    pub path: String,
    pub cwd: String,
    pub kind: EntryKind,
}

impl EntryOptions {
    /// Validates the file-target invocation.  The target must be an
    /// existing, empty regular file, and at most one format flag may be set;
    /// the kind defaults to a note when neither flag is given.  `parent` is
    /// the directory the target lies in, and becomes the working directory.
    pub fn new(
        path: String,
        parent: String,
        exists: bool,
        is_file: bool,
        file_len: u64,
        diary: bool,
        note: bool,
    ) -> (r: Result<EntryOptions, EntryError>)
        ensures
            r is Ok <==> (exists && is_file && file_len == 0 && !(diary && note)),
            r matches Ok(o) ==> o.path == path && o.cwd == parent && o.kind == (if diary {
                EntryKind::Diary
            } else {
                EntryKind::Note
            }),
            r matches Err(e) ==> e == EntryError::InvalidInput(
                if !exists {
                    InvalidReason::MissingTarget
                } else if !is_file {
                    InvalidReason::NotAFile
                } else if file_len > 0 {
                    InvalidReason::NotEmpty
                } else {
                    InvalidReason::ConflictingFlags
                },
            ),
    {
        if !exists {
            return Err(EntryError::InvalidInput(InvalidReason::MissingTarget));
        }
        if !is_file {
            return Err(EntryError::InvalidInput(InvalidReason::NotAFile));
        }
        if file_len > 0 {
            return Err(EntryError::InvalidInput(InvalidReason::NotEmpty));
        }
        let kind = if diary && note {
            return Err(EntryError::InvalidInput(InvalidReason::ConflictingFlags));
        } else if diary {
            EntryKind::Diary
        } else {
            EntryKind::Note
        };
        Ok(EntryOptions { path, cwd: parent, kind })
    }
}

} // verus!
