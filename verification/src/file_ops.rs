//! File-export guards: the payload size ceiling and the traversal screen on
//! the canonical destination path.
//!
//! The surrounding application creates the destination's parent directory,
//! canonicalizes it and writes the bytes; this module decides, before any
//! filesystem work, whether the payload is acceptable, and whether the
//! canonicalized destination may be written at all.

use vstd::prelude::*;

use crate::MAX_PAYLOAD_SIZE;

verus! {

/// How an export request can be refused.
#[derive(Debug)]
pub enum ExportError {
    /// The payload exceeds the 50 MiB ceiling; carries its size in bytes.
    FileTooLarge { size: usize },
    /// The destination names no parent directory.
    NoParentDirectory,
    /// The destination names no file.
    InvalidFilename,
    /// The canonical destination still contains a parent-directory
    /// traversal segment.
    TraversalNotAllowed,
}

impl ExportError {
    /// Human-readable description, surfaced verbatim to the caller.
    pub fn message(&self) -> (r: String)
        ensures
            self matches ExportError::FileTooLarge { size } ==> r@
                == "File size exceeds maximum allowed"@,
            self is NoParentDirectory ==> r@ == "Invalid path: no parent directory"@,
            self is InvalidFilename ==> r@ == "Invalid filename"@,
            self is TraversalNotAllowed ==> r@ == "Invalid path: directory traversal not allowed"@,
    {
        match self {
            ExportError::FileTooLarge { .. } => String::from_str(
                "File size exceeds maximum allowed",
            ),
            ExportError::NoParentDirectory => String::from_str(
                "Invalid path: no parent directory",
            ),
            ExportError::InvalidFilename => String::from_str("Invalid filename"),
            ExportError::TraversalNotAllowed => String::from_str(
                "Invalid path: directory traversal not allowed",
            ),
        }
    }
}

/// Vet the destination's split form, as the platform path accessors hand it
/// back: a destination without a parent directory is refused first, one
/// with a parent but no file name after it.
pub fn check_path_parts(has_parent: bool, has_filename: bool) -> (r: Result<(), ExportError>)
    ensures
        r is Ok <==> (has_parent && has_filename),
        !has_parent <==> r matches Err(ExportError::NoParentDirectory),
        (has_parent && !has_filename) <==> r matches Err(ExportError::InvalidFilename),
{
    if !has_parent {
        Err(ExportError::NoParentDirectory)
    } else if !has_filename {
        Err(ExportError::InvalidFilename)
    } else {
        Ok(())
    }
}

/// Hold a payload against the export size ceiling, before any filesystem
/// work. Accepts exactly the payloads of at most 50 MiB; a payload of
/// exactly the ceiling passes.
pub fn check_export_size(data_len: usize) -> (r: Result<(), ExportError>)
    ensures
        r is Ok <==> data_len <= MAX_PAYLOAD_SIZE,
        r matches Err(e) ==> e matches ExportError::FileTooLarge { size } && size == data_len,
{
    if data_len > MAX_PAYLOAD_SIZE {
        Err(ExportError::FileTooLarge { size: data_len })
    } else {
        Ok(())
    }
}

/// Whether a path contains a parent-directory traversal segment: two
/// consecutive dots anywhere in its text.
pub open spec fn contains_traversal(s: Seq<char>) -> bool {
    exists|i: int| 0 <= i && i + 2 <= s.len() && #[trigger] s[i] == '.' && s[i + 1] == '.'
}

/// Screen a canonicalized destination path: a path whose canonical form
/// still contains a traversal segment is always rejected, any other path is
/// accepted.
pub fn check_canonical_path(path: &str) -> (r: Result<(), ExportError>)
    ensures
        r is Ok <==> !contains_traversal(path@),
        r is Err ==> r matches Err(ExportError::TraversalNotAllowed),
{
    let n = path.unicode_len();
    if n < 2 {
        return Ok(());
    }
    let mut i: usize = 0;
    while i + 1 < n
        invariant
            n == path@.len(),
            i + 1 <= n,
            forall|j: int| 0 <= j < i ==> !(#[trigger] path@[j] == '.' && path@[j + 1] == '.'),
        decreases n - i,
    {
        let a = path.get_char(i);
        let b = path.get_char(i + 1);
        if a == '.' && b == '.' {
            return Err(ExportError::TraversalNotAllowed);
        }
        i += 1;
    }
    Ok(())
}

} // verus!
