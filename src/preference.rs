use vstd::prelude::*;
use crate::error::{FileError, IoFailure, IoKind};
use crate::text::{trim, trimmed};

verus! {

/// The name of the marker file, in the application-data directory, that
/// remembers the directory the user last chose for menu files.
pub const MARKER_FILE_NAME: &'static str = "radials_dir.txt";

/// The text that storing `path` writes to the marker file.
pub open spec fn stored_text(path: Seq<char>) -> Seq<char> {
    path
}

/// The directory that a marker file with the given contents (`None` when the
/// file is absent) reports.
pub open spec fn recalled(contents: Option<Seq<char>>) -> Option<Seq<char>> {
    match contents {
        Some(t) => Some(trimmed(t)),
        None => None,
    }
}

/// A file's contents after `text` is written to it: the old contents, if
/// any, are replaced.
pub open spec fn overwrite(before: Option<Seq<char>>, text: Seq<char>) -> Option<Seq<char>> {
    Some(text)
}

/// The marker file's contents after a series of stores into an initially
/// absent marker, each overwriting the last.
pub open spec fn marker_after(saves: Seq<Seq<char>>) -> Option<Seq<char>>
    decreases saves.len(),
{
    if saves.len() == 0 {
        None
    } else {
        overwrite(marker_after(saves.drop_last()), stored_text(saves.last()))
    }
}

/// The text to write to the marker file to remember `path`.
pub fn marker_contents(path: &str) -> (r: String)
    ensures
        r@ == stored_text(path@),
{
    String::from_str(path)
}

/// The remembered directory, given what reading the marker file at
/// `marker_path` gave: its trimmed contents, `None` when the file does not
/// exist, and an error for any other read failure.
pub fn saved_directory(marker_path: &str, read: Result<String, IoFailure>) -> (r: Result<
    Option<String>,
    FileError,
>)
    ensures
        match read {
            Ok(s) => r is Ok && r->Ok_0 is Some && Some(r->Ok_0->Some_0@) == recalled(Some(s@)),
            Err(cause) => if cause.kind == IoKind::NotFound {
                r is Ok && r->Ok_0 is None
            } else {
                r is Err && r->Err_0 is Read && r->Err_0->Read_path@ == marker_path@
                    && r->Err_0->Read_cause == cause
            },
        },
{
    match read {
        Ok(s) => Ok(Some(trim(s.as_str()))),
        Err(cause) => {
            if cause.kind == IoKind::NotFound {
                Ok(None)
            } else {
                Err(FileError::Read { path: String::from_str(marker_path), cause })
            }
        },
    }
}

/// The remembered directory is unset until the first store; after one or
/// more stores it is the last stored path, trimmed.
pub proof fn lemma_last_saved_directory_wins(saves: Seq<Seq<char>>)
    ensures
        saves.len() == 0 ==> recalled(marker_after(saves)) is None,
        saves.len() > 0 ==> recalled(marker_after(saves)) == Some(trimmed(saves.last())),
{
}

} // verus!
