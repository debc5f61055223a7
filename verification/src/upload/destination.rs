//! Decides, from what the remote holds at a candidate path, whether a file is
//! uploaded as new, replaces what is there, or is skipped.

use vstd::prelude::*;
use vstd::string::*;

verus! {

/// What a metadata lookup found at a remote path.
#[derive(Debug, Clone)]
pub enum RemoteEntry {
    /// A file of this size.
    File { size: u64 },
    /// A folder.
    Folder,
    /// The record of a deleted entry.
    Deleted,
    /// Nothing.
    NotFound,
    /// The remote answered the lookup with another error; the text says which.
    LookupError(String),
    /// The request itself failed; the text says how.
    RequestError(String),
}

/// The destination of one file, resolved before any byte moves.
#[derive(Debug, Clone)]
pub enum PathNormalizationResult {
    /// Nothing is at the path: upload a new file there.
    NewFile(String),
    /// Another file is at the path: overwrite it.
    Replace(String),
    /// A file of the same size is at the path: nothing to do.
    SkipMatching,
    /// The destination could not be resolved: skip the file for now.
    Unresolved(String),
}

/// One step of resolving a destination.
#[derive(Debug, Clone)]
pub enum Resolution {
    /// The destination is resolved.
    Done(PathNormalizationResult),
    /// The path is a folder: look up this path, inside it, next.
    Descend(String),
}

/// The path of the file named `source_filename` inside the folder `dest_path`.
pub open spec fn child_path(dest_path: Seq<char>, source_filename: Seq<char>) -> Seq<char> {
    dest_path + seq!['/'] + source_filename
}

/// The text that reports a failed lookup request.
pub open spec fn request_error_text(reason: Seq<char>) -> Seq<char> {
    "Request error while looking up destination: "@ + reason
}

/// The text that reports a lookup that the remote refused.
pub open spec fn lookup_error_text(reason: Seq<char>) -> Seq<char> {
    "Error looking up destination: "@ + reason
}

/// What follows from finding `entry` at `dest_path`, for a local file of
/// `source_file_size` bytes named `source_filename`. Equal sizes count as the
/// same file: the contents are not compared.
pub open spec fn resolves_to(
    dest_path: Seq<char>,
    source_filename: Seq<char>,
    source_file_size: u64,
    entry: RemoteEntry,
    r: Resolution,
) -> bool {
    match entry {
        RemoteEntry::File { size } => if size == source_file_size {
            r == Resolution::Done(PathNormalizationResult::SkipMatching)
        } else {
            r matches Resolution::Done(PathNormalizationResult::Replace(p)) && p@ == dest_path
        },
        RemoteEntry::Folder => r matches Resolution::Descend(p) && p@ == child_path(
            dest_path,
            source_filename,
        ),
        RemoteEntry::Deleted => r matches Resolution::Done(PathNormalizationResult::Unresolved(e)) && e@
            == "unexpected deleted metadata received"@,
        RemoteEntry::NotFound => r matches Resolution::Done(PathNormalizationResult::NewFile(p))
            && p@ == dest_path,
        RemoteEntry::LookupError(reason) => r matches Resolution::Done(
            PathNormalizationResult::Unresolved(e),
        ) && e@ == lookup_error_text(reason@),
        RemoteEntry::RequestError(reason) => r matches Resolution::Done(
            PathNormalizationResult::Unresolved(e),
        ) && e@ == request_error_text(reason@),
    }
}

impl PathNormalizationResult {
    /// Resolves the destination `dest_path` from what a lookup found there.
    /// Where it is a folder, the file's own name is appended and that path is
    /// to be looked up in turn.
    pub fn from_path(
        dest_path: &str,
        source_filename: &str,
        source_file_size: u64,
        entry: RemoteEntry,
    ) -> (r: Resolution)
        ensures
            resolves_to(dest_path@, source_filename@, source_file_size, entry, r),
    {
        match entry {
            RemoteEntry::File { size } => {
                if size == source_file_size {
                    Resolution::Done(PathNormalizationResult::SkipMatching)
                } else {
                    Resolution::Done(PathNormalizationResult::Replace(String::from_str(dest_path)))
                }
            },
            RemoteEntry::Folder => {
                let mut path = String::from_str(dest_path);
                path.append("/");
                path.append(source_filename);
                proof {
                    reveal_strlit("/");
                    assert("/"@ =~= seq!['/']);
                }
                Resolution::Descend(path)
            },
            RemoteEntry::Deleted => Resolution::Done(
                PathNormalizationResult::Unresolved(
                    String::from_str("unexpected deleted metadata received"),
                ),
            ),
            RemoteEntry::NotFound => Resolution::Done(
                PathNormalizationResult::NewFile(String::from_str(dest_path)),
            ),
            RemoteEntry::LookupError(reason) => {
                let mut text = String::from_str("Error looking up destination: ");
                text.append(reason.as_str());
                Resolution::Done(PathNormalizationResult::Unresolved(text))
            },
            RemoteEntry::RequestError(reason) => {
                let mut text = String::from_str("Request error while looking up destination: ");
                text.append(reason.as_str());
                Resolution::Done(PathNormalizationResult::Unresolved(text))
            },
        }
    }
}

impl PathNormalizationResult {
    /// The path to upload to, where the file is to be uploaded: as a new
    /// file or in place of another. A file that is there already and a
    /// destination that could not be resolved give none: the file is skipped.
    pub fn upload_path(self) -> (r: Option<String>)
        ensures
            match self {
                PathNormalizationResult::NewFile(path) => r == Some(path),
                PathNormalizationResult::Replace(path) => r == Some(path),
                PathNormalizationResult::SkipMatching => r is None,
                PathNormalizationResult::Unresolved(_) => r is None,
            },
    {
        match self {
            PathNormalizationResult::NewFile(path) => Some(path),
            PathNormalizationResult::Replace(path) => Some(path),
            PathNormalizationResult::SkipMatching => None,
            PathNormalizationResult::Unresolved(_) => None,
        }
    }
}

/// The path to look up first: the given one, or, for the root, which has no
/// metadata of its own, the file's name under the root.
pub open spec fn first_candidate(given_path: Seq<char>, source_filename: Seq<char>) -> Seq<char> {
    if given_path == seq!['/'] {
        given_path + source_filename
    } else {
        given_path
    }
}

/// The path at which resolving the destination of the file named
/// `source_filename` starts, for the configured destination `given_path`.
pub fn get_destination_path(given_path: &str, source_filename: &str) -> (r: String)
    ensures
        r@ == first_candidate(given_path@, source_filename@),
{
    let mut dest_path = String::from_str(given_path);
    proof {
        reveal_strlit("/");
        assert("/"@ =~= seq!['/']);
    }
    if given_path.unicode_len() == 1 && given_path.get_char(0) == '/' {
        assert(given_path@ =~= seq!['/']);
        dest_path.append(source_filename);
    }
    dest_path
}

} // verus!
