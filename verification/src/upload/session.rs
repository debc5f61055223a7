//! One attempt at uploading a file through a remote append-session: the
//! session's identity, where the attempt starts, and the requests it sends.

use crate::upload::resume::Resume;
use crate::upload::tracker::{
    after_block, fresh, lemma_tracker_pending, pending_in_range, started_at, CompletionTracker,
    TrackerState,
};
use vstd::prelude::*;

verus! {

/// How the remote treats a file that already stands at the destination.
#[derive(Debug, Clone, Copy, PartialEq, Eq, Structural)]
pub enum WriteMode {
    /// The committed file replaces the one that is there.
    Overwrite,
}

/// A request to append one block to a remote session.
#[derive(Debug, Clone)]
pub struct AppendRequest {
    pub session_id: String,
    /// Where in the file the block starts.
    pub offset: u64,
    /// Whether the session takes no block after this one.
    pub close: bool,
}

/// A request to finish a remote session and store the file.
#[derive(Debug, Clone)]
pub struct CommitRequest {
    pub session_id: String,
    /// The length of the whole file.
    pub offset: u64,
    pub path: String,
    /// The file's modification time, as `YYYY-MM-DDTHH:MM:SSZ`.
    pub client_modified: String,
    pub mode: WriteMode,
}

/// The text `YYYY-MM-DDTHH:MM:SSZ` of the moment `timestamp` seconds after the
/// start of 1970 (UTC), or `None` where the calendar does not reach that far.
pub uninterp spec fn iso8601_text(timestamp: i64) -> Option<Seq<char>>;

/// The first second of the year 1.
pub const FIRST_COMMON_SECOND: i64 = -62_135_596_800;

/// The last second of the year 9999.
pub const LAST_COMMON_SECOND: i64 = 253_402_300_799;

/// Calls `chrono::DateTime::from_timestamp` with no nanoseconds and formats
/// what it returns with `%Y-%m-%dT%H:%M:%SZ`. The contract names the text and
/// claims that every second of the years 1 to 9999 has one; of other moments
/// it claims only that the result is the named one.
#[verifier::external_body]
fn format_timestamp(timestamp: i64) -> (r: Option<String>)
    ensures
        match r {
            Some(text) => iso8601_text(timestamp) == Some(text@),
            None => iso8601_text(timestamp) is None,
        },
        FIRST_COMMON_SECOND <= timestamp <= LAST_COMMON_SECOND ==> r is Some,
{
    match chrono::DateTime::from_timestamp(timestamp, 0) {
        Some(moment) => Some(moment.format("%Y-%m-%dT%H:%M:%SZ").to_string()),
        None => None,
    }
}

/// The modification time `timestamp` (seconds since the start of 1970, UTC) in
/// the form that a commit request carries; `None` where the calendar does not
/// reach that far.
pub fn iso8601(timestamp: i64) -> (r: Option<String>)
    ensures
        match r {
            Some(text) => iso8601_text(timestamp) == Some(text@),
            None => iso8601_text(timestamp) is None,
        },
        FIRST_COMMON_SECOND <= timestamp <= LAST_COMMON_SECOND ==> r is Some,
{
    format_timestamp(timestamp)
}

/// The seconds from the start of 1970 to a moment, given how many seconds
/// lie between the two and on which side the moment lies: negative before
/// 1970; `None` where the number is too large to be counted with a sign.
pub open spec fn signed_seconds(seconds: u64, before_epoch: bool) -> Option<i64> {
    if seconds > i64::MAX {
        None
    } else if before_epoch {
        Some((-(seconds as int)) as i64)
    } else {
        Some(seconds as i64)
    }
}

/// Counts a moment in seconds from the start of 1970, negative before it.
pub fn unix_seconds(seconds: u64, before_epoch: bool) -> (r: Option<i64>)
    ensures
        r == signed_seconds(seconds, before_epoch),
{
    if seconds > 0x7fff_ffff_ffff_ffffu64 {
        None
    } else if before_epoch {
        Some(-(seconds as i64))
    } else {
        Some(seconds as i64)
    }
}

/// The state shared by the parts of one upload attempt.
pub struct UploadSession {
    session_id: String,
    start_offset: u64,
    file_size: u64,
    bytes_transferred: u64,
    completion: CompletionTracker,
}

impl UploadSession {
    /// The remote session's id.
    pub closed spec fn id(&self) -> Seq<char> {
        self.session_id@
    }

    /// The offset at which this attempt starts to read and send.
    pub closed spec fn spec_start_offset(&self) -> u64 {
        self.start_offset
    }

    /// The length of the whole file.
    pub closed spec fn spec_file_size(&self) -> u64 {
        self.file_size
    }

    /// The number of bytes that this attempt has sent.
    pub closed spec fn spec_bytes_transferred(&self) -> u64 {
        self.bytes_transferred
    }

    /// The remote session's id.
    pub fn session_id(&self) -> (r: &str)
        ensures
            r@ == self.id(),
    {
        self.session_id.as_str()
    }

    /// A copy of the remote session's id.
    pub fn session_id_owned(&self) -> (r: String)
        ensures
            r@ == self.id(),
    {
        self.session_id.clone()
    }

    /// The offset at which this attempt starts to read and send.
    #[verifier::when_used_as_spec(spec_start_offset)]
    pub fn start_offset(&self) -> (r: u64)
        ensures
            r == self.start_offset(),
    {
        self.start_offset
    }

    /// The length of the whole file.
    #[verifier::when_used_as_spec(spec_file_size)]
    pub fn file_size(&self) -> (r: u64)
        ensures
            r == self.file_size(),
    {
        self.file_size
    }

    /// The number of bytes that this attempt has sent.
    #[verifier::when_used_as_spec(spec_bytes_transferred)]
    pub fn bytes_transferred(&self) -> (r: u64)
        ensures
            r == self.bytes_transferred(),
    {
        self.bytes_transferred
    }

    /// The state of the session's completion tracker.
    pub closed spec fn completion(&self) -> TrackerState {
        self.completion@
    }

    /// What holds of every session.
    pub closed spec fn wf(&self) -> bool {
        self.completion.wf()
    }

    /// A session for a fresh upload, on the id that the remote gave when the
    /// session was opened: nothing is complete, nothing was sent.
    pub fn new(session_id: String, file_size: u64) -> (s: UploadSession)
        ensures
            s.wf(),
            s.id() == session_id@,
            s.start_offset() == 0,
            s.file_size() == file_size,
            s.bytes_transferred() == 0,
            s.completion() == fresh(),
    {
        UploadSession {
            session_id,
            start_offset: 0,
            file_size,
            bytes_transferred: 0,
            completion: CompletionTracker::new(),
        }
    }

    /// A session that continues an interrupted one from its checkpoint.
    pub fn resume(resume: Resume, file_size: u64) -> (s: UploadSession)
        ensures
            s.wf(),
            resumes(s, resume),
            s.file_size() == file_size,
            s.bytes_transferred() == 0,
    {
        UploadSession {
            session_id: resume.session_id,
            start_offset: resume.start_offset,
            file_size,
            bytes_transferred: 0,
            completion: CompletionTracker::resume_from(resume.start_offset),
        }
    }

    /// The request that appends the block which starts `block_offset` bytes
    /// after the point where this attempt started.
    pub fn append_arg(&self, block_offset: u64) -> (r: AppendRequest)
        requires
            self.start_offset() + block_offset <= u64::MAX,
        ensures
            r.session_id@ == self.id(),
            r.offset == append_offset(*self, block_offset),
            !r.close,
    {
        AppendRequest {
            session_id: self.session_id.clone(),
            offset: self.start_offset + block_offset,
            close: false,
        }
    }

    /// The request that commits the upload at `dest_path`, given the text of
    /// the file's modification time: it covers the whole file and overwrites.
    pub fn commit_request(&self, dest_path: String, client_modified: String) -> (r: CommitRequest)
        ensures
            r.session_id@ == self.id(),
            r.offset == self.file_size(),
            r.path@ == dest_path@,
            r.client_modified@ == client_modified@,
            r.mode == WriteMode::Overwrite,
    {
        CommitRequest {
            session_id: self.session_id.clone(),
            offset: self.file_size,
            path: dest_path,
            client_modified,
            mode: WriteMode::Overwrite,
        }
    }

    /// The request that commits the upload at `dest_path` with the
    /// modification time `source_mtime`, in seconds since the start of 1970
    /// (UTC); `None` where the calendar does not reach that moment.
    pub fn commit_arg(&self, dest_path: String, source_mtime: i64) -> (r: Option<CommitRequest>)
        ensures
            match r {
                Some(request) => {
                    &&& request.session_id@ == self.id()
                    &&& request.offset == self.file_size()
                    &&& request.path@ == dest_path@
                    &&& iso8601_text(source_mtime) == Some(request.client_modified@)
                    &&& request.mode == WriteMode::Overwrite
                },
                None => iso8601_text(source_mtime) is None,
            },
            FIRST_COMMON_SECOND <= source_mtime <= LAST_COMMON_SECOND ==> r is Some,
    {
        match iso8601(source_mtime) {
            Some(client_modified) => Some(self.commit_request(dest_path, client_modified)),
            None => None,
        }
    }

    /// Marks the block that starts `block_offset` bytes after the point where
    /// this attempt started as uploaded.
    pub fn mark_block_uploaded(&mut self, block_offset: u64, block_len: u64)
        requires
            old(self).wf(),
            old(self).start_offset() + block_offset + block_len <= u64::MAX,
        ensures
            final(self).wf(),
            final(self).id() == old(self).id(),
            final(self).start_offset() == old(self).start_offset(),
            final(self).file_size() == old(self).file_size(),
            final(self).bytes_transferred() == old(self).bytes_transferred(),
            final(self).completion() == after_block(
                old(self).completion(),
                (old(self).start_offset() + block_offset) as u64,
                block_len,
            ),
            final(self).completion().complete_up_to >= old(self).completion().complete_up_to,
    {
        self.completion.complete_block(self.start_offset + block_offset, block_len);
    }

    /// The offset up to which the file is completely uploaded: the place to
    /// resume from if something goes wrong.
    pub fn complete_up_to(&self) -> (r: u64)
        ensures
            r == self.completion().complete_up_to,
    {
        self.completion.complete_up_to()
    }

    /// Counts `block_bytes` more bytes as sent and returns the new count,
    /// which wraps around where it would pass the largest number it can hold.
    pub fn add_transferred(&mut self, block_bytes: u64) -> (r: u64)
        ensures
            r == final(self).bytes_transferred(),
            r == if old(self).bytes_transferred() + block_bytes <= u64::MAX {
                old(self).bytes_transferred() + block_bytes
            } else {
                old(self).bytes_transferred() + block_bytes - 0x1_0000_0000_0000_0000
            },
            final(self).wf() == old(self).wf(),
            final(self).id() == old(self).id(),
            final(self).start_offset() == old(self).start_offset(),
            final(self).file_size() == old(self).file_size(),
            final(self).completion() == old(self).completion(),
    {
        self.bytes_transferred = self.bytes_transferred.wrapping_add(block_bytes);
        self.bytes_transferred
    }

    /// The checkpoint from which another attempt continues this session: the
    /// tracker's low-water mark, never the offset of a block that failed.
    pub fn checkpoint(&self) -> (r: Resume)
        ensures
            r.start_offset == self.completion().complete_up_to,
            r.session_id@ == self.id(),
    {
        Resume { start_offset: self.completion.complete_up_to(), session_id: self.session_id.clone() }
    }
}

/// The pending blocks of a session are finitely many, and each ends within
/// the range of offsets.
pub proof fn lemma_session_pending(session: UploadSession)
    requires
        session.wf(),
    ensures
        session.completion().pending.dom().finite(),
        pending_in_range(session.completion().pending),
{
    lemma_tracker_pending(session.completion);
}

/// The offset of the request that `append_arg` builds for `block_offset`.
pub open spec fn append_offset(session: UploadSession, block_offset: u64) -> int {
    session.start_offset() + block_offset
}

/// The session continues the checkpoint `resume`: it speaks to that remote
/// session, starts at that offset, and takes everything below it, and
/// nothing else, as complete.
pub open spec fn resumes(session: UploadSession, resume: Resume) -> bool {
    &&& session.id() == resume.session_id@
    &&& session.start_offset() == resume.start_offset
    &&& session.completion() == started_at(resume.start_offset as nat)
}

/// Resume correctness: a session that continues the checkpoint `(offset, id)`
/// sends its first block at exactly `offset` and sends no block below it.
pub proof fn lemma_resumed_session_starts_at_checkpoint(
    session: UploadSession,
    resume: Resume,
    block_offset: u64,
)
    requires
        resumes(session, resume),
    ensures
        append_offset(session, 0) == resume.start_offset,
        append_offset(session, block_offset) >= resume.start_offset,
{
}

} // verus!
