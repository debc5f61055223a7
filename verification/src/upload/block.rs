//! The decisions of the parallel block uploader: what becomes of each chunk
//! read from the file, when a block is tried again, and how an attempt ends.

use crate::upload::resume::Resume;
use crate::upload::session::{append_offset, AppendRequest, UploadSession};
use vstd::prelude::*;

verus! {

/// How many blocks are uploaded at the same time.
pub const PARALLELISM: usize = 20;

/// The size of a block, fixed by the remote.
pub const BLOCK_SIZE: usize = 4194304;

/// How many blocks go into one request.
pub const BLOCKS_PER_REQUEST: usize = 2;

/// The size of the chunks in which the file is read and sent.
pub const CHUNK_SIZE: usize = 8388608;

/// After how many ordinary errors a block is given up.
pub const MAX_BLOCK_ERRORS: u32 = 3;

/// How often a commit is tried.
pub const MAX_COMMIT_TRIES: u32 = 3;

/// How many seconds pass after a failed commit.
pub const COMMIT_PAUSE_SECONDS: u64 = 1;

/// The chunk size is the block size times the blocks per request.
pub proof fn lemma_chunk_size()
    ensures
        CHUNK_SIZE == BLOCK_SIZE * BLOCKS_PER_REQUEST,
{
}

/// What becomes of a chunk read from the file.
#[derive(Debug, Clone)]
pub enum ChunkAction {
    /// A short chunk is the file's last: it is kept back, with the offset
    /// under which it is sent once all other blocks are done, because the
    /// remote takes a short block only as the one that closes the session.
    Defer { offset: u64 },
    /// A full chunk is sent with this request.
    Upload(AppendRequest),
}

/// How the remote answered an append request.
#[derive(Debug, Clone, Copy, PartialEq, Eq, Structural)]
pub enum AppendOutcome {
    /// The block was taken.
    Accepted,
    /// The remote asks to wait this long before another request.
    RateLimited { retry_after_seconds: u32 },
    /// Any other error.
    Failed,
}

/// What to do after an append request was answered.
#[derive(Debug, Clone, Copy, PartialEq, Eq, Structural)]
pub enum BlockStep {
    /// The block is uploaded.
    Done,
    /// Send the block again after `pause_seconds`, with `errors` counted so far.
    Retry { pause_seconds: u32, errors: u32 },
    /// The block failed for good.
    GiveUp,
}

/// The step that follows the answer `outcome`, after `errors` ordinary
/// errors on this block. A rate limit is waited out and never counted; the
/// third ordinary error ends the block.
pub open spec fn block_step(errors: u32, outcome: AppendOutcome) -> BlockStep {
    match outcome {
        AppendOutcome::Accepted => BlockStep::Done,
        AppendOutcome::RateLimited { retry_after_seconds } => BlockStep::Retry {
            pause_seconds: retry_after_seconds,
            errors,
        },
        AppendOutcome::Failed => if errors + 1 >= MAX_BLOCK_ERRORS {
            BlockStep::GiveUp
        } else {
            BlockStep::Retry { pause_seconds: 0, errors: (errors + 1) as u32 }
        },
    }
}

/// Decides what follows an answered append request.
pub fn after_append(errors: u32, outcome: AppendOutcome) -> (r: BlockStep)
    ensures
        r == block_step(errors, outcome),
{
    match outcome {
        AppendOutcome::Accepted => BlockStep::Done,
        AppendOutcome::RateLimited { retry_after_seconds } => BlockStep::Retry {
            pause_seconds: retry_after_seconds,
            errors,
        },
        AppendOutcome::Failed => {
            if errors >= MAX_BLOCK_ERRORS - 1 {
                BlockStep::GiveUp
            } else {
                BlockStep::Retry { pause_seconds: 0, errors: errors + 1 }
            }
        },
    }
}

/// Why an upload attempt ended without success.
#[derive(Debug, Clone)]
pub enum UploadFailure {
    /// Another attempt can continue from this checkpoint.
    Resumable(Resume),
    /// Nothing can be continued; the text says why.
    Nonresumable(String),
}

/// What to do next in an upload attempt.
#[derive(Debug, Clone)]
pub enum FlowStep {
    /// Send the kept-back last block, flagged to close the session.
    SendClose,
    /// Send the commit request.
    SendCommit,
    /// Wait `COMMIT_PAUSE_SECONDS`, then send the commit request again;
    /// `failures` commits have failed so far.
    PauseThenCommit { failures: u32 },
    /// Wait `COMMIT_PAUSE_SECONDS`, then end the attempt as resumable from
    /// this checkpoint.
    PauseThenInterrupt(Resume),
    /// End the attempt as resumable from this checkpoint.
    Interrupt(Resume),
    /// The file is uploaded.
    Succeed,
}

impl UploadSession {
    /// Decides what becomes of the chunk of `data_len` bytes that was read
    /// `block_offset` bytes after the point where this attempt started. A
    /// short chunk is kept back under its place in the file, which is where
    /// the request that closes the session sends it.
    pub fn chunk_action(&self, block_offset: u64, data_len: usize) -> (r: ChunkAction)
        requires
            self.start_offset() + block_offset <= u64::MAX,
        ensures
            data_len != CHUNK_SIZE ==> r == (ChunkAction::Defer {
                offset: append_offset(*self, block_offset) as u64,
            }),
            data_len == CHUNK_SIZE ==> (r matches ChunkAction::Upload(request)
                && request.session_id@ == self.id() && request.offset == append_offset(
                *self,
                block_offset,
            ) && !request.close),
    {
        let request = self.append_arg(block_offset);
        if data_len != CHUNK_SIZE {
            ChunkAction::Defer { offset: request.offset }
        } else {
            ChunkAction::Upload(request)
        }
    }

    /// The place in the file of the block that is kept back before any chunk
    /// is read: the file's end. Where the file ends with a full chunk no
    /// short chunk takes its place, and the session is closed with an empty
    /// block there.
    pub fn end_of_file_offset(&self) -> (r: u64)
        ensures
            r == self.file_size(),
    {
        self.file_size()
    }

    /// The request that sends the kept-back last block and closes the
    /// session. `last_block_offset` is the block's place in the file, as
    /// `chunk_action` hands it out for a short chunk and `end_of_file_offset`
    /// for the empty block.
    pub fn close_arg(&self, last_block_offset: u64) -> (r: AppendRequest)
        ensures
            r.session_id@ == self.id(),
            r.offset == last_block_offset,
            r.close,
    {
        AppendRequest { session_id: self.session_id_owned(), offset: last_block_offset, close: true }
    }

    /// Decides what follows the dispatch of all full chunks: where one of
    /// them failed for good, the attempt ends as resumable from the tracker's
    /// low-water mark; else the last block is sent.
    pub fn after_dispatch(&self, all_uploaded: bool) -> (r: FlowStep)
        ensures
            all_uploaded ==> r == FlowStep::SendClose,
            !all_uploaded ==> (r matches FlowStep::Interrupt(resume) && resume.start_offset
                == self.completion().complete_up_to && resume.session_id@ == self.id()),
    {
        if all_uploaded {
            FlowStep::SendClose
        } else {
            FlowStep::Interrupt(self.checkpoint())
        }
    }

    /// Decides what follows an answered commit request, after `failures`
    /// failed commits: success ends the attempt; a failure is followed by a
    /// pause and, until the third, by another commit; the third ends the
    /// attempt as resumable from the tracker's low-water mark.
    pub fn after_commit(&self, failures: u32, committed: bool) -> (r: FlowStep)
        ensures
            committed ==> r == FlowStep::Succeed,
            !committed && failures + 1 < MAX_COMMIT_TRIES ==> r == (FlowStep::PauseThenCommit {
                failures: (failures + 1) as u32,
            }),
            !committed && failures + 1 >= MAX_COMMIT_TRIES ==> (r matches FlowStep::PauseThenInterrupt(
                resume,
            ) && resume.start_offset == self.completion().complete_up_to && resume.session_id@
                == self.id()),
    {
        if committed {
            FlowStep::Succeed
        } else if failures < MAX_COMMIT_TRIES - 1 {
            FlowStep::PauseThenCommit { failures: failures + 1 }
        } else {
            FlowStep::PauseThenInterrupt(self.checkpoint())
        }
    }
}

/// Decides what follows the attempt to close the session: the commit, also
/// where closing failed, since a resumed session may be closed already.
pub fn after_close(closed: bool) -> (r: FlowStep)
    ensures
        r == FlowStep::SendCommit,
{
    FlowStep::SendCommit
}

} // verus!
