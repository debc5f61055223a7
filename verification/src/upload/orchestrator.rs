//! Drives one file through repeated upload attempts, and a batch of files
//! through their uploads: when to try again, how long to wait, when to stop.

use crate::upload::block::UploadFailure;
use crate::upload::resume::Resume;
use vstd::prelude::*;

verus! {

/// How the upload of one file ended.
#[derive(Debug, Clone, Copy, PartialEq, Eq, Structural)]
pub enum UploadOutcome {
    /// The file is uploaded.
    Success,
    /// This file is skipped; the batch goes on.
    Failure,
    /// The destination as a whole is unusable; the batch stops.
    SystemicFailure,
}

/// What to do after an upload attempt.
#[derive(Debug, Clone, Copy, PartialEq, Eq, Structural)]
pub enum LoopStep {
    /// The file is done, with this outcome.
    Finish(UploadOutcome),
    /// Wait for the delay at `wait_index` of the backoff series, then try again.
    WaitAndRetry { wait_index: usize },
}

/// How an attempt ended, as far as the retry decision reads it.
#[derive(Debug, Clone, Copy, PartialEq, Eq, Structural)]
pub enum AttemptKind {
    /// The file is uploaded.
    Uploaded,
    /// The attempt can be continued from this offset.
    InterruptedAt(u64),
    /// Nothing can be continued.
    Abandoned,
}

/// The count of attempts stuck at one offset, after an attempt was
/// interrupted at `offset`: it grows by one where the attempt before was
/// interrupted at the same offset, and starts again at zero otherwise.
pub open spec fn next_stalls(previous: Option<u64>, stalls: nat, offset: u64) -> nat {
    match previous {
        Some(before) => if before == offset {
            stalls + 1
        } else {
            0
        },
        None => 0,
    }
}

/// The step that follows an attempt, for a backoff series of `series_len` delays.
pub open spec fn loop_step(
    previous: Option<u64>,
    stalls: nat,
    attempt: AttemptKind,
    series_len: nat,
) -> LoopStep {
    match attempt {
        AttemptKind::Uploaded => LoopStep::Finish(UploadOutcome::Success),
        AttemptKind::Abandoned => LoopStep::Finish(UploadOutcome::Failure),
        AttemptKind::InterruptedAt(offset) => {
            let count = next_stalls(previous, stalls, offset);
            if count < series_len {
                LoopStep::WaitAndRetry { wait_index: count as usize }
            } else {
                LoopStep::Finish(UploadOutcome::Failure)
            }
        },
    }
}

/// How the retry decision reads the result of an attempt.
pub open spec fn attempt_kind(result: Result<(), UploadFailure>) -> AttemptKind {
    match result {
        Ok(()) => AttemptKind::Uploaded,
        Err(UploadFailure::Resumable(resume)) => AttemptKind::InterruptedAt(resume.start_offset),
        Err(UploadFailure::Nonresumable(_)) => AttemptKind::Abandoned,
    }
}

/// The state of the retry loop of one file: the checkpoint of the last
/// interrupted attempt, and how many attempts in a row were stuck at it.
pub struct RetryLoop {
    resume: Option<Resume>,
    retry_count: usize,
}

impl RetryLoop {
    /// The offset of the checkpoint that the next attempt continues from.
    pub closed spec fn previous(&self) -> Option<u64> {
        match self.resume {
            Some(resume) => Some(resume.start_offset),
            None => None,
        }
    }

    /// The session id of the checkpoint that the next attempt continues from.
    pub closed spec fn session(&self) -> Option<Seq<char>> {
        match self.resume {
            Some(resume) => Some(resume.session_id@),
            None => None,
        }
    }

    /// How many attempts in a row were stuck at one offset.
    pub closed spec fn stalls(&self) -> nat {
        self.retry_count as nat
    }

    /// The loop before the first attempt.
    pub fn new() -> (r: RetryLoop)
        ensures
            r.previous() is None,
            r.session() is None,
            r.stalls() == 0,
    {
        RetryLoop { resume: None, retry_count: 0 }
    }

    /// The checkpoint that the next attempt continues from, if there is one.
    pub fn resume(&self) -> (r: Option<Resume>)
        ensures
            match r {
                Some(resume) => self.previous() == Some(resume.start_offset) && self.session()
                    == Some(resume.session_id@),
                None => self.previous() is None && self.session() is None,
            },
    {
        match &self.resume {
            Some(resume) => Some(
                Resume { start_offset: resume.start_offset, session_id: resume.session_id.clone() },
            ),
            None => None,
        }
    }

    /// Whether another attempt may start, for a backoff series of `series_len` delays.
    pub fn may_attempt(&self, series_len: usize) -> (r: bool)
        ensures
            r == (self.stalls() < series_len),
    {
        self.retry_count < series_len
    }

    /// Takes in the result of an attempt and decides what follows. An
    /// interrupted attempt leaves its checkpoint for the next one. Progress
    /// resets the count of stuck attempts, so the shortest delay follows; the
    /// same offset again raises it, and with it the delay; when the count
    /// passes the end of the series the file is given up.
    pub fn record(&mut self, result: Result<(), UploadFailure>, series_len: usize) -> (r: LoopStep)
        requires
            old(self).stalls() < series_len,
        ensures
            r == loop_step(
                old(self).previous(),
                old(self).stalls(),
                attempt_kind(result),
                series_len as nat,
            ),
            match result {
                Err(UploadFailure::Resumable(resume)) => {
                    &&& final(self).previous() == Some(resume.start_offset)
                    &&& final(self).session() == Some(resume.session_id@)
                    &&& final(self).stalls() == next_stalls(
                        old(self).previous(),
                        old(self).stalls(),
                        resume.start_offset,
                    )
                },
                _ => {
                    &&& final(self).previous() == old(self).previous()
                    &&& final(self).session() == old(self).session()
                    &&& final(self).stalls() == old(self).stalls()
                },
            },
    {
        match result {
            Ok(()) => LoopStep::Finish(UploadOutcome::Success),
            Err(UploadFailure::Nonresumable(_)) => LoopStep::Finish(UploadOutcome::Failure),
            Err(UploadFailure::Resumable(resume)) => {
                let count: usize = match &self.resume {
                    None => 0,
                    Some(before) => {
                        if before.start_offset == resume.start_offset {
                            self.retry_count + 1
                        } else {
                            0
                        }
                    },
                };
                self.retry_count = count;
                self.resume = Some(resume);
                if count < series_len {
                    LoopStep::WaitAndRetry { wait_index: count }
                } else {
                    LoopStep::Finish(UploadOutcome::Failure)
                }
            },
        }
    }
}

/// Stall against progress: an attempt interrupted at the offset of the one
/// before raises the backoff index by one; an attempt interrupted at a larger
/// offset, or the first one to be interrupted, brings it back to zero.
pub proof fn lemma_stall_escalates_progress_resets(before: u64, stalls: nat, offset: u64)
    ensures
        offset == before ==> next_stalls(Some(before), stalls, offset) == stalls + 1,
        offset > before ==> next_stalls(Some(before), stalls, offset) == 0,
        next_stalls(None, stalls, offset) == 0,
{
}

/// Whether the batch goes on to its next file after one that ended with `outcome`.
pub fn batch_continues(outcome: UploadOutcome) -> (r: bool)
    ensures
        r == (outcome != UploadOutcome::SystemicFailure),
{
    match outcome {
        UploadOutcome::SystemicFailure => false,
        _ => true,
    }
}

/// How many files of a batch are attempted, given how each would end: the
/// files up to and including the first that fails systemically.
pub open spec fn attempted(outcomes: Seq<UploadOutcome>) -> nat
    decreases outcomes.len(),
{
    if outcomes.len() == 0 {
        0
    } else if outcomes[0] == UploadOutcome::SystemicFailure {
        1
    } else {
        1 + attempted(outcomes.skip(1))
    }
}

/// Runs through a batch, given how each file's upload would end, and returns
/// how many files are attempted and whether the destination stayed usable.
pub fn run_batch(outcomes: &Vec<UploadOutcome>) -> (r: (usize, bool))
    ensures
        r.0 == attempted(outcomes@),
        r.1 == (forall|i: int| 0 <= i < outcomes.len() ==> outcomes[i]
            != UploadOutcome::SystemicFailure),
{
    let mut i: usize = 0;
    assert(outcomes@.skip(0) =~= outcomes@);
    while i < outcomes.len()
        invariant
            i <= outcomes.len(),
            forall|j: int| 0 <= j < i ==> outcomes[j] != UploadOutcome::SystemicFailure,
            attempted(outcomes@) == i + attempted(outcomes@.skip(i as int)),
        decreases outcomes.len() - i,
    {
        let ghost rest = outcomes@.skip(i as int);
        assert(rest[0] == outcomes[i as int]);
        assert(rest.skip(1) =~= outcomes@.skip(i + 1));
        if !batch_continues(outcomes[i]) {
            return (i + 1, false);
        }
        i = i + 1;
    }
    assert(outcomes@.skip(i as int).len() == 0);
    (i, true)
}

/// Batch abort: after the first file that fails systemically no file is
/// attempted, so with such a file at index `k` at most `k + 1` files are.
pub proof fn lemma_systemic_failure_stops_batch(outcomes: Seq<UploadOutcome>, k: int)
    requires
        0 <= k < outcomes.len(),
        outcomes[k] == UploadOutcome::SystemicFailure,
    ensures
        attempted(outcomes) <= k + 1,
    decreases k,
{
    if outcomes[0] != UploadOutcome::SystemicFailure {
        assert(outcomes.skip(1)[k - 1] == outcomes[k]);
        lemma_systemic_failure_stops_batch(outcomes.skip(1), k - 1);
    }
}

} // verus!
