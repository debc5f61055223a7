//! The decisions of the upload to a drive that takes whole files: whether a
//! file fits, whether it is there already, what an error means for the
//! batch, and when a broken transfer is taken up again.

use crate::upload::orchestrator::UploadOutcome;
use vstd::prelude::*;
use vstd::string::*;

verus! {

/// What the remote reports of the account's storage.
#[derive(Debug, Clone, Copy, PartialEq, Eq, Structural)]
pub struct StorageQuota {
    /// The most that the account may hold, where there is a limit.
    pub limit: Option<i64>,
    /// What the account holds.
    pub usage: Option<i64>,
    /// What of it lies in the drive itself.
    pub usage_in_drive: Option<i64>,
}

/// What the remote reports of the account.
#[derive(Debug, Clone, Copy, PartialEq, Eq, Structural)]
pub struct About {
    /// The largest file that the remote takes.
    pub max_upload_size: Option<i64>,
    pub storage_quota: Option<StorageQuota>,
}

/// The size of a file as the remote counts it, which is in signed 64 bits;
/// `None` for a file too large to be counted so.
pub fn api_size(upload_size: u64) -> (r: Option<i64>)
    ensures
        r == if upload_size <= i64::MAX {
            Some(upload_size as i64)
        } else {
            None
        },
{
    if upload_size <= 9223372036854775807 {
        Some(upload_size as i64)
    } else {
        None
    }
}

/// A file of `upload_size` bytes fits the account: it is no larger than the
/// largest upload allowed, and no larger than what is left of the storage
/// limit, or than the limit itself where the usage is not reported.
pub open spec fn fits(upload_size: int, about: About) -> bool {
    &&& about.max_upload_size matches Some(max) ==> max >= upload_size
    &&& about.storage_quota matches Some(quota) ==> (quota.limit matches Some(limit) ==> match quota.usage {
        Some(usage) => limit - usage >= upload_size,
        None => limit >= upload_size,
    })
}

/// Whether a file of `upload_size` bytes fits the account that `about` describes.
pub fn has_free_space(upload_size: i64, about: &About) -> (r: bool)
    ensures
        r == fits(upload_size as int, *about),
{
    if let Some(max_upload_size) = about.max_upload_size {
        if max_upload_size < upload_size {
            return false;
        }
    }
    if let Some(quota) = about.storage_quota {
        if let Some(limit) = quota.limit {
            if let Some(usage) = quota.usage {
                let remaining: i128 = limit as i128 - usage as i128;
                if remaining < upload_size as i128 {
                    return false;
                }
            } else {
                if limit < upload_size {
                    return false;
                }
            }
        }
    }
    true
}

/// Whether a file of `upload_size` bytes can be uploaded at all: its size can
/// be counted by the remote and fits the account. Where it cannot, no further
/// upload is to be tried.
pub fn check_free_space(upload_size: u64, about: &About) -> (r: bool)
    ensures
        r == (upload_size <= i64::MAX && fits(upload_size as int, *about)),
{
    match api_size(upload_size) {
        Some(size) => has_free_space(size, about),
        None => false,
    }
}

/// What stands against the upload of a file, given its size, where it could
/// be read, and what the remote reports of the account, where that could be
/// had: nothing where the size is known, can be counted by the remote and
/// fits the account; else the destination is of no use to the whole batch.
pub open spec fn stands_against(size: Option<u64>, about: Option<About>) -> Option<UploadOutcome> {
    match (size, about) {
        (Some(upload_size), Some(report)) => if upload_size <= i64::MAX && fits(
            upload_size as int,
            report,
        ) {
            None
        } else {
            Some(UploadOutcome::SystemicFailure)
        },
        _ => Some(UploadOutcome::SystemicFailure),
    }
}

/// Decides, before a file is sent, whether it is sent at all. `size` is
/// `None` where the file's size could not be read, `about` where the account
/// could not be asked.
pub fn admission(size: Option<u64>, about: Option<About>) -> (r: Option<UploadOutcome>)
    ensures
        r == stands_against(size, about),
{
    match size {
        None => Some(UploadOutcome::SystemicFailure),
        Some(upload_size) => match about {
            None => Some(UploadOutcome::SystemicFailure),
            Some(report) => {
                if check_free_space(upload_size, &report) {
                    None
                } else {
                    Some(UploadOutcome::SystemicFailure)
                }
            },
        },
    }
}

/// What a search for a file's name in the destination folder says.
#[derive(Debug, Clone, Copy, PartialEq, Eq, Structural)]
pub enum SearchVerdict {
    /// The search was cut short without a list: skip the file for now.
    Undetermined,
    /// A file of that name is there: nothing to upload.
    Present,
    /// No file of that name is there: upload.
    Absent,
}

/// Reads the answer to a search: whether it was marked incomplete, and how
/// many files it lists, if it lists any.
pub fn search_verdict(incomplete_search: Option<bool>, listed: Option<usize>) -> (r: SearchVerdict)
    ensures
        r == match listed {
            None => if incomplete_search == Some(true) {
                SearchVerdict::Undetermined
            } else {
                SearchVerdict::Absent
            },
            Some(count) => if count > 0 {
                SearchVerdict::Present
            } else {
                SearchVerdict::Absent
            },
        },
{
    match listed {
        None => match incomplete_search {
            Some(true) => SearchVerdict::Undetermined,
            _ => SearchVerdict::Absent,
        },
        Some(count) => if count > 0 {
            SearchVerdict::Present
        } else {
            SearchVerdict::Absent
        },
    }
}

/// The text of the search for the file named `dest_filename` in the folder `parent`.
pub open spec fn search_query_text(dest_filename: Seq<char>, parent: Seq<char>) -> Seq<char> {
    "trashed = false and name = '"@ + dest_filename + "' and '"@ + parent + "' in parents"@
}

/// Builds the search for a file of this name, not in the trash, in the folder `parent`.
pub fn search_query(dest_filename: &str, parent: &str) -> (r: String)
    ensures
        r@ == search_query_text(dest_filename@, parent@),
{
    let mut query = String::from_str("trashed = false and name = '");
    query.append(dest_filename);
    query.append("' and '");
    query.append(parent);
    query.append("' in parents");
    query
}

/// Why an upload failed.
#[derive(Debug, Clone, Copy, PartialEq, Eq, Structural)]
pub enum UploadError {
    /// The connection failed.
    HttpError,
    /// The file is larger than the largest upload allowed.
    UploadSizeLimitExceeded,
    /// The remote did not understand the request.
    BadRequest,
    /// No API key was at hand.
    MissingAPIKey,
    /// No token was at hand.
    MissingToken,
    /// The transfer was called off.
    Cancelled,
    /// A free-form field clashed with a built-in one.
    FieldClash,
    /// The answer could not be decoded.
    JsonDecodeError,
    /// Reading the file failed.
    Io,
    /// The remote answered with this status, which is no success.
    Failure { status: u16 },
}

/// The status is one of the client's errors.
pub open spec fn client_error(status: u16) -> bool {
    400 <= status < 500
}

/// Whether the status is one of the client's errors, 400 to 499.
pub fn is_client_error(status: u16) -> (r: bool)
    ensures
        r == client_error(status),
{
    400 <= status && status < 500
}

/// After this error the batch can go on with its next file.
pub open spec fn continuable(error: UploadError) -> bool {
    match error {
        UploadError::HttpError => true,
        UploadError::UploadSizeLimitExceeded => false,
        UploadError::BadRequest => false,
        UploadError::MissingAPIKey => false,
        UploadError::MissingToken => false,
        UploadError::Cancelled => true,
        UploadError::FieldClash => true,
        UploadError::JsonDecodeError => true,
        UploadError::Io => true,
        UploadError::Failure { status } => !client_error(status),
    }
}

/// The outcome of a file whose upload ended with `error`, or without one:
/// success without; failure where the batch can go on; systemic failure
/// where the destination as a whole is of no use, as with a quota that is
/// used up, a size limit, or missing credentials.
pub fn upload_outcome(error: Option<UploadError>) -> (r: UploadOutcome)
    ensures
        r == match error {
            None => UploadOutcome::Success,
            Some(e) => if continuable(e) {
                UploadOutcome::Failure
            } else {
                UploadOutcome::SystemicFailure
            },
        },
{
    match error {
        None => UploadOutcome::Success,
        Some(e) => {
            let goes_on = match e {
                UploadError::HttpError => true,
                UploadError::UploadSizeLimitExceeded => false,
                UploadError::BadRequest => false,
                UploadError::MissingAPIKey => false,
                UploadError::MissingToken => false,
                UploadError::Cancelled => true,
                UploadError::FieldClash => true,
                UploadError::JsonDecodeError => true,
                UploadError::Io => true,
                UploadError::Failure { status } => !is_client_error(status),
            };
            if goes_on {
                UploadOutcome::Failure
            } else {
                UploadOutcome::SystemicFailure
            }
        },
    }
}

/// Whether a broken transfer is taken up again.
#[derive(Debug, Clone, Copy, PartialEq, Eq, Structural)]
pub enum Retry {
    /// It is not.
    Abort,
    /// It is, after this many seconds.
    After { seconds: u64 },
}

/// How many seconds, beyond the last delay, must pass without an error before
/// the backoff starts again from its first delay.
pub const COOLOFF_BASE_SECONDS: i64 = 300;

/// The size of the pieces in which a file is sent.
pub const UPLOAD_CHUNK_SIZE: u64 = 134217728;

/// The status of a request that timed out.
pub const REQUEST_TIMEOUT: u16 = 408;

/// How many nanoseconds a second has.
pub const NANOS_PER_SECOND: i64 = 1000000000;

/// The quiet time after which the backoff starts again, in nanoseconds, for a
/// last delay of `delay` seconds.
pub open spec fn cooloff_nanos(delay: u8) -> int {
    (delay + COOLOFF_BASE_SECONDS) * NANOS_PER_SECOND
}

/// Where the backoff of one transfer stands: the index of the last delay
/// handed out, and when, in nanoseconds since the start of 1970.
pub type BackoffMark = Option<(usize, i64)>;

/// The mark after a backoff is asked for at the moment `now`.
pub open spec fn next_mark(series: Seq<u8>, mark: BackoffMark, now: i64) -> BackoffMark {
    match mark {
        None => Some((0usize, now)),
        Some((index, when)) => if now - when > cooloff_nanos(series[index as int]) {
            Some((0usize, now))
        } else if index + 1 >= series.len() {
            mark
        } else {
            Some(((index + 1) as usize, now))
        },
    }
}

/// The answer to a backoff asked for at the moment `now`: the first delay
/// where none was handed out yet or the last one lies longer back than its
/// cool-off; else the next delay of the series; no retry at its end.
pub open spec fn backoff_answer(series: Seq<u8>, mark: BackoffMark, now: i64) -> Retry {
    match mark {
        None => Retry::After { seconds: series[0] as u64 },
        Some((index, when)) => if now - when > cooloff_nanos(series[index as int]) {
            Retry::After { seconds: series[0] as u64 }
        } else if index + 1 >= series.len() {
            Retry::Abort
        } else {
            Retry::After { seconds: series[index + 1] as u64 }
        },
    }
}

/// Follows one transfer and answers the remote client's questions about it.
pub struct UploadDelegate {
    backoff_series: Vec<u8>,
    last_backoff_index_and_when: Option<(usize, i64)>,
    upload_url: Option<String>,
}

impl UploadDelegate {
    /// The delays between retries, in seconds.
    pub closed spec fn series(&self) -> Seq<u8> {
        self.backoff_series@
    }

    /// Where the backoff stands.
    pub closed spec fn mark(&self) -> BackoffMark {
        self.last_backoff_index_and_when
    }

    /// The address at which the transfer can be taken up again, if one is kept.
    pub closed spec fn url(&self) -> Option<Seq<char>> {
        match self.upload_url {
            Some(url) => Some(url@),
            None => None,
        }
    }

    /// What holds of every delegate: there is a first delay, and the mark
    /// points into the series.
    pub closed spec fn wf(&self) -> bool {
        &&& self.backoff_series@.len() > 0
        &&& self.last_backoff_index_and_when matches Some((index, _)) ==> index
            < self.backoff_series@.len()
    }

    /// A delegate that backs off by the delays of `backoff_series`, in seconds.
    pub fn new(backoff_series: Vec<u8>) -> (r: UploadDelegate)
        requires
            backoff_series.len() > 0,
        ensures
            r.wf(),
            r.series() == backoff_series@,
            r.mark() is None,
            r.url() is None,
    {
        UploadDelegate { backoff_series, last_backoff_index_and_when: None, upload_url: None }
    }

    /// Answers whether, and after how long, the transfer is tried again, asked
    /// at the moment `now`, in nanoseconds since the start of 1970.
    pub fn backoff(&mut self, now: i64) -> (r: Retry)
        requires
            old(self).wf(),
        ensures
            final(self).wf(),
            final(self).series() == old(self).series(),
            final(self).url() == old(self).url(),
            final(self).mark() == next_mark(old(self).series(), old(self).mark(), now),
            r == backoff_answer(old(self).series(), old(self).mark(), now),
    {
        match self.last_backoff_index_and_when {
            None => {
                self.last_backoff_index_and_when = Some((0, now));
                Retry::After { seconds: self.backoff_series[0] as u64 }
            },
            Some((index, when)) => {
                let len: usize = self.backoff_series.len();
                let elapsed: i128 = now as i128 - when as i128;
                let cooloff: i128 = (self.backoff_series[index] as i128 + COOLOFF_BASE_SECONDS as i128)
                    * NANOS_PER_SECOND as i128;
                if elapsed > cooloff {
                    self.last_backoff_index_and_when = Some((0, now));
                    return Retry::After { seconds: self.backoff_series[0] as u64 };
                }
                if index + 1 >= len {
                    return Retry::Abort;
                }
                let next_index: usize = index + 1;
                self.last_backoff_index_and_when = Some((next_index, now));
                Retry::After { seconds: self.backoff_series[next_index] as u64 }
            },
        }
    }

    /// Answers a failed connection: back off.
    pub fn http_error(&mut self, now: i64) -> (r: Retry)
        requires
            old(self).wf(),
        ensures
            final(self).wf(),
            final(self).series() == old(self).series(),
            final(self).url() == old(self).url(),
            final(self).mark() == next_mark(old(self).series(), old(self).mark(), now),
            r == backoff_answer(old(self).series(), old(self).mark(), now),
    {
        self.backoff(now)
    }

    /// Answers a response whose status is no success: back off after a
    /// request that timed out, give up after anything else.
    pub fn http_failure(&mut self, status: u16, now: i64) -> (r: Retry)
        requires
            old(self).wf(),
        ensures
            final(self).wf(),
            final(self).series() == old(self).series(),
            final(self).url() == old(self).url(),
            status == REQUEST_TIMEOUT ==> final(self).mark() == next_mark(
                old(self).series(),
                old(self).mark(),
                now,
            ) && r == backoff_answer(old(self).series(), old(self).mark(), now),
            status != REQUEST_TIMEOUT ==> final(self).mark() == old(self).mark() && r
                == Retry::Abort,
    {
        if status == REQUEST_TIMEOUT {
            return self.backoff(now);
        }
        Retry::Abort
    }

    /// A transfer begins: the backoff starts afresh.
    pub fn begin(&mut self)
        requires
            old(self).wf(),
        ensures
            final(self).wf(),
            final(self).series() == old(self).series(),
            final(self).url() == old(self).url(),
            final(self).mark() is None,
    {
        self.last_backoff_index_and_when = None;
    }

    /// A transfer is over: the backoff starts afresh.
    pub fn finished(&mut self, is_success: bool)
        requires
            old(self).wf(),
        ensures
            final(self).wf(),
            final(self).series() == old(self).series(),
            final(self).url() == old(self).url(),
            final(self).mark() is None,
    {
        self.last_backoff_index_and_when = None;
    }

    /// The size of the pieces in which a file is sent: a power of two, and a
    /// multiple of 256 KiB.
    pub fn chunk_size(&self) -> (r: u64)
        ensures
            r == UPLOAD_CHUNK_SIZE,
    {
        UPLOAD_CHUNK_SIZE
    }

    /// Keeps the address at which the transfer can be taken up again, or forgets it.
    pub fn store_upload_url(&mut self, url: Option<&str>)
        ensures
            final(self).wf() == old(self).wf(),
            final(self).series() == old(self).series(),
            final(self).mark() == old(self).mark(),
            final(self).url() == match url {
                Some(text) => Some(text@),
                None => None,
            },
    {
        self.upload_url = match url {
            Some(text) => Some(String::from_str(text)),
            None => None,
        };
    }

    /// The address at which the transfer can be taken up again, if one is kept.
    pub fn upload_url(&self) -> (r: Option<String>)
        ensures
            match r {
                Some(text) => self.url() == Some(text@),
                None => self.url() is None,
            },
    {
        match &self.upload_url {
            Some(text) => Some(text.clone()),
            None => None,
        }
    }
}

} // verus!
