use redundinator::upload::gdrive::{
    admission, api_size, check_free_space, has_free_space, is_client_error, search_query, search_verdict,
    upload_outcome, About, Retry, SearchVerdict, StorageQuota, UploadDelegate, UploadError,
};
use redundinator::upload::orchestrator::UploadOutcome;

const SECOND: i64 = 1_000_000_000;

fn about(max: Option<i64>, limit: Option<i64>, usage: Option<i64>) -> About {
    About {
        max_upload_size: max,
        storage_quota: Some(StorageQuota { limit, usage, usage_in_drive: None }),
    }
}

#[test]
fn sizes_beyond_the_api_are_refused() {
    assert_eq!(api_size(0), Some(0));
    assert_eq!(api_size(i64::MAX as u64), Some(i64::MAX));
    assert_eq!(api_size(i64::MAX as u64 + 1), None);
    let unlimited = About { max_upload_size: None, storage_quota: None };
    assert!(check_free_space(i64::MAX as u64, &unlimited));
    assert!(!check_free_space(i64::MAX as u64 + 1, &unlimited));
}

#[test]
fn a_file_fits_what_is_left_of_the_quota() {
    assert!(check_free_space(100, &about(None, Some(1000), Some(900))));
    assert!(!check_free_space(101, &about(None, Some(1000), Some(900))));
    assert!(check_free_space(1000, &about(None, Some(1000), None)));
    assert!(!check_free_space(1001, &about(None, Some(1000), None)));
    assert!(check_free_space(5000, &about(None, None, Some(900))));
}

#[test]
fn a_file_fits_the_largest_upload() {
    assert!(check_free_space(50, &about(Some(50), None, None)));
    assert!(!check_free_space(51, &about(Some(50), None, None)));
    assert!(!check_free_space(51, &about(Some(50), Some(1000), Some(0))));
}

#[test]
fn the_quota_is_worked_out_without_overflow() {
    assert!(has_free_space(i64::MAX, &about(None, Some(i64::MAX), Some(i64::MIN))));
    assert!(!has_free_space(1, &about(None, Some(i64::MIN), Some(i64::MAX))));
}

#[test]
fn a_search_says_whether_the_file_is_there() {
    assert_eq!(search_verdict(Some(true), None), SearchVerdict::Undetermined);
    assert_eq!(search_verdict(Some(false), None), SearchVerdict::Absent);
    assert_eq!(search_verdict(None, None), SearchVerdict::Absent);
    assert_eq!(search_verdict(None, Some(0)), SearchVerdict::Absent);
    assert_eq!(search_verdict(Some(true), Some(0)), SearchVerdict::Absent);
    assert_eq!(search_verdict(Some(true), Some(1)), SearchVerdict::Present);
    assert_eq!(search_verdict(None, Some(3)), SearchVerdict::Present);
}

#[test]
fn the_search_names_file_and_folder() {
    assert_eq!(
        search_query("a.tar.zst.00", "folder1"),
        "trashed = false and name = 'a.tar.zst.00' and 'folder1' in parents"
    );
}

#[test]
fn client_errors_are_400_to_499() {
    assert!(!is_client_error(399));
    assert!(is_client_error(400));
    assert!(is_client_error(403));
    assert!(is_client_error(499));
    assert!(!is_client_error(500));
}

#[test]
fn errors_of_the_destination_are_systemic() {
    assert_eq!(upload_outcome(None), UploadOutcome::Success);
    for error in [
        UploadError::HttpError,
        UploadError::Cancelled,
        UploadError::FieldClash,
        UploadError::JsonDecodeError,
        UploadError::Io,
        UploadError::Failure { status: 500 },
        UploadError::Failure { status: 503 },
    ] {
        assert_eq!(upload_outcome(Some(error)), UploadOutcome::Failure);
    }
    for error in [
        UploadError::UploadSizeLimitExceeded,
        UploadError::BadRequest,
        UploadError::MissingAPIKey,
        UploadError::MissingToken,
        UploadError::Failure { status: 403 },
        UploadError::Failure { status: 400 },
    ] {
        assert_eq!(upload_outcome(Some(error)), UploadOutcome::SystemicFailure);
    }
}

#[test]
fn the_backoff_walks_the_series_and_aborts_at_its_end() {
    let mut delegate = UploadDelegate::new(vec![1, 2, 4]);
    assert_eq!(delegate.backoff(0), Retry::After { seconds: 1 });
    assert_eq!(delegate.backoff(SECOND), Retry::After { seconds: 2 });
    assert_eq!(delegate.backoff(3 * SECOND), Retry::After { seconds: 4 });
    assert_eq!(delegate.backoff(7 * SECOND), Retry::Abort);
    assert_eq!(delegate.backoff(8 * SECOND), Retry::Abort);
}

#[test]
fn the_backoff_starts_again_after_the_cooloff() {
    let mut delegate = UploadDelegate::new(vec![1, 2, 4]);
    assert_eq!(delegate.http_error(0), Retry::After { seconds: 1 });
    assert_eq!(delegate.http_error(301 * SECOND), Retry::After { seconds: 2 });
    assert_eq!(delegate.http_error(603 * SECOND + 1), Retry::After { seconds: 1 });
    assert_eq!(delegate.http_error(603 * SECOND + 2), Retry::After { seconds: 2 });
    assert_eq!(delegate.http_error(603 * SECOND + 3), Retry::After { seconds: 4 });
    assert_eq!(delegate.http_error(907 * SECOND + 3), Retry::Abort);
    assert_eq!(delegate.http_error(907 * SECOND + 4), Retry::After { seconds: 1 });
}

#[test]
fn only_a_timeout_is_tried_again() {
    let mut delegate = UploadDelegate::new(vec![3, 6]);
    assert_eq!(delegate.http_failure(500, 0), Retry::Abort);
    assert_eq!(delegate.http_failure(403, 0), Retry::Abort);
    assert_eq!(delegate.http_failure(408, 0), Retry::After { seconds: 3 });
    assert_eq!(delegate.http_failure(404, SECOND), Retry::Abort);
    assert_eq!(delegate.http_failure(408, SECOND), Retry::After { seconds: 6 });
    assert_eq!(delegate.http_failure(408, 2 * SECOND), Retry::Abort);
}

#[test]
fn a_new_transfer_starts_the_backoff_afresh() {
    let mut delegate = UploadDelegate::new(vec![3, 6]);
    assert_eq!(delegate.backoff(0), Retry::After { seconds: 3 });
    assert_eq!(delegate.backoff(1), Retry::After { seconds: 6 });
    delegate.begin();
    assert_eq!(delegate.backoff(2), Retry::After { seconds: 3 });
    assert_eq!(delegate.backoff(3), Retry::After { seconds: 6 });
    delegate.finished(false);
    assert_eq!(delegate.backoff(4), Retry::After { seconds: 3 });
}

#[test]
fn the_upload_address_is_kept() {
    let mut delegate = UploadDelegate::new(vec![1]);
    assert_eq!(delegate.upload_url(), None);
    delegate.store_upload_url(Some("https://example.org/u/1"));
    assert_eq!(delegate.upload_url(), Some(String::from("https://example.org/u/1")));
    delegate.store_upload_url(None);
    assert_eq!(delegate.upload_url(), None);
    assert_eq!(delegate.chunk_size(), 1 << 27);
}

#[test]
fn a_file_is_sent_only_where_it_is_known_to_fit() {
    let roomy = about(Some(5000), Some(1000), Some(900));
    assert_eq!(admission(Some(100), Some(roomy)), None);
    assert_eq!(admission(Some(101), Some(roomy)), Some(UploadOutcome::SystemicFailure));
    assert_eq!(admission(None, Some(roomy)), Some(UploadOutcome::SystemicFailure));
    assert_eq!(admission(Some(100), None), Some(UploadOutcome::SystemicFailure));
    assert_eq!(admission(None, None), Some(UploadOutcome::SystemicFailure));
    let unlimited = About { max_upload_size: None, storage_quota: None };
    assert_eq!(admission(Some(i64::MAX as u64), Some(unlimited)), None);
    assert_eq!(
        admission(Some(i64::MAX as u64 + 1), Some(unlimited)),
        Some(UploadOutcome::SystemicFailure)
    );
}
