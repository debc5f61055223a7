use redundinator::upload::block::UploadFailure;
use redundinator::upload::destination::{
    get_destination_path, PathNormalizationResult, RemoteEntry, Resolution,
};
use redundinator::upload::orchestrator::{
    batch_continues, run_batch, LoopStep, RetryLoop, UploadOutcome,
};
use redundinator::upload::resume::Resume;

fn interrupted(offset: u64) -> Result<(), UploadFailure> {
    Err(UploadFailure::Resumable(Resume { start_offset: offset, session_id: String::from("sid") }))
}

#[test]
fn success_ends_the_loop() {
    let mut retry = RetryLoop::new();
    assert_eq!(retry.record(Ok(()), 11), LoopStep::Finish(UploadOutcome::Success));
}

#[test]
fn a_nonresumable_failure_abandons_the_file() {
    let mut retry = RetryLoop::new();
    let result = Err(UploadFailure::Nonresumable(String::from("Seek error")));
    assert_eq!(retry.record(result, 11), LoopStep::Finish(UploadOutcome::Failure));
    assert!(retry.resume().is_none());
}

#[test]
fn the_first_interruption_waits_the_shortest_delay() {
    let mut retry = RetryLoop::new();
    assert!(retry.resume().is_none());
    assert_eq!(retry.record(interrupted(100), 11), LoopStep::WaitAndRetry { wait_index: 0 });
    let resume = retry.resume().unwrap();
    assert_eq!(resume.start_offset, 100);
    assert_eq!(resume.session_id, "sid");
}

#[test]
fn a_stall_escalates_and_progress_resets() {
    let mut retry = RetryLoop::new();
    assert_eq!(retry.record(interrupted(100), 11), LoopStep::WaitAndRetry { wait_index: 0 });
    assert_eq!(retry.record(interrupted(100), 11), LoopStep::WaitAndRetry { wait_index: 1 });
    assert_eq!(retry.record(interrupted(100), 11), LoopStep::WaitAndRetry { wait_index: 2 });
    assert_eq!(retry.record(interrupted(200), 11), LoopStep::WaitAndRetry { wait_index: 0 });
    assert_eq!(retry.resume().unwrap().start_offset, 200);
    assert_eq!(retry.record(interrupted(200), 11), LoopStep::WaitAndRetry { wait_index: 1 });
    assert_eq!(retry.record(Ok(()), 11), LoopStep::Finish(UploadOutcome::Success));
}

#[test]
fn a_file_stuck_past_the_series_is_given_up() {
    let mut retry = RetryLoop::new();
    assert_eq!(retry.record(interrupted(5), 3), LoopStep::WaitAndRetry { wait_index: 0 });
    assert!(retry.may_attempt(3));
    assert_eq!(retry.record(interrupted(5), 3), LoopStep::WaitAndRetry { wait_index: 1 });
    assert_eq!(retry.record(interrupted(5), 3), LoopStep::WaitAndRetry { wait_index: 2 });
    assert!(retry.may_attempt(3));
    assert_eq!(retry.record(interrupted(5), 3), LoopStep::Finish(UploadOutcome::Failure));
    assert!(!retry.may_attempt(3));
}

#[test]
fn no_attempt_is_made_on_an_empty_series() {
    assert!(!RetryLoop::new().may_attempt(0));
    assert!(RetryLoop::new().may_attempt(1));
}

#[test]
fn a_systemic_failure_stops_the_batch() {
    assert!(batch_continues(UploadOutcome::Success));
    assert!(batch_continues(UploadOutcome::Failure));
    assert!(!batch_continues(UploadOutcome::SystemicFailure));
    let outcomes =
        vec![UploadOutcome::Success, UploadOutcome::SystemicFailure, UploadOutcome::Success];
    let mut attempted = Vec::new();
    for (index, outcome) in outcomes.iter().enumerate() {
        attempted.push(index);
        if !batch_continues(*outcome) {
            break;
        }
    }
    assert_eq!(attempted, vec![0, 1]);
    assert_eq!(run_batch(&outcomes), (2, false));
}

#[test]
fn a_batch_without_systemic_failure_runs_through() {
    let outcomes = vec![UploadOutcome::Failure, UploadOutcome::Success, UploadOutcome::Failure];
    assert_eq!(run_batch(&outcomes), (3, true));
    assert_eq!(run_batch(&vec![]), (0, true));
    assert_eq!(run_batch(&vec![UploadOutcome::SystemicFailure]), (1, false));
}

#[test]
fn a_remote_file_of_the_same_size_is_skipped() {
    let r = PathNormalizationResult::from_path("/b/a.tar", "a.tar", 10, RemoteEntry::File { size: 10 });
    assert!(matches!(r, Resolution::Done(PathNormalizationResult::SkipMatching)));
}

#[test]
fn a_remote_file_of_another_size_is_replaced() {
    let r = PathNormalizationResult::from_path("/b/a.tar", "a.tar", 10, RemoteEntry::File { size: 11 });
    match r {
        Resolution::Done(PathNormalizationResult::Replace(path)) => assert_eq!(path, "/b/a.tar"),
        _ => panic!("another size replaces"),
    }
}

#[test]
fn a_missing_remote_entry_gives_a_new_file() {
    let r = PathNormalizationResult::from_path("/b/a.tar", "a.tar", 10, RemoteEntry::NotFound);
    match r {
        Resolution::Done(PathNormalizationResult::NewFile(path)) => assert_eq!(path, "/b/a.tar"),
        _ => panic!("nothing there gives a new file"),
    }
}

#[test]
fn a_remote_folder_is_descended_into() {
    let r = PathNormalizationResult::from_path("/b", "a.tar", 10, RemoteEntry::Folder);
    let next = match r {
        Resolution::Descend(path) => path,
        _ => panic!("a folder is descended into"),
    };
    assert_eq!(next, "/b/a.tar");
    let r = PathNormalizationResult::from_path(&next, "a.tar", 10, RemoteEntry::File { size: 10 });
    assert!(matches!(r, Resolution::Done(PathNormalizationResult::SkipMatching)));
}

#[test]
fn lookup_errors_leave_the_destination_unresolved() {
    let r = PathNormalizationResult::from_path("/b", "a", 1, RemoteEntry::Deleted);
    match r {
        Resolution::Done(PathNormalizationResult::Unresolved(text)) => {
            assert_eq!(text, "unexpected deleted metadata received")
        }
        _ => panic!("a deleted entry is an error"),
    }
    let entry = RemoteEntry::LookupError(String::from("malformed path"));
    match PathNormalizationResult::from_path("/b", "a", 1, entry) {
        Resolution::Done(PathNormalizationResult::Unresolved(text)) => {
            assert_eq!(text, "Error looking up destination: malformed path")
        }
        _ => panic!("a refused lookup is an error"),
    }
    let entry = RemoteEntry::RequestError(String::from("timed out"));
    match PathNormalizationResult::from_path("/b", "a", 1, entry) {
        Resolution::Done(PathNormalizationResult::Unresolved(text)) => {
            assert_eq!(text, "Request error while looking up destination: timed out")
        }
        _ => panic!("a failed request is an error"),
    }
}

#[test]
fn the_root_is_looked_up_as_the_file_under_it() {
    assert_eq!(get_destination_path("/", "a.tar"), "/a.tar");
    assert_eq!(get_destination_path("/Backup", "a.tar"), "/Backup");
    assert_eq!(get_destination_path("", "a.tar"), "");
    assert_eq!(get_destination_path("//", "a.tar"), "//");
}

#[test]
fn only_a_new_or_replaced_file_has_a_path_to_upload_to() {
    assert_eq!(
        PathNormalizationResult::NewFile(String::from("/b/a")).upload_path(),
        Some(String::from("/b/a"))
    );
    assert_eq!(
        PathNormalizationResult::Replace(String::from("/b/c")).upload_path(),
        Some(String::from("/b/c"))
    );
    assert_eq!(PathNormalizationResult::SkipMatching.upload_path(), None);
    assert_eq!(PathNormalizationResult::Unresolved(String::from("why")).upload_path(), None);
}
