use redundinator::upload::block::{
    after_append, after_close, AppendOutcome, BlockStep, ChunkAction, FlowStep, BLOCKS_PER_REQUEST,
    BLOCK_SIZE, CHUNK_SIZE, PARALLELISM,
};
use redundinator::upload::resume::{parse_offset_text, Resume, ResumeParseError};
use redundinator::upload::session::{iso8601, unix_seconds, UploadSession, WriteMode};

#[test]
fn resume_reads_session_and_offset() {
    let resume = Resume::from_str("abc123,4096").unwrap();
    assert_eq!(resume.session_id, "abc123");
    assert_eq!(resume.start_offset, 4096);
}

#[test]
fn resume_splits_at_the_last_comma() {
    let resume = Resume::from_str("a,b,c,7").unwrap();
    assert_eq!(resume.session_id, "a,b,c");
    assert_eq!(resume.start_offset, 7);
    let resume = Resume::from_str(",0").unwrap();
    assert_eq!(resume.session_id, "");
    assert_eq!(resume.start_offset, 0);
}

#[test]
fn resume_without_comma_misses_the_offset() {
    assert_eq!(Resume::from_str("abc123").unwrap_err(), ResumeParseError::MissingOffset);
    assert_eq!(Resume::from_str("").unwrap_err(), ResumeParseError::MissingOffset);
    assert_eq!(Resume::from_str("12").unwrap_err(), ResumeParseError::MissingOffset);
}

#[test]
fn resume_with_bad_offset_is_refused() {
    assert_eq!(Resume::from_str("abc,").unwrap_err(), ResumeParseError::InvalidOffset);
    assert_eq!(Resume::from_str("abc,-1").unwrap_err(), ResumeParseError::InvalidOffset);
    assert_eq!(Resume::from_str("abc,12x").unwrap_err(), ResumeParseError::InvalidOffset);
    assert_eq!(Resume::from_str("abc, 12").unwrap_err(), ResumeParseError::InvalidOffset);
    assert_eq!(
        Resume::from_str("abc,18446744073709551616").unwrap_err(),
        ResumeParseError::InvalidOffset
    );
}

#[test]
fn resume_errors_have_their_words() {
    assert_eq!(ResumeParseError::MissingOffset.message(), "missing file offset");
    assert_eq!(ResumeParseError::InvalidOffset.message(), "invalid file offset");
}

#[test]
fn offsets_parse_as_u64_does() {
    for text in [
        "0", "7", "007", "+5", "18446744073709551615", "18446744073709551616", "", "+", "-0",
        "1 ", "++1", "1+", "٣", "99999999999999999999999", "12345678901234567890",
    ] {
        assert_eq!(parse_offset_text(text), text.parse::<u64>().ok(), "for {:?}", text);
    }
}

#[test]
fn fresh_session_appends_from_zero() {
    let session = UploadSession::new(String::from("sid"), 100);
    let request = session.append_arg(0);
    assert_eq!(request.session_id, "sid");
    assert_eq!(request.offset, 0);
    assert!(!request.close);
    assert_eq!(session.append_arg(32).offset, 32);
    assert_eq!(session.complete_up_to(), 0);
}

#[test]
fn resumed_session_appends_from_the_checkpoint() {
    let resume = Resume { start_offset: 8388608, session_id: String::from("sid") };
    let session = UploadSession::resume(resume, 20000000);
    let first = session.append_arg(0);
    assert_eq!(first.offset, 8388608);
    assert_eq!(first.session_id, "sid");
    assert!(!first.close);
    assert_eq!(session.append_arg(8388608).offset, 16777216);
    assert_eq!(session.complete_up_to(), 8388608);
}

#[test]
fn marked_blocks_are_counted_from_where_the_attempt_started() {
    let resume = Resume { start_offset: 100, session_id: String::from("sid") };
    let mut session = UploadSession::resume(resume, 1000);
    session.mark_block_uploaded(10, 10);
    assert_eq!(session.complete_up_to(), 100);
    session.mark_block_uploaded(0, 10);
    assert_eq!(session.complete_up_to(), 120);
    let checkpoint = session.checkpoint();
    assert_eq!(checkpoint.start_offset, 120);
    assert_eq!(checkpoint.session_id, "sid");
}

#[test]
fn commit_covers_the_whole_file_and_overwrites() {
    let session = UploadSession::new(String::from("sid"), 12345);
    let commit = session.commit_arg(String::from("/Backup/a.tar"), 1431648000).unwrap();
    assert_eq!(commit.session_id, "sid");
    assert_eq!(commit.offset, 12345);
    assert_eq!(commit.path, "/Backup/a.tar");
    assert_eq!(commit.client_modified, "2015-05-15T00:00:00Z");
    assert_eq!(commit.mode, WriteMode::Overwrite);
    let built = session.commit_request(String::from("/p"), String::from("1999-12-31T23:59:59Z"));
    assert_eq!(built.offset, 12345);
    assert_eq!(built.path, "/p");
    assert_eq!(built.client_modified, "1999-12-31T23:59:59Z");
}

#[test]
fn iso8601_formats_seconds_since_1970() {
    assert_eq!(iso8601(0), Some(String::from("1970-01-01T00:00:00Z")));
    assert_eq!(iso8601(-1), Some(String::from("1969-12-31T23:59:59Z")));
    assert_eq!(iso8601(951782400), Some(String::from("2000-02-29T00:00:00Z")));
    assert_eq!(iso8601(253402300799), Some(String::from("9999-12-31T23:59:59Z")));
    assert_eq!(iso8601(-62135596800), Some(String::from("0001-01-01T00:00:00Z")));
    assert_eq!(iso8601(i64::MAX), None);
    assert_eq!(iso8601(i64::MIN), None);
}

#[test]
fn commit_is_refused_where_the_calendar_ends() {
    let session = UploadSession::new(String::from("sid"), 1);
    assert!(session.commit_arg(String::from("/p"), i64::MAX).is_none());
}

#[test]
fn transferred_bytes_add_up() {
    let mut session = UploadSession::new(String::from("sid"), 100);
    assert_eq!(session.add_transferred(30), 30);
    assert_eq!(session.add_transferred(12), 42);
    assert_eq!(session.add_transferred(u64::MAX), 41);
}

#[test]
fn chunk_sizes_are_those_of_the_remote() {
    assert_eq!(BLOCK_SIZE, 4 * 1024 * 1024);
    assert_eq!(BLOCKS_PER_REQUEST, 2);
    assert_eq!(CHUNK_SIZE, BLOCK_SIZE * BLOCKS_PER_REQUEST);
    assert_eq!(PARALLELISM, 20);
}

#[test]
fn full_chunks_are_sent_and_the_short_one_is_kept_back() {
    let session = UploadSession::new(String::from("sid"), 20000000);
    match session.chunk_action(8388608, CHUNK_SIZE) {
        ChunkAction::Upload(request) => {
            assert_eq!(request.offset, 8388608);
            assert_eq!(request.session_id, "sid");
            assert!(!request.close);
        }
        ChunkAction::Defer { .. } => panic!("a full chunk is sent"),
    }
    match session.chunk_action(16777216, 3222784) {
        ChunkAction::Defer { offset } => assert_eq!(offset, 16777216),
        ChunkAction::Upload(_) => panic!("a short chunk is kept back"),
    }
    match session.chunk_action(0, 0) {
        ChunkAction::Defer { offset } => assert_eq!(offset, 0),
        ChunkAction::Upload(_) => panic!("an empty chunk is kept back"),
    }
}

#[test]
fn the_last_block_closes_the_session() {
    let session = UploadSession::new(String::from("sid"), 20000000);
    let request = session.close_arg(16777216);
    assert!(request.close);
    assert_eq!(request.offset, 16777216);
    assert_eq!(request.session_id, "sid");
}

#[test]
fn rate_limits_are_waited_out_and_not_counted() {
    assert_eq!(
        after_append(0, AppendOutcome::RateLimited { retry_after_seconds: 15 }),
        BlockStep::Retry { pause_seconds: 15, errors: 0 }
    );
    assert_eq!(
        after_append(2, AppendOutcome::RateLimited { retry_after_seconds: 0 }),
        BlockStep::Retry { pause_seconds: 0, errors: 2 }
    );
}

#[test]
fn the_third_error_ends_a_block() {
    assert_eq!(after_append(0, AppendOutcome::Accepted), BlockStep::Done);
    assert_eq!(
        after_append(0, AppendOutcome::Failed),
        BlockStep::Retry { pause_seconds: 0, errors: 1 }
    );
    assert_eq!(
        after_append(1, AppendOutcome::Failed),
        BlockStep::Retry { pause_seconds: 0, errors: 2 }
    );
    assert_eq!(after_append(2, AppendOutcome::Failed), BlockStep::GiveUp);
    assert_eq!(after_append(u32::MAX, AppendOutcome::Failed), BlockStep::GiveUp);
    assert_eq!(after_append(2, AppendOutcome::Accepted), BlockStep::Done);
}

#[test]
fn a_failed_dispatch_resumes_from_the_low_water_mark() {
    let mut session = UploadSession::new(String::from("sid"), 100);
    session.mark_block_uploaded(0, 8);
    session.mark_block_uploaded(24, 8);
    match session.after_dispatch(false) {
        FlowStep::Interrupt(resume) => {
            assert_eq!(resume.start_offset, 8);
            assert_eq!(resume.session_id, "sid");
        }
        _ => panic!("a failed dispatch interrupts the attempt"),
    }
    assert!(matches!(session.after_dispatch(true), FlowStep::SendClose));
}

#[test]
fn the_commit_follows_the_close_either_way() {
    assert!(matches!(after_close(true), FlowStep::SendCommit));
    assert!(matches!(after_close(false), FlowStep::SendCommit));
}

#[test]
fn the_third_failed_commit_interrupts_the_attempt() {
    let mut session = UploadSession::new(String::from("sid"), 100);
    session.mark_block_uploaded(0, 50);
    assert!(matches!(session.after_commit(0, true), FlowStep::Succeed));
    assert!(matches!(session.after_commit(2, true), FlowStep::Succeed));
    assert!(matches!(session.after_commit(0, false), FlowStep::PauseThenCommit { failures: 1 }));
    assert!(matches!(session.after_commit(1, false), FlowStep::PauseThenCommit { failures: 2 }));
    match session.after_commit(2, false) {
        FlowStep::PauseThenInterrupt(resume) => {
            assert_eq!(resume.start_offset, 50);
            assert_eq!(resume.session_id, "sid");
        }
        _ => panic!("the third failed commit interrupts the attempt"),
    }
}

#[test]
fn a_checkpoint_is_written_as_id_comma_offset() {
    let resume = Resume { start_offset: 4096, session_id: String::from("abc123") };
    assert_eq!(resume.to_text(), "abc123,4096");
    let zero = Resume { start_offset: 0, session_id: String::new() };
    assert_eq!(zero.to_text(), ",0");
}

#[test]
fn a_checkpoint_reads_back_from_its_text() {
    for (id, offset) in [("abc", 0u64), ("a,b", 17), ("", u64::MAX), ("x,", 1000000007)] {
        let resume = Resume { start_offset: offset, session_id: String::from(id) };
        let back = Resume::from_str(&resume.to_text()).unwrap();
        assert_eq!(back.session_id, id);
        assert_eq!(back.start_offset, offset);
    }
}

#[test]
fn offsets_are_written_in_decimal() {
    for n in [0u64, 7, 10, 99, 100, 4194304, 18446744073709551615] {
        assert_eq!(redundinator::upload::resume::offset_text(n), n.to_string());
    }
}

#[test]
fn a_checkpoint_parses_from_text() {
    let resume: Resume = "sid,12".parse().unwrap();
    assert_eq!(resume.session_id, "sid");
    assert_eq!(resume.start_offset, 12);
    assert_eq!("sid".parse::<Resume>().unwrap_err(), ResumeParseError::MissingOffset);
}

#[test]
fn a_resumed_session_closes_at_the_short_chunks_place_in_the_file() {
    let resume = Resume { start_offset: 100, session_id: String::from("sid") };
    let session = UploadSession::resume(resume, 170);
    let kept = match session.chunk_action(50, 20) {
        ChunkAction::Defer { offset } => offset,
        ChunkAction::Upload(_) => panic!("a short chunk is kept back"),
    };
    assert_eq!(kept, 150);
    let closing = session.close_arg(kept);
    assert_eq!(closing.offset, 150);
    assert_eq!(closing.offset, session.append_arg(50).offset);
    assert!(closing.close);
    assert_eq!(closing.session_id, "sid");
}

#[test]
fn a_resumed_session_sends_full_chunks_at_their_place_in_the_file() {
    let resume = Resume { start_offset: 8388608, session_id: String::from("sid") };
    let session = UploadSession::resume(resume, 30000000);
    match session.chunk_action(8388608, CHUNK_SIZE) {
        ChunkAction::Upload(request) => {
            assert_eq!(request.offset, 16777216);
            assert!(!request.close);
        }
        ChunkAction::Defer { .. } => panic!("a full chunk is sent"),
    }
    match session.chunk_action(16777216, 4834176) {
        ChunkAction::Defer { offset } => {
            assert_eq!(offset, 25165824);
            assert_eq!(session.close_arg(offset).offset, 25165824);
        }
        ChunkAction::Upload(_) => panic!("a short chunk is kept back"),
    }
}

#[test]
fn a_file_of_whole_chunks_is_closed_at_its_end() {
    let fresh = UploadSession::new(String::from("sid"), 16777216);
    assert_eq!(fresh.end_of_file_offset(), 16777216);
    let closing = fresh.close_arg(fresh.end_of_file_offset());
    assert_eq!(closing.offset, 16777216);
    assert!(closing.close);
    let resume = Resume { start_offset: 8388608, session_id: String::from("sid") };
    let resumed = UploadSession::resume(resume, 16777216);
    assert_eq!(resumed.end_of_file_offset(), 16777216);
    assert_eq!(resumed.close_arg(resumed.end_of_file_offset()).offset, 16777216);
}

#[test]
fn the_closing_request_takes_any_place_in_the_file() {
    let resume = Resume { start_offset: u64::MAX, session_id: String::from("sid") };
    let session = UploadSession::resume(resume, u64::MAX);
    assert_eq!(session.close_arg(u64::MAX).offset, u64::MAX);
}

#[test]
fn seconds_before_1970_are_negative() {
    assert_eq!(unix_seconds(0, false), Some(0));
    assert_eq!(unix_seconds(0, true), Some(0));
    assert_eq!(unix_seconds(1431648000, false), Some(1431648000));
    assert_eq!(unix_seconds(86400, true), Some(-86400));
    assert_eq!(unix_seconds(i64::MAX as u64, false), Some(i64::MAX));
    assert_eq!(unix_seconds(i64::MAX as u64, true), Some(-i64::MAX));
    assert_eq!(unix_seconds(i64::MAX as u64 + 1, false), None);
    assert_eq!(unix_seconds(u64::MAX, true), None);
}

#[test]
fn marking_blocks_never_moves_the_checkpoint_back() {
    let resume = Resume { start_offset: 100, session_id: String::from("sid") };
    let mut session = UploadSession::resume(resume, 1000);
    let mut last = session.complete_up_to();
    for (offset, len) in [(20u64, 10u64), (0, 10), (0, 10), (10, 10), (5, 1), (40, 10), (30, 10)] {
        session.mark_block_uploaded(offset, len);
        assert!(session.complete_up_to() >= last);
        last = session.complete_up_to();
    }
    assert_eq!(last, 150);
}
