use creator_mirror::descriptor::File;
use creator_mirror::errlog::{already_logged, error_line, starts_with};
use creator_mirror::schedule::Scheduler;
use creator_mirror::text::{join_segments, push_decimal};
use creator_mirror::transfer::{
    data_url, destination_dir, destination_path, Outcome, Phase, ResponseAction, Transfer, TransferError, WriteMode,
};

fn file(post_id: Option<&str>, server: Option<&str>) -> File {
    File {
        post_id: post_id.map(|s| s.to_string()),
        name: "clip.mp4".to_string(),
        server: server.map(|s| s.to_string()),
        path: "/ab/cd/clip.mp4".to_string(),
    }
}

#[test]
fn destination_namespaced_by_post() {
    assert_eq!(destination_path("./download", "123", &file(Some("77"), None)), "./download/123/77/clip.mp4");
    assert_eq!(destination_dir("./download", "123", &file(Some("77"), None)), "./download/123/77");
}

#[test]
fn destination_flat_without_post() {
    assert_eq!(destination_path("out", "123", &file(None, None)), "out/123/clip.mp4");
}

#[test]
fn data_url_default_host_and_override() {
    assert_eq!(data_url(&file(None, None), "kemono.su"), "https://kemono.su/data/ab/cd/clip.mp4");
    assert_eq!(data_url(&file(None, Some("https://n4.kemono.su")), "kemono.su"), "https://n4.kemono.su/data/ab/cd/clip.mp4");
}

#[test]
fn range_header_only_when_bytes_on_disk() {
    assert_eq!(Transfer::new(0).range_header(), None);
    assert_eq!(Transfer::new(1234).range_header(), Some("bytes=1234-".to_string()));
}

#[test]
fn complete_file_answered_416_is_skipped() {
    let mut t = Transfer::new(500);
    assert!(t.range_header().is_some());
    assert_eq!(t.on_response(416, None), ResponseAction::Skip);
    assert_eq!(t.phase, Phase::Done(Outcome::AlreadyComplete));
}

#[test]
fn server_error_fails_item() {
    let mut t = Transfer::new(0);
    assert_eq!(t.on_response(500, Some(10)), ResponseAction::Fail);
    assert_eq!(t.phase, Phase::Done(Outcome::Failed(TransferError::Status(500))));
    let mut t = Transfer::new(0);
    assert_eq!(t.on_response(404, None), ResponseAction::Fail);
}

#[test]
fn send_failure_fails_item() {
    let mut t = Transfer::new(3);
    assert_eq!(t.on_send_failed(), Outcome::Failed(TransferError::Send));
    assert_eq!(t.phase, Phase::Done(Outcome::Failed(TransferError::Send)));
}

#[test]
fn partial_answer_appends_remaining_bytes() {
    let full: Vec<u8> = (0..100u8).collect();
    let mut disk: Vec<u8> = full[..40].to_vec();
    let mut t = Transfer::new(disk.len() as u64);
    let action = t.on_response(206, Some(60));
    assert_eq!(action, ResponseAction::Stream { mode: WriteMode::Append, expected: Some(100) });
    for chunk in full[40..].chunks(25) {
        assert!(t.on_chunk(chunk.len() as u64));
        disk.extend_from_slice(chunk);
    }
    assert_eq!(t.on_stream_end(), Outcome::Written { bytes: 60 });
    assert_eq!(disk, full);
}

#[test]
fn full_answer_to_ranged_request_replaces_bytes() {
    let mut t = Transfer::new(40);
    let action = t.on_response(200, Some(100));
    assert_eq!(action, ResponseAction::Stream { mode: WriteMode::Truncate, expected: Some(100) });
    assert_eq!(t.pos, 0);
    assert!(t.on_chunk(100));
    assert_eq!(t.on_stream_end(), Outcome::Written { bytes: 100 });
}

#[test]
fn fresh_download_counts_all_bytes() {
    let mut t = Transfer::new(0);
    assert_eq!(t.on_response(200, None), ResponseAction::Stream { mode: WriteMode::Truncate, expected: None });
    assert!(t.on_chunk(7));
    assert!(t.on_chunk(0));
    assert!(t.on_chunk(5));
    assert_eq!(t.on_stream_end(), Outcome::Written { bytes: 12 });
}

#[test]
fn interrupted_stream_keeps_position() {
    let mut t = Transfer::new(10);
    t.on_response(206, Some(90));
    assert!(t.on_chunk(30));
    assert_eq!(t.on_stream_failed(), Outcome::Failed(TransferError::Interrupted));
    assert_eq!(t.pos, 40);
}

#[test]
fn oversized_body_fails() {
    let mut t = Transfer::new(u64::MAX - 1);
    assert_eq!(
        t.on_response(206, Some(5)),
        ResponseAction::Stream { mode: WriteMode::Append, expected: None }
    );
    assert!(t.on_chunk(1));
    assert!(!t.on_chunk(1));
    assert_eq!(t.phase, Phase::Done(Outcome::Failed(TransferError::Oversized)));
}

#[test]
fn second_run_over_complete_files_writes_nothing() {
    for len in [1u64, 60, 4096] {
        let mut t = Transfer::new(len);
        assert!(t.range_header().is_some());
        assert_eq!(t.on_response(416, Some(0)), ResponseAction::Skip);
        assert_eq!(t.phase, Phase::Done(Outcome::AlreadyComplete));
    }
}

#[test]
fn budget_never_exceeded() {
    let mut s = Scheduler::new(5, 2);
    assert_eq!(s.try_start(), Some(0));
    assert_eq!(s.try_start(), Some(1));
    assert_eq!(s.try_start(), None);
    assert_eq!(s.active(), 2);
    s.finish(true);
    assert_eq!(s.active(), 1);
    assert_eq!(s.try_start(), Some(2));
    assert_eq!(s.try_start(), None);
}

#[test]
fn failing_item_does_not_stop_batch() {
    let mut s = Scheduler::new(4, 3);
    let mut running = Vec::new();
    let mut max_active = 0;
    while !s.is_done() {
        while let Some(i) = s.try_start() {
            running.push(i);
        }
        max_active = max_active.max(s.active());
        let i = running.remove(0);
        s.finish(i != 1);
    }
    assert_eq!(s.completed, 4);
    assert_eq!(s.started, 4);
    assert_eq!(s.failed, 1);
    assert!(max_active <= 3);
}

#[test]
fn finish_without_running_item_changes_nothing() {
    let mut s = Scheduler::new(2, 1);
    s.finish(false);
    assert_eq!(s, Scheduler::new(2, 1));
}

#[test]
fn empty_batch_is_done() {
    let mut s = Scheduler::new(0, 5);
    assert!(s.is_done());
    assert_eq!(s.try_start(), None);
}

#[test]
fn error_line_format() {
    assert_eq!(error_line("https://a/data/x", 500), "https://a/data/x - 500\n");
}

#[test]
fn error_log_dedups_by_url() {
    let lines = vec!["https://a/data/x - 500".to_string(), "https://a/data/y - 404".to_string()];
    assert!(already_logged(&lines, "https://a/data/y"));
    assert!(!already_logged(&lines, "https://a/data"));
    assert!(!already_logged(&lines, "https://a/data/z"));
    assert!(!already_logged(&Vec::new(), "https://a/data/x"));
}

#[test]
fn prefix_check() {
    assert!(starts_with("abc", ""));
    assert!(starts_with("abc", "ab"));
    assert!(!starts_with("ab", "abc"));
    assert!(!starts_with("abc", "b"));
}

#[test]
fn decimal_rendering() {
    for (n, s) in [(0u64, "0"), (7, "7"), (10, "10"), (1234, "1234"), (u64::MAX, "18446744073709551615")] {
        let mut out = String::from("x");
        push_decimal(&mut out, n);
        assert_eq!(out, format!("x{}", s));
    }
}

#[test]
fn join_segments_with_slash() {
    assert_eq!(join_segments(&vec![]), "");
    assert_eq!(join_segments(&vec!["a".to_string()]), "a");
    assert_eq!(join_segments(&vec!["a".to_string(), "".to_string(), "c".to_string()]), "a//c");
}
