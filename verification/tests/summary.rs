use fsapp::summary::{
    cause_chain_lines, exit_code, operation_block, operation_end, stop_reason_message, sync_summary, Failure,
    Line, Mark, OutcomeSummary, StopKind,
};

fn texts(lines: &[Line]) -> Vec<(Option<Mark>, String)> {
    lines.iter().map(|l| (l.mark, l.text.clone())).collect()
}

fn outcome(sizes: Vec<u64>) -> OutcomeSummary {
    OutcomeSummary {
        succeeded_sizes: sizes,
        failed: vec![],
        cleanup_failed: vec![],
        stopped_early: None,
        directories_failed: vec![],
        duration_secs: 0,
        duration_nanos: 250_000_000,
    }
}

fn failure(path: &str, error: &str) -> Failure {
    Failure { path: path.to_string(), error: error.to_string() }
}

#[test]
fn a_clean_run_is_one_line_and_full_success() {
    let (lines, ok) = operation_block("copied", &outcome(vec![1024, 1024, 512]), false);
    assert!(ok);
    assert_eq!(
        texts(&lines),
        vec![(Some(Mark::Check), "3 entries copied (2.5 KiB) in 0.2s".to_string())]
    );
}

#[test]
fn failures_and_an_early_stop_are_listed() {
    let mut o = outcome(vec![10]);
    o.failed = vec![failure("a.txt", "permission denied"), failure("b.txt", "disk full")];
    o.stopped_early = Some(StopKind::AbortOnError);
    let (lines, ok) = operation_block("moved", &o, true);
    assert!(!ok);
    assert_eq!(
        texts(&lines),
        vec![
            (Some(Mark::Check), "1 entries moved (10 B) in 0.2s".to_string()),
            (Some(Mark::Cross), "2 entries failed:".to_string()),
            (None, "  - a.txt: permission denied".to_string()),
            (None, "  - b.txt: disk full".to_string()),
            (Some(Mark::Warning), "stopped early: reached --on-error abort after the 2nd failure".to_string()),
        ]
    );
}

#[test]
fn cleanup_failures_show_only_when_asked() {
    let mut o = outcome(vec![]);
    o.cleanup_failed = vec![failure("x", "busy")];
    o.directories_failed = vec![failure("d", "not permitted")];
    let (shown, ok) = operation_block("moved", &o, true);
    assert!(ok);
    assert_eq!(
        texts(&shown)[1..].to_vec(),
        vec![
            (None, "\u{21BA} 1 entries copied but source cleanup failed (data duplicated, not lost):".to_string()),
            (None, "  - x: busy".to_string()),
            (Some(Mark::Warning), "1 directories: permission bits not applied:".to_string()),
            (None, "  - d: not permitted".to_string()),
        ]
    );
    let (hidden, _) = operation_block("copied", &o, false);
    assert_eq!(hidden.len(), 3);
}

#[test]
fn sync_prints_two_phases() {
    let mut delete = outcome(vec![]);
    delete.stopped_early = Some(StopKind::Cancelled);
    let (lines, ok) = sync_summary(&outcome(vec![5]), &delete);
    assert!(!ok);
    assert_eq!(
        texts(&lines),
        vec![
            (None, "Copy phase:".to_string()),
            (Some(Mark::Check), "1 entries copied (5 B) in 0.2s".to_string()),
            (None, "Delete phase:".to_string()),
            (Some(Mark::Check), "0 entries deleted (0 B) in 0.2s".to_string()),
            (Some(Mark::Warning), "stopped early: cancelled".to_string()),
        ]
    );
}

#[test]
fn stop_reasons_read_naturally() {
    assert_eq!(stop_reason_message(StopKind::Undo, 1), "rolled back after the 1st failure (--on-error undo)");
    assert_eq!(stop_reason_message(StopKind::AbortOnError, 12), "reached --on-error abort after the 12th failure");
    assert_eq!(stop_reason_message(StopKind::AbortOnError, 23), "reached --on-error abort after the 23rd failure");
    assert_eq!(stop_reason_message(StopKind::Fatal, 0), "a fatal error stopped the operation");
    assert_eq!(stop_reason_message(StopKind::Other, 0), "stopped early");
}

#[test]
fn exit_codes() {
    assert_eq!(exit_code(false, Some(true)), 0);
    assert_eq!(exit_code(false, Some(false)), 1);
    assert_eq!(exit_code(false, None), 4);
    assert_eq!(exit_code(true, Some(true)), 130);
    assert_eq!(exit_code(true, None), 130);
}

#[test]
fn the_cause_chain_is_numbered_from_zero() {
    assert!(cause_chain_lines(&vec![]).is_empty());
    assert_eq!(
        cause_chain_lines(&vec!["engine failed".to_string(), "no such file".to_string()]),
        vec![
            String::new(),
            "Caused by:".to_string(),
            "    0: engine failed".to_string(),
            "    1: no such file".to_string(),
        ]
    );
}

#[test]
fn a_cancelled_operation_prints_nothing_and_exits_130() {
    assert_eq!(operation_end(true, Some(false)), (false, 130));
    assert_eq!(operation_end(false, Some(false)), (true, 1));
    assert_eq!(operation_end(false, None), (true, 4));
}

#[test]
fn a_total_beyond_64_bits_wraps() {
    let (lines, _) = operation_block("copied", &outcome(vec![u64::MAX, 1025]), false);
    assert_eq!(lines[0].text, "2 entries copied (1.0 KiB) in 0.2s");
}
