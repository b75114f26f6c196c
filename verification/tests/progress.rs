use fsapp::progress::{eta_prefix, watch_event_lines, BarUpdate, ProgressEvent, Renderer, WatchKind};

fn sample(path: &str, copied: u64, size: u64) -> ProgressEvent {
    ProgressEvent::EntryProgress { path: path.to_string(), bytes_copied: copied, size }
}

#[test]
fn a_new_renderer_is_running() {
    let r = Renderer::new();
    assert_eq!(r.message(), "running");
}

#[test]
fn the_plan_and_the_start_size_the_bar() {
    let mut r = Renderer::new();
    assert_eq!(
        r.on_progress(ProgressEvent::Planned { small_files: 3, large_files: 2 }),
        BarUpdate { set_length: Some(5), reset_position: false, advance: 0 }
    );
    assert_eq!(
        r.on_progress(ProgressEvent::Started { entries_total: 7 }),
        BarUpdate { set_length: Some(7), reset_position: true, advance: 0 }
    );
    assert_eq!(
        r.on_progress(ProgressEvent::EntryFailed { path: "/x".to_string() }),
        BarUpdate { set_length: None, reset_position: false, advance: 1 }
    );
}

#[test]
fn directories_show_until_the_copy_starts() {
    let mut r = Renderer::new();
    r.on_progress(ProgressEvent::DirectoriesStarted);
    assert_eq!(r.message(), "creating directories");
    r.on_progress(ProgressEvent::Other);
    assert_eq!(r.message(), "creating directories");
    r.on_progress(ProgressEvent::Started { entries_total: 1 });
    assert_eq!(r.message(), "running");
}

#[test]
fn one_streaming_file_shows_its_name_and_percentage() {
    let mut r = Renderer::new();
    r.on_progress(sample("/data/movies/holiday.mkv", 250, 1000));
    assert_eq!(r.message(), "holiday.mkv 25%");
    r.on_progress(sample("/data/movies/holiday.mkv", 999, 1000));
    assert_eq!(r.message(), "holiday.mkv 99%");
    r.on_progress(ProgressEvent::EntryCompleted { path: "/data/movies/holiday.mkv".to_string() });
    assert_eq!(r.message(), "running");
}

#[test]
fn a_long_name_is_cut_with_an_ellipsis() {
    let mut r = Renderer::new();
    r.on_progress(sample("/d/abcdefghijklmnopqrstuvwxyz0123456789.bin", 0, 0));
    assert_eq!(r.message(), "abcdefghijklmnopqrstuvwxyz0\u{2026}");
}

#[test]
fn several_streaming_files_show_their_totals() {
    let mut r = Renderer::new();
    r.on_progress(sample("/a", 1024, 2048));
    r.on_progress(sample("/b", 1024, 2048));
    assert_eq!(r.message(), "2 large files 2.0 KiB/4.0 KiB");
    r.on_progress(sample("/a", 2048, 2048));
    assert_eq!(r.message(), "2 large files 3.0 KiB/4.0 KiB");
}

#[test]
fn cancelling_freezes_the_message() {
    let mut r = Renderer::new();
    assert_eq!(r.cancelling(), "cancelling...");
    r.on_progress(sample("/a", 1, 2));
    let (message, prefix) = r.redraw(None, None);
    assert_eq!(message, None);
    assert_eq!(prefix, "");
}

#[test]
fn the_prefix_joins_what_is_known() {
    assert_eq!(eta_prefix(Some((75, 0)), Some(2048)), "ETA 1m15s \u{b7} 2.0 KiB/s");
    assert_eq!(eta_prefix(Some((3, 500_000_000)), None), "ETA 3.5s");
    assert_eq!(eta_prefix(None, Some(10)), "10 B/s");
    assert_eq!(eta_prefix(None, None), "");
}

#[test]
fn watch_events_print_one_line_per_path() {
    let paths = vec!["/w/a".to_string(), "/w/b".to_string()];
    assert_eq!(
        watch_event_lines(WatchKind::Modified, &paths),
        vec!["modified: /w/a".to_string(), "modified: /w/b".to_string()]
    );
}

#[test]
fn an_overflowing_plan_wraps_like_64_bit_arithmetic() {
    let mut r = Renderer::new();
    assert_eq!(
        r.on_progress(ProgressEvent::Planned { small_files: u64::MAX, large_files: 2 }),
        BarUpdate { set_length: Some(1), reset_position: false, advance: 0 }
    );
}
