use fsapp::report::{
    analysis_report, sort_rows_desc, AgeBuckets, AnalysisSummary, DuplicateRow, FileRow, GroupRow,
};
use fsapp::summary::{Failure, Mark};

fn row(label: &str, count: u64, total: u64) -> GroupRow {
    GroupRow { label: label.to_string(), count, total_size: total }
}

fn empty_report() -> AnalysisSummary {
    AnalysisSummary {
        file_count: 0,
        dir_count: 0,
        total_size: 0,
        largest_files: vec![],
        by_extension: vec![],
        by_mime: vec![],
        age: AgeBuckets { under_1_day: 0, under_1_week: 0, under_1_month: 0, under_1_year: 0, older: 0, unknown: 0 },
        duplicates: vec![],
        duplicate_groups_total: 0,
        duplicate_bytes_wasted: 0,
        errors: vec![],
        errors_total: 0,
        duration_secs: 12,
        duration_nanos: 0,
    }
}

#[test]
fn rows_sort_by_total_largest_first_keeping_ties_in_order() {
    let rows = vec![row("a", 1, 10), row("b", 1, 30), row("c", 1, 10), row("d", 1, 20)];
    let sorted: Vec<String> = sort_rows_desc(&rows).into_iter().map(|r| r.label).collect();
    assert_eq!(sorted, vec!["b", "d", "a", "c"]);
}

#[test]
fn an_empty_report_still_has_its_headline_and_ages() {
    let lines = analysis_report(&empty_report());
    let texts: Vec<String> = lines.iter().map(|l| l.text.clone()).collect();
    assert_eq!(lines[0].mark, Some(Mark::Check));
    assert_eq!(
        texts,
        vec![
            "0 files, 0 dirs, 0 B in 12s",
            "",
            "Age:",
            "  <1 day    0",
            "  <1 week   0",
            "  <1 month  0",
            "  <1 year   0",
            "  older     0",
        ]
    );
}

#[test]
fn breakdowns_are_aligned_in_columns() {
    let mut r = empty_report();
    r.largest_files = vec![FileRow { path: "big.iso".to_string(), size: 3 * 1024 * 1024 }];
    r.by_extension = vec![row("", 2, 100), row("txt", 10, 2048)];
    r.by_mime = vec![row("text/plain", 10, 2048)];
    r.age.unknown = 1;
    let texts: Vec<String> = analysis_report(&r).iter().map(|l| l.text.clone()).collect();
    assert_eq!(
        texts[1..].to_vec(),
        vec![
            "",
            "Largest files:",
            "     3.0 MiB  big.iso",
            "",
            "By extension:",
            "  txt              10 files     2.0 KiB",
            "  (none)            2 files       100 B",
            "",
            "By MIME type:",
            "  text/plain       10 files     2.0 KiB",
            "",
            "Age:",
            "  <1 day    0",
            "  <1 week   0",
            "  <1 month  0",
            "  <1 year   0",
            "  older     0",
            "  unknown   1",
        ]
    );
}

#[test]
fn the_readme_example_lines_up() {
    let mut r = empty_report();
    r.file_count = 11;
    r.dir_count = 3;
    r.total_size = 100_966;
    r.by_extension = vec![row("rs", 11, 100_966)];
    r.by_mime = vec![row("text/plain", 11, 100_966)];
    let texts: Vec<String> = analysis_report(&r).iter().map(|l| l.text.clone()).collect();
    assert_eq!(texts[0], "11 files, 3 dirs, 98.6 KiB in 12s");
    assert_eq!(texts[3], "  rs               11 files    98.6 KiB");
    assert_eq!(texts[6], "  text/plain       11 files    98.6 KiB");
}

#[test]
fn duplicates_and_errors_say_how_many_were_not_shown() {
    let mut r = empty_report();
    r.duplicates = vec![DuplicateRow { size: 10, paths: vec!["a".to_string(), "b".to_string()] }];
    r.duplicate_groups_total = 3;
    r.duplicate_bytes_wasted = 30;
    r.errors = vec![Failure { path: "x".to_string(), error: "denied".to_string() }];
    r.errors_total = 2;
    let lines = analysis_report(&r);
    let tail: Vec<(Option<Mark>, String)> =
        lines[8..].iter().map(|l| (l.mark, l.text.clone())).collect();
    assert_eq!(
        tail,
        vec![
            (None, "".to_string()),
            (Some(Mark::Warning), "3 duplicate groups, 30 B wasted".to_string()),
            (None, "  2 copies, 10 B each:".to_string()),
            (None, "    - a".to_string()),
            (None, "    - b".to_string()),
            (None, "  ... 2 more group(s) not shown".to_string()),
            (None, "".to_string()),
            (Some(Mark::Cross), "2 errors:".to_string()),
            (None, "  - x: denied".to_string()),
            (None, "  ... 1 more not shown".to_string()),
        ]
    );
}
