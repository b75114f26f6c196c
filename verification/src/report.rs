//! The report printed after `analyze`: totals, the largest files, the
//! extension and MIME-type breakdowns (largest total first), file ages,
//! duplicate groups and errors.

use vstd::prelude::*;

use crate::format::{human_bytes, human_duration, pad_left, pad_right, spec_human_bytes, spec_human_duration, spec_pad_left, spec_pad_right};
use crate::summary::{failure_item, failure_items, lines_view, plain, Failure, Line, Mark};
use crate::text::{dec, fmt_u64, join2, join3, owned};

verus! {

broadcast use vstd::seq_lib::group_to_multiset_ensures;

/// A file among the largest ones.
pub struct FileRow {
    pub path: String,
    pub size: u64,
}

/// The files and bytes under one extension or MIME type.
pub struct GroupRow {
    /// The extension without its dot (empty for none), or the MIME type.
    pub label: String,
    pub count: u64,
    pub total_size: u64,
}

/// Files of one size that share their content.
pub struct DuplicateRow {
    pub size: u64,
    pub paths: Vec<String>,
}

/// How many files were last modified within each span of time.
#[derive(Debug, Clone, Copy, PartialEq, Eq, Structural)]
pub struct AgeBuckets {
    pub under_1_day: u64,
    pub under_1_week: u64,
    pub under_1_month: u64,
    pub under_1_year: u64,
    pub older: u64,
    /// Files whose modification time could not be read.
    pub unknown: u64,
}

/// What an analysis found, as the report needs it. `by_extension` and
/// `by_mime` come in any order; `duplicates` and `errors` are samples of at
/// most the reported number.
pub struct AnalysisSummary {
    pub file_count: u64,
    pub dir_count: u64,
    pub total_size: u64,
    pub largest_files: Vec<FileRow>,
    pub by_extension: Vec<GroupRow>,
    pub by_mime: Vec<GroupRow>,
    pub age: AgeBuckets,
    pub duplicates: Vec<DuplicateRow>,
    pub duplicate_groups_total: u64,
    pub duplicate_bytes_wasted: u64,
    pub errors: Vec<Failure>,
    pub errors_total: u64,
    pub duration_secs: u64,
    pub duration_nanos: u32,
}

/// The model of a group row: label, count, total size.
pub open spec fn group_view(r: GroupRow) -> (Seq<char>, u64, u64) {
    (r.label@, r.count, r.total_size)
}

/// The models of group rows.
pub open spec fn group_views(s: Seq<GroupRow>) -> Seq<(Seq<char>, u64, u64)> {
    s.map_values(|r: GroupRow| group_view(r))
}

/// `x` placed into `s` after every row whose total is at least its own.
pub open spec fn insert_desc(s: Seq<(Seq<char>, u64, u64)>, x: (Seq<char>, u64, u64)) -> Seq<(Seq<char>, u64, u64)>
    decreases s.len(),
{
    if s.len() == 0 {
        seq![x]
    } else if s.last().2 >= x.2 {
        s.push(x)
    } else {
        insert_desc(s.drop_last(), x).push(s.last())
    }
}

/// The rows ordered by total size, largest first; rows with equal totals
/// keep their order.
pub open spec fn sort_desc(s: Seq<(Seq<char>, u64, u64)>) -> Seq<(Seq<char>, u64, u64)>
    decreases s.len(),
{
    if s.len() == 0 {
        s
    } else {
        insert_desc(sort_desc(s.drop_last()), s.last())
    }
}

/// Every row's total is at least that of each row after it.
pub open spec fn is_desc(s: Seq<(Seq<char>, u64, u64)>) -> bool {
    forall|i: int, j: int| 0 <= i < j < s.len() ==> (#[trigger] s[i]).2 >= (#[trigger] s[j]).2
}

proof fn lemma_insert_desc_bound(s: Seq<(Seq<char>, u64, u64)>, x: (Seq<char>, u64, u64), b: u64)
    requires
        forall|k: int| 0 <= k < s.len() ==> (#[trigger] s[k]).2 >= b,
        x.2 >= b,
    ensures
        forall|k: int| 0 <= k < insert_desc(s, x).len() ==> (#[trigger] insert_desc(s, x)[k]).2 >= b,
    decreases s.len(),
{
    if s.len() == 0 {
        assert(insert_desc(s, x) =~= seq![x]);
    } else if s.last().2 >= x.2 {
        assert(insert_desc(s, x) =~= s.push(x));
    } else {
        let d = s.drop_last();
        assert forall|k: int| 0 <= k < d.len() implies (#[trigger] d[k]).2 >= b by {
            assert(d[k] == s[k]);
        }
        lemma_insert_desc_bound(d, x, b);
        let t = insert_desc(d, x);
        assert(insert_desc(s, x) =~= t.push(s.last()));
        assert forall|k: int| 0 <= k < insert_desc(s, x).len() implies (#[trigger] insert_desc(s, x)[k]).2 >= b by {
            if k < t.len() {
                assert(insert_desc(s, x)[k] == t[k]);
            } else {
                assert(insert_desc(s, x)[k] == s[s.len() - 1]);
            }
        }
    }
}

proof fn lemma_insert_desc(s: Seq<(Seq<char>, u64, u64)>, x: (Seq<char>, u64, u64))
    requires
        is_desc(s),
    ensures
        is_desc(insert_desc(s, x)),
        insert_desc(s, x).to_multiset() =~= s.to_multiset().insert(x),
        insert_desc(s, x).len() == s.len() + 1,
    decreases s.len(),
{
    if s.len() == 0 {
        assert(seq![x] =~= Seq::<(Seq<char>, u64, u64)>::empty().push(x));
    } else if s.last().2 >= x.2 {
    } else {
        let d = s.drop_last();
        lemma_insert_desc(d, x);
        let last = s.last();
        assert forall|k: int| 0 <= k < d.len() implies (#[trigger] d[k]).2 >= last.2 by {
            assert(s[k] == d[k]);
        }
        lemma_insert_desc_bound(d, x, last.2);
        assert(d.push(last) =~= s);
    }
}

/// Sorting orders the rows by total size, largest first, and keeps every
/// row: the result holds the same rows, each as often.
pub proof fn law_sort_desc_sorts(s: Seq<(Seq<char>, u64, u64)>)
    ensures
        is_desc(sort_desc(s)),
        sort_desc(s).to_multiset() =~= s.to_multiset(),
        sort_desc(s).len() == s.len(),
    decreases s.len(),
{
    if s.len() > 0 {
        law_sort_desc_sorts(s.drop_last());
        lemma_insert_desc(sort_desc(s.drop_last()), s.last());
        assert(s.drop_last().push(s.last()) =~= s);
    }
}

/// Insertion keeps the rows before the first one with a smaller total.
proof fn lemma_insert_desc_at(s: Seq<(Seq<char>, u64, u64)>, x: (Seq<char>, u64, u64), j: int)
    requires
        0 <= j <= s.len(),
        forall|k: int| j <= k < s.len() ==> (#[trigger] s[k]).2 < x.2,
        j > 0 ==> s[j - 1].2 >= x.2,
    ensures
        insert_desc(s, x) =~= s.insert(j, x),
    decreases s.len(),
{
    if s.len() == j {
        if s.len() > 0 {
            assert(s.insert(j, x) =~= s.push(x));
        } else {
            assert(s.insert(j, x) =~= seq![x]);
        }
    } else {
        let d = s.drop_last();
        assert(s[s.len() - 1].2 < x.2);
        assert forall|k: int| j <= k < d.len() implies (#[trigger] d[k]).2 < x.2 by {
            assert(d[k] == s[k]);
        }
        lemma_insert_desc_at(d, x, j);
        assert(d.insert(j, x).push(s.last()) =~= s.insert(j, x));
    }
}

fn copy_row(r: &GroupRow) -> (c: GroupRow)
    ensures
        group_view(c) == group_view(*r),
{
    GroupRow { label: owned(r.label.as_str()), count: r.count, total_size: r.total_size }
}

/// The rows ordered by total size, largest first, ties in their given
/// order.
pub fn sort_rows_desc(rows: &Vec<GroupRow>) -> (r: Vec<GroupRow>)
    ensures
        group_views(r@) == sort_desc(group_views(rows@)),
{
    let n = rows.len();
    let mut out: Vec<GroupRow> = Vec::new();
    let mut i: usize = 0;
    while i < n
        invariant
            n == rows@.len(),
            i <= n,
            group_views(out@) == sort_desc(group_views(rows@).take(i as int)),
        decreases n - i,
    {
        let x = copy_row(&rows[i]);
        let ghost xv = group_view(x);
        let ghost before = group_views(out@);
        let mut j = out.len();
        while j > 0 && out[j - 1].total_size < x.total_size
            invariant
                j <= out@.len(),
                group_views(out@) == before,
                xv == group_view(x),
                forall|k: int| j <= k < before.len() ==> (#[trigger] before[k]).2 < xv.2,
            decreases j,
        {
            j -= 1;
        }
        out.insert(j, x);
        proof {
            lemma_insert_desc_at(before, xv, j as int);
            assert(group_views(out@) =~= before.insert(j as int, xv));
            let t = group_views(rows@).take(i + 1);
            assert(t.drop_last() =~= group_views(rows@).take(i as int));
            assert(t.last() == xv);
        }
        i += 1;
    }
    assert(group_views(rows@).take(n as int) =~= group_views(rows@));
    out
}

/// An extension as listed: `(none)` for files without one.
pub open spec fn ext_label(label: Seq<char>) -> Seq<char> {
    if label.len() == 0 {
        "(none)"@
    } else {
        label
    }
}

/// One breakdown line: the label left-aligned in `width` characters, the
/// file count right-aligned in 6, the total size right-aligned in 10.
pub open spec fn group_line(label: Seq<char>, width: nat, count: u64, total: u64) -> (Option<Mark>, Seq<char>) {
    plain(
        "  "@ + spec_pad_right(label, width) + " "@ + spec_pad_left(dec(count as nat), 6) + " files  "@
            + spec_pad_left(spec_human_bytes(total as nat), 10),
    )
}

/// The extension breakdown lines of sorted rows.
pub open spec fn ext_lines(rows: Seq<(Seq<char>, u64, u64)>) -> Seq<(Option<Mark>, Seq<char>)> {
    rows.map_values(|r: (Seq<char>, u64, u64)| group_line(ext_label(r.0), 12, r.1, r.2))
}

/// The MIME-type breakdown lines of sorted rows.
pub open spec fn mime_lines(rows: Seq<(Seq<char>, u64, u64)>) -> Seq<(Option<Mark>, Seq<char>)> {
    rows.map_values(|r: (Seq<char>, u64, u64)| group_line(r.0, 12, r.1, r.2))
}

/// A titled section after a blank line; nothing when it has no lines.
pub open spec fn section(title: Seq<char>, body: Seq<(Option<Mark>, Seq<char>)>) -> Seq<(Option<Mark>, Seq<char>)> {
    if body.len() == 0 {
        Seq::empty()
    } else {
        seq![plain(Seq::empty()), plain(title)] + body
    }
}

/// A largest-file line: the size right-aligned in 10, then the path.
pub open spec fn file_line(f: FileRow) -> (Option<Mark>, Seq<char>) {
    plain("  "@ + spec_pad_left(spec_human_bytes(f.size as nat), 10) + "  "@ + f.path@)
}

/// The age section.
pub open spec fn age_lines(a: AgeBuckets) -> Seq<(Option<Mark>, Seq<char>)> {
    seq![
        plain(Seq::empty()),
        plain("Age:"@),
        plain("  <1 day    "@ + dec(a.under_1_day as nat)),
        plain("  <1 week   "@ + dec(a.under_1_week as nat)),
        plain("  <1 month  "@ + dec(a.under_1_month as nat)),
        plain("  <1 year   "@ + dec(a.under_1_year as nat)),
        plain("  older     "@ + dec(a.older as nat)),
    ] + if a.unknown > 0 {
        seq![plain("  unknown   "@ + dec(a.unknown as nat))]
    } else {
        Seq::empty()
    }
}

/// The lines of one duplicate group: its count and size, then its paths.
pub open spec fn duplicate_lines(d: DuplicateRow) -> Seq<(Option<Mark>, Seq<char>)> {
    seq![plain("  "@ + dec(d.paths@.len()) + " copies, "@ + spec_human_bytes(d.size as nat) + " each:"@)]
        + d.paths@.map_values(|p: String| plain("    - "@ + p@))
}

/// The lines of the duplicate groups shown, one group after the other.
pub open spec fn duplicates_lines(ds: Seq<DuplicateRow>) -> Seq<(Option<Mark>, Seq<char>)>
    decreases ds.len(),
{
    if ds.len() == 0 {
        Seq::empty()
    } else {
        duplicates_lines(ds.drop_last()) + duplicate_lines(ds.last())
    }
}

/// The duplicates section: only when duplicates were found; says how many
/// groups were not shown.
pub open spec fn duplicates_section(r: AnalysisSummary) -> Seq<(Option<Mark>, Seq<char>)> {
    if r.duplicate_groups_total > 0 {
        seq![
            plain(Seq::empty()),
            (
                Some(Mark::Warning),
                dec(r.duplicate_groups_total as nat) + " duplicate groups, "@ + spec_human_bytes(
                    r.duplicate_bytes_wasted as nat,
                ) + " wasted"@,
            ),
        ] + duplicates_lines(r.duplicates@) + if r.duplicate_groups_total > r.duplicates@.len() {
            seq![
                plain(
                    "  ... "@ + dec((r.duplicate_groups_total - r.duplicates@.len()) as nat)
                        + " more group(s) not shown"@,
                ),
            ]
        } else {
            Seq::empty()
        }
    } else {
        Seq::empty()
    }
}

/// The errors section: only when errors were met; says how many were not
/// shown.
pub open spec fn errors_section(r: AnalysisSummary) -> Seq<(Option<Mark>, Seq<char>)> {
    if r.errors_total > 0 {
        seq![plain(Seq::empty()), (Some(Mark::Cross), dec(r.errors_total as nat) + " errors:"@)]
            + failure_items(r.errors@) + if r.errors_total > r.errors@.len() {
            seq![plain("  ... "@ + dec((r.errors_total - r.errors@.len()) as nat) + " more not shown"@)]
        } else {
            Seq::empty()
        }
    } else {
        Seq::empty()
    }
}

/// The whole analysis report.
pub open spec fn spec_analysis_report(r: AnalysisSummary) -> Seq<(Option<Mark>, Seq<char>)> {
    seq![
        (
            Some(Mark::Check),
            dec(r.file_count as nat) + " files, "@ + dec(r.dir_count as nat) + " dirs, "@ + spec_human_bytes(
                r.total_size as nat,
            ) + " in "@ + spec_human_duration(r.duration_secs as nat, r.duration_nanos as nat),
        ),
    ] + section("Largest files:"@, r.largest_files@.map_values(|f: FileRow| file_line(f)))
        + section("By extension:"@, ext_lines(sort_desc(group_views(r.by_extension@))))
        + section("By MIME type:"@, mime_lines(sort_desc(group_views(r.by_mime@))))
        + age_lines(r.age) + duplicates_section(r) + errors_section(r)
}

fn push_plain(lines: &mut Vec<Line>, text: String)
    ensures
        lines_view(final(lines)@) == lines_view(old(lines)@).push(plain(text@)),
{
    lines.push(Line { mark: None, text });
    assert(lines_view(lines@) =~= lines_view(old(lines)@).push(plain(text@)));
}

fn push_heading(lines: &mut Vec<Line>, title: &str)
    ensures
        lines_view(final(lines)@) == lines_view(old(lines)@) + seq![plain(Seq::empty()), plain(title@)],
{
    push_plain(lines, String::new());
    push_plain(lines, owned(title));
    assert(lines_view(lines@) =~= lines_view(old(lines)@) + seq![plain(Seq::empty()), plain(title@)]);
}

fn push_largest(lines: &mut Vec<Line>, files: &Vec<FileRow>)
    ensures
        lines_view(final(lines)@) == lines_view(old(lines)@) + section(
            "Largest files:"@,
            files@.map_values(|f: FileRow| file_line(f)),
        ),
{
    let n = files.len();
    if n == 0 {
        assert(lines_view(lines@) =~= lines_view(old(lines)@) + section(
            "Largest files:"@,
            files@.map_values(|f: FileRow| file_line(f)),
        ));
        return;
    }
    push_heading(lines, "Largest files:");
    let ghost start = lines_view(lines@);
    let mut i: usize = 0;
    while i < n
        invariant
            n == files@.len(),
            i <= n,
            lines_view(lines@) == start + files@.take(i as int).map_values(|f: FileRow| file_line(f)),
        decreases n - i,
    {
        let h = human_bytes(files[i].size);
        let p = pad_left(h.as_str(), 10);
        let mut t = join3("  ", p.as_str(), "  ");
        t.append(files[i].path.as_str());
        push_plain(lines, t);
        assert(files@.take(i + 1).map_values(|f: FileRow| file_line(f)) =~= files@.take(i as int).map_values(
            |f: FileRow| file_line(f),
        ).push(file_line(files@[i as int])));
        i += 1;
    }
    assert(files@.take(n as int) =~= files@);
    assert(lines_view(lines@) =~= lines_view(old(lines)@) + section(
        "Largest files:"@,
        files@.map_values(|f: FileRow| file_line(f)),
    ));
}

fn group_text(label: &str, width: usize, count: u64, total: u64) -> (t: String)
    ensures
        plain(t@) == group_line(label@, width as nat, count, total),
{
    let l = pad_right(label, width);
    let c = fmt_u64(count);
    let cp = pad_left(c.as_str(), 6);
    let h = human_bytes(total);
    let hp = pad_left(h.as_str(), 10);
    let mut t = join3("  ", l.as_str(), " ");
    t.append(cp.as_str());
    t.append(" files  ");
    t.append(hp.as_str());
    t
}

fn push_groups(lines: &mut Vec<Line>, rows: &Vec<GroupRow>, is_ext: bool)
    ensures
        lines_view(final(lines)@) == lines_view(old(lines)@) + (if is_ext {
            section("By extension:"@, ext_lines(sort_desc(group_views(rows@))))
        } else {
            section("By MIME type:"@, mime_lines(sort_desc(group_views(rows@))))
        }),
{
    let sorted = sort_rows_desc(rows);
    let ghost sv = group_views(sorted@);
    let ghost body = if is_ext {
        ext_lines(sv)
    } else {
        mime_lines(sv)
    };
    let n = sorted.len();
    if n == 0 {
        assert(lines_view(lines@) =~= lines_view(old(lines)@) + section(
            if is_ext {
                "By extension:"@
            } else {
                "By MIME type:"@
            },
            body,
        ));
        return;
    }
    if is_ext {
        push_heading(lines, "By extension:");
    } else {
        push_heading(lines, "By MIME type:");
    }
    let ghost start = lines_view(lines@);
    let mut i: usize = 0;
    while i < n
        invariant
            n == sorted@.len(),
            i <= n,
            sv == group_views(sorted@),
            body == (if is_ext {
                ext_lines(sv)
            } else {
                mime_lines(sv)
            }),
            lines_view(lines@) == start + body.take(i as int),
        decreases n - i,
    {
        let r = &sorted[i];
        let t = if is_ext {
            if r.label.unicode_len() == 0 {
                group_text("(none)", 12, r.count, r.total_size)
            } else {
                group_text(r.label.as_str(), 12, r.count, r.total_size)
            }
        } else {
            group_text(r.label.as_str(), 12, r.count, r.total_size)
        };
        push_plain(lines, t);
        assert(body.take(i + 1) =~= body.take(i as int).push(body[i as int]));
        i += 1;
    }
    assert(body.take(n as int) =~= body);
    assert(lines_view(lines@) =~= lines_view(old(lines)@) + (if is_ext {
        section("By extension:"@, ext_lines(sort_desc(group_views(rows@))))
    } else {
        section("By MIME type:"@, mime_lines(sort_desc(group_views(rows@))))
    }));
}

fn counted(prefix: &str, n: u64) -> (t: String)
    ensures
        t@ == prefix@ + dec(n as nat),
{
    let d = fmt_u64(n);
    join2(prefix, d.as_str())
}

fn push_age(lines: &mut Vec<Line>, a: AgeBuckets)
    ensures
        lines_view(final(lines)@) == lines_view(old(lines)@) + age_lines(a),
{
    push_heading(lines, "Age:");
    push_plain(lines, counted("  <1 day    ", a.under_1_day));
    push_plain(lines, counted("  <1 week   ", a.under_1_week));
    push_plain(lines, counted("  <1 month  ", a.under_1_month));
    push_plain(lines, counted("  <1 year   ", a.under_1_year));
    push_plain(lines, counted("  older     ", a.older));
    if a.unknown > 0 {
        push_plain(lines, counted("  unknown   ", a.unknown));
    }
    assert(lines_view(lines@) =~= lines_view(old(lines)@) + age_lines(a));
}

fn push_duplicate(lines: &mut Vec<Line>, d: &DuplicateRow)
    ensures
        lines_view(final(lines)@) == lines_view(old(lines)@) + duplicate_lines(*d),
{
    let c = fmt_u64(d.paths.len() as u64);
    let mut t = join3("  ", c.as_str(), " copies, ");
    let h = human_bytes(d.size);
    t.append(h.as_str());
    t.append(" each:");
    push_plain(lines, t);
    let ghost start = lines_view(lines@);
    let n = d.paths.len();
    let mut i: usize = 0;
    while i < n
        invariant
            n == d.paths@.len(),
            i <= n,
            lines_view(lines@) == start + d.paths@.take(i as int).map_values(|p: String| plain("    - "@ + p@)),
        decreases n - i,
    {
        push_plain(lines, join2("    - ", d.paths[i].as_str()));
        assert(d.paths@.take(i + 1).map_values(|p: String| plain("    - "@ + p@)) =~= d.paths@.take(
            i as int,
        ).map_values(|p: String| plain("    - "@ + p@)).push(plain("    - "@ + d.paths@[i as int]@)));
        i += 1;
    }
    assert(d.paths@.take(n as int) =~= d.paths@);
    assert(lines_view(lines@) =~= lines_view(old(lines)@) + duplicate_lines(*d));
}

fn push_duplicates(lines: &mut Vec<Line>, r: &AnalysisSummary)
    ensures
        lines_view(final(lines)@) == lines_view(old(lines)@) + duplicates_section(*r),
{
    if r.duplicate_groups_total == 0 {
        assert(lines_view(lines@) =~= lines_view(old(lines)@) + duplicates_section(*r));
        return;
    }
    push_plain(lines, String::new());
    let c = fmt_u64(r.duplicate_groups_total);
    let mut t = join2(c.as_str(), " duplicate groups, ");
    let h = human_bytes(r.duplicate_bytes_wasted);
    t.append(h.as_str());
    t.append(" wasted");
    let ghost head = (
        Some(Mark::Warning),
        dec(r.duplicate_groups_total as nat) + " duplicate groups, "@ + spec_human_bytes(
            r.duplicate_bytes_wasted as nat,
        ) + " wasted"@,
    );
    let ghost pre = lines_view(lines@);
    lines.push(Line { mark: Some(Mark::Warning), text: t });
    assert(lines_view(lines@) =~= pre.push(head));
    let ghost start = lines_view(lines@);
    let n = r.duplicates.len();
    let mut i: usize = 0;
    while i < n
        invariant
            n == r.duplicates@.len(),
            i <= n,
            lines_view(lines@) == start + duplicates_lines(r.duplicates@.take(i as int)),
        decreases n - i,
    {
        push_duplicate(lines, &r.duplicates[i]);
        proof {
            let t = r.duplicates@.take(i + 1);
            assert(t.drop_last() =~= r.duplicates@.take(i as int));
        }
        i += 1;
    }
    assert(r.duplicates@.take(n as int) =~= r.duplicates@);
    let ghost after = lines_view(lines@);
    if r.duplicate_groups_total > n as u64 {
        let more = fmt_u64(r.duplicate_groups_total - n as u64);
        push_plain(lines, join3("  ... ", more.as_str(), " more group(s) not shown"));
    }
    proof {
        reveal_strlit("");
    }
    assert(lines_view(lines@) =~= lines_view(old(lines)@) + duplicates_section(*r));
}

fn push_errors(lines: &mut Vec<Line>, r: &AnalysisSummary)
    ensures
        lines_view(final(lines)@) == lines_view(old(lines)@) + errors_section(*r),
{
    if r.errors_total == 0 {
        assert(lines_view(lines@) =~= lines_view(old(lines)@) + errors_section(*r));
        return;
    }
    push_plain(lines, String::new());
    let c = fmt_u64(r.errors_total);
    let ghost pre = lines_view(lines@);
    lines.push(Line { mark: Some(Mark::Cross), text: join2(c.as_str(), " errors:") });
    assert(lines_view(lines@) =~= pre.push((Some(Mark::Cross), dec(r.errors_total as nat) + " errors:"@)));
    let ghost start = lines_view(lines@);
    let n = r.errors.len();
    let mut i: usize = 0;
    while i < n
        invariant
            n == r.errors@.len(),
            i <= n,
            lines_view(lines@) == start + failure_items(r.errors@.take(i as int)),
        decreases n - i,
    {
        let mut t = join2("  - ", r.errors[i].path.as_str());
        t.append(": ");
        t.append(r.errors[i].error.as_str());
        push_plain(lines, t);
        assert(failure_items(r.errors@.take(i + 1)) =~= failure_items(r.errors@.take(i as int)).push(
            failure_item(r.errors@[i as int]),
        ));
        i += 1;
    }
    assert(r.errors@.take(n as int) =~= r.errors@);
    if r.errors_total > n as u64 {
        let more = fmt_u64(r.errors_total - n as u64);
        push_plain(lines, join3("  ... ", more.as_str(), " more not shown"));
    }
    assert(lines_view(lines@) =~= lines_view(old(lines)@) + errors_section(*r));
}

/// Lays out the analysis report.
pub fn analysis_report(r: &AnalysisSummary) -> (lines: Vec<Line>)
    requires
        r.duration_nanos < 1_000_000_000,
    ensures
        lines_view(lines@) == spec_analysis_report(*r),
{
    let mut lines: Vec<Line> = Vec::new();
    let fc = fmt_u64(r.file_count);
    let dc = fmt_u64(r.dir_count);
    let mut t = join3(fc.as_str(), " files, ", dc.as_str());
    t.append(" dirs, ");
    let h = human_bytes(r.total_size);
    t.append(h.as_str());
    t.append(" in ");
    let d = human_duration(r.duration_secs, r.duration_nanos);
    t.append(d.as_str());
    lines.push(Line { mark: Some(Mark::Check), text: t });
    push_largest(&mut lines, &r.largest_files);
    push_groups(&mut lines, &r.by_extension, true);
    push_groups(&mut lines, &r.by_mime, false);
    push_age(&mut lines, r.age);
    push_duplicates(&mut lines, r);
    push_errors(&mut lines, r);
    assert(lines_view(lines@) =~= spec_analysis_report(*r));
    lines
}

} // verus!
