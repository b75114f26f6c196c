//! The summary printed after an operation (exit 0 or 1), the exit code an
//! operation ends with, and the `Caused by:` block of a fatal error.

use vstd::prelude::*;

use crate::format::{human_bytes, human_duration, ordinal, ordinal_suffix, spec_human_bytes, spec_human_duration};
use crate::text::{dec, fmt_u64, join2, join3, owned, wrap_u64};

verus! {

/// Success: everything was done.
pub const EXIT_OK: u8 = 0;

/// Partial success: some entries failed, or the operation stopped early.
pub const EXIT_PARTIAL: u8 = 1;

/// The engine could not start or finish the operation.
pub const EXIT_ENGINE: u8 = 4;

/// The user pressed Ctrl+C.
pub const EXIT_CANCELLED: u8 = 130;

/// The icon that opens a summary line; the caller colours it.
#[derive(Debug, Clone, Copy, PartialEq, Eq, Structural)]
pub enum Mark {
    /// `✓`, green.
    Check,
    /// `✗`, red.
    Cross,
    /// `⚠`, yellow.
    Warning,
}

/// One printed line: an optional icon, then the text.
pub struct Line {
    pub mark: Option<Mark>,
    pub text: String,
}

/// The model of a line.
pub open spec fn line_view(l: Line) -> (Option<Mark>, Seq<char>) {
    (l.mark, l.text@)
}

/// The models of lines.
pub open spec fn lines_view(ls: Seq<Line>) -> Seq<(Option<Mark>, Seq<char>)> {
    ls.map_values(|l: Line| line_view(l))
}

/// A plain line.
pub open spec fn plain(text: Seq<char>) -> (Option<Mark>, Seq<char>) {
    (None, text)
}

/// Why an operation stopped before the end.
#[derive(Debug, Clone, Copy, PartialEq, Eq, Structural)]
pub enum StopKind {
    Fatal,
    AbortOnError,
    Cancelled,
    Undo,
    /// A reason this version does not know.
    Other,
}

/// An entry that failed, by its relative path, and why.
pub struct Failure {
    pub path: String,
    pub error: String,
}

/// What an operation did, as the summary needs it.
pub struct OutcomeSummary {
    /// The sizes of the entries that succeeded.
    pub succeeded_sizes: Vec<u64>,
    pub failed: Vec<Failure>,
    /// Moved entries whose source could not be removed afterwards.
    pub cleanup_failed: Vec<Failure>,
    pub stopped_early: Option<StopKind>,
    /// Directories whose permission bits could not be applied.
    pub directories_failed: Vec<Failure>,
    pub duration_secs: u64,
    pub duration_nanos: u32,
}

/// The total of a list of sizes.
pub open spec fn total(s: Seq<u64>) -> nat
    decreases s.len(),
{
    if s.len() == 0 {
        0
    } else {
        (total(s.drop_last()) + s.last()) as nat
    }
}

/// How a stop is explained, given how many entries had failed.
pub open spec fn spec_stop_message(reason: StopKind, failed: nat) -> Seq<char> {
    match reason {
        StopKind::AbortOnError => "reached --on-error abort after the "@ + dec(failed) + ordinal_suffix(failed)
            + " failure"@,
        StopKind::Undo => "rolled back after the "@ + dec(failed) + ordinal_suffix(failed)
            + " failure (--on-error undo)"@,
        StopKind::Cancelled => "cancelled"@,
        StopKind::Fatal => "a fatal error stopped the operation"@,
        StopKind::Other => "stopped early"@,
    }
}

/// Explains why an operation stopped early.
pub fn stop_reason_message(reason: StopKind, failed: u64) -> (r: String)
    ensures
        r@ == spec_stop_message(reason, failed as nat),
{
    match reason {
        StopKind::AbortOnError => {
            let o = ordinal(failed);
            join3("reached --on-error abort after the ", o.as_str(), " failure")
        },
        StopKind::Undo => {
            let o = ordinal(failed);
            join3("rolled back after the ", o.as_str(), " failure (--on-error undo)")
        },
        StopKind::Cancelled => owned("cancelled"),
        StopKind::Fatal => owned("a fatal error stopped the operation"),
        StopKind::Other => owned("stopped early"),
    }
}

/// The listing line of one failure.
pub open spec fn failure_item(f: Failure) -> (Option<Mark>, Seq<char>) {
    plain("  - "@ + f.path@ + ": "@ + f.error@)
}

/// The listing lines of failures.
pub open spec fn failure_items(fs: Seq<Failure>) -> Seq<(Option<Mark>, Seq<char>)> {
    fs.map_values(|f: Failure| failure_item(f))
}

/// The headline of an operation's summary: how many entries, the verb,
/// their total size (in 64 bits, wrapping around on overflow) and the
/// duration.
pub open spec fn block_head(verb: Seq<char>, o: OutcomeSummary) -> Seq<(Option<Mark>, Seq<char>)> {
    seq![
        (
            Some(Mark::Check),
            dec(o.succeeded_sizes@.len()) + " entries "@ + verb + " ("@ + spec_human_bytes(
                wrap_u64(total(o.succeeded_sizes@)),
            ) + ") in "@ + spec_human_duration(o.duration_secs as nat, o.duration_nanos as nat),
        ),
    ]
}

/// A counted heading followed by one line per failure; nothing when there
/// are none.
pub open spec fn failure_section(
    mark: Option<Mark>,
    prefix: Seq<char>,
    heading: Seq<char>,
    fs: Seq<Failure>,
) -> Seq<(Option<Mark>, Seq<char>)> {
    if fs.len() > 0 {
        seq![(mark, prefix + dec(fs.len()) + heading)] + failure_items(fs)
    } else {
        Seq::empty()
    }
}

/// The line that says why an operation stopped early, if it did.
pub open spec fn block_stopped(o: OutcomeSummary) -> Seq<(Option<Mark>, Seq<char>)> {
    match o.stopped_early {
        Some(r) => seq![(Some(Mark::Warning), "stopped early: "@ + spec_stop_message(r, o.failed@.len()))],
        None => Seq::empty(),
    }
}

/// The summary block of one operation: the headline (the total size taken
/// in 64 bits, wrapping around on overflow); the failures; why it
/// stopped early; moved entries whose source could not be removed (only
/// when `show_cleanup`); and directories whose permissions were not
/// applied.
pub open spec fn spec_operation_block(verb: Seq<char>, o: OutcomeSummary, show_cleanup: bool) -> Seq<(Option<Mark>, Seq<char>)> {
    block_head(verb, o) + failure_section(Some(Mark::Cross), ""@, " entries failed:"@, o.failed@)
        + block_stopped(o) + (if show_cleanup {
        failure_section(
            None,
            "\u{21BA} "@,
            " entries copied but source cleanup failed (data duplicated, not lost):"@,
            o.cleanup_failed@,
        )
    } else {
        Seq::empty()
    }) + failure_section(
        Some(Mark::Warning),
        ""@,
        " directories: permission bits not applied:"@,
        o.directories_failed@,
    )
}

/// Whether an operation fully succeeded: nothing failed and it ran to the
/// end.
pub open spec fn spec_block_ok(o: OutcomeSummary) -> bool {
    o.failed@.len() == 0 && o.stopped_early is None
}

fn sum_sizes(sizes: &Vec<u64>) -> (r: u64)
    ensures
        r == wrap_u64(total(sizes@)),
{
    let n = sizes.len();
    let mut acc: u128 = 0;
    let mut i: usize = 0;
    while i < n
        invariant
            n == sizes@.len(),
            i <= n,
            acc == total(sizes@.take(i as int)),
            acc <= i * 0xffff_ffff_ffff_ffff,
        decreases n - i,
    {
        assert(sizes@.take(i + 1).drop_last() =~= sizes@.take(i as int));
        assert((i + 1) * 0xffff_ffff_ffff_ffff == i * 0xffff_ffff_ffff_ffff + 0xffff_ffff_ffff_ffff)
            by (nonlinear_arith);
        assert((i + 1) * 0xffff_ffff_ffff_ffff <= 0x1_0000_0000_0000_0000 * 0xffff_ffff_ffff_ffff)
            by (nonlinear_arith)
            requires
                i < n,
                n <= usize::MAX,
                usize::MAX <= 0xffff_ffff_ffff_ffff,
        ;
        acc = acc + sizes[i] as u128;
        i += 1;
    }
    assert(sizes@.take(n as int) =~= sizes@);
    (acc % 0x1_0000_0000_0000_0000) as u64
}

fn push_failures(lines: &mut Vec<Line>, fs: &Vec<Failure>)
    ensures
        lines_view(final(lines)@) == lines_view(old(lines)@) + failure_items(fs@),
{
    let n = fs.len();
    let mut i: usize = 0;
    while i < n
        invariant
            n == fs@.len(),
            i <= n,
            lines_view(lines@) == lines_view(old(lines)@) + failure_items(fs@.take(i as int)),
        decreases n - i,
    {
        let mut t = join2("  - ", fs[i].path.as_str());
        t.append(": ");
        t.append(fs[i].error.as_str());
        let ghost before = lines@;
        assert(line_view(Line { mark: None, text: t }) == failure_item(fs@[i as int]));
        lines.push(Line { mark: None, text: t });
        proof {
            assert(fs@.take(i + 1) =~= fs@.take(i as int).push(fs@[i as int]));
            assert(failure_items(fs@.take(i + 1)) =~= failure_items(fs@.take(i as int)).push(
                failure_item(fs@[i as int]),
            ));
            assert(lines_view(lines@) =~= lines_view(before).push(failure_item(fs@[i as int])));
            assert(lines_view(lines@) =~= lines_view(old(lines)@) + failure_items(fs@.take(i + 1)));
        }
        i += 1;
    }
    assert(fs@.take(n as int) =~= fs@);
}

fn count_line(mark: Option<Mark>, prefix: &str, n: usize, suffix: &str) -> (r: Line)
    ensures
        line_view(r) == (mark, prefix@ + dec(n as nat) + suffix@),
{
    let d = fmt_u64(n as u64);
    Line { mark, text: join3(prefix, d.as_str(), suffix) }
}

/// Builds the summary block of one operation and says whether it fully
/// succeeded.
pub fn operation_block(verb: &str, o: &OutcomeSummary, show_cleanup: bool) -> (r: (Vec<Line>, bool))
    requires
        o.duration_nanos < 1_000_000_000,
    ensures
        lines_view(r.0@) == spec_operation_block(verb@, *o, show_cleanup),
        r.1 == spec_block_ok(*o),
{
    let mut lines: Vec<Line> = Vec::new();
    let bytes = sum_sizes(&o.succeeded_sizes);
    let count = fmt_u64(o.succeeded_sizes.len() as u64);
    let mut head = join3(count.as_str(), " entries ", verb);
    head.append(" (");
    let hb = human_bytes(bytes);
    head.append(hb.as_str());
    head.append(") in ");
    let hd = human_duration(o.duration_secs, o.duration_nanos);
    head.append(hd.as_str());
    lines.push(Line { mark: Some(Mark::Check), text: head });
    proof {
        reveal_strlit("");
    }
    let ghost after_head = lines_view(lines@);
    assert(after_head =~= block_head(verb@, *o));
    if o.failed.len() > 0 {
        lines.push(count_line(Some(Mark::Cross), "", o.failed.len(), " entries failed:"));
        push_failures(&mut lines, &o.failed);
    }
    let ghost after_failed = lines_view(lines@);
    assert(after_failed =~= after_head + failure_section(Some(Mark::Cross), ""@, " entries failed:"@, o.failed@));
    if let Some(reason) = o.stopped_early {
        let m = stop_reason_message(reason, o.failed.len() as u64);
        lines.push(Line { mark: Some(Mark::Warning), text: join2("stopped early: ", m.as_str()) });
    }
    let ghost after_stopped = lines_view(lines@);
    assert(after_stopped =~= after_failed + block_stopped(*o));
    if show_cleanup && o.cleanup_failed.len() > 0 {
        lines.push(
            count_line(
                None,
                "\u{21BA} ",
                o.cleanup_failed.len(),
                " entries copied but source cleanup failed (data duplicated, not lost):",
            ),
        );
        push_failures(&mut lines, &o.cleanup_failed);
    }
    let ghost after_cleanup = lines_view(lines@);
    assert(after_cleanup =~= after_stopped + (if show_cleanup {
        failure_section(
            None,
            "\u{21BA} "@,
            " entries copied but source cleanup failed (data duplicated, not lost):"@,
            o.cleanup_failed@,
        )
    } else {
        Seq::empty()
    }));
    if o.directories_failed.len() > 0 {
        lines.push(
            count_line(
                Some(Mark::Warning),
                "",
                o.directories_failed.len(),
                " directories: permission bits not applied:",
            ),
        );
        push_failures(&mut lines, &o.directories_failed);
    }
    assert(lines_view(lines@) =~= after_cleanup + failure_section(
        Some(Mark::Warning),
        ""@,
        " directories: permission bits not applied:"@,
        o.directories_failed@,
    ));
    let ok = o.failed.len() == 0 && o.stopped_early.is_none();
    (lines, ok)
}

/// The two blocks of a sync, headed `Copy phase:` and `Delete phase:`,
/// and whether both phases fully succeeded.
pub fn sync_summary(copy: &OutcomeSummary, delete: &OutcomeSummary) -> (r: (Vec<Line>, bool))
    requires
        copy.duration_nanos < 1_000_000_000,
        delete.duration_nanos < 1_000_000_000,
    ensures
        lines_view(r.0@) == seq![plain("Copy phase:"@)] + spec_operation_block("copied"@, *copy, false)
            + seq![plain("Delete phase:"@)] + spec_operation_block("deleted"@, *delete, false),
        r.1 == (spec_block_ok(*copy) && spec_block_ok(*delete)),
{
    let mut lines: Vec<Line> = Vec::new();
    lines.push(Line { mark: None, text: owned("Copy phase:") });
    let (copy_lines, copy_ok) = operation_block("copied", copy, false);
    let mut copy_lines = copy_lines;
    lines.append(&mut copy_lines);
    lines.push(Line { mark: None, text: owned("Delete phase:") });
    let (delete_lines, delete_ok) = operation_block("deleted", delete, false);
    let mut delete_lines = delete_lines;
    lines.append(&mut delete_lines);
    proof {
        assert(lines_view(lines@) =~= seq![plain("Copy phase:"@)] + spec_operation_block(
            "copied"@,
            *copy,
            false,
        ) + seq![plain("Delete phase:"@)] + spec_operation_block("deleted"@, *delete, false));
    }
    (lines, copy_ok && delete_ok)
}

/// The exit code of an operation that ran: 130 when cancelled whatever
/// came back, else 0 for full success, 1 for partial success, 4 when the
/// engine failed.
pub open spec fn spec_exit_code(cancelled: bool, fully_succeeded: Option<bool>) -> u8 {
    if cancelled {
        EXIT_CANCELLED
    } else {
        match fully_succeeded {
            Some(true) => EXIT_OK,
            Some(false) => EXIT_PARTIAL,
            None => EXIT_ENGINE,
        }
    }
}

/// Chooses the exit code of an operation; `fully_succeeded` is `None` when
/// the engine returned an error.
pub fn exit_code(cancelled: bool, fully_succeeded: Option<bool>) -> (r: u8)
    ensures
        r == spec_exit_code(cancelled, fully_succeeded),
{
    if cancelled {
        return EXIT_CANCELLED;
    }
    match fully_succeeded {
        Some(true) => EXIT_OK,
        Some(false) => EXIT_PARTIAL,
        None => EXIT_ENGINE,
    }
}

/// Directories whose permission bits were not applied, and moved entries
/// whose source could not be removed, never turn a success into a partial
/// one: only failed entries and an early stop do.
pub proof fn law_best_effort_blocks_never_fail(
    o: OutcomeSummary,
    directories_failed: Vec<Failure>,
    cleanup_failed: Vec<Failure>,
)
    ensures
        spec_block_ok(OutcomeSummary { directories_failed, cleanup_failed, ..o }) == spec_block_ok(o),
{
}

/// An operation counts as a full success exactly when no entry failed and
/// it ran to the end: a stop for any reason (a fatal error, abort, undo,
/// cancellation or one this version does not know) is never full success,
/// and such a run that was not cancelled exits 1.
pub proof fn law_stopped_early_is_never_full_success(o: OutcomeSummary)
    ensures
        o.stopped_early is Some ==> !spec_block_ok(o),
        o.failed@.len() > 0 ==> !spec_block_ok(o),
        (o.failed@.len() == 0 && o.stopped_early is None) ==> spec_block_ok(o),
        o.stopped_early is Some ==> spec_exit_code(false, Some(spec_block_ok(o))) == 1,
        spec_exit_code(false, Some(spec_block_ok(o))) == 0 <==> (o.failed@.len() == 0 && o.stopped_early is None),
{
}

/// How an operation ends: whether its summary (or, when the engine failed,
/// its error) is printed, which happens only when it was not cancelled, and
/// the exit code.
pub fn operation_end(cancelled: bool, fully_succeeded: Option<bool>) -> (r: (bool, u8))
    ensures
        r.0 == !cancelled,
        r.1 == spec_exit_code(cancelled, fully_succeeded),
{
    (!cancelled, exit_code(cancelled, fully_succeeded))
}

/// A cancelled run always exits 130, never as a partial success or failure.
pub proof fn law_cancel_wins(fully_succeeded: Option<bool>)
    ensures
        spec_exit_code(true, fully_succeeded) == EXIT_CANCELLED,
{
}

/// The `Caused by:` block for a chain of error messages, outermost first:
/// nothing for an empty chain, else a blank line, the heading and one
/// numbered line per message.
pub open spec fn spec_cause_chain(messages: Seq<Seq<char>>) -> Seq<Seq<char>> {
    if messages.len() == 0 {
        Seq::empty()
    } else {
        seq![Seq::empty(), "Caused by:"@] + Seq::new(
            messages.len(),
            |i: int| "    "@ + dec(i as nat) + ": "@ + messages[i],
        )
    }
}

/// Lays out the `Caused by:` block of a fatal error.
pub fn cause_chain_lines(messages: &Vec<String>) -> (r: Vec<String>)
    ensures
        r@.map_values(|s: String| s@) == spec_cause_chain(messages@.map_values(|s: String| s@)),
{
    let mut lines: Vec<String> = Vec::new();
    let n = messages.len();
    if n == 0 {
        assert(lines@.map_values(|s: String| s@) =~= spec_cause_chain(messages@.map_values(|s: String| s@)));
        return lines;
    }
    lines.push(String::new());
    lines.push(owned("Caused by:"));
    let mut i: usize = 0;
    while i < n
        invariant
            n == messages@.len(),
            i <= n,
            lines@.len() == 2 + i,
            lines@[0]@ == Seq::<char>::empty(),
            lines@[1]@ == "Caused by:"@,
            forall|j: int|
                0 <= j < i ==> (#[trigger] lines@[2 + j])@ == "    "@ + dec(j as nat) + ": "@
                    + messages@[j]@,
        decreases n - i,
    {
        let d = fmt_u64(i as u64);
        let mut t = join3("    ", d.as_str(), ": ");
        t.append(messages[i].as_str());
        lines.push(t);
        i += 1;
    }
    proof {
        let expected = spec_cause_chain(messages@.map_values(|s: String| s@));
        assert(lines@.map_values(|s: String| s@).len() == expected.len());
        assert forall|j: int| 0 <= j < expected.len() implies lines@.map_values(|s: String| s@)[j]
            == expected[j] by {
            if j >= 2 {
                assert(lines@[2 + (j - 2)] == lines@[j]);
            }
        }
        assert(lines@.map_values(|s: String| s@) =~= expected);
    }
    lines
}

} // verus!
