//! The progress renderer's state: which large files are streaming, whether
//! directories are being created, whether the run is cancelling; what the
//! bar does on each engine event, and the text of its message and prefix.
//! The bar itself and the event stream are driven by the caller.

use vstd::prelude::*;

use crate::format::{human_bytes, human_duration, spec_human_bytes, spec_human_duration, spec_truncate, truncate};
use crate::paths::{path_file_name, spec_path_file_name};
use crate::text::{dec, fmt_u64, join2, join3, owned, wrap_u64};

verus! {

/// An engine progress event, as the renderer reads it. Paths are the
/// entries' source paths.
pub enum ProgressEvent {
    /// The plan is known: how many small and large files will be copied.
    Planned { small_files: u64, large_files: u64 },
    /// The copy itself starts.
    Started { entries_total: u64 },
    EntryStarted,
    /// A large entry's bytes copied so far, out of its size.
    EntryProgress { path: String, bytes_copied: u64, size: u64 },
    EntryCompleted { path: String },
    EntryFailed { path: String },
    /// The directory pre-pass starts.
    DirectoriesStarted,
    /// A directory was created or failed, or an event the renderer ignores.
    Other,
}

/// What the bar does in answer to one event, before it is redrawn.
#[derive(Debug, Clone, Copy, PartialEq, Eq, Structural)]
pub struct BarUpdate {
    pub set_length: Option<u64>,
    pub reset_position: bool,
    /// How far the position advances.
    pub advance: u64,
}

/// A large entry between its first progress sample and its end.
pub struct Streaming {
    pub path: String,
    pub copied: u64,
    pub size: u64,
}

/// The model of a streaming entry: its path, bytes copied and size.
pub open spec fn streaming_view(e: Streaming) -> (Seq<char>, u64, u64) {
    (e.path@, e.copied, e.size)
}

/// The models of streaming entries.
pub open spec fn streaming_views(s: Seq<Streaming>) -> Seq<(Seq<char>, u64, u64)> {
    s.map_values(|e: Streaming| streaming_view(e))
}

/// No path is tracked twice.
pub open spec fn paths_unique(s: Seq<(Seq<char>, u64, u64)>) -> bool {
    forall|i: int, j: int| 0 <= i < j < s.len() ==> (#[trigger] s[i]).0 != (#[trigger] s[j]).0
}

/// Whether `path` is tracked.
pub open spec fn tracks(s: Seq<(Seq<char>, u64, u64)>, path: Seq<char>) -> bool {
    exists|i: int| 0 <= i < s.len() && (#[trigger] s[i]).0 == path
}

/// Where `path` is tracked, when it is.
pub open spec fn slot_of(s: Seq<(Seq<char>, u64, u64)>, path: Seq<char>) -> int {
    choose|i: int| 0 <= i < s.len() && (#[trigger] s[i]).0 == path
}

/// A progress sample for `path`: its entry is updated in place, or added
/// at the end when it is not tracked yet.
pub open spec fn spec_track(s: Seq<(Seq<char>, u64, u64)>, path: Seq<char>, copied: u64, size: u64) -> Seq<(Seq<char>, u64, u64)> {
    if tracks(s, path) {
        s.update(slot_of(s, path), (path, copied, size))
    } else {
        s.push((path, copied, size))
    }
}

/// The end of `path`: its entry, if any, is dropped.
pub open spec fn spec_untrack(s: Seq<(Seq<char>, u64, u64)>, path: Seq<char>) -> Seq<(Seq<char>, u64, u64)> {
    if tracks(s, path) {
        s.remove(slot_of(s, path))
    } else {
        s
    }
}

/// Tracking keeps each path listed once: a sample of a tracked path
/// updates its entry without adding one, a sample of a new path adds one,
/// and after an entry's end its path is no longer listed.
pub proof fn law_each_path_tracked_once(s: Seq<(Seq<char>, u64, u64)>, path: Seq<char>, copied: u64, size: u64)
    requires
        paths_unique(s),
    ensures
        paths_unique(spec_track(s, path, copied, size)),
        tracks(spec_track(s, path, copied, size), path),
        spec_track(s, path, copied, size).len() == if tracks(s, path) {
            s.len()
        } else {
            s.len() + 1
        },
        paths_unique(spec_untrack(s, path)),
        !tracks(spec_untrack(s, path), path),
{
    if tracks(s, path) {
        let i = slot_of(s, path);
        let t = spec_track(s, path, copied, size);
        assert(t[i].0 == path);
        assert forall|a: int, b: int| 0 <= a < b < t.len() implies (#[trigger] t[a]).0 != (#[trigger] t[b]).0 by {
            assert(s[a].0 != s[b].0);
        }
        let u = spec_untrack(s, path);
        assert forall|a: int, b: int| 0 <= a < b < u.len() implies (#[trigger] u[a]).0 != (#[trigger] u[b]).0 by {
            if b < i {
                assert(s[a].0 != s[b].0);
            } else if a < i {
                assert(s[a].0 != s[b + 1].0);
            } else {
                assert(s[a + 1].0 != s[b + 1].0);
            }
        }
        if tracks(u, path) {
            let j = slot_of(u, path);
            if j < i {
                assert(s[j].0 != s[i].0);
            } else {
                assert(s[i].0 != s[j + 1].0);
            }
        }
    } else {
        let t = spec_track(s, path, copied, size);
        assert(t[s.len() as int].0 == path);
        assert forall|a: int, b: int| 0 <= a < b < t.len() implies (#[trigger] t[a]).0 != (#[trigger] t[b]).0 by {
            if b == s.len() {
                assert(s[a].0 != path);
            } else {
                assert(s[a].0 != s[b].0);
            }
        }
    }
}

/// The bytes copied so far over the streaming entries.
pub open spec fn sum_copied(s: Seq<(Seq<char>, u64, u64)>) -> nat
    decreases s.len(),
{
    if s.len() == 0 {
        0
    } else {
        (sum_copied(s.drop_last()) + s.last().1) as nat
    }
}

/// The sizes of the streaming entries, added up.
pub open spec fn sum_sizes(s: Seq<(Seq<char>, u64, u64)>) -> nat
    decreases s.len(),
{
    if s.len() == 0 {
        0
    } else {
        (sum_sizes(s.drop_last()) + s.last().2) as nat
    }
}

/// The name a streaming entry is shown by: its file name, or the whole
/// path when it has none.
pub open spec fn display_name(path: Seq<char>) -> Seq<char> {
    match spec_path_file_name(path) {
        Some(n) => n,
        None => path,
    }
}

/// What the operation is doing now: the one streaming file and its
/// percentage; the number of streaming files and their bytes; creating
/// directories; or just running. The percentage's product and the sums
/// are taken in 64 bits and wrap around on overflow.
pub open spec fn spec_message(s: Seq<(Seq<char>, u64, u64)>, creating_directories: bool) -> Seq<char> {
    if s.len() == 1 {
        let name = spec_truncate(display_name(s[0].0));
        if s[0].2 == 0 {
            name
        } else {
            name + " "@ + dec(wrap_u64((s[0].1 * 100) as nat) / (s[0].2 as nat)) + "%"@
        }
    } else if s.len() > 1 {
        dec(s.len()) + " large files "@ + spec_human_bytes(wrap_u64(sum_copied(s))) + "/"@
            + spec_human_bytes(wrap_u64(sum_sizes(s)))
    } else if creating_directories {
        "creating directories"@
    } else {
        "running"@
    }
}

/// The bar's prefix: the estimated time left and the byte rate, each when
/// known, joined by ` · `.
pub open spec fn spec_eta_prefix(remaining: Option<(u64, u32)>, rate: Option<u64>) -> Seq<char> {
    let eta = match remaining {
        Some(d) => seq!["ETA "@ + spec_human_duration(d.0 as nat, d.1 as nat)],
        None => Seq::empty(),
    };
    let speed = match rate {
        Some(r) => seq![spec_human_bytes(r as nat) + "/s"@],
        None => Seq::empty(),
    };
    let parts = eta + speed;
    if parts.len() == 0 {
        Seq::empty()
    } else if parts.len() == 1 {
        parts[0]
    } else {
        parts[0] + " \u{b7} "@ + parts[1]
    }
}

/// The bar update an event calls for.
pub open spec fn spec_bar_update(e: ProgressEvent) -> BarUpdate {
    match e {
        ProgressEvent::Planned { small_files, large_files } => BarUpdate {
            set_length: Some(wrap_u64((small_files + large_files) as nat) as u64),
            reset_position: false,
            advance: 0,
        },
        ProgressEvent::Started { entries_total } => BarUpdate {
            set_length: Some(entries_total),
            reset_position: true,
            advance: 0,
        },
        ProgressEvent::EntryCompleted { .. } => BarUpdate { set_length: None, reset_position: false, advance: 1 },
        ProgressEvent::EntryFailed { .. } => BarUpdate { set_length: None, reset_position: false, advance: 1 },
        _ => BarUpdate { set_length: None, reset_position: false, advance: 0 },
    }
}

/// The bar's length is set only by the plan and by the start of the copy:
/// the plan sets it to the number of files planned and keeps the position,
/// the start sets it to the number of entries and rewinds to zero; no
/// other event changes the length or rewinds.
pub proof fn law_bar_length_from_plan_and_start(e: ProgressEvent)
    ensures
        e matches ProgressEvent::Planned { small_files, large_files } ==> small_files + large_files <= u64::MAX
            ==> spec_bar_update(e).set_length == Some((small_files + large_files) as u64)
                && !spec_bar_update(e).reset_position,
        e matches ProgressEvent::Started { entries_total } ==> spec_bar_update(e).set_length == Some(entries_total)
            && spec_bar_update(e).reset_position,
        !(e is Planned || e is Started) ==> spec_bar_update(e).set_length is None && !spec_bar_update(e).reset_position,
{
}

/// Whether an event ends an entry, successfully or not.
pub open spec fn ends_entry(e: ProgressEvent) -> bool {
    e is EntryCompleted || e is EntryFailed
}

/// How many events of `events` end an entry.
pub open spec fn entries_ended(events: Seq<ProgressEvent>) -> nat
    decreases events.len(),
{
    if events.len() == 0 {
        0
    } else {
        entries_ended(events.drop_last()) + if ends_entry(events.last()) {
            1nat
        } else {
            0nat
        }
    }
}

/// How far the bar advances over `events`, adding up each event's update.
pub open spec fn bar_advance(events: Seq<ProgressEvent>) -> nat
    decreases events.len(),
{
    if events.len() == 0 {
        0
    } else {
        bar_advance(events.drop_last()) + spec_bar_update(events.last()).advance as nat
    }
}

/// The bar counts entries: over any run of events it advances by exactly
/// the number of entries that ended, completed or failed, one step each;
/// no other event moves it.
pub proof fn law_bar_counts_ended_entries(events: Seq<ProgressEvent>)
    ensures
        bar_advance(events) == entries_ended(events),
    decreases events.len(),
{
    if events.len() > 0 {
        law_bar_counts_ended_entries(events.drop_last());
    }
}

/// The streaming entries after an event.
pub open spec fn spec_after_streaming(s: Seq<(Seq<char>, u64, u64)>, e: ProgressEvent) -> Seq<(Seq<char>, u64, u64)> {
    match e {
        ProgressEvent::EntryProgress { path, bytes_copied, size } => spec_track(s, path@, bytes_copied, size),
        ProgressEvent::EntryCompleted { path } => spec_untrack(s, path@),
        ProgressEvent::EntryFailed { path } => spec_untrack(s, path@),
        _ => s,
    }
}

/// Whether directories are being created after an event.
pub open spec fn spec_after_creating(creating: bool, e: ProgressEvent) -> bool {
    match e {
        ProgressEvent::Started { .. } => false,
        ProgressEvent::DirectoriesStarted => true,
        _ => creating,
    }
}

/// The renderer's state.
pub struct Renderer {
    streaming: Vec<Streaming>,
    creating_directories: bool,
    cancelled: bool,
}

impl Renderer {
    /// The streaming entries, oldest first.
    pub closed spec fn streaming(&self) -> Seq<(Seq<char>, u64, u64)> {
        streaming_views(self.streaming@)
    }

    /// Whether the directory pre-pass is running.
    pub closed spec fn creating(&self) -> bool {
        self.creating_directories
    }

    /// Whether the run is being cancelled; the message is then frozen.
    pub closed spec fn is_cancelled(&self) -> bool {
        self.cancelled
    }

    #[verifier::type_invariant]
    closed spec fn inv(&self) -> bool {
        paths_unique(streaming_views(self.streaming@))
    }

    /// A renderer with nothing streaming, not creating directories, not
    /// cancelled.
    pub fn new() -> (r: Renderer)
        ensures
            r.streaming() == Seq::<(Seq<char>, u64, u64)>::empty(),
            !r.creating(),
            !r.is_cancelled(),
    {
        let r = Renderer { streaming: Vec::new(), creating_directories: false, cancelled: false };
        assert(streaming_views(r.streaming@) =~= Seq::<(Seq<char>, u64, u64)>::empty());
        r
    }

    /// Where `path` is tracked, if it is.
    fn find(&self, path: &str) -> (r: Option<usize>)
        ensures
            match r {
                Some(i) => i < self.streaming().len() && self.streaming()[i as int].0 == path@
                    && tracks(self.streaming(), path@) && slot_of(self.streaming(), path@) == i,
                None => !tracks(self.streaming(), path@),
            },
    {
        proof {
            use_type_invariant(self);
        }
        let n = self.streaming.len();
        let mut i: usize = 0;
        while i < n
            invariant
                n == self.streaming@.len(),
                i <= n,
                paths_unique(streaming_views(self.streaming@)),
                forall|j: int| 0 <= j < i ==> (#[trigger] streaming_views(self.streaming@)[j]).0 != path@,
            decreases n - i,
        {
            if crate::text::str_eq(self.streaming[i].path.as_str(), path) {
                proof {
                    let s = self.streaming();
                    assert(s[i as int].0 == path@);
                    assert(tracks(s, path@));
                    let k = slot_of(s, path@);
                    assert(0 <= k < s.len() && s[k].0 == path@);
                    if k != i {
                        if k < i {
                            assert(s[k].0 != s[i as int].0);
                        } else {
                            assert(s[i as int].0 != s[k].0);
                        }
                    }
                }
                return Some(i);
            }
            i += 1;
        }
        proof {
            let s = self.streaming();
            if tracks(s, path@) {
                let k = slot_of(s, path@);
                assert(s[k].0 != path@);
            }
        }
        None
    }

    /// Takes in an engine event: a progress sample tracks its entry, an
    /// entry's end drops it, `DirectoriesStarted` and `Started` switch the
    /// directory pre-pass on and off. Returns what the bar does.
    pub fn on_progress(&mut self, event: ProgressEvent) -> (r: BarUpdate)
        ensures
            r == spec_bar_update(event),
            final(self).streaming() == spec_after_streaming(old(self).streaming(), event),
            final(self).creating() == spec_after_creating(old(self).creating(), event),
            final(self).is_cancelled() == old(self).is_cancelled(),
    {
        proof {
            use_type_invariant(&*self);
        }
        match event {
            ProgressEvent::Planned { small_files, large_files } => {
                let length = small_files.wrapping_add(large_files);
                assert(length == wrap_u64((small_files + large_files) as nat));
                BarUpdate { set_length: Some(length), reset_position: false, advance: 0 }
            },
            ProgressEvent::Started { entries_total } => {
                self.creating_directories = false;
                BarUpdate { set_length: Some(entries_total), reset_position: true, advance: 0 }
            },
            ProgressEvent::EntryStarted => BarUpdate { set_length: None, reset_position: false, advance: 0 },
            ProgressEvent::EntryProgress { path, bytes_copied, size } => {
                self.track(path, bytes_copied, size);
                BarUpdate { set_length: None, reset_position: false, advance: 0 }
            },
            ProgressEvent::EntryCompleted { path } => {
                self.untrack(path.as_str());
                BarUpdate { set_length: None, reset_position: false, advance: 1 }
            },
            ProgressEvent::EntryFailed { path } => {
                self.untrack(path.as_str());
                BarUpdate { set_length: None, reset_position: false, advance: 1 }
            },
            ProgressEvent::DirectoriesStarted => {
                self.creating_directories = true;
                BarUpdate { set_length: None, reset_position: false, advance: 0 }
            },
            ProgressEvent::Other => BarUpdate { set_length: None, reset_position: false, advance: 0 },
        }
    }

    fn track(&mut self, path: String, copied: u64, size: u64)
        ensures
            final(self).streaming() == spec_track(old(self).streaming(), path@, copied, size),
            final(self).creating() == old(self).creating(),
            final(self).is_cancelled() == old(self).is_cancelled(),
    {
        proof {
            use_type_invariant(&*self);
        }
        let found = self.find(path.as_str());
        let ghost s = self.streaming();
        let ghost p = path@;
        let mut streaming: Vec<Streaming> = Vec::new();
                std::mem::swap(&mut streaming, &mut self.streaming);
        assert(streaming_views(streaming@) == s);
        match found {
            Some(i) => {
                streaming.set(i, Streaming { path, copied, size });
                proof {
                    assert(streaming_views(streaming@) =~= s.update(i as int, (p, copied, size)));
                    assert forall|a: int, b: int| 0 <= a < b < streaming@.len() implies (#[trigger] streaming_views(
                        streaming@,
                    )[a]).0 != (#[trigger] streaming_views(streaming@)[b]).0 by {
                        if a != i && b != i {
                            assert(s[a].0 != s[b].0);
                        } else if a == i {
                            assert(s[a].0 != s[b].0);
                        } else {
                            assert(s[a].0 != s[b].0);
                        }
                    }
                }
            },
            None => {
                streaming.push(Streaming { path, copied, size });
                proof {
                    assert(streaming_views(streaming@) =~= s.push((p, copied, size)));
                    assert forall|a: int, b: int| 0 <= a < b < streaming@.len() implies (#[trigger] streaming_views(
                        streaming@,
                    )[a]).0 != (#[trigger] streaming_views(streaming@)[b]).0 by {
                        if b == s.len() {
                            assert(s[a].0 != p);
                        } else {
                            assert(s[a].0 != s[b].0);
                        }
                    }
                }
            },
        }
        self.streaming = streaming;
    }

    fn untrack(&mut self, path: &str)
        ensures
            final(self).streaming() == spec_untrack(old(self).streaming(), path@),
            final(self).creating() == old(self).creating(),
            final(self).is_cancelled() == old(self).is_cancelled(),
    {
        proof {
            use_type_invariant(&*self);
        }
        let found = self.find(path);
        let ghost s = self.streaming();
        match found {
            Some(i) => {
                let mut streaming: Vec<Streaming> = Vec::new();
                std::mem::swap(&mut streaming, &mut self.streaming);
                assert(streaming_views(streaming@) == s);
                let _gone = streaming.remove(i);
                proof {
                    assert(streaming_views(streaming@) =~= s.remove(i as int));
                    assert forall|a: int, b: int| 0 <= a < b < streaming@.len() implies (#[trigger] streaming_views(
                        streaming@,
                    )[a]).0 != (#[trigger] streaming_views(streaming@)[b]).0 by {
                        if b < i {
                            assert(s[a].0 != s[b].0);
                        } else if a < i {
                            assert(s[a].0 != s[b + 1].0);
                        } else {
                            assert(s[a + 1].0 != s[b + 1].0);
                        }
                    }
                }
                self.streaming = streaming;
            },
            None => {},
        }
    }

    /// Freezes the message: the run is being cancelled. Returns the message
    /// the bar shows from now on.
    pub fn cancelling(&mut self) -> (r: String)
        ensures
            r@ == "cancelling..."@,
            final(self).is_cancelled(),
            final(self).streaming() == old(self).streaming(),
            final(self).creating() == old(self).creating(),
    {
        proof {
            use_type_invariant(&*self);
        }
        self.cancelled = true;
        owned("cancelling...")
    }

    fn sums(&self) -> (r: (u128, u128))
        ensures
            r.0 == sum_copied(self.streaming()),
            r.1 == sum_sizes(self.streaming()),
    {
        let n = self.streaming.len();
        let mut c: u128 = 0;
        let mut t: u128 = 0;
        let mut i: usize = 0;
        while i < n
            invariant
                n == self.streaming@.len(),
                i <= n,
                c == sum_copied(streaming_views(self.streaming@).take(i as int)),
                t == sum_sizes(streaming_views(self.streaming@).take(i as int)),
                c <= i * 0xffff_ffff_ffff_ffff,
                t <= i * 0xffff_ffff_ffff_ffff,
            decreases n - i,
        {
            let ghost s = streaming_views(self.streaming@);
            assert(s.take(i + 1).drop_last() =~= s.take(i as int));
            assert((i + 1) * 0xffff_ffff_ffff_ffff == i * 0xffff_ffff_ffff_ffff + 0xffff_ffff_ffff_ffff)
                by (nonlinear_arith);
            assert((i + 1) * 0xffff_ffff_ffff_ffff <= 0x1_0000_0000_0000_0000 * 0xffff_ffff_ffff_ffff)
                by (nonlinear_arith)
                requires
                    i < n,
                    n <= usize::MAX,
                    usize::MAX <= 0xffff_ffff_ffff_ffff,
            ;
            c = c + self.streaming[i].copied as u128;
            t = t + self.streaming[i].size as u128;
            i += 1;
        }
        assert(streaming_views(self.streaming@).take(n as int) =~= streaming_views(self.streaming@));
        (c, t)
    }

    /// What the operation is doing now; see [`spec_message`].
    pub fn message(&self) -> (r: String)
        ensures
            r@ == spec_message(self.streaming(), self.creating()),
    {
        let n = self.streaming.len();
        if n == 1 {
            let e = &self.streaming[0];
            let name = match path_file_name(e.path.as_str()) {
                Some(f) => truncate(f.as_str()),
                None => truncate(e.path.as_str()),
            };
            if e.size == 0 {
                return name;
            }
            let pct = fmt_u64(e.copied.wrapping_mul(100) / e.size);
            let mut r = join3(name.as_str(), " ", pct.as_str());
            r.append("%");
            return r;
        }
        if n > 1 {
            let (c, t) = self.sums();
            let count = fmt_u64(n as u64);
            let hc = human_bytes((c % 0x1_0000_0000_0000_0000) as u64);
            let ht = human_bytes((t % 0x1_0000_0000_0000_0000) as u64);
            let mut r = join3(count.as_str(), " large files ", hc.as_str());
            r.append("/");
            r.append(ht.as_str());
            return r;
        }
        if self.creating_directories {
            return owned("creating directories");
        }
        owned("running")
    }

    /// What the bar shows after an event: the message, unless cancelling
    /// froze it, and the prefix.
    pub fn redraw(&self, remaining: Option<(u64, u32)>, rate: Option<u64>) -> (r: (Option<String>, String))
        requires
            remaining matches Some(d) ==> d.1 < 1_000_000_000,
        ensures
            match r.0 {
                Some(m) => !self.is_cancelled() && m@ == spec_message(self.streaming(), self.creating()),
                None => self.is_cancelled(),
            },
            r.1@ == spec_eta_prefix(remaining, rate),
    {
        let message = if self.cancelled {
            None
        } else {
            Some(self.message())
        };
        (message, eta_prefix(remaining, rate))
    }
}

/// The bar's prefix from the estimator's remaining time and byte rate.
pub fn eta_prefix(remaining: Option<(u64, u32)>, rate: Option<u64>) -> (r: String)
    requires
        remaining matches Some(d) ==> d.1 < 1_000_000_000,
    ensures
        r@ == spec_eta_prefix(remaining, rate),
{
    let eta = match remaining {
        Some((secs, nanos)) => {
            let d = human_duration(secs, nanos);
            Some(join2("ETA ", d.as_str()))
        },
        None => None,
    };
    let speed = match rate {
        Some(b) => {
            let h = human_bytes(b);
            Some(join2(h.as_str(), "/s"))
        },
        None => None,
    };
    match (eta, speed) {
        (Some(a), Some(b)) => join3(a.as_str(), " \u{b7} ", b.as_str()),
        (Some(a), None) => a,
        (None, Some(b)) => b,
        (None, None) => String::new(),
    }
}

/// What a watched path went through.
#[derive(Debug, Clone, Copy, PartialEq, Eq, Structural)]
pub enum WatchKind {
    Created,
    Modified,
    Removed,
    Other,
}

/// The word a watch line starts with.
pub open spec fn spec_watch_word(k: WatchKind) -> Seq<char> {
    match k {
        WatchKind::Created => "created"@,
        WatchKind::Modified => "modified"@,
        WatchKind::Removed => "removed"@,
        WatchKind::Other => "other"@,
    }
}

/// The lines printed for one watch event: one `kind: path` line per path.
pub fn watch_event_lines(kind: WatchKind, paths: &Vec<String>) -> (r: Vec<String>)
    ensures
        r@.len() == paths@.len(),
        forall|i: int| 0 <= i < paths@.len() ==> (#[trigger] r@[i])@ == spec_watch_word(kind) + ": "@ + paths@[i]@,
{
    let word = match kind {
        WatchKind::Created => "created",
        WatchKind::Modified => "modified",
        WatchKind::Removed => "removed",
        WatchKind::Other => "other",
    };
    let mut lines: Vec<String> = Vec::new();
    let n = paths.len();
    let mut i: usize = 0;
    while i < n
        invariant
            n == paths@.len(),
            i <= n,
            word@ == spec_watch_word(kind),
            lines@.len() == i,
            forall|j: int| 0 <= j < i ==> (#[trigger] lines@[j])@ == spec_watch_word(kind) + ": "@ + paths@[j]@,
        decreases n - i,
    {
        lines.push(join3(word, ": ", paths[i].as_str()));
        i += 1;
    }
    lines
}

} // verus!
