//! The decisions of the directory watcher: which paths and events count,
//! the debounce stage that turns bursts into one signal, and the single
//! watch session with its reactivity switch.
use vstd::prelude::*;
use crate::text::{equal_text, push_char};

verus! {

/// Quiet time after the last qualifying event before a batch is delivered.
pub const DEBOUNCE_MS: u64 = 300;

/// The components gathered so far, after adding the part `cur` that a
/// separator or the end of the path closes: empty parts and `.` add none.
pub open spec fn close_part(parts: Seq<Seq<char>>, cur: Seq<char>) -> Seq<Seq<char>> {
    if cur.len() == 0 || cur == "."@ {
        parts
    } else {
        parts.push(cur)
    }
}

/// The closed components of the first `k` characters of `p`, and the part
/// still open.
pub open spec fn scan_parts(p: Seq<char>, k: int) -> (Seq<Seq<char>>, Seq<char>)
    decreases k,
{
    if k <= 0 {
        (Seq::<Seq<char>>::empty(), Seq::<char>::empty())
    } else {
        let prev = scan_parts(p, k - 1);
        if p[k - 1] == '/' {
            (close_part(prev.0, prev.1), Seq::<char>::empty())
        } else {
            (prev.0, prev.1.push(p[k - 1]))
        }
    }
}

/// The components of a path: its parts between `/` separators, without
/// empty parts and `.`.
pub open spec fn components(p: Seq<char>) -> Seq<Seq<char>> {
    close_part(scan_parts(p, p.len() as int).0, scan_parts(p, p.len() as int).1)
}

/// The path lies inside a `.git` directory: some component other than the
/// last is `.git`.
pub open spec fn under_git_dir(p: Seq<char>) -> bool {
    exists|i: int| 0 <= i < components(p).len() - 1 && #[trigger] components(p)[i] == ".git"@
}

/// The path is the index file of a `.git` directory: its last two
/// components are `.git` and `index`.
pub open spec fn is_git_index(p: Seq<char>) -> bool {
    let c = components(p);
    c.len() >= 2 && c[c.len() - 2] == ".git"@ && c[c.len() - 1] == "index"@
}

/// The texts of a sequence of strings.
pub open spec fn texts(v: Seq<String>) -> Seq<Seq<char>> {
    v.map_values(|s: String| s@)
}

fn close_component(parts: &mut Vec<String>, cur: String)
    ensures
        texts(final(parts)@) == close_part(texts(old(parts)@), cur@),
{
    if !(cur.as_str().is_empty() || equal_text(cur.as_str(), ".")) {
        parts.push(cur);
        assert(texts(final(parts)@) =~= texts(old(parts)@).push(cur@));
    }
}

/// The components of `path`.
pub fn path_components(path: &str) -> (r: Vec<String>)
    ensures
        texts(r@) == components(path@),
{
    broadcast use vstd::string::axiom_spec_iter;

    let ghost p = path@;
    let mut parts: Vec<String> = Vec::new();
    let mut cur = String::new();
    for c in it: path.chars()
        invariant
            it.seq() == p,
            it.index() <= p.len(),
            texts(parts@) == scan_parts(p, it.index() as int).0,
            cur@ == scan_parts(p, it.index() as int).1,
    {
        assert(c == p[it.index() as int]);
        if c == '/' {
            close_component(&mut parts, cur);
            cur = String::new();
        } else {
            push_char(&mut cur, c);
        }
    }
    close_component(&mut parts, cur);
    parts
}

/// Whether a change at `path` should raise a signal: everything outside a
/// `.git` directory does, and inside one only the index file does.
pub fn should_emit_event(path: &str) -> (r: bool)
    ensures
        !under_git_dir(path@) ==> r,
        under_git_dir(path@) ==> (r == is_git_index(path@)),
{
    let parts = path_components(path);
    let ghost c = components(path@);
    let n = parts.len();
    assert(texts(parts@).len() == n);
    if n >= 2 && equal_text(parts[n - 2].as_str(), ".git") && equal_text(
        parts[n - 1].as_str(),
        "index",
    ) {
        assert(texts(parts@)[n - 2] == parts@[n - 2]@);
        assert(texts(parts@)[n - 1] == parts@[n - 1]@);
        return true;
    }
    assert(!is_git_index(path@)) by {
        if n >= 2 {
            assert(texts(parts@)[n - 2] == parts@[n - 2]@);
            assert(texts(parts@)[n - 1] == parts@[n - 1]@);
        }
    }
    let mut i: usize = 0;
    while n > 0 && i < n - 1
        invariant
            n == parts@.len(),
            c == texts(parts@),
            c == components(path@),
            !is_git_index(path@),
            i <= n,
            forall|k: int| 0 <= k < i && k < n - 1 ==> #[trigger] c[k] != ".git"@,
        decreases n - i,
    {
        if equal_text(parts[i].as_str(), ".git") {
            assert(c[i as int] == parts@[i as int]@);
            return false;
        }
        assert(c[i as int] == parts@[i as int]@);
        i = i + 1;
    }
    true
}

/// The kind of a raw filesystem event.
#[derive(Clone, Copy, Debug, PartialEq, Eq, Structural)]
pub enum EventKind {
    Any,
    Access,
    Create,
    Modify,
    Remove,
    Other,
}

/// Every kind of event reports a change except an access: opening, reading
/// or closing a file unwritten changes nothing, and reading the repository
/// to refresh its status must not count as a change of it.
pub open spec fn change_kind(k: EventKind) -> bool {
    k != EventKind::Access
}

/// Whether events of kind `kind` report a change.
pub fn is_change_kind(kind: EventKind) -> (r: bool)
    ensures
        r == change_kind(kind),
{
    match kind {
        EventKind::Access => false,
        _ => true,
    }
}

/// An event qualifies when it reports a change and one of its paths passes
/// the path filter.
pub open spec fn qualifies(kind: EventKind, paths: Seq<String>) -> bool {
    change_kind(kind) && exists|i: int|
        0 <= i < paths.len() && #[trigger] emits(paths[i]@)
}

/// The path filter as a predicate on the path's characters.
pub open spec fn emits(p: Seq<char>) -> bool {
    !under_git_dir(p) || is_git_index(p)
}

/// Whether an event of `kind` on `paths` qualifies.
pub fn event_qualifies(kind: EventKind, paths: &Vec<String>) -> (r: bool)
    ensures
        r == qualifies(kind, paths@),
{
    if !is_change_kind(kind) {
        return false;
    }
    let mut i: usize = 0;
    while i < paths.len()
        invariant
            i <= paths@.len(),
            change_kind(kind),
            forall|k: int| 0 <= k < i ==> !#[trigger] emits(paths@[k]@),
        decreases paths@.len() - i,
    {
        if should_emit_event(paths[i].as_str()) {
            assert(emits(paths@[i as int]@));
            return true;
        }
        i = i + 1;
    }
    false
}

/// The debounce stage: collects qualifying events and delivers them as one
/// batch once `DEBOUNCE_MS` have passed since the last of them. Times are
/// milliseconds on a clock the caller chooses.
pub struct Debouncer {
    pending: bool,
    last_event_ms: u64,
}

/// The mathematical value of a [`Debouncer`].
pub struct DebounceView {
    pub pending: bool,
    pub last_event_ms: u64,
}

impl View for Debouncer {
    type V = DebounceView;

    closed spec fn view(&self) -> DebounceView {
        DebounceView { pending: self.pending, last_event_ms: self.last_event_ms }
    }
}

/// A stage that holds no batch.
pub open spec fn idle() -> DebounceView {
    DebounceView { pending: false, last_event_ms: 0 }
}

/// The stage after an event at `now`: a qualifying event joins the batch
/// and restarts the window; any other event changes nothing.
pub open spec fn recorded(d: DebounceView, now: u64, qualifying: bool) -> DebounceView {
    if qualifying {
        DebounceView { pending: true, last_event_ms: now }
    } else {
        d
    }
}

/// The batch is due at `now`: it holds events and the window has passed.
pub open spec fn due(d: DebounceView, now: u64) -> bool {
    d.pending && now >= d.last_event_ms + DEBOUNCE_MS
}

/// The stage after a poll at `now`, and whether a signal is raised: a due
/// batch is delivered, and raises a signal only while reactivity is on.
pub open spec fn polled(d: DebounceView, now: u64, enabled: bool) -> (DebounceView, bool) {
    if due(d, now) {
        (idle(), enabled)
    } else {
        (d, false)
    }
}

/// When the pending batch becomes due, if there is one; saturates at the
/// end of the clock.
pub open spec fn deadline_of(d: DebounceView) -> Option<u64> {
    if !d.pending {
        None
    } else if d.last_event_ms + DEBOUNCE_MS <= u64::MAX {
        Some((d.last_event_ms + DEBOUNCE_MS) as u64)
    } else {
        Some(u64::MAX)
    }
}

/// The stage after a sequence of qualifying events at the given times.
pub open spec fn record_all(d: DebounceView, times: Seq<u64>) -> DebounceView
    decreases times.len(),
{
    if times.len() == 0 {
        d
    } else {
        recorded(record_all(d, times.drop_last()), times.last(), true)
    }
}

impl Debouncer {
    /// A stage with no batch.
    pub fn new() -> (r: Debouncer)
        ensures
            r@ == idle(),
    {
        Debouncer { pending: false, last_event_ms: 0 }
    }

    /// Whether a batch is waiting.
    pub fn is_pending(&self) -> (r: bool)
        ensures
            r == self@.pending,
    {
        self.pending
    }

    /// Takes an event at `now_ms` that qualifies or not.
    pub fn record(&mut self, now_ms: u64, qualifying: bool)
        ensures
            final(self)@ == recorded(old(self)@, now_ms, qualifying),
    {
        if qualifying {
            self.pending = true;
            self.last_event_ms = now_ms;
        }
    }

    /// When the pending batch becomes due, if there is one.
    pub fn deadline(&self) -> (r: Option<u64>)
        ensures
            r == deadline_of(self@),
    {
        if !self.pending {
            None
        } else if self.last_event_ms <= u64::MAX - DEBOUNCE_MS {
            Some(self.last_event_ms + DEBOUNCE_MS)
        } else {
            Some(u64::MAX)
        }
    }

    /// Delivers the batch if it is due at `now_ms`; returns whether a signal
    /// is to be raised.
    pub fn poll(&mut self, now_ms: u64, enabled: bool) -> (r: bool)
        ensures
            (final(self)@, r) == polled(old(self)@, now_ms, enabled),
    {
        if self.pending && now_ms >= self.last_event_ms && now_ms - self.last_event_ms
            >= DEBOUNCE_MS {
            self.pending = false;
            self.last_event_ms = 0;
            enabled
        } else {
            false
        }
    }
}

/// A batch of one or more qualifying events raises exactly one signal: none
/// while the window after the latest event runs, also between the events,
/// one when it has passed, and none after that until new events come.
pub proof fn lemma_one_signal_per_batch(d: DebounceView, times: Seq<u64>, early: u64, now: u64, later: u64)
    requires
        times.len() >= 1,
        early < times.last() + DEBOUNCE_MS,
        now >= times.last() + DEBOUNCE_MS,
    ensures
        forall|k: int, t: u64|
            1 <= k <= times.len() && t < times[k - 1] + DEBOUNCE_MS ==> #[trigger] polled(
                record_all(d, times.take(k)),
                t,
                true,
            ) == (record_all(d, times.take(k)), false),
        !polled(record_all(d, times), early, true).1,
        polled(record_all(d, times), early, true).0 == record_all(d, times),
        polled(record_all(d, times), now, true).1,
        !polled(polled(record_all(d, times), now, true).0, later, true).1,
{
    assert forall|k: int, t: u64|
        1 <= k <= times.len() && t < times[k - 1] + DEBOUNCE_MS implies #[trigger] polled(
            record_all(d, times.take(k)),
            t,
            true,
        ) == (record_all(d, times.take(k)), false) by {
        assert(times.take(k).last() == times[k - 1]);
    }
}

/// While reactivity is off no poll raises a signal, and a batch delivered
/// then is gone: turning reactivity back on raises nothing for it.
pub proof fn lemma_suppressed_while_disabled(d: DebounceView, now: u64, later: u64, enabled: bool)
    ensures
        !polled(d, now, false).1,
        due(d, now) ==> !polled(polled(d, now, false).0, later, enabled).1,
{
}

/// The watch session: the one active watch, if any, and the reactivity
/// switch. Dropping a watch tears it down.
pub struct WatcherState<W> {
    watcher: Option<W>,
    enabled: bool,
}

/// The mathematical value of a [`WatcherState`].
pub struct WatchView {
    pub watching: bool,
    pub enabled: bool,
}

impl<W> View for WatcherState<W> {
    type V = WatchView;

    closed spec fn view(&self) -> WatchView {
        WatchView { watching: self.watcher is Some, enabled: self.enabled }
    }
}

/// The session with its watch torn down; the switch stays.
pub open spec fn stopped(v: WatchView) -> WatchView {
    WatchView { watching: false, ..v }
}

/// Stopping twice is stopping once.
pub proof fn lemma_stop_idempotent(v: WatchView)
    ensures
        stopped(stopped(v)) == stopped(v),
{
}

impl<W> Default for WatcherState<W> {
    fn default() -> (r: WatcherState<W>)
        ensures
            r@ == (WatchView { watching: false, enabled: true }),
    {
        WatcherState { watcher: None, enabled: true }
    }
}

impl<W> WatcherState<W> {
    /// Whether delivered batches raise signals.
    pub fn is_enabled(&self) -> (r: bool)
        ensures
            r == self@.enabled,
    {
        self.enabled
    }

    /// Turns reactivity on or off; the watch itself is untouched.
    pub fn set_enabled(&mut self, enabled: bool)
        ensures
            final(self)@ == (WatchView { enabled, ..old(self)@ }),
    {
        self.enabled = enabled;
    }

    /// Whether a watch is active.
    pub fn is_watching(&self) -> (r: bool)
        ensures
            r == self@.watching,
    {
        self.watcher.is_some()
    }
}

/// Tears down the active watch, if any. Always succeeds.
pub fn stop_watching<W>(state: &mut WatcherState<W>)
    ensures
        final(state)@ == stopped(old(state)@),
{
    state.watcher = None;
}

/// Makes `installed` the active watch, after tearing down the one before.
/// A watch that could not be installed leaves the session without a watch
/// and hands the error back.
pub fn start_watching<W>(state: &mut WatcherState<W>, installed: Result<W, String>) -> (r: Result<
    (),
    String,
>)
    ensures
        installed matches Err(e) ==> final(state)@ == stopped(old(state)@) && r == Err::<(), String>(
            e,
        ),
        installed is Ok ==> final(state)@ == (WatchView {
            watching: true,
            enabled: old(state)@.enabled,
        }) && r is Ok,
{
    stop_watching(state);
    match installed {
        Ok(w) => {
            state.watcher = Some(w);
            Ok(())
        },
        Err(e) => Err(e),
    }
}

} // verus!
