//! Filesystem events as the file-event trigger sees them: the relevance
//! filter and the debounce that suppresses a duplicate event arriving
//! within a fixed window of the previously forwarded one.

use vstd::prelude::*;

use crate::text::str_eq;

verus! {

/// How long after a forwarded event an identical one is suppressed, in
/// milliseconds.
pub const DEBOUNCE_MS: u64 = 500;

/// The kind of a raw filesystem change notification.
#[derive(Debug, Clone, Copy, PartialEq, Eq, Structural)]
pub enum EventKind {
    Create,
    Modify,
    Remove,
    /// A pure access: watched but never acted on.
    Access,
    /// Anything else the watch primitive may deliver.
    Other,
}

/// One raw filesystem change notification: its kind and the paths it
/// touched.
#[derive(Debug, Clone)]
pub struct FileEvent {
    pub kind: EventKind,
    pub paths: Vec<String>,
}

/// The mathematical value of a [`FileEvent`].
pub struct FileEventView {
    pub kind: EventKind,
    pub paths: Seq<Seq<char>>,
}

impl View for FileEvent {
    type V = FileEventView;

    open spec fn view(&self) -> FileEventView {
        FileEventView { kind: self.kind, paths: self.paths@.map_values(|p: String| p@) }
    }
}

/// Only created, modified and removed count; accesses and anything else
/// are dropped silently.
pub open spec fn spec_relevant(k: EventKind) -> bool {
    k == EventKind::Create || k == EventKind::Modify || k == EventKind::Remove
}

/// Whether an event is relevant to the trigger.
#[verifier::when_used_as_spec(spec_relevant)]
pub fn relevant(k: EventKind) -> (r: bool)
    ensures
        r == spec_relevant(k),
{
    match k {
        EventKind::Create => true,
        EventKind::Modify => true,
        EventKind::Remove => true,
        EventKind::Access => false,
        EventKind::Other => false,
    }
}

/// Structural identity of two events: same kind, same paths.
pub fn events_equal(a: &FileEvent, b: &FileEvent) -> (r: bool)
    ensures
        r == (a@ == b@),
{
    if a.kind != b.kind {
        return false;
    }
    let n = a.paths.len();
    if n != b.paths.len() {
        proof {
            assert(a@.paths.len() != b@.paths.len());
        }
        return false;
    }
    let mut i: usize = 0;
    while i < n
        invariant
            i <= n,
            n == a@.paths.len(),
            n == b@.paths.len(),
            forall|j: int| 0 <= j < i ==> a@.paths[j] == b@.paths[j],
        decreases n - i,
    {
        if !str_eq(a.paths[i].as_str(), b.paths[i].as_str()) {
            proof {
                assert(a@.paths[i as int] != b@.paths[i as int]);
            }
            return false;
        }
        i = i + 1;
    }
    proof {
        assert(a@.paths =~= b@.paths);
    }
    true
}

/// The debounce memory of a file-event trigger: the previously forwarded
/// event and the time it was forwarded, once one has been.
pub struct DebounceState {
    prev: Option<(FileEvent, u64)>,
}

/// The mathematical value of a [`DebounceState`].
pub struct DebounceStateView {
    pub prev: Option<(FileEventView, u64)>,
}

impl View for DebounceState {
    type V = DebounceStateView;

    closed spec fn view(&self) -> DebounceStateView {
        match self.prev {
            Some((e, t)) => DebounceStateView { prev: Some((e@, t)) },
            None => DebounceStateView { prev: None },
        }
    }
}

/// An event is suppressed when it is structurally identical to the
/// previously forwarded event and arrives within the debounce window of
/// that event's forwarding time.
pub open spec fn spec_suppressed(st: DebounceStateView, e: FileEventView, now_ms: u64) -> bool {
    match st.prev {
        Some(p) => p.0 == e && (now_ms as int) < p.1 + DEBOUNCE_MS,
        None => false,
    }
}

/// A relevant event that is not suppressed is forwarded.
pub open spec fn spec_forwards(st: DebounceStateView, e: FileEventView, now_ms: u64) -> bool {
    spec_relevant(e.kind) && !spec_suppressed(st, e, now_ms)
}

/// The debounce memory after one event: a forwarded event becomes the new
/// previous event with its forwarding time; a dropped one leaves the
/// memory unchanged.
pub open spec fn spec_debounce_next(
    st: DebounceStateView,
    e: FileEventView,
    now_ms: u64,
) -> DebounceStateView {
    if spec_forwards(st, e, now_ms) {
        DebounceStateView { prev: Some((e, now_ms)) }
    } else {
        st
    }
}

impl DebounceState {
    /// A fresh trigger remembers nothing.
    pub fn new() -> (r: Self)
        ensures
            r@.prev is None,
    {
        DebounceState { prev: None }
    }

    /// Handles one raw event arriving at `now_ms` (a monotonic reading in
    /// milliseconds): decides whether it is forwarded to the monitor, and
    /// updates the memory accordingly. Irrelevant events are dropped
    /// without touching the memory.
    pub fn handle_event(&mut self, event: FileEvent, now_ms: u64) -> (forward: bool)
        ensures
            forward == spec_forwards(old(self)@, event@, now_ms),
            final(self)@ == spec_debounce_next(old(self)@, event@, now_ms),
    {
        if !relevant(event.kind) {
            return false;
        }
        let suppressed = match &self.prev {
            Some((p, t)) => events_equal(p, &event) && (now_ms < *t || now_ms - *t < DEBOUNCE_MS),
            None => false,
        };
        if suppressed {
            false
        } else {
            self.prev = Some((event, now_ms));
            true
        }
    }
}

/// The debounce law: once an event was forwarded at time `t`, an
/// identical event arriving within the window is dropped, an identical
/// event arriving at or past the window's edge is forwarded, and a
/// different relevant event is forwarded whenever it arrives.
pub proof fn lemma_debounce(
    st: DebounceStateView,
    e: FileEventView,
    t: u64,
    e2: FileEventView,
    t2: u64,
)
    requires
        spec_forwards(st, e, t),
    ensures
        ({
            let after = spec_debounce_next(st, e, t);
            &&& ((e2 == e && (t2 as int) < t + DEBOUNCE_MS) ==> !spec_forwards(after, e2, t2))
            &&& ((e2 == e && (t2 as int) >= t + DEBOUNCE_MS) ==> spec_forwards(after, e2, t2))
            &&& ((e2 != e && spec_relevant(e2.kind)) ==> spec_forwards(after, e2, t2))
        }),
{
}

} // verus!
