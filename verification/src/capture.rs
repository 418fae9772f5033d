//! The capture slot: single-slot ownership of the docked surface.
//!
//! A receptacle holds at most one captured surface.  A new capture evicts
//! whatever the slot held, unconditionally; a release clears the slot only
//! when its uid names the item actually held, so a stale release racing a
//! newer capture is ignored.  Each held item carries a delta tracker over
//! the surface's asynchronously committed metadata, so dependent state is
//! recomputed exactly when the metadata actually changed.

use vstd::prelude::*;

verus! {

/// What the remote surface has declared about itself: its pixel size and
/// whether it is activated.
#[derive(Clone, Copy, Debug, PartialEq, Eq, Structural)]
pub struct SurfaceMetadata {
    pub size_x: u32,
    pub size_y: u32,
    pub activated: bool,
}

/// Remembers the last observed metadata value and whether it has changed
/// since the last check.  The value may be absent: the remote side commits
/// it asynchronously.
#[derive(Clone, Copy, Debug, PartialEq, Eq, Structural)]
pub struct DeltaTracker {
    pub value: Option<SurfaceMetadata>,
    pub changed: bool,
}

/// A fresh tracker: its first check always reports a change, whatever the
/// initial value, so dependent state is initialized on the first tick.
pub open spec fn spec_tracker_new(v: Option<SurfaceMetadata>) -> DeltaTracker {
    DeltaTracker { value: v, changed: true }
}

/// A committed value marks the tracker changed exactly when it differs from
/// the value held.
pub open spec fn spec_committed(t: DeltaTracker, v: Option<SurfaceMetadata>) -> DeltaTracker {
    DeltaTracker { value: v, changed: t.changed || v != t.value }
}

/// A check hands out the pending flag and clears it.
pub open spec fn spec_checked(t: DeltaTracker) -> (DeltaTracker, bool) {
    (DeltaTracker { value: t.value, changed: false }, t.changed)
}

impl DeltaTracker {
    pub fn new(v: Option<SurfaceMetadata>) -> (r: Self)
        ensures
            r == spec_tracker_new(v),
    {
        DeltaTracker { value: v, changed: true }
    }

    /// Record a newly committed metadata value.
    pub fn commit(&mut self, v: Option<SurfaceMetadata>)
        ensures
            *final(self) == spec_committed(*old(self), v),
    {
        if v != self.value {
            self.changed = true;
        }
        self.value = v;
    }

    /// Did the value change since the last check?  Reports each change once.
    pub fn check_changed(&mut self) -> (r: bool)
        ensures
            r == old(self).changed,
            *final(self) == spec_checked(*old(self)).0,
    {
        let r = self.changed;
        self.changed = false;
        r
    }
}

/// The delta tracker reports each change exactly once.  A fresh tracker's
/// first check fires whatever its value holds, even an absent one; a check
/// right after a check never fires; and after a check, a commit makes the
/// next check fire exactly when the committed value differs from the one
/// held — committing the value already held keeps the tracker quiet.
pub proof fn lemma_delta_reports_once(t: DeltaTracker, v: Option<SurfaceMetadata>)
    ensures
        spec_checked(spec_tracker_new(v)).1 == true,
        spec_checked(spec_checked(t).0).1 == false,
        spec_checked(spec_committed(spec_checked(t).0, v)).1 == (v != t.value),
{
}

/// The one item a receptacle can hold: the captured surface's uid and the
/// delta tracker over its metadata.  The caller owns the surface handle and
/// keyboard relay tied to this uid; handing the item back out of the slot is
/// what tears them down, so each is released exactly once.
#[derive(Debug)]
pub struct CapturedItem {
    pub uid: String,
    pub metadata: DeltaTracker,
}

/// Holds at most one [`CapturedItem`].
#[derive(Debug)]
pub struct CaptureSlot {
    pub item: Option<CapturedItem>,
}

/// What a capture does: the old item, whatever it was, is handed back for
/// teardown, and the slot holds a fresh item whose tracker starts marked
/// changed.
pub open spec fn captured_transition(
    pre: CaptureSlot,
    uid: Seq<char>,
    metadata: Option<SurfaceMetadata>,
    post: CaptureSlot,
    evicted: Option<CapturedItem>,
) -> bool {
    &&& evicted == pre.item
    &&& post.item matches Some(it) && it.uid@ == uid && it.metadata == spec_tracker_new(metadata)
}

/// What a release does: the slot empties and hands its item back only when
/// the given uid names the item actually held; otherwise — the slot is
/// empty, or holds a different item — nothing happens.
pub open spec fn released_transition(
    pre: CaptureSlot,
    uid: Seq<char>,
    post: CaptureSlot,
    evicted: Option<CapturedItem>,
) -> bool {
    match pre.item {
        Some(it) => if it.uid@ == uid {
            post.item is None && evicted == Some(it)
        } else {
            post.item == pre.item && evicted is None
        },
        None => post.item is None && evicted is None,
    }
}

impl CaptureSlot {
    /// The slot starts empty.
    pub fn new() -> (r: Self)
        ensures
            r.item is None,
    {
        CaptureSlot { item: Option::None }
    }

    pub fn is_occupied(&self) -> (r: bool)
        ensures
            r == (self.item is Some),
    {
        self.item.is_some()
    }

    /// A capture event: evict whatever is held — eviction is unconditional,
    /// with no comparison of old and new uid — and hold the new item, its
    /// metadata tracker freshly created and so marked changed.
    pub fn captured(&mut self, uid: String, metadata: Option<SurfaceMetadata>) -> (evicted: Option<
        CapturedItem,
    >)
        ensures
            captured_transition(*old(self), uid@, metadata, *final(self), evicted),
    {
        let evicted = self.item.take();
        self.item = Option::Some(CapturedItem { uid, metadata: DeltaTracker::new(metadata) });
        evicted
    }

    /// A release notification: honored only when the uid matches the held
    /// item, so a stale or duplicate release — one racing a newer capture —
    /// is ignored.
    pub fn released(&mut self, uid: &String) -> (evicted: Option<CapturedItem>)
        ensures
            released_transition(*old(self), uid@, *final(self), evicted),
    {
        let matched: bool = match &self.item {
            Option::Some(it) => it.uid == *uid,
            Option::None => false,
        };
        if matched {
            self.item.take()
        } else {
            Option::None
        }
    }

    /// A metadata commit from the remote surface: recorded on the held
    /// item's tracker; a commit while empty is a no-op.
    pub fn metadata_committed(&mut self, v: Option<SurfaceMetadata>)
        ensures
            match old(self).item {
                Some(it) => final(self).item matches Some(it2) && it2.uid == it.uid && it2.metadata
                    == spec_committed(it.metadata, v),
                None => final(self).item is None,
            },
    {
        match &mut self.item {
            Option::Some(it) => it.metadata.commit(v),
            Option::None => {},
        }
    }

    /// The per-tick delta check: `None` when the slot is empty or nothing
    /// changed since the last check; otherwise the (possibly absent)
    /// metadata value to recompute dependent state from, reported once.
    pub fn take_changed(&mut self) -> (r: Option<Option<SurfaceMetadata>>)
        ensures
            match old(self).item {
                Some(it) => {
                    &&& final(self).item matches Some(it2) && it2.uid == it.uid && it2.metadata
                        == spec_checked(it.metadata).0
                    &&& r == (if it.metadata.changed {
                        Option::Some(it.metadata.value)
                    } else {
                        Option::None
                    })
                },
                None => final(self).item is None && r is None,
            },
    {
        match &mut self.item {
            Option::Some(it) => {
                if it.metadata.check_changed() {
                    Option::Some(it.metadata.value)
                } else {
                    Option::None
                }
            },
            Option::None => Option::None,
        }
    }
}

/// A capture immediately followed by a capture: the slot ends up occupied by
/// the second item, and the first item was handed back — for the teardown of
/// its handle and relay — by the second call and by it alone.
pub proof fn lemma_capture_preempts(
    s0: CaptureSlot,
    s1: CaptureSlot,
    s2: CaptureSlot,
    uid_a: Seq<char>,
    uid_b: Seq<char>,
    meta_a: Option<SurfaceMetadata>,
    meta_b: Option<SurfaceMetadata>,
    e1: Option<CapturedItem>,
    e2: Option<CapturedItem>,
)
    requires
        captured_transition(s0, uid_a, meta_a, s1, e1),
        captured_transition(s1, uid_b, meta_b, s2, e2),
    ensures
        s2.item matches Some(it) && it.uid@ == uid_b,
        e2 matches Some(it) && it.uid@ == uid_a,
{
}

/// A release naming some other uid than the held one leaves the slot
/// exactly as it was, holding the same item.
pub proof fn lemma_stale_release_ignored(
    s0: CaptureSlot,
    s1: CaptureSlot,
    uid: Seq<char>,
    evicted: Option<CapturedItem>,
)
    requires
        released_transition(s0, uid, s1, evicted),
        s0.item matches Some(it) && it.uid@ != uid,
    ensures
        s1.item == s0.item,
        evicted is None,
{
}

} // verus!
