//! The registry of live panels, keyed by their uid.
//!
//! The scene announces panels coming and going, captures and releases, and
//! per-tick grab transitions; the registry dispatches each notification to
//! the panel it names and ignores uids it does not know.  At most one panel
//! exists per uid.

use vstd::prelude::*;
use crate::capture::SurfaceMetadata;
use crate::panel::{spec_panel_scale, PanelItemUI};

verus! {

/// One grab transition observed on a panel this tick.
#[derive(Debug)]
pub struct GrabEvent {
    pub uid: String,
    pub started: bool,
    pub stopped: bool,
}

/// A tick's outcome for one grab event; nothing happens when the uid names
/// no known panel.
#[derive(Clone, Copy, Debug, PartialEq, Eq, Structural)]
pub struct PanelAction {
    pub known: bool,
    pub reparent: bool,
    pub resolve_docking: bool,
}

/// The live panels, each under its uid.
#[derive(Debug)]
pub struct PanelItemUIHandler {
    pub items: Vec<(String, PanelItemUI)>,
}

impl PanelItemUIHandler {
    /// Uids are unique: at most one panel per uid.
    pub open spec fn wf(self) -> bool {
        forall|i: int, j: int|
            0 <= i < j < self.items@.len() ==> (#[trigger] self.items@[i]).0@ != (
            #[trigger] self.items@[j]).0@
    }

    pub open spec fn has_panel(self, uid: Seq<char>) -> bool {
        exists|i: int| 0 <= i < self.items@.len() && (#[trigger] self.items@[i]).0@ == uid
    }

    /// An empty registry.
    pub fn new() -> (r: Self)
        ensures
            r.items@.len() == 0,
            r.wf(),
    {
        PanelItemUIHandler { items: Vec::new() }
    }

    /// The position of the panel with this uid.
    fn find_index(&self, uid: &String) -> (r: Option<usize>)
        ensures
            match r {
                Some(i) => i < self.items@.len() && self.items@[i as int].0@ == uid@,
                None => !self.has_panel(uid@),
            },
    {
        let mut i: usize = 0;
        while i < self.items.len()
            invariant
                0 <= i <= self.items@.len(),
                forall|k: int| 0 <= k < i ==> (#[trigger] self.items@[k]).0@ != uid@,
            decreases self.items@.len() - i,
        {
            if self.items[i].0 == *uid {
                return Option::Some(i);
            }
            i += 1;
        }
        Option::None
    }

    /// A new panel appeared: register it with its initial toplevel state
    /// committed, and hand back the card scale that state calls for.  A uid
    /// already present has its panel replaced.
    pub fn item_created(&mut self, uid: String, init: Option<SurfaceMetadata>) -> (scale: (
        i64,
        i64,
        i64,
    ))
        requires
            old(self).wf(),
        ensures
            final(self).wf(),
            (scale.0 as int, scale.1 as int, scale.2 as int) == spec_panel_scale(init),
            old(self).has_panel(uid@) ==> exists|i: int|
                0 <= i < old(self).items@.len() && (#[trigger] old(self).items@[i]).0@ == uid@
                    && final(self).items@ == old(self).items@.update(
                    i,
                    (uid, (PanelItemUI { captured: false, toplevel: init })),
                ),
            !old(self).has_panel(uid@) ==> final(self).items@ == old(self).items@.push(
                (uid, (PanelItemUI { captured: false, toplevel: init })),
            ),
    {
        let (ui, scale) = PanelItemUI::new(init);
        match self.find_index(&uid) {
            Option::Some(i) => {
                let ghost pre = self.items@;
                self.items[i] = (uid, ui);
                proof {
                    assert forall|a: int, b: int|
                        0 <= a < b < self.items@.len() implies (#[trigger] self.items@[a]).0@ != (
                    #[trigger] self.items@[b]).0@ by {
                        assert(pre[a].0@ != pre[b].0@);
                        assert(self.items@[a] == if a == i {
                            (uid, ui)
                        } else {
                            pre[a]
                        });
                        assert(self.items@[b] == if b == i {
                            (uid, ui)
                        } else {
                            pre[b]
                        });
                    }
                }
            },
            Option::None => {
                let ghost pre = self.items@;
                self.items.push((uid, ui));
                proof {
                    assert forall|a: int, b: int|
                        0 <= a < b < self.items@.len() implies (#[trigger] self.items@[a]).0@ != (
                    #[trigger] self.items@[b]).0@ by {
                        if b < pre.len() {
                            assert(pre[a].0@ != pre[b].0@);
                        } else {
                            assert(self.items@[a] == pre[a]);
                            assert(!(0 <= a < pre.len() && pre[a].0@ == uid@));
                        }
                    }
                }
            },
        }
        scale
    }

    /// The scene reports this panel captured by a receptacle: mark it.
    pub fn item_captured(&mut self, uid: &String, acceptor_uid: &String)
        requires
            old(self).wf(),
        ensures
            final(self).wf(),
            !old(self).has_panel(uid@) ==> final(self).items@ == old(self).items@,
            old(self).has_panel(uid@) ==> exists|i: int|
                0 <= i < old(self).items@.len() && (#[trigger] old(self).items@[i]).0@ == uid@
                    && final(self).items@ == old(self).items@.update(
                    i,
                    (
                        old(self).items@[i].0,
                        (PanelItemUI { captured: true, toplevel: old(self).items@[i].1.toplevel }),
                    ),
                ),
    {
        match self.find_index(uid) {
            Option::Some(i) => {
                let ghost pre = self.items@;
                let mut p: PanelItemUI = self.items[i].1;
                p.captured(acceptor_uid);
                self.items[i].1 = p;
                proof {
                    lemma_update_same_uid(pre, self.items@, i as int);
                }
            },
            Option::None => {},
        }
    }

    /// The scene reports this panel released by a receptacle: unmark it.
    pub fn item_released(&mut self, uid: &String, acceptor_uid: &String)
        requires
            old(self).wf(),
        ensures
            final(self).wf(),
            !old(self).has_panel(uid@) ==> final(self).items@ == old(self).items@,
            old(self).has_panel(uid@) ==> exists|i: int|
                0 <= i < old(self).items@.len() && (#[trigger] old(self).items@[i]).0@ == uid@
                    && final(self).items@ == old(self).items@.update(
                    i,
                    (
                        old(self).items@[i].0,
                        (PanelItemUI { captured: false, toplevel: old(self).items@[i].1.toplevel }),
                    ),
                ),
    {
        match self.find_index(uid) {
            Option::Some(i) => {
                let ghost pre = self.items@;
                let mut p: PanelItemUI = self.items[i].1;
                p.released(acceptor_uid);
                self.items[i].1 = p;
                proof {
                    lemma_update_same_uid(pre, self.items@, i as int);
                }
            },
            Option::None => {},
        }
    }

    /// A panel disappeared: drop it from the registry.
    pub fn item_destroyed(&mut self, uid: &String)
        requires
            old(self).wf(),
        ensures
            final(self).wf(),
            !old(self).has_panel(uid@) ==> final(self).items@ == old(self).items@,
            old(self).has_panel(uid@) ==> exists|i: int|
                0 <= i < old(self).items@.len() && (#[trigger] old(self).items@[i]).0@ == uid@
                    && final(self).items@ == old(self).items@.remove(i),
    {
        match self.find_index(uid) {
            Option::Some(i) => {
                let ghost pre = self.items@;
                self.items.remove(i);
                proof {
                    assert forall|a: int, b: int|
                        0 <= a < b < self.items@.len() implies (#[trigger] self.items@[a]).0@ != (
                    #[trigger] self.items@[b]).0@ by {
                        let a0 = if a < i {
                            a
                        } else {
                            a + 1
                        };
                        let b0 = if b < i {
                            b
                        } else {
                            b + 1
                        };
                        assert(self.items@[a] == pre[a0]);
                        assert(self.items@[b] == pre[b0]);
                        assert(pre[a0].0@ != pre[b0].0@);
                    }
                }
            },
            Option::None => {},
        }
    }

    /// One scene tick: each grab event is dispatched to the panel its uid
    /// names — a re-parent when the grab began, one docking resolution when
    /// it ended — and events naming unknown panels do nothing.
    pub fn frame(&self, grabs: &Vec<GrabEvent>) -> (actions: Vec<PanelAction>)
        ensures
            actions@.len() == grabs@.len(),
            forall|k: int|
                0 <= k < grabs@.len() ==> #[trigger] actions@[k] == (PanelAction {
                    known: self.has_panel(grabs@[k].uid@),
                    reparent: self.has_panel(grabs@[k].uid@) && grabs@[k].started,
                    resolve_docking: self.has_panel(grabs@[k].uid@) && grabs@[k].stopped,
                }),
    {
        let mut actions: Vec<PanelAction> = Vec::new();
        let mut k: usize = 0;
        while k < grabs.len()
            invariant
                0 <= k <= grabs@.len(),
                actions@.len() == k,
                forall|m: int|
                    0 <= m < k ==> #[trigger] actions@[m] == (PanelAction {
                        known: self.has_panel(grabs@[m].uid@),
                        reparent: self.has_panel(grabs@[m].uid@) && grabs@[m].started,
                        resolve_docking: self.has_panel(grabs@[m].uid@) && grabs@[m].stopped,
                    }),
            decreases grabs@.len() - k,
        {
            let g = &grabs[k];
            let action: PanelAction = match self.find_index(&g.uid) {
                Option::Some(i) => {
                    let a = self.items[i].1.frame(g.started, g.stopped);
                    proof {
                        assert(self.has_panel(g.uid@));
                    }
                    PanelAction { known: true, reparent: a.reparent, resolve_docking: a.resolve_docking }
                },
                Option::None => PanelAction { known: false, reparent: false, resolve_docking: false },
            };
            actions.push(action);
            k += 1;
        }
        actions
    }
}

/// Replacing the panel at `i` while keeping its uid's characters preserves
/// uid uniqueness.
proof fn lemma_update_same_uid(
    pre: Seq<(String, PanelItemUI)>,
    post: Seq<(String, PanelItemUI)>,
    i: int,
)
    requires
        0 <= i < pre.len(),
        post.len() == pre.len(),
        forall|k: int| 0 <= k < pre.len() && k != i ==> post[k] == pre[k],
        post[i].0@ == pre[i].0@,
        forall|a: int, b: int| 0 <= a < b < pre.len() ==> (#[trigger] pre[a]).0@ != (
        #[trigger] pre[b]).0@,
    ensures
        forall|a: int, b: int| 0 <= a < b < post.len() ==> (#[trigger] post[a]).0@ != (
        #[trigger] post[b]).0@,
{
    assert forall|a: int, b: int| 0 <= a < b < post.len() implies (#[trigger] post[a]).0@ != (
    #[trigger] post[b]).0@ by {
        assert(pre[a].0@ != pre[b].0@);
    }
}

} // verus!
