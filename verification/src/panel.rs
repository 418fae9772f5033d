//! Per-panel state on the movable side: whether the panel is captured, its
//! last committed toplevel metadata, and the decisions its scene tick takes.
//!
//! A panel is drawn as a card whose width and thickness are fixed and whose
//! height follows the surface's aspect ratio; committing new toplevel
//! metadata yields the card's new scale.  Each tick, the end of a manual
//! grab is what triggers one docking resolution.

use vstd::prelude::*;
use crate::capture::SurfaceMetadata;
use crate::fixed::{div_trunc, div_trunc_i128, lemma_div_trunc_bound};

verus! {

/// Card width (and default height) in `SCALE` units: 0.1 meters.
pub const PANEL_WIDTH: i64 = 100_000;

/// Card thickness in `SCALE` units: 0.01 meters.
pub const PANEL_THICKNESS: i64 = 10_000;

/// `PANEL_WIDTH` times the largest `u32`, bounding the scale numerator.
pub const PANEL_NUMERATOR_LIMIT: i64 = 429_496_729_500_000;

/// What a panel's scene tick asks its surroundings to do.
#[derive(Clone, Copy, Debug, PartialEq, Eq, Structural)]
pub struct PanelFrameAction {
    /// A manual grab just began: the panel follows the grab.
    pub reparent: bool,
    /// A manual grab just ended: run one docking resolution.
    pub resolve_docking: bool,
}

/// The card scale for a committed toplevel state: width is fixed, height
/// follows the surface's pixel aspect ratio, thickness is fixed.  An absent
/// state, or a degenerate zero-width one, falls back to a square card.
pub open spec fn spec_panel_scale(state: Option<SurfaceMetadata>) -> (int, int, int) {
    match state {
        Some(t) => if t.size_x > 0 {
            (
                PANEL_WIDTH as int,
                div_trunc((PANEL_WIDTH as int) * (t.size_y as int), t.size_x as int),
                PANEL_THICKNESS as int,
            )
        } else {
            (PANEL_WIDTH as int, PANEL_WIDTH as int, PANEL_THICKNESS as int)
        },
        None => (PANEL_WIDTH as int, PANEL_WIDTH as int, PANEL_THICKNESS as int),
    }
}

/// One movable panel.
#[derive(Clone, Copy, Debug, PartialEq, Eq, Structural)]
pub struct PanelItemUI {
    /// Whether some receptacle currently holds this panel.
    pub captured: bool,
    /// The last committed toplevel metadata, absent until the surface
    /// declares one.
    pub toplevel: Option<SurfaceMetadata>,
}

impl PanelItemUI {
    /// A fresh panel: not captured, with the initial toplevel state
    /// committed at once, yielding the card's initial scale.
    pub fn new(init: Option<SurfaceMetadata>) -> (r: (Self, (i64, i64, i64)))
        ensures
            r.0.captured == false,
            r.0.toplevel == init,
            (r.1.0 as int, r.1.1 as int, r.1.2 as int) == spec_panel_scale(init),
    {
        let mut ui = PanelItemUI { captured: false, toplevel: Option::None };
        let scale = ui.commit_toplevel(init);
        (ui, scale)
    }

    /// Commit a toplevel state and hand back the card scale it calls for.
    pub fn commit_toplevel(&mut self, state: Option<SurfaceMetadata>) -> (scale: (i64, i64, i64))
        ensures
            final(self).captured == old(self).captured,
            final(self).toplevel == state,
            (scale.0 as int, scale.1 as int, scale.2 as int) == spec_panel_scale(state),
    {
        self.toplevel = state;
        let height: i64 = match &state {
            Option::Some(t) => {
                if t.size_x > 0 {
                    proof {
                        lemma_div_trunc_bound(
                            (PANEL_WIDTH as int) * (t.size_y as int),
                            t.size_x as int,
                            PANEL_NUMERATOR_LIMIT as int,
                        );
                    }
                    div_trunc_i128(
                        (PANEL_WIDTH as i128) * (t.size_y as i128),
                        t.size_x as i128,
                    ) as i64
                } else {
                    PANEL_WIDTH
                }
            },
            Option::None => PANEL_WIDTH,
        };
        (PANEL_WIDTH, height, PANEL_THICKNESS)
    }

    /// A receptacle captured this panel.
    pub fn captured(&mut self, _acceptor_uid: &String)
        ensures
            final(self).captured == true,
            final(self).toplevel == old(self).toplevel,
    {
        self.captured = true;
    }

    /// A receptacle released this panel.
    pub fn released(&mut self, _acceptor_uid: &String)
        ensures
            final(self).captured == false,
            final(self).toplevel == old(self).toplevel,
    {
        self.captured = false;
    }

    /// One scene tick: the start of a manual grab re-parents the panel onto
    /// the grab, its end triggers exactly one docking resolution.
    pub fn frame(&self, grab_started: bool, grab_stopped: bool) -> (a: PanelFrameAction)
        ensures
            a.reparent == grab_started,
            a.resolve_docking == grab_stopped,
    {
        PanelFrameAction { reparent: grab_started, resolve_docking: grab_stopped }
    }
}

} // verus!
