//! The receptacle object: a fixed scene fixture that owns the touch plane
//! and the capture slot, and drives one scene tick.
//!
//! Each tick first applies any freshly committed surface metadata to the
//! touch plane's output ranges — through the held item's delta tracker, so
//! only an actual change re-points them, and contact state is never reset by
//! it — then runs the touch plane over the tick's input samples, and
//! forwards the resulting motion and button events exactly while a surface
//! is captured.

use vstd::prelude::*;
use crate::capture::{
    captured_transition, released_transition, spec_checked, spec_committed, CaptureSlot,
    CapturedItem, SurfaceMetadata,
};
use crate::geom::{sample_in_bounds, InputSample};
use crate::touch::{
    any_in_band, next_state, spec_best, spec_remap_x, spec_remap_y, OutputRange, TouchPlane,
};

verus! {

/// Touch plane width in `SCALE` units: 0.403122 meters.
pub const TOUCH_PLANE_WIDTH: i64 = 403_122;

/// Touch plane height in `SCALE` units: 0.313059 meters.
pub const TOUCH_PLANE_HEIGHT: i64 = 313_059;

/// Contact band thickness in `SCALE` units: 0.172038 meters.
pub const TOUCH_PLANE_THICKNESS: i64 = 172_038;

/// What one scene tick forwards to the captured surface: a pointer motion
/// while touched, and a button press or release on the contact transitions.
#[derive(Clone, Copy, Debug)]
pub struct FrameOutput {
    pub motion: Option<(i64, i64)>,
    pub press: bool,
    pub release: bool,
}

/// The receptacle with its touch plane and single capture slot.
#[derive(Debug)]
pub struct Poltergeist {
    pub touch: TouchPlane,
    pub slot: CaptureSlot,
}

/// The plane as the tick's remapping sees it: when the held surface's
/// metadata changed since the last tick and declares a pixel size, the
/// output ranges are first re-pointed at `[0, width] x [0, height]` pixels;
/// everything else about the plane, its contact state included, stays.
pub open spec fn effective_plane(p: TouchPlane, slot: CaptureSlot) -> TouchPlane {
    match slot.item {
        Some(it) => if it.metadata.changed {
            match it.metadata.value {
                Some(m) => TouchPlane {
                    x_range: OutputRange { min: 0, max: m.size_x as i64 },
                    y_range: OutputRange { min: 0, max: m.size_y as i64 },
                    ..p
                },
                None => p,
            }
        } else {
            p
        },
        None => p,
    }
}

impl Poltergeist {
    /// A fresh receptacle: the plane of the fixed screen model, untouched,
    /// with unit output ranges until a surface declares its size, and an
    /// empty capture slot.
    pub fn new() -> (r: Self)
        ensures
            r.touch.width == TOUCH_PLANE_WIDTH,
            r.touch.height == TOUCH_PLANE_HEIGHT,
            r.touch.thickness == TOUCH_PLANE_THICKNESS,
            r.touch.x_range == (OutputRange { min: 0, max: 1 }),
            r.touch.y_range == (OutputRange { min: 0, max: 1 }),
            r.touch.state is Idle,
            r.touch.wf(),
            r.slot.item is None,
    {
        Poltergeist {
            touch: TouchPlane::new(
                TOUCH_PLANE_WIDTH,
                TOUCH_PLANE_HEIGHT,
                TOUCH_PLANE_THICKNESS,
                OutputRange { min: 0, max: 1 },
                OutputRange { min: 0, max: 1 },
            ),
            slot: CaptureSlot::new(),
        }
    }

    /// One scene tick over this tick's input samples.
    ///
    /// The held item's metadata delta is consulted once: an actual change
    /// re-points the output ranges at the declared pixel size without
    /// touching contact state.  The touch plane then moves, and its events
    /// are forwarded exactly while a surface is captured: hover as pointer
    /// motion, the contact transitions as button press and release.
    pub fn frame(&mut self, samples: &Vec<InputSample>) -> (out: FrameOutput)
        requires
            old(self).touch.wf(),
            forall|i: int| 0 <= i < samples@.len() ==> sample_in_bounds(samples@[i]),
        ensures
            final(self).touch.wf(),
            match old(self).slot.item {
                Some(it) => final(self).slot.item matches Some(it2) && it2.uid == it.uid
                    && it2.metadata == spec_checked(it.metadata).0,
                None => final(self).slot.item is None,
            },
            ({
                let eff = effective_plane(old(self).touch, old(self).slot);
                let touched = any_in_band(samples@, eff.thickness as int);
                &&& final(self).touch.width == eff.width
                &&& final(self).touch.height == eff.height
                &&& final(self).touch.thickness == eff.thickness
                &&& final(self).touch.x_range == eff.x_range
                &&& final(self).touch.y_range == eff.y_range
                &&& final(self).touch.state == next_state(touched)
                &&& out.press == (old(self).slot.item is Some && old(self).touch.state is Idle
                    && touched)
                &&& out.release == (old(self).slot.item is Some && old(
                    self,
                ).touch.state is Touching && !touched)
                &&& (out.motion is Some <==> (old(self).slot.item is Some && touched))
                &&& (out.motion matches Some(h) ==> spec_best(samples@) matches Some(b) && h.0
                    == spec_remap_x(eff, b.0) && h.1 == spec_remap_y(eff, b.1))
            }),
    {
        match self.slot.take_changed() {
            Option::Some(Option::Some(m)) => {
                self.touch.set_x_range(OutputRange { min: 0, max: m.size_x as i64 });
                self.touch.set_y_range(OutputRange { min: 0, max: m.size_y as i64 });
            },
            _ => {},
        }
        let ev = self.touch.update(samples);
        let occupied = self.slot.is_occupied();
        if occupied {
            FrameOutput { motion: ev.hover, press: ev.started, release: ev.stopped }
        } else {
            FrameOutput { motion: Option::None, press: false, release: false }
        }
    }

    /// The acceptor handed us a surface: capture it, evicting whatever was
    /// held; the caller tears down the evicted item's resources.
    pub fn captured(&mut self, uid: String, metadata: Option<SurfaceMetadata>) -> (evicted: Option<
        CapturedItem,
    >)
        ensures
            captured_transition(old(self).slot, uid@, metadata, final(self).slot, evicted),
            final(self).touch == old(self).touch,
    {
        self.slot.captured(uid, metadata)
    }

    /// The acceptor reports a surface released; honored only when the uid
    /// names the held item.
    pub fn released(&mut self, uid: &String) -> (evicted: Option<CapturedItem>)
        ensures
            released_transition(old(self).slot, uid@, final(self).slot, evicted),
            final(self).touch == old(self).touch,
    {
        self.slot.released(uid)
    }

    /// The held surface committed new metadata; recorded on its delta
    /// tracker, applied to the plane on the next tick.
    pub fn metadata_committed(&mut self, v: Option<SurfaceMetadata>)
        ensures
            final(self).touch == old(self).touch,
            match old(self).slot.item {
                Some(it) => final(self).slot.item matches Some(it2) && it2.uid == it.uid
                    && it2.metadata == spec_committed(it.metadata, v),
                None => final(self).slot.item is None,
            },
    {
        self.slot.metadata_committed(v)
    }
}

} // verus!
