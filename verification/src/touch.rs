//! The touch plane: per-tick contact detection and coordinate remapping.
//!
//! Once per scene tick the plane is handed every input sample.  Samples that
//! project onto the surface ([`crate::geom::project`]) compete: the one with
//! the smallest depth is the active touch, earlier samples winning ties.
//! The plane is touched exactly when some projected sample's depth lies in
//! the contact band `[0, thickness]`; the transitions into and out of that
//! condition are reported as touch-started and touch-stopped events, while
//! presence inside the band yields a hover coordinate, remapped from
//! plane-local meters to the configured output ranges.

use vstd::prelude::*;
use crate::fixed::{div_trunc, div_trunc_i128, lemma_div_trunc_bound, lemma_mul_bound, COORD_LIMIT};
use crate::geom::{project, sample_in_bounds, spec_project, InputSample, Projection};

verus! {

/// Magnitude cap on output range endpoints; admits any `u32` pixel size.
pub const RANGE_LIMIT: i64 = 10_000_000_000;

/// Whether the plane currently counts as touched.
#[derive(Clone, Copy, Debug, PartialEq, Eq, Structural)]
pub enum ContactState {
    Idle,
    Touching,
}

/// One output range: plane-local meters are remapped onto `[min, max]`
/// destination units (typically surface pixels).
#[derive(Clone, Copy, Debug, PartialEq, Eq, Structural)]
pub struct OutputRange {
    pub min: i64,
    pub max: i64,
}

/// What one tick reported: at most one transition event, and the hover
/// coordinate while touched.
#[derive(Clone, Copy, Debug)]
pub struct TickEvents {
    pub started: bool,
    pub stopped: bool,
    pub hover: Option<(i64, i64)>,
}

/// A bounded rectangular touch surface with its contact state.
#[derive(Clone, Copy, Debug, PartialEq, Eq, Structural)]
pub struct TouchPlane {
    pub width: i64,
    pub height: i64,
    pub thickness: i64,
    pub x_range: OutputRange,
    pub y_range: OutputRange,
    pub state: ContactState,
}

pub open spec fn range_in_bounds(r: OutputRange) -> bool {
    &&& -RANGE_LIMIT <= r.min <= RANGE_LIMIT
    &&& -RANGE_LIMIT <= r.max <= RANGE_LIMIT
}

impl TouchPlane {
    pub open spec fn wf(self) -> bool {
        &&& 0 < self.width <= COORD_LIMIT
        &&& 0 < self.height <= COORD_LIMIT
        &&& 0 <= self.thickness <= COORD_LIMIT
        &&& range_in_bounds(self.x_range)
        &&& range_in_bounds(self.y_range)
    }
}

/// Whether a projected sample lies inside the contact band.  A sample that
/// missed the plane never does.  The band is inclusive at both faces.
pub open spec fn in_band(p: Option<(int, int, int)>, thickness: int) -> bool {
    match p {
        Some(q) => 0 <= q.2 <= thickness,
        None => false,
    }
}

/// Some sample of this tick lies inside the contact band.
pub open spec fn any_in_band(samples: Seq<InputSample>, thickness: int) -> bool {
    exists|i: int| 0 <= i < samples.len() && in_band(spec_project(samples[i]), thickness)
}

/// Recursive form of [`any_in_band`], the shape the update loop follows.
pub open spec fn any_in_band_rec(samples: Seq<InputSample>, thickness: int) -> bool
    decreases samples.len(),
{
    if samples.len() == 0 {
        false
    } else {
        any_in_band_rec(samples.drop_last(), thickness)
            || in_band(spec_project(samples.last()), thickness)
    }
}

/// The two forms agree.
pub proof fn lemma_any_in_band_forms(samples: Seq<InputSample>, thickness: int)
    ensures
        any_in_band_rec(samples, thickness) == any_in_band(samples, thickness),
    decreases samples.len(),
{
    if samples.len() == 0 {
    } else {
        lemma_any_in_band_forms(samples.drop_last(), thickness);
        if any_in_band_rec(samples, thickness) {
            if any_in_band_rec(samples.drop_last(), thickness) {
                let j = choose|j: int|
                    0 <= j < samples.drop_last().len() && in_band(
                        spec_project(samples.drop_last()[j]),
                        thickness,
                    );
                assert(samples.drop_last()[j] == samples[j]);
            } else {
                assert(in_band(spec_project(samples[samples.len() - 1]), thickness));
            }
        }
        if any_in_band(samples, thickness) {
            let j = choose|j: int|
                0 <= j < samples.len() && in_band(spec_project(samples[j]), thickness);
            if j < samples.len() - 1 {
                assert(samples.drop_last()[j] == samples[j]);
                assert(any_in_band(samples.drop_last(), thickness));
            } else {
                assert(in_band(spec_project(samples.last()), thickness));
            }
        }
    }
}

/// Of an existing best projection and a fresh candidate, the one with the
/// strictly smaller depth; the existing one keeps ties.
pub open spec fn closer(
    cur: Option<(int, int, int)>,
    cand: Option<(int, int, int)>,
) -> Option<(int, int, int)> {
    match (cur, cand) {
        (Option::None, _) => cand,
        (Option::Some(c), Option::None) => cur,
        (Option::Some(c), Option::Some(n)) => if n.2 < c.2 {
            cand
        } else {
            cur
        },
    }
}

/// The active sample of a tick: among the samples that project onto the
/// plane, the first one of minimal depth.
pub open spec fn spec_best(samples: Seq<InputSample>) -> Option<(int, int, int)>
    decreases samples.len(),
{
    if samples.len() == 0 {
        Option::None
    } else {
        closer(spec_best(samples.drop_last()), spec_project(samples.last()))
    }
}

/// A tick with a sample in the contact band has an active sample.
pub proof fn lemma_in_band_has_best(samples: Seq<InputSample>, thickness: int)
    requires
        any_in_band_rec(samples, thickness),
    ensures
        spec_best(samples) is Some,
    decreases samples.len(),
{
    if samples.len() > 0 {
        if any_in_band_rec(samples.drop_last(), thickness) {
            lemma_in_band_has_best(samples.drop_last(), thickness);
        }
    }
}

/// The contact state a tick leaves behind: touched exactly when some sample
/// of the tick is inside the band.
pub open spec fn next_state(touching_now: bool) -> ContactState {
    if touching_now {
        ContactState::Touching
    } else {
        ContactState::Idle
    }
}

/// Clamping to `[lo, hi]`.
pub open spec fn spec_clamp(v: int, lo: int, hi: int) -> int {
    if v < lo {
        lo
    } else if v > hi {
        hi
    } else {
        v
    }
}

/// Remap of a plane-local x coordinate: clamp to the plane's horizontal
/// extent, then map `[-width/2, width/2]` affinely onto the x output range.
pub open spec fn spec_remap_x(p: TouchPlane, x: int) -> int {
    let half = (p.width as int) / 2;
    let c = spec_clamp(x, -half, half);
    p.x_range.min + div_trunc((c + half) * (p.x_range.max - p.x_range.min), p.width as int)
}

/// Remap of a plane-local y coordinate.  The vertical axis flips: the top
/// edge `height/2` maps to the range's `min` (destination units run
/// top-down), the bottom edge to its `max`.
pub open spec fn spec_remap_y(p: TouchPlane, y: int) -> int {
    let half = (p.height as int) / 2;
    let c = spec_clamp(y, -half, half);
    p.y_range.min + div_trunc((half - c) * (p.y_range.max - p.y_range.min), p.height as int)
}

impl TouchPlane {
    /// A fresh, untouched plane.
    pub fn new(
        width: i64,
        height: i64,
        thickness: i64,
        x_range: OutputRange,
        y_range: OutputRange,
    ) -> (r: Self)
        requires
            0 < width <= COORD_LIMIT,
            0 < height <= COORD_LIMIT,
            0 <= thickness <= COORD_LIMIT,
            range_in_bounds(x_range),
            range_in_bounds(y_range),
        ensures
            r.width == width,
            r.height == height,
            r.thickness == thickness,
            r.x_range == x_range,
            r.y_range == y_range,
            r.state is Idle,
            r.wf(),
    {
        TouchPlane { width, height, thickness, x_range, y_range, state: ContactState::Idle }
    }

    /// Replace the x output range.  Contact state is untouched: remapping
    /// configuration and touch detection are independent.
    pub fn set_x_range(&mut self, r: OutputRange)
        requires
            old(self).wf(),
            range_in_bounds(r),
        ensures
            final(self).x_range == r,
            final(self).width == old(self).width,
            final(self).height == old(self).height,
            final(self).thickness == old(self).thickness,
            final(self).y_range == old(self).y_range,
            final(self).state == old(self).state,
            final(self).wf(),
    {
        self.x_range = r;
    }

    /// Replace the y output range; contact state is untouched.
    pub fn set_y_range(&mut self, r: OutputRange)
        requires
            old(self).wf(),
            range_in_bounds(r),
        ensures
            final(self).y_range == r,
            final(self).width == old(self).width,
            final(self).height == old(self).height,
            final(self).thickness == old(self).thickness,
            final(self).x_range == old(self).x_range,
            final(self).state == old(self).state,
            final(self).wf(),
    {
        self.y_range = r;
    }

    /// Remap a projected plane-local point to destination units.
    pub fn remap_point(&self, x: i64, y: i64) -> (r: (i64, i64))
        requires
            self.wf(),
        ensures
            r.0 == spec_remap_x(*self, x as int),
            r.1 == spec_remap_y(*self, y as int),
    {
        let half_w: i64 = ((self.width as u64) / 2) as i64;
        let half_h: i64 = ((self.height as u64) / 2) as i64;
        let cx: i64 = if x < -half_w {
            -half_w
        } else if x > half_w {
            half_w
        } else {
            x
        };
        let cy: i64 = if y < -half_h {
            -half_h
        } else if y > half_h {
            half_h
        } else {
            y
        };
        proof {
            lemma_mul_bound(
                cx + half_w,
                self.x_range.max - self.x_range.min,
                self.width as int,
                2 * RANGE_LIMIT,
            );
            lemma_mul_bound(
                half_h - cy,
                self.y_range.max - self.y_range.min,
                self.height as int,
                2 * RANGE_LIMIT,
            );
        }
        let nx: i128 = ((cx as i128) + (half_w as i128)) * ((self.x_range.max as i128) - (
        self.x_range.min as i128));
        let ny: i128 = ((half_h as i128) - (cy as i128)) * ((self.y_range.max as i128) - (
        self.y_range.min as i128));
        proof {
            lemma_div_trunc_bound(nx as int, self.width as int, self.width * (2 * RANGE_LIMIT));
            lemma_div_trunc_bound(ny as int, self.height as int, self.height * (2 * RANGE_LIMIT));
            vstd::arithmetic::div_mod::lemma_div_by_multiple(2 * RANGE_LIMIT, self.width as int);
            vstd::arithmetic::div_mod::lemma_div_by_multiple(2 * RANGE_LIMIT, self.height as int);
        }
        let ox: i64 = ((self.x_range.min as i128) + div_trunc_i128(nx, self.width as i128)) as i64;
        let oy: i64 = ((self.y_range.min as i128) + div_trunc_i128(ny, self.height as i128)) as i64;
        (ox, oy)
    }

    /// One scene tick.
    ///
    /// Projects every sample, finds the active (closest) one, moves the
    /// contact state, and reports the transition events and the hover
    /// coordinate.  The started event fires exactly on the idle-to-touching
    /// transition, the stopped event exactly on the reverse one; staying
    /// inside the band reports hover alone, never a repeated start.
    pub fn update(&mut self, samples: &Vec<InputSample>) -> (ev: TickEvents)
        requires
            old(self).wf(),
            forall|i: int| 0 <= i < samples@.len() ==> sample_in_bounds(samples@[i]),
        ensures
            final(self).width == old(self).width,
            final(self).height == old(self).height,
            final(self).thickness == old(self).thickness,
            final(self).x_range == old(self).x_range,
            final(self).y_range == old(self).y_range,
            final(self).wf(),
            final(self).state == next_state(
                any_in_band(samples@, old(self).thickness as int),
            ),
            ev.started == (old(self).state is Idle && any_in_band(
                samples@,
                old(self).thickness as int,
            )),
            ev.stopped == (old(self).state is Touching && !any_in_band(
                samples@,
                old(self).thickness as int,
            )),
            ev.hover is Some <==> any_in_band(samples@, old(self).thickness as int),
            ev.hover matches Some(h) ==> spec_best(samples@) matches Some(b) && h.0
                == spec_remap_x(*old(self), b.0) && h.1 == spec_remap_y(*old(self), b.1),
    {
        let ghost s = samples@;
        let ghost thk = self.thickness as int;
        let mut best: Option<Projection> = Option::None;
        let mut any: bool = false;
        let mut i: usize = 0;
        while i < samples.len()
            invariant
                0 <= i <= s.len(),
                s == samples@,
                thk == self.thickness as int,
                forall|k: int| 0 <= k < s.len() ==> sample_in_bounds(s[k]),
                any == any_in_band_rec(s.take(i as int), thk),
                match best {
                    Option::Some(b) => spec_best(s.take(i as int)) == Option::Some(
                        (b.x as int, b.y as int, b.depth as int),
                    ),
                    Option::None => spec_best(s.take(i as int)) is None,
                },
            decreases s.len() - i,
        {
            let p = project(&samples[i]);
            proof {
                assert(s.take(i + 1).drop_last() =~= s.take(i as int));
                assert(s.take(i + 1).last() == s[i as int]);
            }
            match p {
                Option::Some(pr) => {
                    if 0 <= pr.depth && pr.depth <= self.thickness {
                        any = true;
                    }
                    best = match best {
                        Option::Some(b) => if pr.depth < b.depth {
                            Option::Some(pr)
                        } else {
                            Option::Some(b)
                        },
                        Option::None => Option::Some(pr),
                    };
                },
                Option::None => {},
            }
            i += 1;
        }
        proof {
            assert(s.take(s.len() as int) =~= s);
            lemma_any_in_band_forms(s, thk);
        }
        let hover: Option<(i64, i64)> = if any {
            match best {
                Option::Some(b) => Option::Some(self.remap_point(b.x, b.y)),
                Option::None => {
                    proof {
                        lemma_in_band_has_best(s, thk);
                        assert(false);
                    }
                    Option::None
                },
            }
        } else {
            Option::None
        };
        let was_touching: bool = self.state == ContactState::Touching;
        self.state = if any {
            ContactState::Touching
        } else {
            ContactState::Idle
        };
        TickEvents { started: !was_touching && any, stopped: was_touching && !any, hover }
    }
}

/// The contact state after a sequence of ticks, each tick given as whether
/// some sample of it was inside the contact band.
pub open spec fn state_after(init: ContactState, ticks: Seq<bool>) -> ContactState
    decreases ticks.len(),
{
    if ticks.len() == 0 {
        init
    } else {
        next_state(ticks.last())
    }
}

/// How many touch-started events a sequence of ticks fires.
pub open spec fn count_started(init: ContactState, ticks: Seq<bool>) -> nat
    decreases ticks.len(),
{
    if ticks.len() == 0 {
        0nat
    } else {
        count_started(init, ticks.drop_last()) + if state_after(init, ticks.drop_last()) is Idle
            && ticks.last() {
            1nat
        } else {
            0nat
        }
    }
}

/// How many touch-stopped events a sequence of ticks fires.
pub open spec fn count_stopped(init: ContactState, ticks: Seq<bool>) -> nat
    decreases ticks.len(),
{
    if ticks.len() == 0 {
        0nat
    } else {
        count_stopped(init, ticks.drop_last()) + if state_after(init, ticks.drop_last())
            is Touching && !ticks.last() {
            1nat
        } else {
            0nat
        }
    }
}

/// Touch events strictly alternate.  Over any sequence of ticks, counting a
/// touching start state as one pending start, the started events exceed the
/// stopped events by exactly one while the final state is touching, and
/// match them exactly while it is idle — so the counts differ by at most
/// one, and two starts always bracket a stop (and conversely), since this
/// balance holds of every prefix.
pub proof fn lemma_touch_events_alternate(init: ContactState, ticks: Seq<bool>)
    ensures
        count_started(init, ticks) + (if init is Touching {
            1nat
        } else {
            0nat
        }) == count_stopped(init, ticks) + (if state_after(init, ticks) is Touching {
            1nat
        } else {
            0nat
        }),
    decreases ticks.len(),
{
    if ticks.len() > 0 {
        lemma_touch_events_alternate(init, ticks.drop_last());
    }
}

} // verus!
