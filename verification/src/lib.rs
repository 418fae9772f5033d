//! Core logic of a spatial-computing client that docks a remote surface onto a
//! fixed receptacle and drives it with 3D pointing/touch input.
//!
//! The crate holds the pure, verified part of that client: ray/point
//! projection onto a touch plane, the per-tick contact state machine, the
//! nearest-receptacle docking decision, and the single-slot capture state
//! machine with its metadata delta tracking.  Scene-graph construction,
//! transport, and event plumbing live outside, in the binary that wraps this
//! library; they hand plain values in and take plain values back.
//!
//! All spatial quantities are fixed-point integers (see [`fixed`]) so that
//! every computation here has an exact mathematical description.

pub mod capture;
pub mod docking;
pub mod fixed;
pub mod geom;
pub mod panel;
pub mod poltergeist;
pub mod registry;
pub mod touch;
