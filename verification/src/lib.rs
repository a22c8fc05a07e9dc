//! Host-side core of a 2-D smoothed-particle-hydrodynamics (SPH) fluid
//! simulation that runs its per-particle math on a GPU and draws the
//! particles as instanced quads.
//!
//! The crate owns everything the device program and the windowing shell are
//! held to: the layout of particle state as four parallel 32-bit channels,
//! the placement grid that seeds it, the parameter block and its word order,
//! the three-stage compute dispatch plan (density, then pressure, then
//! integration) with its binding topology and group sizing, the render
//! stage's mesh and per-instance streams, and the frame loop's decisions
//! (resize, close, presentation-failure recovery).
//!
//! Device-side scalars appear here as raw 32-bit words, so every layout and
//! bookkeeping step is exact; the floating-point arithmetic itself lives in
//! the device program and in the unverified shell around this crate.

pub mod buffers;
pub mod events;
pub mod placement;
pub mod render;
pub mod simulation;
pub mod surface;
pub mod tick;
