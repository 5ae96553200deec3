//! Reactive scene synchronization for a stack of image planes with projected
//! points: a parameter store with a change signal, a memoizing resource cache
//! for geometry and material handles, a deterministic scene-graph rebuild,
//! picture-in-picture viewport arithmetic, and input arbitration between the
//! free camera and UI or gizmo widgets.
//!
//! Positions and sizes are held in fixed-point coordinate units (1000 units
//! per world unit) so that all geometry derivations are exact integer
//! arithmetic.

pub mod cache;
pub mod follow;
pub mod hit_test;
pub mod input_gate;
pub mod params;
pub mod rng;
pub mod scene;
pub mod units;
pub mod viewport;
