//! Just-intonation pitch visualizer core.
//!
//! The library enumerates rational pitch ratios with a Stern-Brocot mediant
//! tree, lays out equal-division-of-octave reference grids, maps a cursor
//! position to a pitch index, and drives a reducer-style event loop that
//! turns input events into state transitions and note-message effects.
//! All geometry is computed in exact rational arithmetic; a rendering shell
//! converts the primitives to floating point at the very edge.

pub mod geom;
pub mod ratio;
pub mod tree;
pub mod grid;
pub mod cursor;
pub mod dispatch;
pub mod model;
