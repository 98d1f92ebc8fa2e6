//! A vector-annotation geometry engine: drawing commands and interactive
//! selection state turned into renderable path data for a pixel-precise 2D
//! markup surface.
//!
//! All geometry lives on `i64` fixed-point coordinates ([`geom::UNIT`] ticks
//! per drawing unit). [`command`] expands each drawing instruction into the
//! vector-path primitives a path sink consumes; [`selection`] holds the
//! two-corner selection rectangle and its drag-handle reshape state machine;
//! [`scene`] replays an ordered command list and composites the selection
//! overlay, producing the instruction stream a render surface executes.

pub mod command;
pub mod geom;
pub mod scene;
pub mod selection;
