//! Ownership-checked widget layer for an embedded GUI toolkit.
//!
//! The toolkit itself (widget-tree storage, layout, rendering) lives behind a
//! C interface and owns every widget instance.  This crate holds the part of
//! the wrapper that can be reasoned about: the selector enumerations and their
//! mappings to the toolkit's constants, the non-null handle discipline, and a
//! record of the geometry most recently commanded through this layer.  Each
//! mutating call returns the exact, already-translated arguments for the
//! corresponding toolkit routine, so the unverified glue that reaches the C
//! side only forwards values.

pub mod align;
pub mod objx;
