//! Flattening of vector path segments into tagged points.
//!
//! The library holds the decisions of path interpretation: how each segment
//! moves the cursor, which trailing control point a smooth curve may mirror,
//! where a closed subpath returns to, and which producer of points a segment
//! turns into. Points are a type parameter: coordinate arithmetic is left to
//! the caller, which hands in resolved absolute points.

mod command;
mod interpreter;
mod lemmas;
mod tick_timer;

pub use command::{CommandKind, CurveType, MoveType, in_family};
pub use interpreter::{
    LineTo, PathState, PointIterator, Sample, Segment, SupportPoint, calc_point_iterator,
    cubic_command, end_of, mirror_source, path_command_condition, planned, quadratic_command,
    support_of, tagged, ticks_of,
};
pub use tick_timer::{TickTimer, TICKS_PER_UNIT};
pub use lemmas::{
    lemma_anchor_kept, lemma_close_returns_to_anchor, lemma_coincident_arc_is_empty,
    lemma_curve_sample_count, lemma_flat_curve_is_single_draw, lemma_reanchor_after_close,
    lemma_smooth_mirror, lemma_zero_radius_arc_is_line,
};
pub use tick_timer::lemma_fresh_timer_ticks;
