use vstd::prelude::*;
use crate::command::{CurveType, MoveType};
use crate::interpreter::{PathState, Sample, Segment, end_of, mirror_source, planned};
use crate::tick_timer::TICKS_PER_UNIT;

verus! {

/// A cubic or quadratic segment whose control points lie on its chord
/// produces exactly one point, drawn at its end, and no samples.
pub proof fn lemma_flat_curve_is_single_draw<P>(current: P, segment: Segment<P>, path_start: P)
    requires
        (segment matches Segment::CurveTo { flat, .. } && flat)
            || (segment matches Segment::Quadratic { flat, .. } && flat),
    ensures
        planned(current, segment, path_start).samples() == seq![Sample::Point(end_of(segment, path_start))],
        planned(current, segment, path_start).spec_move_type() == MoveType::Draw,
{
}

/// Every sampled curve produces the same number of items, one per tick from
/// time 0 to time 1, whatever its geometry.
pub proof fn lemma_curve_sample_count<P>(current: P, segment: Segment<P>, path_start: P)
    requires
        planned(current, segment, path_start).samples().len() > 1,
    ensures
        planned(current, segment, path_start).samples().len() == TICKS_PER_UNIT as int + 1,
        forall|i: int| 0 <= i < planned(current, segment, path_start).samples().len()
            ==> #[trigger] planned(current, segment, path_start).samples()[i] == Sample::<P>::Tick(i as u32),
        planned(current, segment, path_start).spec_move_type() == MoveType::Draw,
{
}

/// An elliptical arc that ends where it starts produces no point, and the
/// cursor still moves to its end.
pub proof fn lemma_coincident_arc_is_empty<P>(state: PathState<P>, end: P, zero_radius: bool)
    ensures
        ({
            let segment = Segment::EllipticalArc { end, coincident: true, zero_radius };
            &&& planned(state.current, segment, state.path_start).samples().len() == 0
            &&& state.after(segment).current == end
        }),
{
}

/// An elliptical arc with a zero radius on either axis, which does not end
/// where it starts, produces exactly one point, drawn at its end.
pub proof fn lemma_zero_radius_arc_is_line<P>(state: PathState<P>, end: P)
    ensures
        ({
            let segment = Segment::EllipticalArc { end, coincident: false, zero_radius: true };
            &&& planned(state.current, segment, state.path_start).samples() == seq![Sample::Point(end)]
            &&& planned(state.current, segment, state.path_start).spec_move_type() == MoveType::Draw
            &&& state.after(segment).current == end
        }),
{
}

/// After a cubic segment a smooth cubic mirrors its second control point, and
/// after a quadratic segment a smooth quadratic mirrors its control point;
/// after any other segment a smooth curve of that family mirrors nothing and
/// takes the cursor as its control point.
pub proof fn lemma_smooth_mirror<P>(state: PathState<P>, segment: Segment<P>, curve_type: CurveType)
    ensures
        mirror_source(state.after(segment).support, curve_type) == match (segment, curve_type) {
            (Segment::CurveTo { p2, .. }, CurveType::Cubic) => Some(p2),
            (Segment::Quadratic { p1, .. }, CurveType::Quadratic) => Some(p1),
            _ => None,
        },
{
}

/// A close draws exactly one point, the start of the active subpath, and
/// leaves the cursor there.
pub proof fn lemma_close_returns_to_anchor<P>(state: PathState<P>)
    ensures
        planned(state.current, Segment::ClosePath, state.path_start).samples()
            == seq![Sample::Point(state.path_start)],
        planned(state.current, Segment::ClosePath, state.path_start).spec_move_type() == MoveType::Draw,
        state.after(Segment::ClosePath).current == state.path_start,
        !state.after(Segment::ClosePath).path_start_initialized,
{
}

/// After a close, the first segment of the next subpath anchors it at the
/// point where that segment leaves the cursor.
pub proof fn lemma_reanchor_after_close<P>(state: PathState<P>, segment: Segment<P>)
    requires
        !(segment is ClosePath),
    ensures
        state.after(Segment::ClosePath).after(segment).path_start
            == state.after(Segment::ClosePath).after(segment).current,
        state.after(Segment::ClosePath).after(segment).path_start_initialized,
{
}

/// Once a subpath is anchored, segments other than a close keep the anchor.
pub proof fn lemma_anchor_kept<P>(state: PathState<P>, segment: Segment<P>)
    requires
        state.path_start_initialized,
        !(segment is ClosePath),
    ensures
        state.after(segment).path_start == state.path_start,
        state.after(segment).path_start_initialized,
{
}

} // verus!
