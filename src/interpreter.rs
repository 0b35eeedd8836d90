use vstd::prelude::*;
use crate::command::{CommandKind, CurveType, MoveType, in_family};
use crate::tick_timer::{TickTimer, TICKS_PER_UNIT};

verus! {

/// An emitted point, tagged with how it is drawn.
#[derive(Clone, Copy, Debug)]
pub enum LineTo<P> {
    Fly(P),
    Draw(P),
    Erase(P),
}

/// The emitted point that carries `point` with the tag `move_type`.
pub open spec fn tagged<P>(point: P, move_type: MoveType) -> LineTo<P> {
    match move_type {
        MoveType::Fly => LineTo::Fly(point),
        MoveType::Draw => LineTo::Draw(point),
        MoveType::Erase => LineTo::Erase(point),
    }
}

impl<P> LineTo<P> {
    /// Tags a point.
    pub fn new(point: P, move_type: MoveType) -> (r: LineTo<P>)
        ensures
            r == tagged(point, move_type),
    {
        match move_type {
            MoveType::Fly => LineTo::Fly(point),
            MoveType::Draw => LineTo::Draw(point),
            MoveType::Erase => LineTo::Erase(point),
        }
    }
}

/// The trailing control point of a curve, with the command that produced it.
#[derive(Clone, Copy, Debug)]
pub struct SupportPoint<P> {
    pub path_command: CommandKind,
    pub point: P,
}

/// Whether a support point may be mirrored by a smooth curve of `curve_type`.
pub fn path_command_condition<P>(prev_support_point: &SupportPoint<P>, curve_type: CurveType) -> (r: bool)
    ensures
        r == in_family(prev_support_point.path_command, curve_type),
{
    match curve_type {
        CurveType::Cubic => match prev_support_point.path_command {
            CommandKind::CurveTo | CommandKind::SmoothCurveTo => true,
            _ => false,
        },
        CurveType::Quadratic => match prev_support_point.path_command {
            CommandKind::Quadratic | CommandKind::SmoothQuadratic => true,
            _ => false,
        },
    }
}

/// The point that a smooth curve of `curve_type` reflects about the cursor:
/// the previous support point, when it comes from a curve of that family.
pub open spec fn mirror_source<P>(support: Option<SupportPoint<P>>, curve_type: CurveType) -> Option<P> {
    match support {
        Some(sp) => if in_family(sp.path_command, curve_type) {
            Some(sp.point)
        } else {
            None
        },
        None => None,
    }
}

/// A path segment with its coordinates resolved to absolute points.
///
/// The flags carry the outcome of the geometric tests on those points:
/// `flat` holds when every control point lies on the chord from the cursor to
/// `end` within tolerance; `coincident` when an arc ends where it starts;
/// `zero_radius` when an arc has a radius of zero on either axis.
#[derive(Clone, Copy, Debug)]
pub enum Segment<P> {
    MoveTo { end: P },
    LineTo { end: P },
    CurveTo { smooth: bool, p1: P, p2: P, end: P, flat: bool },
    Quadratic { smooth: bool, p1: P, end: P, flat: bool },
    EllipticalArc { end: P, coincident: bool, zero_radius: bool },
    ClosePath,
}

/// One item of a point producer: a point as it stands, or a tick at which the
/// caller evaluates the producer's curve (tick `k` is time `k / TICKS_PER_UNIT`).
#[derive(Clone, Copy, Debug)]
pub enum Sample<P> {
    Point(P),
    Tick(u32),
}

/// The producer of the points of one segment.
#[derive(Clone, Copy, Debug)]
pub enum PointIterator<P> {
    Empty { end: P },
    Line { end: P, move_type: MoveType, done: bool, support: Option<SupportPoint<P>> },
    SquareCurve { time: TickTimer, start: P, p1: P, end: P, support: Option<SupportPoint<P>> },
    CubicCurve {
        time: TickTimer,
        start: P,
        p1: P,
        p2: P,
        end: P,
        support: Option<SupportPoint<P>>,
    },
    EllipseCurve { time: TickTimer, end: P },
}

impl<P> PointIterator<P> {
    /// The support point that the segment leaves for the next one.
    pub open spec fn spec_support(self) -> Option<SupportPoint<P>> {
        match self {
            PointIterator::Line { support, .. } => support,
            PointIterator::SquareCurve { support, .. } => support,
            PointIterator::CubicCurve { support, .. } => support,
            _ => None,
        }
    }

    /// Where the cursor stands after the segment.
    pub open spec fn spec_end(self) -> P {
        match self {
            PointIterator::Empty { end } => end,
            PointIterator::Line { end, .. } => end,
            PointIterator::SquareCurve { end, .. } => end,
            PointIterator::CubicCurve { end, .. } => end,
            PointIterator::EllipseCurve { end, .. } => end,
        }
    }

    /// The tag of every point produced.
    pub open spec fn spec_move_type(self) -> MoveType {
        match self {
            PointIterator::Empty { .. } => MoveType::Fly,
            PointIterator::Line { move_type, .. } => move_type,
            _ => MoveType::Draw,
        }
    }

    /// The items still to come, in order.
    pub open spec fn samples(self) -> Seq<Sample<P>> {
        match self {
            PointIterator::Empty { .. } => Seq::empty(),
            PointIterator::Line { end, done, .. } => if done {
                Seq::empty()
            } else {
                seq![Sample::Point(end)]
            },
            PointIterator::SquareCurve { time, .. } => ticks_of(time),
            PointIterator::CubicCurve { time, .. } => ticks_of(time),
            PointIterator::EllipseCurve { time, .. } => ticks_of(time),
        }
    }
}

/// The ticks that a timer has still to hand out, as items.
pub open spec fn ticks_of<P>(time: TickTimer) -> Seq<Sample<P>> {
    time.remaining().map_values(|k: int| Sample::<P>::Tick(k as u32))
}

impl<P: Copy> PointIterator<P> {
    /// The support point that the segment leaves for the next one (always
    /// absolute).
    pub fn support_point(&self) -> (r: Option<SupportPoint<P>>)
        ensures
            r == self.spec_support(),
    {
        match *self {
            PointIterator::Line { support, .. } => support,
            PointIterator::SquareCurve { support, .. } => support,
            PointIterator::CubicCurve { support, .. } => support,
            _ => None,
        }
    }

    /// Where the cursor stands after the segment.
    pub fn end_position(&self) -> (r: P)
        ensures
            r == self.spec_end(),
    {
        match *self {
            PointIterator::Empty { end } => end,
            PointIterator::Line { end, .. } => end,
            PointIterator::SquareCurve { end, .. } => end,
            PointIterator::CubicCurve { end, .. } => end,
            PointIterator::EllipseCurve { end, .. } => end,
        }
    }

    /// The tag of every point produced.
    pub fn move_type(&self) -> (r: MoveType)
        ensures
            r == self.spec_move_type(),
    {
        match *self {
            PointIterator::Empty { .. } => MoveType::Fly,
            PointIterator::Line { move_type, .. } => move_type,
            _ => MoveType::Draw,
        }
    }

    /// Hands out the next item, or `None` once the producer is exhausted.
    pub fn next(&mut self) -> (r: Option<Sample<P>>)
        ensures
            old(self).samples().len() == 0 ==> r is None && *final(self) == *old(self),
            old(self).samples().len() > 0 ==> r == Some(old(self).samples()[0])
                && final(self).samples() == old(self).samples().drop_first(),
            final(self).spec_end() == old(self).spec_end(),
            final(self).spec_support() == old(self).spec_support(),
            final(self).spec_move_type() == old(self).spec_move_type(),
    {
        match *self {
            PointIterator::Empty { .. } => None,
            PointIterator::Line { end, move_type, done, support } => {
                if done {
                    None
                } else {
                    *self = PointIterator::Line { end, move_type, done: true, support };
                    Some(Sample::Point(end))
                }
            },
            PointIterator::SquareCurve { time, start, p1, end, support } => {
                let mut t = time;
                let k = t.next();
                proof { lemma_ticks_step::<P>(time, t); }
                *self = PointIterator::SquareCurve { time: t, start, p1, end, support };
                match k {
                    Some(k) => Some(Sample::Tick(k)),
                    None => None,
                }
            },
            PointIterator::CubicCurve { time, start, p1, p2, end, support } => {
                let mut t = time;
                let k = t.next();
                proof { lemma_ticks_step::<P>(time, t); }
                *self = PointIterator::CubicCurve { time: t, start, p1, p2, end, support };
                match k {
                    Some(k) => Some(Sample::Tick(k)),
                    None => None,
                }
            },
            PointIterator::EllipseCurve { time, end } => {
                let mut t = time;
                let k = t.next();
                proof { lemma_ticks_step::<P>(time, t); }
                *self = PointIterator::EllipseCurve { time: t, end };
                match k {
                    Some(k) => Some(Sample::Tick(k)),
                    None => None,
                }
            },
        }
    }
}

/// The producer that a segment turns into, given the cursor `current` and the
/// start of the active subpath.
pub open spec fn planned<P>(current: P, segment: Segment<P>, path_start: P) -> PointIterator<P> {
    match segment {
        Segment::MoveTo { end } => PointIterator::Line { end, move_type: MoveType::Fly, done: false, support: None },
        Segment::LineTo { end } => PointIterator::Line { end, move_type: MoveType::Draw, done: false, support: None },
        Segment::CurveTo { smooth, p1, p2, end, flat } => {
            let support = Some(SupportPoint { path_command: cubic_command(smooth), point: p2 });
            if flat {
                PointIterator::Line { end, move_type: MoveType::Draw, done: false, support }
            } else {
                PointIterator::CubicCurve { time: TickTimer { tick: 0 }, start: current, p1, p2, end, support }
            }
        },
        Segment::Quadratic { smooth, p1, end, flat } => {
            let support = Some(SupportPoint { path_command: quadratic_command(smooth), point: p1 });
            if flat {
                PointIterator::Line { end, move_type: MoveType::Draw, done: false, support }
            } else {
                PointIterator::SquareCurve { time: TickTimer { tick: 0 }, start: current, p1, end, support }
            }
        },
        Segment::EllipticalArc { end, coincident, zero_radius } => if coincident {
            PointIterator::Empty { end }
        } else if zero_radius {
            PointIterator::Line { end, move_type: MoveType::Draw, done: false, support: None }
        } else {
            PointIterator::EllipseCurve { time: TickTimer { tick: 0 }, end }
        },
        Segment::ClosePath => PointIterator::Line { end: path_start, move_type: MoveType::Draw, done: false, support: None },
    }
}

/// The command that a cubic segment records with its support point.
pub open spec fn cubic_command(smooth: bool) -> CommandKind {
    if smooth { CommandKind::SmoothCurveTo } else { CommandKind::CurveTo }
}

/// The command that a quadratic segment records with its support point.
pub open spec fn quadratic_command(smooth: bool) -> CommandKind {
    if smooth { CommandKind::SmoothQuadratic } else { CommandKind::Quadratic }
}

/// Where a segment leaves the cursor: its end point, or the subpath start
/// for a close.
pub open spec fn end_of<P>(segment: Segment<P>, path_start: P) -> P {
    match segment {
        Segment::MoveTo { end } => end,
        Segment::LineTo { end } => end,
        Segment::CurveTo { end, .. } => end,
        Segment::Quadratic { end, .. } => end,
        Segment::EllipticalArc { end, .. } => end,
        Segment::ClosePath => path_start,
    }
}

/// The support point that a segment leaves: the trailing control point of a
/// cubic or quadratic curve, tagged with its command; none after anything else.
pub open spec fn support_of<P>(segment: Segment<P>) -> Option<SupportPoint<P>> {
    match segment {
        Segment::CurveTo { smooth, p2, .. } => Some(SupportPoint { path_command: cubic_command(smooth), point: p2 }),
        Segment::Quadratic { smooth, p1, .. } => Some(SupportPoint { path_command: quadratic_command(smooth), point: p1 }),
        _ => None,
    }
}

/// Builds the producer of the points of one segment.
pub fn calc_point_iterator<P: Copy>(current: P, next_segment: Segment<P>, path_start_point: P) -> (r: PointIterator<P>)
    ensures
        r == planned(current, next_segment, path_start_point),
        r.spec_end() == end_of(next_segment, path_start_point),
        r.spec_support() == support_of(next_segment),
{
    match next_segment {
        Segment::MoveTo { end } => PointIterator::Line { end, move_type: MoveType::Fly, done: false, support: None },
        Segment::LineTo { end } => PointIterator::Line { end, move_type: MoveType::Draw, done: false, support: None },
        Segment::CurveTo { smooth, p1, p2, end, flat } => {
            let path_command = if smooth { CommandKind::SmoothCurveTo } else { CommandKind::CurveTo };
            let support = Some(SupportPoint { path_command, point: p2 });
            if flat {
                PointIterator::Line { end, move_type: MoveType::Draw, done: false, support }
            } else {
                PointIterator::CubicCurve { time: TickTimer::new(), start: current, p1, p2, end, support }
            }
        },
        Segment::Quadratic { smooth, p1, end, flat } => {
            let path_command = if smooth { CommandKind::SmoothQuadratic } else { CommandKind::Quadratic };
            let support = Some(SupportPoint { path_command, point: p1 });
            if flat {
                PointIterator::Line { end, move_type: MoveType::Draw, done: false, support }
            } else {
                PointIterator::SquareCurve { time: TickTimer::new(), start: current, p1, end, support }
            }
        },
        Segment::EllipticalArc { end, coincident, zero_radius } => {
            if coincident {
                PointIterator::Empty { end }
            } else if zero_radius {
                PointIterator::Line { end, move_type: MoveType::Draw, done: false, support: None }
            } else {
                PointIterator::EllipseCurve { time: TickTimer::new(), end }
            }
        },
        Segment::ClosePath => PointIterator::Line {
            end: path_start_point,
            move_type: MoveType::Draw,
            done: false,
            support: None,
        },
    }
}

/// The cursor of path interpretation.
#[derive(Clone, Copy, Debug)]
pub struct PathState<P> {
    /// The absolute position of the cursor.
    pub current: P,
    /// Where the active subpath began.
    pub path_start: P,
    /// Whether `path_start` is set for the active subpath.
    pub path_start_initialized: bool,
    /// The trailing control point of the previous segment, if it was a curve.
    pub support: Option<SupportPoint<P>>,
}

impl<P> PathState<P> {
    /// The state after one more segment.
    pub open spec fn after(self, segment: Segment<P>) -> PathState<P> {
        let current = end_of(segment, self.path_start);
        PathState {
            current,
            path_start: if !self.path_start_initialized && !(segment is ClosePath) {
                current
            } else {
                self.path_start
            },
            path_start_initialized: !(segment is ClosePath),
            support: support_of(segment),
        }
    }
}

impl<P: Copy> PathState<P> {
    /// The state at the start of a path: the cursor at `origin`, no subpath
    /// anchored, no support point.
    pub fn new(origin: P) -> (r: PathState<P>)
        ensures
            r.current == origin,
            r.path_start == origin,
            !r.path_start_initialized,
            r.support is None,
    {
        PathState { current: origin, path_start: origin, path_start_initialized: false, support: None }
    }

    /// The point that a smooth curve of `curve_type` reflects about the
    /// cursor; `None` when the previous segment was no curve of that family,
    /// in which case the curve's own control point is the cursor.
    pub fn mirror_base(&self, curve_type: CurveType) -> (r: Option<P>)
        ensures
            r == mirror_source(self.support, curve_type),
    {
        match self.support {
            Some(sp) => if path_command_condition(&sp, curve_type) {
                Some(sp.point)
            } else {
                None
            },
            None => None,
        }
    }

    /// Consumes one segment: returns the producer of its points and moves the
    /// cursor, the subpath anchor and the support point on.
    pub fn advance(&mut self, segment: Segment<P>) -> (r: PointIterator<P>)
        ensures
            r == planned(old(self).current, segment, old(self).path_start),
            *final(self) == old(self).after(segment),
            final(self).current == r.spec_end(),
            final(self).support == r.spec_support(),
    {
        let point_iterator = calc_point_iterator(self.current, segment, self.path_start);
        let end = point_iterator.end_position();
        self.support = point_iterator.support_point();
        self.current = end;
        let is_close = match segment {
            Segment::ClosePath => true,
            _ => false,
        };
        if !self.path_start_initialized && !is_close {
            self.path_start_initialized = true;
            self.path_start = end;
        } else if is_close {
            self.path_start_initialized = false;
        }
        point_iterator
    }
}

proof fn lemma_ticks_step<P>(before: TickTimer, after: TickTimer)
    requires
        after.remaining() == if before.remaining().len() == 0 {
            before.remaining()
        } else {
            before.remaining().drop_first()
        },
    ensures
        ticks_of::<P>(after) == if ticks_of::<P>(before).len() == 0 {
            ticks_of::<P>(before)
        } else {
            ticks_of::<P>(before).drop_first()
        },
{
    if before.remaining().len() > 0 {
        assert(ticks_of::<P>(after) =~= ticks_of::<P>(before).drop_first());
    }
}

} // verus!
