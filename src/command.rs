use vstd::prelude::*;

verus! {

/// The vocabulary of path segments.
#[derive(Clone, Copy, Debug, PartialEq, Eq, Structural)]
pub enum CommandKind {
    MoveTo,
    LineTo,
    HorizontalLineTo,
    VerticalLineTo,
    CurveTo,
    SmoothCurveTo,
    Quadratic,
    SmoothQuadratic,
    EllipticalArc,
    ClosePath,
}

/// The two curve families whose smooth variants mirror a control point.
#[derive(Clone, Copy, Debug, PartialEq, Eq, Structural)]
pub enum CurveType {
    Cubic,
    Quadratic,
}

/// How an emitted point is drawn: a reposition, a visible stroke, or an erasure.
#[derive(Clone, Copy, Debug, PartialEq, Eq, Structural)]
pub enum MoveType {
    Fly,
    Draw,
    Erase,
}

/// Whether a command belongs to a curve family: cubic are `CurveTo` and
/// `SmoothCurveTo`, quadratic are `Quadratic` and `SmoothQuadratic`.
pub open spec fn in_family(cmd: CommandKind, family: CurveType) -> bool {
    match family {
        CurveType::Cubic => cmd is CurveTo || cmd is SmoothCurveTo,
        CurveType::Quadratic => cmd is Quadratic || cmd is SmoothQuadratic,
    }
}

} // verus!
