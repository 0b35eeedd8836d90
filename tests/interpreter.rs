use path_points::{
    CommandKind, CurveType, LineTo, MoveType, PathState, PointIterator, Sample, Segment,
    SupportPoint, TickTimer, TICKS_PER_UNIT, calc_point_iterator, path_command_condition,
};

type Pt = (f64, f64);

fn drain(mut it: PointIterator<Pt>) -> Vec<LineTo<Pt>> {
    let move_type = it.move_type();
    let mut out = Vec::new();
    while let Some(sample) = it.next() {
        match sample {
            Sample::Point(p) => out.push(LineTo::new(p, move_type)),
            Sample::Tick(_) => panic!("a line producer yielded a curve sample"),
        }
    }
    out
}

fn samples(mut it: PointIterator<Pt>) -> Vec<Sample<Pt>> {
    let mut out = Vec::new();
    while let Some(sample) = it.next() {
        out.push(sample);
    }
    out
}

fn is_draw(l: &LineTo<Pt>, p: Pt) -> bool {
    matches!(l, LineTo::Draw(q) if *q == p)
}

#[test]
fn timer_yields_thousand_and_one_ticks() {
    let mut t = TickTimer::default();
    let mut ticks = Vec::new();
    while let Some(k) = t.next() {
        ticks.push(k);
    }
    assert_eq!(ticks.len(), 1001);
    assert_eq!(ticks[0], 0);
    assert_eq!(*ticks.last().unwrap(), TICKS_PER_UNIT);
    for w in ticks.windows(2) {
        assert_eq!(w[1], w[0] + 1);
    }
    assert_eq!(t.next(), None);
    assert_eq!(t.next(), None);
}

#[test]
fn fresh_timers_do_not_depend_on_each_other() {
    let mut a = TickTimer::new();
    for _ in 0..10 {
        a.next();
    }
    let mut b = TickTimer::new();
    assert_eq!(b.next(), Some(0));
    assert_eq!(a.next(), Some(10));
}

#[test]
fn line_to_tags_points() {
    assert!(matches!(LineTo::new((1.0, 2.0), MoveType::Fly), LineTo::Fly((x, y)) if x == 1.0 && y == 2.0));
    assert!(matches!(LineTo::new((1.0, 2.0), MoveType::Draw), LineTo::Draw(_)));
    assert!(matches!(LineTo::new((1.0, 2.0), MoveType::Erase), LineTo::Erase(_)));
}

#[test]
fn command_condition_by_family() {
    let sp = |c| SupportPoint { path_command: c, point: (0.0, 0.0) };
    assert!(path_command_condition(&sp(CommandKind::CurveTo), CurveType::Cubic));
    assert!(path_command_condition(&sp(CommandKind::SmoothCurveTo), CurveType::Cubic));
    assert!(!path_command_condition(&sp(CommandKind::Quadratic), CurveType::Cubic));
    assert!(path_command_condition(&sp(CommandKind::Quadratic), CurveType::Quadratic));
    assert!(path_command_condition(&sp(CommandKind::SmoothQuadratic), CurveType::Quadratic));
    assert!(!path_command_condition(&sp(CommandKind::SmoothCurveTo), CurveType::Quadratic));
    assert!(!path_command_condition(&sp(CommandKind::LineTo), CurveType::Cubic));
    assert!(!path_command_condition(&sp(CommandKind::EllipticalArc), CurveType::Quadratic));
}

#[test]
fn flat_cubic_degrades_to_line() {
    let mut s = PathState::new((0.0, 0.0));
    let out: Vec<_> = [
        Segment::MoveTo { end: (0.0, 0.0) },
        Segment::LineTo { end: (10.0, 0.0) },
        Segment::CurveTo { smooth: false, p1: (10.0, 0.0), p2: (20.0, 0.0), end: (20.0, 0.0), flat: true },
    ]
    .into_iter()
    .flat_map(|seg| drain(s.advance(seg)))
    .collect();
    assert_eq!(out.len(), 3);
    assert!(matches!(out[0], LineTo::Fly(p) if p == (0.0, 0.0)));
    assert!(is_draw(&out[1], (10.0, 0.0)));
    assert!(is_draw(&out[2], (20.0, 0.0)));
    assert_eq!(s.current, (20.0, 0.0));
}

#[test]
fn curved_quadratic_is_sampled() {
    let mut s = PathState::new((0.0, 0.0));
    drain(s.advance(Segment::MoveTo { end: (0.0, 0.0) }));
    let it = s.advance(Segment::Quadratic { smooth: false, p1: (5.0, 10.0), end: (10.0, 0.0), flat: false });
    assert!(matches!(it, PointIterator::SquareCurve { start, p1, end, .. }
        if start == (0.0, 0.0) && p1 == (5.0, 10.0) && end == (10.0, 0.0)));
    assert_eq!(it.move_type(), MoveType::Draw);
    assert_eq!(it.end_position(), (10.0, 0.0));
    let got = samples(it);
    assert_eq!(got.len(), 1001);
    assert!(matches!(got[0], Sample::Tick(0)));
    assert!(matches!(got[1000], Sample::Tick(1000)));
    assert_eq!(s.current, (10.0, 0.0));
}

#[test]
fn flat_quadratic_keeps_support_point() {
    let it = calc_point_iterator(
        (0.0, 0.0),
        Segment::Quadratic { smooth: true, p1: (5.0, 0.0), end: (10.0, 0.0), flat: true },
        (0.0, 0.0),
    );
    let sp = it.support_point().unwrap();
    assert_eq!(sp.path_command, CommandKind::SmoothQuadratic);
    assert_eq!(sp.point, (5.0, 0.0));
    let got = drain(it);
    assert_eq!(got.len(), 1);
    assert!(is_draw(&got[0], (10.0, 0.0)));
}

#[test]
fn coincident_arc_emits_nothing() {
    let mut s = PathState::new((3.0, 4.0));
    let it = s.advance(Segment::EllipticalArc { end: (3.0, 4.0), coincident: true, zero_radius: false });
    assert!(it.support_point().is_none());
    assert_eq!(drain(it).len(), 0);
    assert_eq!(s.current, (3.0, 4.0));
}

#[test]
fn zero_radius_arc_is_one_draw() {
    let mut s = PathState::new((0.0, 0.0));
    let got = drain(s.advance(Segment::EllipticalArc { end: (7.0, 1.0), coincident: false, zero_radius: true }));
    assert_eq!(got.len(), 1);
    assert!(is_draw(&got[0], (7.0, 1.0)));
    assert!(s.support.is_none());
}

#[test]
fn arc_is_sampled_without_support_point() {
    let mut s = PathState::new((0.0, 0.0));
    s.advance(Segment::CurveTo { smooth: false, p1: (0.0, 5.0), p2: (5.0, 5.0), end: (5.0, 0.0), flat: false });
    let it = s.advance(Segment::EllipticalArc { end: (9.0, 0.0), coincident: false, zero_radius: false });
    assert!(it.support_point().is_none());
    assert_eq!(samples(it).len(), 1001);
    assert!(s.support.is_none());
    assert_eq!(s.mirror_base(CurveType::Cubic), None);
}

#[test]
fn smooth_cubic_mirrors_after_cubic() {
    let mut s = PathState::new((0.0, 0.0));
    s.advance(Segment::CurveTo { smooth: false, p1: (0.0, 5.0), p2: (5.0, 5.0), end: (5.0, 0.0), flat: false });
    assert_eq!(s.mirror_base(CurveType::Cubic), Some((5.0, 5.0)));
    assert_eq!(s.mirror_base(CurveType::Quadratic), None);
    s.advance(Segment::CurveTo { smooth: true, p1: (5.0, -5.0), p2: (8.0, 2.0), end: (9.0, 0.0), flat: false });
    assert_eq!(s.mirror_base(CurveType::Cubic), Some((8.0, 2.0)));
    assert_eq!(s.support.unwrap().path_command, CommandKind::SmoothCurveTo);
}

#[test]
fn smooth_cubic_after_line_has_no_mirror() {
    let mut s = PathState::new((0.0, 0.0));
    s.advance(Segment::CurveTo { smooth: false, p1: (0.0, 5.0), p2: (5.0, 5.0), end: (5.0, 0.0), flat: false });
    s.advance(Segment::LineTo { end: (6.0, 0.0) });
    assert_eq!(s.mirror_base(CurveType::Cubic), None);
}

#[test]
fn smooth_quadratic_mirrors_after_quadratic_only() {
    let mut s = PathState::new((0.0, 0.0));
    s.advance(Segment::Quadratic { smooth: false, p1: (2.0, 3.0), end: (4.0, 0.0), flat: false });
    assert_eq!(s.mirror_base(CurveType::Quadratic), Some((2.0, 3.0)));
    assert_eq!(s.mirror_base(CurveType::Cubic), None);
}

#[test]
fn close_path_returns_to_anchor_and_reanchors() {
    let mut s = PathState::new((0.0, 0.0));
    let mut out = Vec::new();
    for seg in [
        Segment::MoveTo { end: (1.0, 1.0) },
        Segment::LineTo { end: (5.0, 1.0) },
        Segment::LineTo { end: (5.0, 5.0) },
        Segment::ClosePath,
        Segment::MoveTo { end: (10.0, 10.0) },
        Segment::LineTo { end: (12.0, 10.0) },
        Segment::ClosePath,
    ] {
        out.extend(drain(s.advance(seg)));
    }
    assert_eq!(out.len(), 7);
    assert!(is_draw(&out[3], (1.0, 1.0)));
    assert!(matches!(out[4], LineTo::Fly(p) if p == (10.0, 10.0)));
    assert!(is_draw(&out[6], (10.0, 10.0)));
    assert_eq!(s.current, (10.0, 10.0));
    assert!(!s.path_start_initialized);
}

#[test]
fn close_without_segments_goes_to_origin() {
    let mut s = PathState::new((2.0, 2.0));
    let got = drain(s.advance(Segment::ClosePath));
    assert_eq!(got.len(), 1);
    assert!(is_draw(&got[0], (2.0, 2.0)));
}

#[test]
fn line_iterator_yields_once() {
    let mut it = calc_point_iterator((0.0, 0.0), Segment::LineTo { end: (1.0, 0.0) }, (0.0, 0.0));
    assert!(matches!(it.next(), Some(Sample::Point(p)) if p == (1.0, 0.0)));
    assert!(it.next().is_none());
    assert!(it.next().is_none());
    assert_eq!(it.end_position(), (1.0, 0.0));
}

#[test]
fn move_to_is_fly() {
    let it = calc_point_iterator((0.0, 0.0), Segment::MoveTo { end: (4.0, 4.0) }, (0.0, 0.0));
    assert_eq!(it.move_type(), MoveType::Fly);
    assert!(it.support_point().is_none());
}
