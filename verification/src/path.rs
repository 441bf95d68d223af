use vstd::prelude::*;

use crate::primitives::{coord_ok, point_ok, DrawCommand, Point, COORD_LIMIT};

verus! {

/// Numerator and denominator of the circle-approximation constant
/// k = 0.5522847498: the length of the tangent handles, as a fraction of
/// the radius, with which four cubic Bezier arcs best approximate a circle.
pub const KAPPA_NUM: u64 = 5522847498;

pub const KAPPA_DEN: u64 = 10000000000;

/// One step of a path outline, in subpixel units.
#[derive(Clone, Copy, PartialEq, Eq, Structural, Debug)]
pub enum PathElem {
    /// Begins a contour at (x, y).
    MoveTo { x: i64, y: i64 },
    /// A straight segment from the current point to (x, y).
    LineTo { x: i64, y: i64 },
    /// A cubic Bezier segment with control points (x1, y1), (x2, y2),
    /// ending at (x, y).
    CubicTo { x1: i64, y1: i64, x2: i64, y2: i64, x: i64, y: i64 },
    /// Connects the contour back to its first point.
    ClosePath,
}

/// The tangent-handle offset k * r, rounded to the nearest subpixel unit.
pub open spec fn kappa_offset(r: int) -> int {
    (r * (KAPPA_NUM as int) + (KAPPA_DEN as int) / 2) / (KAPPA_DEN as int)
}

/// Computes [`kappa_offset`] at run time.
pub fn kappa_offset_px(r: i64) -> (k: i64)
    requires
        0 <= r <= COORD_LIMIT,
    ensures
        k == kappa_offset(r as int),
        0 <= k <= r,
{
    proof {
        assert((r as int) * 5522847498 <= 16777216 * 5522847498) by (nonlinear_arith)
            requires
                0 <= r as int <= 16777216,
        ;
    }
    let n: u64 = (r as u64) * KAPPA_NUM + KAPPA_DEN / 2;
    let k: u64 = n / KAPPA_DEN;
    proof {
        let ri = r as int;
        let ni = n as int;
        assert(ni == ri * 5522847498 + 5000000000);
        assert(ni <= ri * 10000000000 + 9999999999);
        vstd::arithmetic::div_mod::lemma_div_multiples_vanish_fancy(ri, 9999999999, 10000000000);
        vstd::arithmetic::div_mod::lemma_div_is_ordered(
            ni,
            ri * 10000000000 + 9999999999,
            10000000000,
        );
        assert(ni / 10000000000 <= ri);
    }
    k as i64
}

pub open spec fn elem_in_bounds(e: PathElem) -> bool {
    match e {
        PathElem::MoveTo { x, y } => coord_ok(x as int) && coord_ok(y as int),
        PathElem::LineTo { x, y } => coord_ok(x as int) && coord_ok(y as int),
        PathElem::CubicTo { x1, y1, x2, y2, x, y } => coord_ok(x1 as int) && coord_ok(y1 as int)
            && coord_ok(x2 as int) && coord_ok(y2 as int) && coord_ok(x as int) && coord_ok(
            y as int,
        ),
        PathElem::ClosePath => true,
    }
}

pub open spec fn elems_in_bounds(s: Seq<PathElem>) -> bool {
    forall|i: int| 0 <= i < s.len() ==> elem_in_bounds(#[trigger] s[i])
}

/// The shape every non-empty path built here has: one contour that starts
/// with a move, never moves again, and closes at most as its last step.
pub open spec fn single_contour(s: Seq<PathElem>) -> bool {
    s.len() >= 2 && s[0] is MoveTo && (forall|i: int|
        1 <= i < s.len() ==> !((#[trigger] s[i]) is MoveTo)) && (forall|i: int|
        0 <= i < s.len() - 1 ==> !((#[trigger] s[i]) is ClosePath))
}

/// An open two-point segment; a line is never closed.
pub open spec fn line_elems(start: Point, end: Point) -> Seq<PathElem> {
    seq![
        PathElem::MoveTo { x: start.x, y: start.y },
        PathElem::LineTo { x: end.x, y: end.y },
    ]
}

/// Four corners from the top-left position, closed back to the start.
pub open spec fn rect_elems(x: i64, y: i64, w: i64, h: i64) -> Seq<PathElem> {
    seq![
        PathElem::MoveTo { x: x, y: y },
        PathElem::LineTo { x: (x + w) as i64, y: y },
        PathElem::LineTo { x: (x + w) as i64, y: (y + h) as i64 },
        PathElem::LineTo { x: x, y: (y + h) as i64 },
        PathElem::ClosePath,
    ]
}

/// A circle around (cx, cy): four cubic arcs, one per quadrant, meeting at
/// the four cardinal points, with tangent handles offset by k * r.
pub open spec fn circle_elems(cx: i64, cy: i64, r: i64) -> Seq<PathElem> {
    let k = kappa_offset(r as int);
    seq![
        PathElem::MoveTo { x: (cx - r) as i64, y: cy },
        PathElem::CubicTo {
            x1: (cx - r) as i64,
            y1: (cy - k) as i64,
            x2: (cx - k) as i64,
            y2: (cy - r) as i64,
            x: cx,
            y: (cy - r) as i64,
        },
        PathElem::CubicTo {
            x1: (cx + k) as i64,
            y1: (cy - r) as i64,
            x2: (cx + r) as i64,
            y2: (cy - k) as i64,
            x: (cx + r) as i64,
            y: cy,
        },
        PathElem::CubicTo {
            x1: (cx + r) as i64,
            y1: (cy + k) as i64,
            x2: (cx + k) as i64,
            y2: (cy + r) as i64,
            x: cx,
            y: (cy + r) as i64,
        },
        PathElem::CubicTo {
            x1: (cx - k) as i64,
            y1: (cy + r) as i64,
            x2: (cx - r) as i64,
            y2: (cy + k) as i64,
            x: (cx - r) as i64,
            y: cy,
        },
        PathElem::ClosePath,
    ]
}

/// Move to the first point, a line to each later point, then close.
/// No points at all yield no path.
pub open spec fn polygon_elems(pts: Seq<Point>) -> Seq<PathElem> {
    if pts.len() == 0 {
        Seq::empty()
    } else {
        seq![PathElem::MoveTo { x: pts[0].x, y: pts[0].y }] + Seq::new(
            (pts.len() - 1) as nat,
            |i: int| PathElem::LineTo { x: pts[i + 1].x, y: pts[i + 1].y },
        ) + seq![PathElem::ClosePath]
    }
}

/// The path a command's geometry describes; a text command has none.
pub open spec fn command_elems(cmd: DrawCommand) -> Seq<PathElem> {
    match cmd {
        DrawCommand::Circle { position, radius, .. } => circle_elems(
            position.x,
            position.y,
            radius,
        ),
        DrawCommand::Line { start, end, .. } => line_elems(start, end),
        DrawCommand::Rectangle { position, width, height, .. } => rect_elems(
            position.x,
            position.y,
            width,
            height,
        ),
        DrawCommand::Polygon { points, .. } => polygon_elems(points@),
        DrawCommand::Text { .. } => Seq::empty(),
    }
}

/// The on-curve point at which a path step ends, if it has one.
pub open spec fn elem_end(e: PathElem) -> Option<(int, int)> {
    match e {
        PathElem::MoveTo { x, y } => Some((x as int, y as int)),
        PathElem::LineTo { x, y } => Some((x as int, y as int)),
        PathElem::CubicTo { x, y, .. } => Some((x as int, y as int)),
        PathElem::ClosePath => None,
    }
}

/// The four cardinal points (cx ± r, cy) and (cx, cy ± r) lie exactly on a
/// circle's constructed path: each is the on-curve endpoint of one of the
/// four Bezier arcs (a cubic segment passes exactly through its endpoints),
/// before any rasterization rounding.
pub proof fn lemma_circle_path_cardinal_points(cx: i64, cy: i64, r: i64)
    requires
        0 <= r,
        coord_ok(cx - r),
        coord_ok(cx + r),
        coord_ok(cy - r),
        coord_ok(cy + r),
    ensures
        elem_end(circle_elems(cx, cy, r)[0]) == Some(((cx - r) as int, cy as int)),
        elem_end(circle_elems(cx, cy, r)[1]) == Some((cx as int, (cy - r) as int)),
        elem_end(circle_elems(cx, cy, r)[2]) == Some(((cx + r) as int, cy as int)),
        elem_end(circle_elems(cx, cy, r)[3]) == Some((cx as int, (cy + r) as int)),
        elem_end(circle_elems(cx, cy, r)[4]) == Some(((cx - r) as int, cy as int)),
{
}

/// Builds a line's path.
pub fn line_path(start: Point, end: Point) -> (v: Vec<PathElem>)
    requires
        point_ok(start),
        point_ok(end),
    ensures
        v@ == line_elems(start, end),
        single_contour(v@),
        elems_in_bounds(v@),
{
    let mut v: Vec<PathElem> = Vec::new();
    v.push(PathElem::MoveTo { x: start.x, y: start.y });
    v.push(PathElem::LineTo { x: end.x, y: end.y });
    proof {
        assert(v@ =~= line_elems(start, end));
    }
    v
}

/// Builds a rectangle's path from its top-left corner and size.
pub fn rectangle_path(position: Point, width: i64, height: i64) -> (v: Vec<PathElem>)
    requires
        0 <= width,
        0 <= height,
        coord_ok(position.x as int),
        coord_ok(position.y as int),
        coord_ok(position.x + width),
        coord_ok(position.y + height),
    ensures
        v@ == rect_elems(position.x, position.y, width, height),
        single_contour(v@),
        elems_in_bounds(v@),
{
    let x: i64 = position.x;
    let y: i64 = position.y;
    let mut v: Vec<PathElem> = Vec::new();
    v.push(PathElem::MoveTo { x: x, y: y });
    v.push(PathElem::LineTo { x: x + width, y: y });
    v.push(PathElem::LineTo { x: x + width, y: y + height });
    v.push(PathElem::LineTo { x: x, y: y + height });
    v.push(PathElem::ClosePath);
    proof {
        assert(v@ =~= rect_elems(position.x, position.y, width, height));
    }
    v
}

/// Builds a circle's path: four cubic arcs around the center.
pub fn circle_path(position: Point, radius: i64) -> (v: Vec<PathElem>)
    requires
        0 <= radius,
        coord_ok(position.x - radius),
        coord_ok(position.x + radius),
        coord_ok(position.y - radius),
        coord_ok(position.y + radius),
    ensures
        v@ == circle_elems(position.x, position.y, radius),
        single_contour(v@),
        elems_in_bounds(v@),
{
    let cx: i64 = position.x;
    let cy: i64 = position.y;
    let r: i64 = radius;
    let k: i64 = kappa_offset_px(r);
    let mut v: Vec<PathElem> = Vec::new();
    v.push(PathElem::MoveTo { x: cx - r, y: cy });
    v.push(PathElem::CubicTo { x1: cx - r, y1: cy - k, x2: cx - k, y2: cy - r, x: cx, y: cy - r });
    v.push(PathElem::CubicTo { x1: cx + k, y1: cy - r, x2: cx + r, y2: cy - k, x: cx + r, y: cy });
    v.push(PathElem::CubicTo { x1: cx + r, y1: cy + k, x2: cx + k, y2: cy + r, x: cx, y: cy + r });
    v.push(PathElem::CubicTo { x1: cx - k, y1: cy + r, x2: cx - r, y2: cy + k, x: cx - r, y: cy });
    v.push(PathElem::ClosePath);
    proof {
        assert(v@ =~= circle_elems(position.x, position.y, radius));
    }
    v
}

/// Builds a polygon's path; an empty point list yields an empty path.
pub fn polygon_path(points: &Vec<Point>) -> (v: Vec<PathElem>)
    requires
        forall|i: int| 0 <= i < points@.len() ==> point_ok(#[trigger] points@[i]),
    ensures
        v@ == polygon_elems(points@),
        v@.len() == 0 <==> points@.len() == 0,
        points@.len() > 0 ==> single_contour(v@),
        elems_in_bounds(v@),
{
    let mut v: Vec<PathElem> = Vec::new();
    let n: usize = points.len();
    if n == 0 {
        proof {
            assert(v@ =~= polygon_elems(points@));
        }
        return v;
    }
    v.push(PathElem::MoveTo { x: points[0].x, y: points[0].y });
    let mut i: usize = 1;
    while i < n
        invariant
            1 <= i <= n,
            n == points@.len(),
            forall|j: int| 0 <= j < points@.len() ==> point_ok(#[trigger] points@[j]),
            v@.len() == i,
            v@[0] == (PathElem::MoveTo { x: points@[0].x, y: points@[0].y }),
            forall|j: int|
                1 <= j < i ==> v@[j] == (PathElem::LineTo {
                    x: points@[j].x,
                    y: points@[j].y,
                }),
        decreases n - i,
    {
        v.push(PathElem::LineTo { x: points[i].x, y: points[i].y });
        i = i + 1;
    }
    v.push(PathElem::ClosePath);
    proof {
        assert(v@ =~= polygon_elems(points@));
    }
    v
}

/// Builds the path for any command, dispatching over all five variants.
pub fn command_path(cmd: &DrawCommand) -> (v: Vec<PathElem>)
    requires
        crate::primitives::cmd_wf(*cmd),
    ensures
        v@ == command_elems(*cmd),
        v@.len() > 0 ==> single_contour(v@),
        elems_in_bounds(v@),
{
    match cmd {
        DrawCommand::Circle { position, radius, fill: _, stroke: _ } => circle_path(
            *position,
            *radius,
        ),
        DrawCommand::Line { start, end, stroke: _ } => line_path(*start, *end),
        DrawCommand::Rectangle { position, width, height, fill: _, stroke: _ } => rectangle_path(
            *position,
            *width,
            *height,
        ),
        DrawCommand::Polygon { points, fill: _, stroke: _ } => polygon_path(points),
        DrawCommand::Text { .. } => {
            let v: Vec<PathElem> = Vec::new();
            proof {
                assert(v@ =~= command_elems(*cmd));
            }
            v
        },
    }
}

} // verus!
