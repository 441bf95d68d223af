use vstd::prelude::*;

use crate::path::{elem_in_bounds, elems_in_bounds, single_contour, PathElem};
use crate::primitives::{coord_ok, Color, COORD_LIMIT};

verus! {

// The rasterizer behind the canvas. Path geometry crosses this boundary in
// subpixel units (1/256 of a pixel): every coordinate is an integer with
// magnitude at most 2^24, so its conversion to f32 is exact, and a fixed
// 1/256 scale transform maps it onto the pixel grid when painting.

#[verifier::external_type_specification]
#[verifier::external_body]
pub struct ExPixmap(tiny_skia::Pixmap);

#[verifier::external_type_specification]
#[verifier::external_body]
pub struct ExPathBuilder(tiny_skia::PathBuilder);

#[verifier::external_type_specification]
#[verifier::external_body]
pub struct ExPath(tiny_skia::Path);

/// The pixel buffer a pixmap holds: premultiplied RGBA8 bytes, row-major.
pub uninterp spec fn pixmap_bytes(p: tiny_skia::Pixmap) -> Seq<u8>;

/// The width, in pixels, a pixmap was created with.
pub uninterp spec fn pixmap_width(p: tiny_skia::Pixmap) -> u32;

/// The steps recorded so far in a path builder, in subpixel units.
pub uninterp spec fn builder_elems(b: tiny_skia::PathBuilder) -> Seq<PathElem>;

/// The steps of a finished path, in subpixel units.
pub uninterp spec fn path_elems(p: tiny_skia::Path) -> Seq<PathElem>;

/// The pixel bytes that filling a path's interior leaves behind: a
/// function of the prior bytes, the pixmap width, the path, the paint
/// color and the anti-aliasing flag, and of nothing else.
pub uninterp spec fn fill_painted(
    bytes: Seq<u8>,
    width: u32,
    elems: Seq<PathElem>,
    color: Color,
    anti_alias: bool,
) -> Seq<u8>;

/// The pixel bytes that stroking a path's outline leaves behind: a
/// function of the prior bytes, the pixmap width, the path, the paint
/// color, the stroke width (in subpixel units) and the anti-aliasing
/// flag, and of nothing else.
pub uninterp spec fn stroke_painted(
    bytes: Seq<u8>,
    width: u32,
    elems: Seq<PathElem>,
    color: Color,
    stroke_width: i64,
    anti_alias: bool,
) -> Seq<u8>;

/// The byte image of a buffer holding one opaque color in every pixel.
pub open spec fn solid_bytes(len: nat, c: Color) -> Seq<u8> {
    Seq::new(
        len,
        |i: int|
            if i % 4 == 0 {
                c.r
            } else if i % 4 == 1 {
                c.g
            } else if i % 4 == 2 {
                c.b
            } else {
                c.a
            },
    )
}

/// Relies on tiny_skia::Pixmap::new: allocates a width x height buffer of
/// zeroed RGBA8 bytes, and returns None exactly when a dimension is zero,
/// the width exceeds i32::MAX / 4, or the byte length overflows usize.
#[verifier::external_body]
pub(crate) fn pixmap_new(width: u32, height: u32) -> (r: Option<tiny_skia::Pixmap>)
    ensures
        r is Some <==> (1 <= width && 1 <= height && width <= 536870911 && 4 * (width as int) * (
        height as int) <= usize::MAX as int),
        r is Some ==> pixmap_width(r->Some_0) == width,
        r is Some ==> pixmap_bytes(r->Some_0) == Seq::new(
            4 * (width as nat) * (height as nat),
            |i: int| 0u8,
        ),
{
    tiny_skia::Pixmap::new(width, height)
}

/// Relies on tiny_skia::Pixmap::fill: writes the color into every pixel;
/// premultiplying a fully opaque color leaves its bytes unchanged, so the
/// buffer becomes the color's bytes repeated.
#[verifier::external_body]
pub(crate) fn pixmap_fill_opaque(p: &mut tiny_skia::Pixmap, color: Color)
    requires
        color.a == 255,
    ensures
        pixmap_width(*final(p)) == pixmap_width(*old(p)),
        pixmap_bytes(*final(p)) == solid_bytes(pixmap_bytes(*old(p)).len(), color),
{
    p.fill(tiny_skia::Color::from_rgba8(color.r, color.g, color.b, color.a));
}

/// Relies on tiny_skia::PathBuilder::new: starts with no recorded steps.
#[verifier::external_body]
pub(crate) fn builder_new() -> (b: tiny_skia::PathBuilder)
    ensures
        builder_elems(b) == Seq::<PathElem>::empty(),
{
    tiny_skia::PathBuilder::new()
}

/// Relies on tiny_skia::PathBuilder::move_to: on an empty builder it
/// records exactly one contour start.
#[verifier::external_body]
pub(crate) fn builder_move_to(b: &mut tiny_skia::PathBuilder, x: i64, y: i64)
    requires
        builder_elems(*old(b)).len() == 0,
        coord_ok(x as int),
        coord_ok(y as int),
    ensures
        builder_elems(*final(b)) == builder_elems(*old(b)).push(PathElem::MoveTo { x, y }),
{
    b.move_to(x as _, y as _);
}

/// Relies on tiny_skia::PathBuilder::line_to: within a begun, still open
/// contour it appends exactly one line segment.
#[verifier::external_body]
pub(crate) fn builder_line_to(b: &mut tiny_skia::PathBuilder, x: i64, y: i64)
    requires
        builder_elems(*old(b)).len() > 0,
        builder_elems(*old(b))[0] is MoveTo,
        !(builder_elems(*old(b)).last() is ClosePath),
        coord_ok(x as int),
        coord_ok(y as int),
    ensures
        builder_elems(*final(b)) == builder_elems(*old(b)).push(PathElem::LineTo { x, y }),
{
    b.line_to(x as _, y as _);
}

/// Relies on tiny_skia::PathBuilder::cubic_to: within a begun, still open
/// contour it appends exactly one cubic Bezier segment.
#[verifier::external_body]
pub(crate) fn builder_cubic_to(
    b: &mut tiny_skia::PathBuilder,
    x1: i64,
    y1: i64,
    x2: i64,
    y2: i64,
    x: i64,
    y: i64,
)
    requires
        builder_elems(*old(b)).len() > 0,
        builder_elems(*old(b))[0] is MoveTo,
        !(builder_elems(*old(b)).last() is ClosePath),
        coord_ok(x1 as int),
        coord_ok(y1 as int),
        coord_ok(x2 as int),
        coord_ok(y2 as int),
        coord_ok(x as int),
        coord_ok(y as int),
    ensures
        builder_elems(*final(b)) == builder_elems(*old(b)).push(
            PathElem::CubicTo { x1, y1, x2, y2, x, y },
        ),
{
    b.cubic_to(x1 as _, y1 as _, x2 as _, y2 as _, x as _, y as _);
}

/// Relies on tiny_skia::PathBuilder::close: on a begun, still open contour
/// it records exactly one closing step.
#[verifier::external_body]
pub(crate) fn builder_close(b: &mut tiny_skia::PathBuilder)
    requires
        builder_elems(*old(b)).len() > 0,
        !(builder_elems(*old(b)).last() is ClosePath),
    ensures
        builder_elems(*final(b)) == builder_elems(*old(b)).push(PathElem::ClosePath),
{
    b.close();
}

/// Relies on tiny_skia::PathBuilder::finish: with finite coordinates it
/// returns a path holding exactly the recorded steps, and returns None
/// exactly when fewer than two steps were recorded.
#[verifier::external_body]
pub(crate) fn builder_finish(b: tiny_skia::PathBuilder) -> (r: Option<tiny_skia::Path>)
    requires
        elems_in_bounds(builder_elems(b)),
        builder_elems(b).len() == 0 || builder_elems(b)[0] is MoveTo,
    ensures
        r is Some <==> builder_elems(b).len() >= 2,
        r is Some ==> path_elems(r->Some_0) == builder_elems(b),
{
    b.finish()
}

/// Relies on tiny_skia::Pixmap::fill_path: composites the path's interior
/// over the pixels with the winding fill rule and source-over blending,
/// scaling subpixel coordinates down to the pixel grid; the buffer's size
/// and the pixmap's width never change.
#[verifier::external_body]
pub(crate) fn fill_path_on(
    p: &mut tiny_skia::Pixmap,
    path: &tiny_skia::Path,
    color: Color,
    anti_alias: bool,
)
    ensures
        pixmap_width(*final(p)) == pixmap_width(*old(p)),
        pixmap_bytes(*final(p)).len() == pixmap_bytes(*old(p)).len(),
        pixmap_bytes(*final(p)) == fill_painted(
            pixmap_bytes(*old(p)),
            pixmap_width(*old(p)),
            path_elems(*path),
            color,
            anti_alias,
        ),
{
    let mut paint = tiny_skia::Paint::default();
    paint.set_color(tiny_skia::Color::from_rgba8(color.r, color.g, color.b, color.a));
    paint.anti_alias = anti_alias;
    let ts = tiny_skia::Transform::from_scale(256 as _, 256 as _).invert().unwrap();
    p.fill_path(path, &paint, tiny_skia::FillRule::Winding, ts, None);
}

/// Relies on tiny_skia::Pixmap::stroke_path: composites a band of the
/// given width (in subpixel units, like the path) along the path's
/// outline, scaling both down to the pixel grid; the buffer's size and
/// the pixmap's width never change.
#[verifier::external_body]
pub(crate) fn stroke_path_on(
    p: &mut tiny_skia::Pixmap,
    path: &tiny_skia::Path,
    color: Color,
    stroke_width: i64,
    anti_alias: bool,
)
    requires
        0 <= stroke_width <= COORD_LIMIT,
    ensures
        pixmap_width(*final(p)) == pixmap_width(*old(p)),
        pixmap_bytes(*final(p)).len() == pixmap_bytes(*old(p)).len(),
        pixmap_bytes(*final(p)) == stroke_painted(
            pixmap_bytes(*old(p)),
            pixmap_width(*old(p)),
            path_elems(*path),
            color,
            stroke_width,
            anti_alias,
        ),
{
    let mut paint = tiny_skia::Paint::default();
    paint.set_color(tiny_skia::Color::from_rgba8(color.r, color.g, color.b, color.a));
    paint.anti_alias = anti_alias;
    let mut stroke = tiny_skia::Stroke::default();
    stroke.width = stroke_width as _;
    let ts = tiny_skia::Transform::from_scale(256 as _, 256 as _).invert().unwrap();
    p.stroke_path(path, &paint, &stroke, ts, None);
}

/// Replays a single-contour step list into the rasterizer's path builder.
/// Such a list always finishes into a path with exactly those steps.
pub(crate) fn build_path(elems: &Vec<PathElem>) -> (r: Option<tiny_skia::Path>)
    requires
        single_contour(elems@),
        elems_in_bounds(elems@),
    ensures
        r is Some,
        path_elems(r->Some_0) == elems@,
{
    let mut b = builder_new();
    proof {
        assert(builder_elems(b) =~= elems@.take(0));
    }
    let n: usize = elems.len();
    let mut i: usize = 0;
    while i < n
        invariant
            0 <= i <= n,
            n == elems@.len(),
            single_contour(elems@),
            elems_in_bounds(elems@),
            builder_elems(b) == elems@.take(i as int),
        decreases n - i,
    {
        proof {
            assert(elem_in_bounds(elems@[i as int]));
        }
        match elems[i] {
            PathElem::MoveTo { x, y } => builder_move_to(&mut b, x, y),
            PathElem::LineTo { x, y } => builder_line_to(&mut b, x, y),
            PathElem::CubicTo { x1, y1, x2, y2, x, y } => builder_cubic_to(
                &mut b,
                x1,
                y1,
                x2,
                y2,
                x,
                y,
            ),
            PathElem::ClosePath => builder_close(&mut b),
        }
        proof {
            assert(builder_elems(b) =~= elems@.take(i as int + 1));
        }
        i = i + 1;
    }
    proof {
        assert(elems@.take(n as int) =~= elems@);
    }
    builder_finish(b)
}

} // verus!
