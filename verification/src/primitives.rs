use vstd::prelude::*;

verus! {

/// Coordinates are fixed-point: this many subpixel units make one pixel.
///
/// All geometry handed to the renderer is expressed in these units, on a
/// 1/256-pixel grid. Every value in `-COORD_LIMIT ..= COORD_LIMIT` converts
/// to `f32` exactly, so the rasterizer sees precisely the coordinates that
/// were computed here.
pub const SUBPIXELS: i64 = 256;

/// Largest coordinate magnitude, in subpixel units, that a drawable shape
/// may use: 2^24 units, that is 65536 pixels in either direction.
pub const COORD_LIMIT: i64 = 16777216;

/// A position on the canvas, in subpixel units (see [`SUBPIXELS`]).
///
/// Origin at the top-left corner, x grows right, y grows down.
#[derive(Clone, Copy, PartialEq, Eq, Structural, Debug)]
pub struct Point {
    pub x: i64,
    pub y: i64,
}

/// A color in 8-bit RGBA. Alpha 0 is fully transparent, 255 fully opaque.
#[derive(Clone, Copy, PartialEq, Eq, Structural, Debug)]
pub struct Color {
    pub r: u8,
    pub g: u8,
    pub b: u8,
    pub a: u8,
}

/// An outline style: an optional color and a width in subpixel units.
///
/// `color: None` means "draw no outline at all", even though a width is
/// present. That is distinct from a stroke whose color has alpha 0, which
/// is drawn (invisibly). Width alone never triggers drawing.
#[derive(Clone, Copy, PartialEq, Eq, Debug)]
pub struct Stroke {
    pub color: Option<Color>,
    pub width: i64,
}

/// One declarative drawing instruction. The set of variants is closed:
/// every consumer dispatches over all five exhaustively.
#[derive(Clone, PartialEq, Debug)]
pub enum DrawCommand {
    Circle {
        position: Point,
        radius: i64,
        fill: Option<Color>,
        stroke: Option<Stroke>,
    },
    Line {
        start: Point,
        end: Point,
        stroke: Option<Stroke>,
    },
    Rectangle {
        /// Top-left corner.
        position: Point,
        width: i64,
        height: i64,
        fill: Option<Color>,
        stroke: Option<Stroke>,
    },
    Polygon {
        points: Vec<Point>,
        fill: Option<Color>,
        stroke: Option<Stroke>,
    },
    /// Accepted but never rasterized; reserved for a future capability.
    Text {
        position: Point,
        content: String,
        font_size: i64,
        color: Option<Color>,
    },
}

impl Point {
    /// Builds a point from whole-pixel coordinates.
    pub fn from_px(x: i32, y: i32) -> (r: Point)
        ensures
            r.x == x as i64 * SUBPIXELS,
            r.y == y as i64 * SUBPIXELS,
    {
        Point { x: x as i64 * SUBPIXELS, y: y as i64 * SUBPIXELS }
    }
}

impl Default for Point {
    /// The default point is the origin.
    fn default() -> (r: Point)
        ensures
            r == (Point { x: 0, y: 0 }),
    {
        Point { x: 0, y: 0 }
    }
}

impl Default for Color {
    /// The default color is opaque black.
    fn default() -> (r: Color)
        ensures
            r == (Color { r: 0, g: 0, b: 0, a: 255 }),
    {
        Color { r: 0, g: 0, b: 0, a: 255 }
    }
}

impl Default for Stroke {
    /// The default stroke is opaque black, two pixels wide.
    fn default() -> (r: Stroke)
        ensures
            r.color == Some(Color { r: 0, g: 0, b: 0, a: 255 }),
            r.width == 2 * SUBPIXELS,
    {
        Stroke { color: Some(Color { r: 0, g: 0, b: 0, a: 255 }), width: 2 * SUBPIXELS }
    }
}

/// A coordinate a shape may use: within the exactly-representable range.
pub open spec fn coord_ok(c: int) -> bool {
    -COORD_LIMIT <= c && c <= COORD_LIMIT
}

pub open spec fn point_ok(p: Point) -> bool {
    coord_ok(p.x as int) && coord_ok(p.y as int)
}

/// A stroke the rasterizer accepts: non-negative width, within range.
pub open spec fn stroke_ok(s: Stroke) -> bool {
    0 <= s.width && s.width <= COORD_LIMIT
}

pub open spec fn opt_stroke_ok(s: Option<Stroke>) -> bool {
    match s {
        Some(st) => stroke_ok(st),
        None => true,
    }
}

/// Well-formed geometry: every coordinate the shape's path will touch lies
/// in the representable range, and sizes are non-negative.
pub open spec fn cmd_wf(cmd: DrawCommand) -> bool {
    match cmd {
        DrawCommand::Circle { position, radius, fill: _, stroke } => {
            0 <= radius && coord_ok(position.x - radius) && coord_ok(position.x + radius)
                && coord_ok(position.y - radius) && coord_ok(position.y + radius)
                && opt_stroke_ok(stroke)
        },
        DrawCommand::Line { start, end, stroke } => {
            point_ok(start) && point_ok(end) && opt_stroke_ok(stroke)
        },
        DrawCommand::Rectangle { position, width, height, fill: _, stroke } => {
            0 <= width && 0 <= height && coord_ok(position.x as int) && coord_ok(
                position.y as int,
            ) && coord_ok(position.x + width) && coord_ok(position.y + height) && opt_stroke_ok(
                stroke,
            )
        },
        DrawCommand::Polygon { points, fill: _, stroke } => {
            (forall|i: int| 0 <= i < points@.len() ==> point_ok(#[trigger] points@[i]))
                && opt_stroke_ok(stroke)
        },
        DrawCommand::Text { .. } => true,
    }
}

/// The fill color a command asks for; a line or a text has none.
pub open spec fn cmd_fill(cmd: DrawCommand) -> Option<Color> {
    match cmd {
        DrawCommand::Circle { fill, .. } => fill,
        DrawCommand::Line { .. } => None,
        DrawCommand::Rectangle { fill, .. } => fill,
        DrawCommand::Polygon { fill, .. } => fill,
        DrawCommand::Text { .. } => None,
    }
}

/// The stroke a command asks for; a text has none.
pub open spec fn cmd_stroke(cmd: DrawCommand) -> Option<Stroke> {
    match cmd {
        DrawCommand::Circle { stroke, .. } => stroke,
        DrawCommand::Line { stroke, .. } => stroke,
        DrawCommand::Rectangle { stroke, .. } => stroke,
        DrawCommand::Polygon { stroke, .. } => stroke,
        DrawCommand::Text { .. } => None,
    }
}

/// Reads [`cmd_fill`] at run time.
pub fn fill_of(cmd: &DrawCommand) -> (r: Option<Color>)
    ensures
        r == cmd_fill(*cmd),
{
    match cmd {
        DrawCommand::Circle { fill, .. } => *fill,
        DrawCommand::Line { .. } => None,
        DrawCommand::Rectangle { fill, .. } => *fill,
        DrawCommand::Polygon { fill, .. } => *fill,
        DrawCommand::Text { .. } => None,
    }
}

/// Reads [`cmd_stroke`] at run time.
pub fn stroke_of(cmd: &DrawCommand) -> (r: Option<Stroke>)
    ensures
        r == cmd_stroke(*cmd),
{
    match cmd {
        DrawCommand::Circle { stroke, .. } => *stroke,
        DrawCommand::Line { stroke, .. } => *stroke,
        DrawCommand::Rectangle { stroke, .. } => *stroke,
        DrawCommand::Polygon { stroke, .. } => *stroke,
        DrawCommand::Text { .. } => None,
    }
}

fn stroke_in_bounds(s: &Option<Stroke>) -> (r: bool)
    ensures
        r == opt_stroke_ok(*s),
{
    match s {
        Some(st) => 0 <= st.width && st.width <= COORD_LIMIT,
        None => true,
    }
}

fn coord_in_bounds(c: i64) -> (r: bool)
    ensures
        r == coord_ok(c as int),
{
    -COORD_LIMIT <= c && c <= COORD_LIMIT
}

/// Decides [`cmd_wf`] at run time, so that a caller can test a command
/// before handing it to the renderer.
pub fn command_in_bounds(cmd: &DrawCommand) -> (r: bool)
    ensures
        r == cmd_wf(*cmd),
{
    match cmd {
        DrawCommand::Circle { position, radius, fill: _, stroke } => {
            0 <= *radius && *radius <= COORD_LIMIT && coord_in_bounds(position.x)
                && coord_in_bounds(position.y) && coord_in_bounds(position.x - *radius)
                && coord_in_bounds(position.x + *radius) && coord_in_bounds(position.y - *radius)
                && coord_in_bounds(position.y + *radius) && stroke_in_bounds(stroke)
        },
        DrawCommand::Line { start, end, stroke } => {
            coord_in_bounds(start.x) && coord_in_bounds(start.y) && coord_in_bounds(end.x)
                && coord_in_bounds(end.y) && stroke_in_bounds(stroke)
        },
        DrawCommand::Rectangle { position, width, height, fill: _, stroke } => {
            0 <= *width && *width <= 2 * COORD_LIMIT && 0 <= *height && *height <= 2 * COORD_LIMIT
                && coord_in_bounds(position.x) && coord_in_bounds(position.y) && coord_in_bounds(
                position.x + *width,
            ) && coord_in_bounds(position.y + *height) && stroke_in_bounds(stroke)
        },
        DrawCommand::Polygon { points, fill: _, stroke } => {
            let mut ok: bool = true;
            let n: usize = points.len();
            let mut i: usize = 0;
            while i < n
                invariant
                    n == points@.len(),
                    0 <= i <= n,
                    ok == (forall|j: int| 0 <= j < i ==> point_ok(#[trigger] points@[j])),
                decreases n - i,
            {
                ok = ok && coord_in_bounds(points[i].x) && coord_in_bounds(points[i].y);
                i = i + 1;
            }
            ok && stroke_in_bounds(stroke)
        },
        DrawCommand::Text { .. } => true,
    }
}

} // verus!
