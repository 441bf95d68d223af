use vstd::prelude::*;

use crate::path::{command_elems, command_path};
use crate::primitives::{
    cmd_fill, cmd_stroke, cmd_wf, fill_of, stroke_of, Color, DrawCommand, Stroke,
};
use crate::skia::{
    build_path, fill_painted, fill_path_on, pixmap_bytes, pixmap_fill_opaque, pixmap_new,
    pixmap_width, solid_bytes, stroke_painted, stroke_path_on,
};
use crate::style::{resolve_stroke, resolved_stroke};

verus! {

/// Why a render call failed. Every failure aborts the whole render; the
/// two designed no-ops (an empty polygon, an unrasterized text) are
/// successes, not errors.
#[derive(Clone, PartialEq, Eq, Debug)]
pub enum RenderError {
    /// No pixel buffer of the requested size could be created.
    CanvasAllocationFailed,
    /// A non-empty shape's path could not be finalized.
    PathConstructionFailed,
    /// A requested stroke descriptor could not be built.
    StrokeConstructionFailed,
    /// The output sink reported a failure, described by its message.
    OutputEncodingFailed(String),
}

/// The background every canvas starts with: opaque white.
pub open spec fn background() -> Color {
    Color { r: 255, g: 255, b: 255, a: 255 }
}

/// The bytes of a freshly created canvas: all-white, 4 bytes per pixel.
pub open spec fn blank_bytes(width: u32, height: u32) -> Seq<u8> {
    solid_bytes(4 * (width as nat) * (height as nat), background())
}

/// Whether a buffer of width x height pixels can be allocated at all.
pub open spec fn canvas_size_ok(width: u32, height: u32) -> bool {
    1 <= width && 1 <= height && width <= 536870911 && 4 * (width as int) * (height as int)
        <= usize::MAX as int
}

/// The bytes one command leaves on a canvas of the given width: the
/// path's interior first, when a fill color is present; the outline after
/// it, when the stroke resolves to a color; no change at all for a text
/// command or a polygon without points.
pub open spec fn apply_cmd_bytes(bytes: Seq<u8>, width: u32, cmd: DrawCommand) -> Seq<u8> {
    let elems = command_elems(cmd);
    if elems.len() == 0 {
        bytes
    } else {
        let after_fill = match cmd_fill(cmd) {
            Some(c) => fill_painted(bytes, width, elems, c, true),
            None => bytes,
        };
        match resolved_stroke(cmd_stroke(cmd)) {
            Some(cw) => stroke_painted(after_fill, width, elems, cw.0, cw.1, true),
            None => after_fill,
        }
    }
}

/// A pixel buffer being composited: created blank, mutated strictly in
/// command order, then handed over for output.
pub struct Canvas {
    pix: tiny_skia::Pixmap,
    width: u32,
    height: u32,
}

impl Canvas {
    /// The buffer's bytes: premultiplied RGBA8, row-major.
    pub closed spec fn pixels(self) -> Seq<u8> {
        pixmap_bytes(self.pix)
    }

    pub closed spec fn spec_width(self) -> u32 {
        self.width
    }

    pub closed spec fn spec_height(self) -> u32 {
        self.height
    }

    /// A canvas as every constructor and method hands it on: the buffer
    /// belongs to a rasterizer pixmap of the stated size.
    pub closed spec fn wf(self) -> bool {
        &&& pixmap_width(self.pix) == self.width
        &&& self.pixels().len() == 4 * (self.width as nat) * (self.height as nat)
        &&& 1 <= self.width
        &&& 1 <= self.height
    }

    /// Allocates a canvas and fills it with the white background. Fails,
    /// with the allocation error, exactly when the size is unrepresentable.
    pub fn new(width: u32, height: u32) -> (r: Result<Canvas, RenderError>)
        ensures
            r is Ok <==> canvas_size_ok(width, height),
            r is Err ==> r->Err_0 == RenderError::CanvasAllocationFailed,
            r is Ok ==> r->Ok_0.wf() && r->Ok_0.spec_width() == width && r->Ok_0.spec_height()
                == height && r->Ok_0.pixels() == blank_bytes(width, height),
    {
        match pixmap_new(width, height) {
            Some(pix) => {
                let mut pix = pix;
                pixmap_fill_opaque(&mut pix, Color { r: 255, g: 255, b: 255, a: 255 });
                Ok(Canvas { pix, width, height })
            },
            None => Err(RenderError::CanvasAllocationFailed),
        }
    }

    /// Composites one command onto the canvas: resolves its path, fills
    /// the interior when a fill color is present, then strokes the
    /// outline when the stroke resolves to a color. A text command and a
    /// polygon without points succeed without touching a pixel.
    pub fn apply(&mut self, cmd: &DrawCommand) -> (r: Result<(), RenderError>)
        requires
            old(self).wf(),
            cmd_wf(*cmd),
        ensures
            final(self).wf(),
            final(self).spec_width() == old(self).spec_width(),
            final(self).spec_height() == old(self).spec_height(),
            r is Ok,
            final(self).pixels() == apply_cmd_bytes(
                old(self).pixels(),
                old(self).spec_width(),
                *cmd,
            ),
    {
        let elems = command_path(cmd);
        if elems.len() == 0 {
            return Ok(());
        }
        let path = match build_path(&elems) {
            Some(p) => p,
            None => { return Err(RenderError::PathConstructionFailed) },
        };
        match fill_of(cmd) {
            Some(c) => fill_path_on(&mut self.pix, &path, c, true),
            None => (),
        }
        match resolve_stroke(&stroke_of(cmd)) {
            Some((c, w)) => stroke_path_on(&mut self.pix, &path, c, w, true),
            None => (),
        }
        Ok(())
    }

    /// Hands the finished buffer over; the canvas is consumed, so no
    /// further compositing can follow.
    pub fn into_pixmap(self) -> (r: tiny_skia::Pixmap)
        requires
            self.wf(),
        ensures
            pixmap_bytes(r) == self.pixels(),
            pixmap_width(r) == self.spec_width(),
            pixmap_bytes(r).len() == 4 * (self.spec_width() as nat) * (self.spec_height() as nat),
    {
        self.pix
    }

    pub fn width(&self) -> (r: u32)
        ensures
            r == self.spec_width(),
    {
        self.width
    }

    pub fn height(&self) -> (r: u32)
        ensures
            r == self.spec_height(),
    {
        self.height
    }
}

/// A command that requests neither a fill nor a stroke leaves every pixel
/// as it was, whatever its geometry.
pub proof fn lemma_unstyled_command_changes_nothing(bytes: Seq<u8>, width: u32, cmd: DrawCommand)
    requires
        cmd_fill(cmd) is None,
        cmd_stroke(cmd) is None,
    ensures
        apply_cmd_bytes(bytes, width, cmd) == bytes,
{
}

/// A polygon with no points yields no path: it succeeds and leaves every
/// pixel as it was, whatever styling it carries.
pub proof fn lemma_empty_polygon_changes_nothing(bytes: Seq<u8>, width: u32, cmd: DrawCommand)
    requires
        cmd matches DrawCommand::Polygon { points, .. } && points@.len() == 0,
    ensures
        apply_cmd_bytes(bytes, width, cmd) == bytes,
{
}

/// A text command never touches the pixel buffer.
pub proof fn lemma_text_changes_nothing(bytes: Seq<u8>, width: u32, cmd: DrawCommand)
    requires
        cmd is Text,
    ensures
        apply_cmd_bytes(bytes, width, cmd) == bytes,
{
}

/// The command with its stroke request replaced; the geometry, the fill
/// and a text command are untouched.
pub open spec fn with_stroke(cmd: DrawCommand, stroke: Option<Stroke>) -> DrawCommand {
    match cmd {
        DrawCommand::Circle { position, radius, fill, stroke: _ } => DrawCommand::Circle {
            position,
            radius,
            fill,
            stroke,
        },
        DrawCommand::Line { start, end, stroke: _ } => DrawCommand::Line { start, end, stroke },
        DrawCommand::Rectangle { position, width, height, fill, stroke: _ } =>
            DrawCommand::Rectangle { position, width, height, fill, stroke },
        DrawCommand::Polygon { points, fill, stroke: _ } => DrawCommand::Polygon {
            points,
            fill,
            stroke,
        },
        DrawCommand::Text { .. } => cmd,
    }
}

/// A stroke whose color is absent draws nothing: a command styled with it
/// renders exactly as the same command with no stroke at all, even though
/// a width was specified.
pub proof fn lemma_colorless_stroke_draws_nothing(bytes: Seq<u8>, width: u32, cmd: DrawCommand)
    requires
        cmd_stroke(cmd) matches Some(st) && st.color is None,
    ensures
        apply_cmd_bytes(bytes, width, cmd) == apply_cmd_bytes(bytes, width, with_stroke(cmd, None)),
{
    match cmd {
        DrawCommand::Circle { .. } => {},
        DrawCommand::Line { .. } => {},
        DrawCommand::Rectangle { .. } => {},
        DrawCommand::Polygon { .. } => {},
        DrawCommand::Text { .. } => {},
    }
}

/// When a command carries both a fill color and a stroke that resolves to
/// a color, the final bytes are the stroke painted over the fill of that
/// same command: the outline goes on top.
pub proof fn lemma_fill_before_stroke(bytes: Seq<u8>, width: u32, cmd: DrawCommand)
    requires
        command_elems(cmd).len() > 0,
        cmd_fill(cmd) is Some,
        resolved_stroke(cmd_stroke(cmd)) is Some,
    ensures
        apply_cmd_bytes(bytes, width, cmd) == stroke_painted(
            fill_painted(bytes, width, command_elems(cmd), cmd_fill(cmd)->Some_0, true),
            width,
            command_elems(cmd),
            resolved_stroke(cmd_stroke(cmd))->Some_0.0,
            resolved_stroke(cmd_stroke(cmd))->Some_0.1,
            true,
        ),
{
}

} // verus!
