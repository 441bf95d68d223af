use vstd::prelude::*;

use crate::canvas::{apply_cmd_bytes, blank_bytes, canvas_size_ok, Canvas, RenderError};
use crate::primitives::{cmd_wf, DrawCommand};
use crate::skia::{pixmap_bytes, pixmap_width};

verus! {

/// The pixel bytes after the first n commands of a list have been
/// composited, in list order, onto a blank width x height canvas.
pub open spec fn rendered_prefix(width: u32, height: u32, cmds: Seq<DrawCommand>, n: int) -> Seq<
    u8,
>
    decreases n,
{
    if n <= 0 {
        blank_bytes(width, height)
    } else {
        apply_cmd_bytes(rendered_prefix(width, height, cmds, n - 1), width, cmds[n - 1])
    }
}

/// The pixel bytes a whole command list renders to: white background,
/// every command composited in list order.
pub open spec fn rendered_bytes(width: u32, height: u32, cmds: Seq<DrawCommand>) -> Seq<u8> {
    rendered_prefix(width, height, cmds, cmds.len() as int)
}

/// Renders command lists of a fixed size to a buffer destined for one
/// output file.
pub struct PngRenderer {
    width: u32,
    height: u32,
    file_path: String,
}

impl PngRenderer {
    pub closed spec fn spec_width(self) -> u32 {
        self.width
    }

    pub closed spec fn spec_height(self) -> u32 {
        self.height
    }

    pub closed spec fn spec_file_path(self) -> Seq<char> {
        self.file_path@
    }

    /// A renderer for a width x height canvas, writing to the given path.
    pub fn new(width: u32, height: u32, file_path: &str) -> (r: PngRenderer)
        ensures
            r.spec_width() == width,
            r.spec_height() == height,
            r.spec_file_path() == file_path@,
    {
        PngRenderer { width, height, file_path: file_path.to_owned() }
    }

    pub fn width(&self) -> (r: u32)
        ensures
            r == self.spec_width(),
    {
        self.width
    }

    pub fn height(&self) -> (r: u32)
        ensures
            r == self.spec_height(),
    {
        self.height
    }

    /// The destination the finished image is meant for.
    pub fn file_path(&self) -> (r: &String)
        ensures
            r@ == self.spec_file_path(),
    {
        &self.file_path
    }

    /// Runs one whole render pass: allocates a canvas, clears it to
    /// white, composites every command in list order — fill before
    /// stroke within each command, text commands contributing no pixels —
    /// and hands back the finished buffer for the caller to persist.
    /// Fails, before any command runs, exactly when the canvas size is
    /// unrepresentable.
    pub fn render_pixmap(&self, commands: &[DrawCommand]) -> (r: Result<
        tiny_skia::Pixmap,
        RenderError,
    >)
        requires
            forall|i: int| 0 <= i < commands@.len() ==> cmd_wf(#[trigger] commands@[i]),
        ensures
            r is Ok <==> canvas_size_ok(self.spec_width(), self.spec_height()),
            r is Err ==> r->Err_0 == RenderError::CanvasAllocationFailed,
            r is Ok ==> pixmap_width(r->Ok_0) == self.spec_width(),
            r is Ok ==> pixmap_bytes(r->Ok_0).len() == 4 * (self.spec_width() as nat) * (
            self.spec_height() as nat),
            r is Ok ==> pixmap_bytes(r->Ok_0) == rendered_bytes(
                self.spec_width(),
                self.spec_height(),
                commands@,
            ),
    {
        let mut canvas = match Canvas::new(self.width, self.height) {
            Ok(c) => c,
            Err(e) => { return Err(e) },
        };
        let n: usize = commands.len();
        let mut i: usize = 0;
        while i < n
            invariant
                0 <= i <= n,
                n == commands@.len(),
                forall|j: int| 0 <= j < commands@.len() ==> cmd_wf(#[trigger] commands@[j]),
                canvas.wf(),
                canvas.spec_width() == self.spec_width(),
                canvas.spec_height() == self.spec_height(),
                canvas.pixels() == rendered_prefix(
                    self.spec_width(),
                    self.spec_height(),
                    commands@,
                    i as int,
                ),
            decreases n - i,
        {
            match canvas.apply(&commands[i]) {
                Ok(_) => (),
                Err(e) => { return Err(e) },
            }
            i = i + 1;
        }
        Ok(canvas.into_pixmap())
    }
}

/// Rendering is deterministic: one command list at one size has one
/// result, so rendering it twice into two independently allocated
/// canvases of identical size yields identical pixel buffers.
pub proof fn lemma_render_deterministic(
    width: u32,
    height: u32,
    cmds: Seq<DrawCommand>,
    b1: Seq<u8>,
    b2: Seq<u8>,
)
    requires
        b1 == rendered_bytes(width, height, cmds),
        b2 == rendered_bytes(width, height, cmds),
    ensures
        b1 == b2,
{
}

proof fn lemma_prefix_agrees(
    width: u32,
    height: u32,
    a: Seq<DrawCommand>,
    b: Seq<DrawCommand>,
    n: int,
)
    requires
        0 <= n,
        n <= a.len(),
        n <= b.len(),
        forall|i: int| 0 <= i < n ==> a[i] == b[i],
    ensures
        rendered_prefix(width, height, a, n) == rendered_prefix(width, height, b, n),
    decreases n,
{
    if n > 0 {
        lemma_prefix_agrees(width, height, a, b, n - 1);
    }
}

/// Commands are composited strictly in list order: the last command is
/// painted over everything the earlier ones produced, so where it paints
/// opaquely it occludes them.
pub proof fn lemma_last_command_on_top(width: u32, height: u32, cmds: Seq<DrawCommand>)
    requires
        cmds.len() > 0,
    ensures
        rendered_bytes(width, height, cmds) == apply_cmd_bytes(
            rendered_bytes(width, height, cmds.drop_last()),
            width,
            cmds.last(),
        ),
{
    lemma_prefix_agrees(width, height, cmds, cmds.drop_last(), cmds.len() - 1);
}

} // verus!
