//! The raster surface a context draws against: committed pixels plus a
//! batch of pending draw commands.
//!
//! Surfaces batch and defer rendering: a draw only enqueues a command,
//! and `flush` applies the batch to the committed pixels. Every read-back
//! goes through `flush` first, so what a reader sees is always the fully
//! rendered content.

use vstd::prelude::*;

use crate::color::Color;
use crate::device::{Device, MAX_DIM};
use crate::grid::{lemma_flat_index, lemma_grid_index_bound, lemma_mul_le};

verus! {

/// The image metadata of a surface: dimensions and the display
/// parameters it was built with. Density and dots-per-inch are in
/// thousandths, as in [`Device`].
#[derive(PartialEq, Eq, Structural, Clone, Copy, Debug)]
pub struct SurfaceInfo {
    pub width: u32,
    pub height: u32,
    pub alpha: bool,
    pub density: u32,
    pub ppi: u32,
    pub samples: u32,
}

impl SurfaceInfo {
    pub open spec fn wf(self) -> bool {
        &&& 0 < self.width <= MAX_DIM
        &&& 0 < self.height <= MAX_DIM
    }
}

/// The metadata a surface rebuilt for `device` at `width` by `height`
/// carries: the dimensions, with density, alpha, sample count and
/// dots-per-inch taken from the device.
pub open spec fn info_for(device: Device, width: u32, height: u32) -> SurfaceInfo {
    SurfaceInfo {
        width,
        height,
        alpha: device.alpha,
        density: device.density,
        ppi: device.ppi,
        samples: device.samples,
    }
}

/// One deferred draw command.
#[derive(Clone, Debug)]
pub enum SurfaceOp {
    /// Fill the whole surface with one color.
    Clear(Color),
    /// Composite a pixel rectangle at the given origin.
    Blit { pixels: Vec<Color>, width: u32, height: u32, x: u32, y: u32 },
}

/// The mathematical value of a [`SurfaceOp`].
pub ghost enum OpModel {
    Clear(Color),
    Blit { pixels: Seq<Color>, width: int, height: int, x: int, y: int },
}

impl View for SurfaceOp {
    type V = OpModel;

    open spec fn view(&self) -> OpModel {
        match self {
            SurfaceOp::Clear(c) => OpModel::Clear(*c),
            SurfaceOp::Blit { pixels, width, height, x, y } => OpModel::Blit {
                pixels: pixels@,
                width: *width as int,
                height: *height as int,
                x: *x as int,
                y: *y as int,
            },
        }
    }
}

/// A command is well-formed for a `dw` by `dh` surface when its rectangle
/// lies inside it and carries its own pixels.
pub open spec fn op_wf(op: OpModel, dw: int, dh: int) -> bool {
    match op {
        OpModel::Clear(_) => true,
        OpModel::Blit { pixels, width, height, x, y } => {
            &&& pixels.len() == width * height
            &&& 0 < width
            &&& 0 < height
            &&& x + width <= dw
            &&& y + height <= dh
            &&& 0 <= x
            &&& 0 <= y
        },
    }
}

/// The pixels of a `w`-wide surface after one draw command.
pub open spec fn apply_op(s: Seq<Color>, w: int, op: OpModel) -> Seq<Color> {
    match op {
        OpModel::Clear(c) => Seq::new(s.len(), |i: int| c),
        OpModel::Blit { pixels, width, height, x, y } => Seq::new(
            s.len(),
            |i: int|
                {
                    if x <= i % w < x + width && y <= i / w < y + height {
                        pixels[(i / w - y) * width + i % w - x]
                    } else {
                        s[i]
                    }
                },
        ),
    }
}

/// The pixels after a whole batch of draw commands, applied in order.
pub open spec fn render_ops(s: Seq<Color>, w: int, ops: Seq<OpModel>) -> Seq<Color>
    decreases ops.len(),
{
    if ops.len() <= 0 {
        s
    } else {
        render_ops(apply_op(s, w, ops[0]), w, ops.drop_first())
    }
}

/// Rendering never changes the pixel count.
pub proof fn lemma_render_len(s: Seq<Color>, w: int, ops: Seq<OpModel>)
    ensures
        render_ops(s, w, ops).len() == s.len(),
    decreases ops.len(),
{
    if ops.len() > 0 {
        lemma_render_len(apply_op(s, w, ops[0]), w, ops.drop_first());
    }
}

/// A command enqueued after a batch is rendered onto the batch's result:
/// the next read-back of a surface always reflects the latest draw.
pub proof fn lemma_render_push(s: Seq<Color>, w: int, ops: Seq<OpModel>, op: OpModel)
    ensures
        render_ops(s, w, ops.push(op)) == apply_op(render_ops(s, w, ops), w, op),
    decreases ops.len(),
{
    if ops.len() <= 0 {
        assert(ops.push(op)[0] == op);
        assert(ops.push(op).drop_first() =~= Seq::<OpModel>::empty());
        assert(render_ops(s, w, ops.push(op)) == render_ops(
            apply_op(s, w, op),
            w,
            Seq::<OpModel>::empty(),
        ));
        assert(render_ops(s, w, ops) == s);
    } else {
        assert(ops.push(op)[0] == ops[0]);
        assert(ops.push(op).drop_first() =~= ops.drop_first().push(op));
        assert(render_ops(s, w, ops.push(op)) == render_ops(
            apply_op(s, w, ops[0]),
            w,
            ops.drop_first().push(op),
        ));
        lemma_render_push(apply_op(s, w, ops[0]), w, ops.drop_first(), op);
        assert(render_ops(s, w, ops) == render_ops(apply_op(s, w, ops[0]), w, ops.drop_first()));
    }
}

/// The mathematical value of a [`Surface`].
pub ghost struct SurfaceModel {
    pub info: SurfaceInfo,
    pub committed: Seq<Color>,
    pub pending: Seq<OpModel>,
    pub fbo: int,
}

impl SurfaceModel {
    pub open spec fn wf(self) -> bool {
        &&& self.info.wf()
        &&& self.committed.len() == self.info.width * self.info.height
        &&& forall|i: int|
            0 <= i < self.pending.len() ==> op_wf(
                #[trigger] self.pending[i],
                self.info.width as int,
                self.info.height as int,
            )
    }

    /// What a read-back of this surface sees: the committed pixels with
    /// every pending command applied in order.
    pub open spec fn rendered(self) -> Seq<Color> {
        render_ops(self.committed, self.info.width as int, self.pending)
    }
}

/// An owned raster target: committed pixels, a batch of pending draw
/// commands, and the platform framebuffer binding it was built against
/// (zero for CPU surfaces).
#[derive(Clone, Debug)]
pub struct Surface {
    pub info: SurfaceInfo,
    pub committed: Vec<Color>,
    pub pending: Vec<SurfaceOp>,
    pub fbo: i32,
}

impl View for Surface {
    type V = SurfaceModel;

    open spec fn view(&self) -> SurfaceModel {
        SurfaceModel {
            info: self.info,
            committed: self.committed@,
            pending: Seq::new(self.pending@.len(), |i: int| self.pending@[i]@),
            fbo: self.fbo as int,
        }
    }
}

/// A buffer of `n` copies of one color.
fn filled(n: usize, c: Color) -> (out: Vec<Color>)
    ensures
        out@.len() == n,
        forall|i: int| 0 <= i < n ==> out@[i] == c,
{
    let mut out: Vec<Color> = Vec::new();
    let mut i: usize = 0;
    while i < n
        invariant
            i <= n,
            out@.len() == i,
            forall|j: int| 0 <= j < i ==> out@[j] == c,
        decreases n - i,
    {
        out.push(c);
        i = i + 1;
    }
    out
}

/// The pixels after one draw command, computed.
fn apply_op_exec(src: &Vec<Color>, w: u32, h: u32, op: &SurfaceOp) -> (out: Vec<Color>)
    requires
        src@.len() == w * h,
        0 < w <= MAX_DIM,
        0 < h <= MAX_DIM,
        op_wf(op@, w as int, h as int),
    ensures
        out@ == apply_op(src@, w as int, op@),
{
    let ghost target = apply_op(src@, w as int, op@);
    match op {
        SurfaceOp::Clear(c) => {
            let out = filled(src.len(), *c);
            proof {
                assert(out@ =~= target);
            }
            out
        },
        SurfaceOp::Blit { pixels, width, height, x, y } => {
            let total: usize = src.len();
            let mut out: Vec<Color> = Vec::new();
            let mut k: usize = 0;
            while k < total
                invariant
                    src@.len() == w * h,
                    0 < w <= MAX_DIM,
                    0 < h <= MAX_DIM,
                    total == src@.len(),
                    k <= total,
                    op_wf(op@, w as int, h as int),
                    op@ == (OpModel::Blit {
                        pixels: pixels@,
                        width: *width as int,
                        height: *height as int,
                        x: *x as int,
                        y: *y as int,
                    }),
                    target == apply_op(src@, w as int, op@),
                    out@ == target.take(k as int),
                decreases total - k,
            {
                proof {
                    lemma_flat_index(k as int, w as int, h as int);
                }
                let xx: usize = k % (w as usize);
                let yy: usize = k / (w as usize);
                let inside = *x as usize <= xx && xx < *x as usize + *width as usize && *y
                    as usize <= yy && yy < *y as usize + *height as usize;
                let px = if inside {
                    proof {
                        lemma_grid_index_bound(
                            xx - *x as int,
                            yy - *y as int,
                            *width as int,
                            *height as int,
                        );
                        lemma_mul_le(
                            yy - *y as int,
                            *width as int,
                            MAX_DIM as int,
                            MAX_DIM as int,
                        );
                    }
                    pixels[(yy - *y as usize) * (*width as usize) + xx - *x as usize]
                } else {
                    src[k]
                };
                out.push(px);
                proof {
                    assert(out@ =~= target.take(k + 1));
                }
                k = k + 1;
            }
            proof {
                assert(out@ =~= target);
            }
            out
        },
    }
}

impl Surface {
    pub open spec fn wf(self) -> bool {
        self@.wf()
    }

    /// A fresh surface for a device at the given dimensions: metadata
    /// carried over from the device, every pixel transparent, nothing
    /// pending, bound to the given platform framebuffer.
    pub fn new(device: Device, width: u32, height: u32, fbo: i32) -> (s: Surface)
        requires
            0 < width <= MAX_DIM,
            0 < height <= MAX_DIM,
        ensures
            s@.info == info_for(device, width, height),
            s@.pending.len() == 0,
            s@.committed.len() == width * height,
            forall|i: int| 0 <= i < s@.committed.len() ==> s@.committed[i]
                == Color::transparent_spec(),
            s@.fbo == fbo,
            s.wf(),
    {
        proof {
            lemma_mul_le(width as int, height as int, MAX_DIM as int, MAX_DIM as int);
        }
        let area: usize = (width as usize) * (height as usize);
        Surface {
            info: SurfaceInfo {
                width,
                height,
                alpha: device.alpha,
                density: device.density,
                ppi: device.ppi,
                samples: device.samples,
            },
            committed: filled(area, Color::transparent()),
            pending: Vec::new(),
            fbo,
        }
    }

    /// Bytes per row of a read-back. This surface stores its rows packed,
    /// so the minimum row length is exactly four bytes per pixel.
    pub fn min_row_bytes(&self) -> (r: usize)
        requires
            self.wf(),
        ensures
            r == 4 * self@.info.width,
    {
        4 * (self.info.width as usize)
    }

    /// Enqueues a fill of the whole surface with one color.
    pub fn clear(&mut self, c: Color)
        requires
            old(self).wf(),
        ensures
            final(self)@.pending == old(self)@.pending.push(OpModel::Clear(c)),
            final(self)@.info == old(self)@.info,
            final(self)@.committed == old(self)@.committed,
            final(self)@.fbo == old(self)@.fbo,
            final(self).wf(),
    {
        self.pending.push(SurfaceOp::Clear(c));
        proof {
            assert(self@.pending =~= old(self)@.pending.push(OpModel::Clear(c)));
        }
    }

    /// Enqueues a composite of a pixel rectangle at the given origin.
    pub fn draw_pixels(&mut self, pixels: Vec<Color>, width: u32, height: u32, x: u32, y: u32)
        requires
            old(self).wf(),
            pixels@.len() == width * height,
            0 < width,
            0 < height,
            x + width <= old(self)@.info.width,
            y + height <= old(self)@.info.height,
        ensures
            final(self)@.pending == old(self)@.pending.push(
                OpModel::Blit {
                    pixels: pixels@,
                    width: width as int,
                    height: height as int,
                    x: x as int,
                    y: y as int,
                },
            ),
            final(self)@.info == old(self)@.info,
            final(self)@.committed == old(self)@.committed,
            final(self)@.fbo == old(self)@.fbo,
            final(self).wf(),
    {
        self.pending.push(SurfaceOp::Blit { pixels, width, height, x, y });
        proof {
            assert(self@.pending =~= old(self)@.pending.push(
                OpModel::Blit {
                    pixels: pixels@,
                    width: width as int,
                    height: height as int,
                    x: x as int,
                    y: y as int,
                },
            ));
        }
    }

    /// Submits the pending batch: the committed pixels become the
    /// rendered content and nothing stays pending.
    pub fn flush(&mut self)
        requires
            old(self).wf(),
        ensures
            final(self)@.committed == old(self)@.rendered(),
            final(self)@.pending.len() == 0,
            final(self)@.info == old(self)@.info,
            final(self)@.fbo == old(self)@.fbo,
            final(self).wf(),
    {
        let rendered = self.render_copy();
        self.committed = rendered;
        self.pending = Vec::new();
        proof {
            assert(self@.pending =~= Seq::<OpModel>::empty());
            lemma_render_len(old(self)@.committed, old(self)@.info.width as int, old(self)@.pending);
        }
    }

    /// The fully rendered content — the committed pixels with every
    /// pending command applied in order — as an owned copy, leaving the
    /// surface untouched.
    pub fn render_copy(&self) -> (out: Vec<Color>)
        requires
            self.wf(),
        ensures
            out@ == self@.rendered(),
    {
        let ghost orig = self@;
        let mut acc = crate::pixels::copy_pixels(&self.committed);
        let n: usize = self.pending.len();
        let mut i: usize = 0;
        while i < n
            invariant
                orig == self@,
                orig.wf(),
                n == orig.pending.len(),
                i <= n,
                acc@ == render_ops(orig.committed, orig.info.width as int, orig.pending.take(i as int)),
            decreases n - i,
        {
            proof {
                lemma_render_len(orig.committed, orig.info.width as int, orig.pending.take(i as int));
                assert(orig.pending[i as int] == self.pending@[i as int]@);
                assert(op_wf(orig.pending[i as int], orig.info.width as int, orig.info.height as int));
            }
            let newc = apply_op_exec(&acc, self.info.width, self.info.height, &self.pending[i]);
            acc = newc;
            proof {
                lemma_render_push(
                    orig.committed,
                    orig.info.width as int,
                    orig.pending.take(i as int),
                    orig.pending[i as int],
                );
                assert(orig.pending.take(i as int).push(orig.pending[i as int]) =~= orig.pending.take(
                    i + 1,
                ));
            }
            i = i + 1;
        }
        proof {
            assert(orig.pending.take(n as int) =~= orig.pending);
        }
        acc
    }
}

} // verus!
