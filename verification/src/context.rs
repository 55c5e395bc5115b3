//! The rendering context: one surface, one path under construction, one
//! live drawing state and a stack of saved states, with the
//! save/restore/reset/flush/read-back/resize operations every drawing
//! primitive goes through.

use vstd::prelude::*;

use crate::asset::{AlphaType, ColorSpaceTag, ImageAsset};
use crate::color::Color;
use crate::device::{Device, MAX_DIM};
use crate::grid::lemma_mul_le;
use crate::pixels::{copy_pixels, crop_fn, crop_pixels, rgba_bytes_of, rgba_from_pixels};
use crate::state::{fresh_default, State, StateModel, TextDirection};
use crate::surface::{
    apply_op, info_for, lemma_render_len, lemma_render_push, OpModel, Surface, SurfaceInfo,
    SurfaceModel,
};

verus! {

/// One verb of the path under construction. Coordinates are in
/// thousandths of a pixel.
#[derive(PartialEq, Eq, Structural, Clone, Copy, Debug)]
pub enum PathVerb {
    MoveTo { x: i32, y: i32 },
    LineTo { x: i32, y: i32 },
    ClosePath,
}

/// The path a context is currently building.
#[derive(Clone, Debug)]
pub struct Path {
    pub verbs: Vec<PathVerb>,
}

impl View for Path {
    type V = Seq<PathVerb>;

    open spec fn view(&self) -> Seq<PathVerb> {
        self.verbs@
    }
}

impl Path {
    /// An empty path.
    pub fn new() -> (p: Path)
        ensures
            p@ == Seq::<PathVerb>::empty(),
    {
        let p = Path { verbs: Vec::new() };
        proof {
            assert(p@ =~= Seq::<PathVerb>::empty());
        }
        p
    }
}

/// A portable bitmap: a read-back copy of a surface, sized exactly to its
/// image metadata and owning its pixels.
#[derive(Clone, Debug)]
pub struct Bitmap {
    pub info: SurfaceInfo,
    pub pixels: Vec<Color>,
}

/// The mathematical value of a [`Context`].
pub ghost struct ContextModel {
    pub surface: SurfaceModel,
    pub path: Seq<PathVerb>,
    pub state: StateModel,
    pub stack: Seq<StateModel>,
    pub device: Device,
    pub font_color: Color,
}

impl ContextModel {
    /// The surface matches the device it was (re)built from, the live
    /// state and every saved state are well-formed.
    pub open spec fn wf(self) -> bool {
        &&& self.device.wf()
        &&& self.surface.wf()
        &&& self.surface.info == info_for(self.device, self.device.width, self.device.height)
        &&& self.state.wf()
        &&& forall|i: int| 0 <= i < self.stack.len() ==> (#[trigger] self.stack[i]).wf()
    }
}

/// A rendering context: owns its surface, its current path, its live
/// drawing state and the stack of saved states.
pub struct Context {
    pub surface: Surface,
    pub path: Path,
    pub state: State,
    pub state_stack: Vec<State>,
    pub device: Device,
    pub font_color: Color,
}

impl View for Context {
    type V = ContextModel;

    open spec fn view(&self) -> ContextModel {
        ContextModel {
            surface: self.surface@,
            path: self.path@,
            state: self.state@,
            stack: Seq::new(self.state_stack@.len(), |i: int| self.state_stack@[i]@),
            device: self.device,
            font_color: self.font_color,
        }
    }
}

/// The device after an explicit resize: only the dimensions change.
pub open spec fn device_resized(d: Device, width: u32, height: u32) -> Device {
    Device {
        width,
        height,
        density: d.density,
        non_gpu: d.non_gpu,
        samples: d.samples,
        alpha: d.alpha,
        ppi: d.ppi,
    }
}

impl Context {
    pub open spec fn wf(self) -> bool {
        self@.wf()
    }

    /// A fresh context for a device: a cleared surface at the device's
    /// dimensions, an empty path, a fresh default state, an empty stack
    /// and an opaque black font color.
    pub fn new(device: Device, direction: TextDirection) -> (c: Context)
        requires
            device.wf(),
        ensures
            c@.device == device,
            c@.state == fresh_default(direction),
            c@.stack.len() == 0,
            c@.path.len() == 0,
            c@.surface.info == info_for(device, device.width, device.height),
            c@.surface.pending.len() == 0,
            forall|i: int| 0 <= i < c@.surface.committed.len() ==> c@.surface.committed[i]
                == Color::transparent_spec(),
            c@.font_color == (Color { r: 0, g: 0, b: 0, a: 255 }),
            c.wf(),
    {
        let c = Context {
            surface: Surface::new(device, device.width, device.height, 0),
            path: Path::new(),
            state: State::from_device(device, direction),
            state_stack: Vec::new(),
            device,
            font_color: Color::black(),
        };
        proof {
            assert(c@.stack =~= Seq::<StateModel>::empty());
        }
        c
    }

    /// The device this context was created from.
    pub fn device(&self) -> (d: &Device)
        ensures
            *d == self@.device,
    {
        &self.device
    }

    /// Pushes an independent copy of the current drawing state onto the
    /// stack; the current state and everything else stay as they are.
    pub fn save(&mut self)
        requires
            old(self).wf(),
        ensures
            final(self)@.stack == old(self)@.stack.push(old(self)@.state),
            final(self)@.state == old(self)@.state,
            final(self)@.surface == old(self)@.surface,
            final(self)@.path == old(self)@.path,
            final(self)@.device == old(self)@.device,
            final(self)@.font_color == old(self)@.font_color,
            final(self).wf(),
    {
        let copy = self.state.duplicate();
        self.state_stack.push(copy);
        proof {
            assert(self@.stack =~= old(self)@.stack.push(old(self)@.state));
        }
    }

    /// Pops the top saved state into the current state; on an empty stack
    /// this is a silent no-op that alters nothing.
    pub fn restore(&mut self)
        requires
            old(self).wf(),
        ensures
            old(self)@.stack.len() == 0 ==> final(self)@ == old(self)@,
            old(self)@.stack.len() > 0 ==> {
                &&& final(self)@.state == old(self)@.stack.last()
                &&& final(self)@.stack == old(self)@.stack.drop_last()
            },
            final(self)@.surface == old(self)@.surface,
            final(self)@.path == old(self)@.path,
            final(self)@.device == old(self)@.device,
            final(self)@.font_color == old(self)@.font_color,
            final(self).wf(),
    {
        match self.state_stack.pop() {
            Some(s) => {
                self.state = s;
                proof {
                    assert(self@.stack =~= old(self)@.stack.drop_last());
                }
            },
            None => {
                proof {
                    assert(self@.stack =~= old(self)@.stack);
                }
            },
        }
    }

    /// Replaces the current state with a freshly derived default state
    /// for this context's device and text direction, discarding unsaved
    /// modifications; the stack is not touched.
    pub fn reset_state(&mut self)
        requires
            old(self).wf(),
        ensures
            final(self)@.state == fresh_default(old(self)@.state.direction),
            final(self)@.stack == old(self)@.stack,
            final(self)@.surface == old(self)@.surface,
            final(self)@.path == old(self)@.path,
            final(self)@.device == old(self)@.device,
            final(self)@.font_color == old(self)@.font_color,
            final(self).wf(),
    {
        let direction = self.state.direction;
        self.state = State::from_device(self.device, direction);
        proof {
            assert(self@.stack =~= old(self)@.stack);
        }
    }

    /// Clears the surface to fully transparent and flushes, so the next
    /// read-back sees only transparent pixels.
    pub fn clear_canvas(&mut self)
        requires
            old(self).wf(),
        ensures
            final(self)@.surface.pending.len() == 0,
            final(self)@.surface.committed.len() == old(self)@.surface.committed.len(),
            forall|i: int|
                0 <= i < final(self)@.surface.committed.len()
                    ==> #[trigger] final(self)@.surface.committed[i]
                    == Color::transparent_spec(),
            final(self)@.surface.info == old(self)@.surface.info,
            final(self)@.surface.fbo == old(self)@.surface.fbo,
            final(self)@.state == old(self)@.state,
            final(self)@.stack == old(self)@.stack,
            final(self)@.path == old(self)@.path,
            final(self)@.device == old(self)@.device,
            final(self).wf(),
    {
        let ghost before = self.surface@;
        self.surface.clear(Color::transparent());
        proof {
            lemma_render_push(
                before.committed,
                before.info.width as int,
                before.pending,
                OpModel::Clear(Color::transparent_spec()),
            );
            lemma_render_len(before.committed, before.info.width as int, before.pending);
        }
        self.surface.flush();
    }

    /// Submits pending draw commands to the backing surface; required
    /// before any pixel read-back.
    pub fn flush(&mut self)
        requires
            old(self).wf(),
        ensures
            final(self)@.surface.committed == old(self)@.surface.rendered(),
            final(self)@.surface.pending.len() == 0,
            final(self)@.surface.info == old(self)@.surface.info,
            final(self)@.surface.fbo == old(self)@.surface.fbo,
            final(self)@.state == old(self)@.state,
            final(self)@.stack == old(self)@.stack,
            final(self)@.path == old(self)@.path,
            final(self)@.device == old(self)@.device,
            final(self).wf(),
    {
        self.surface.flush();
    }

    /// Flushes, then copies the full surface into an RGBA byte buffer in
    /// the surface's row-major layout; the row length is the surface's
    /// minimum row bytes, four bytes per pixel here. The result always
    /// reflects every draw enqueued before the call.
    pub fn read_pixels(&mut self) -> (out: Vec<u8>)
        requires
            old(self).wf(),
        ensures
            out@ == rgba_bytes_of(old(self)@.surface.rendered()),
            out@.len() == old(self)@.surface.info.height * (4 * old(self)@.surface.info.width),
            final(self)@.surface.committed == old(self)@.surface.rendered(),
            final(self)@.surface.pending.len() == 0,
            final(self)@.surface.info == old(self)@.surface.info,
            final(self)@.state == old(self)@.state,
            final(self)@.stack == old(self)@.stack,
            final(self)@.device == old(self)@.device,
            final(self).wf(),
    {
        self.surface.flush();
        proof {
            lemma_mul_le(
                self@.surface.info.width as int,
                self@.surface.info.height as int,
                MAX_DIM as int,
                MAX_DIM as int,
            );
            assert(self@.surface.info.height as int * (4 * self@.surface.info.width as int) == 4
                * (self@.surface.info.width as int * self@.surface.info.height as int))
                by (nonlinear_arith);
        }
        rgba_from_pixels(&self.surface.committed)
    }

    /// Flushes, then copies the surface pixels into a bitmap sized
    /// exactly to the surface's image metadata. The bitmap owns its
    /// pixels; it never aliases the surface's buffer.
    pub fn read_pixels_into_bitmap(&mut self) -> (out: Bitmap)
        requires
            old(self).wf(),
        ensures
            out.pixels@ == old(self)@.surface.rendered(),
            out.info == old(self)@.surface.info,
            final(self)@.surface.committed == old(self)@.surface.rendered(),
            final(self)@.surface.pending.len() == 0,
            final(self)@.surface.info == old(self)@.surface.info,
            final(self)@.state == old(self)@.state,
            final(self)@.stack == old(self)@.stack,
            final(self)@.device == old(self)@.device,
            final(self).wf(),
    {
        self.surface.flush();
        Bitmap { info: self.surface.info, pixels: copy_pixels(&self.surface.committed) }
    }

    /// Flushes, then wraps an owned copy of the surface pixels as a
    /// drawable image asset.
    pub fn read_pixels_into_image(&mut self) -> (out: Option<ImageAsset>)
        requires
            old(self).wf(),
        ensures
            out matches Some(a) && {
                &&& a@.data == old(self)@.surface.rendered()
                &&& a@.width == old(self)@.surface.info.width
                &&& a@.height == old(self)@.surface.info.height
                &&& a@.alpha == AlphaType::Unpremultiplied
                &&& a@.color_space == ColorSpaceTag::Untagged
                &&& a.wf()
            },
            final(self)@.surface.committed == old(self)@.surface.rendered(),
            final(self)@.surface.pending.len() == 0,
            final(self)@.surface.info == old(self)@.surface.info,
            final(self)@.state == old(self)@.state,
            final(self)@.stack == old(self)@.stack,
            final(self)@.device == old(self)@.device,
            final(self).wf(),
    {
        self.surface.flush();
        Some(
            ImageAsset {
                data: copy_pixels(&self.surface.committed),
                width: self.surface.info.width,
                height: self.surface.info.height,
                alpha_type: AlphaType::Unpremultiplied,
                color_space: ColorSpaceTag::Untagged,
            },
        )
    }

    /// A point-in-time image of the current surface contents, pending
    /// draws included; the context itself is left exactly as it was.
    pub fn image_snapshot(&mut self) -> (out: ImageAsset)
        requires
            old(self).wf(),
        ensures
            out@.data == old(self)@.surface.rendered(),
            out@.width == old(self)@.surface.info.width,
            out@.height == old(self)@.surface.info.height,
            out@.alpha == AlphaType::Unpremultiplied,
            out@.color_space == ColorSpaceTag::Untagged,
            out.wf(),
            final(self)@ == old(self)@,
    {
        let rendered = self.surface.render_copy();
        proof {
            lemma_render_len(
                self@.surface.committed,
                self@.surface.info.width as int,
                self@.surface.pending,
            );
        }
        ImageAsset {
            data: rendered,
            width: self.surface.info.width,
            height: self.surface.info.height,
            alpha_type: AlphaType::Unpremultiplied,
            color_space: ColorSpaceTag::Untagged,
        }
    }

    /// Flushes, then snapshots: the same image as [`Self::image_snapshot`],
    /// with the pending batch submitted first.
    pub fn snapshot(&mut self) -> (out: ImageAsset)
        requires
            old(self).wf(),
        ensures
            out@.data == old(self)@.surface.rendered(),
            out@.width == old(self)@.surface.info.width,
            out@.height == old(self)@.surface.info.height,
            out.wf(),
            final(self)@.surface.committed == old(self)@.surface.rendered(),
            final(self)@.surface.pending.len() == 0,
            final(self)@.surface.info == old(self)@.surface.info,
            final(self)@.state == old(self)@.state,
            final(self)@.stack == old(self)@.stack,
            final(self)@.device == old(self)@.device,
            final(self).wf(),
    {
        self.surface.flush();
        ImageAsset {
            data: copy_pixels(&self.surface.committed),
            width: self.surface.info.width,
            height: self.surface.info.height,
            alpha_type: AlphaType::Unpremultiplied,
            color_space: ColorSpaceTag::Untagged,
        }
    }

    /// Composites this context's entire current surface content onto a
    /// caller-supplied surface at the origin — a straight blit, clipped
    /// to the target's dimensions.
    pub fn draw_on_surface(&mut self, surface: &mut Surface)
        requires
            old(self).wf(),
            old(surface).wf(),
        ensures
            final(self)@ == old(self)@,
            final(surface)@.info == old(surface)@.info,
            final(surface)@.committed == old(surface)@.committed,
            final(surface)@.fbo == old(surface)@.fbo,
            final(surface)@.pending == old(surface)@.pending.push(
                {
                    let cw = if old(self)@.surface.info.width <= old(surface)@.info.width {
                        old(self)@.surface.info.width as int
                    } else {
                        old(surface)@.info.width as int
                    };
                    let ch = if old(self)@.surface.info.height <= old(surface)@.info.height {
                        old(self)@.surface.info.height as int
                    } else {
                        old(surface)@.info.height as int
                    };
                    OpModel::Blit {
                        pixels: crop_fn(
                            old(self)@.surface.rendered(),
                            old(self)@.surface.info.width as int,
                            0,
                            0,
                            cw,
                            ch,
                        ),
                        width: cw,
                        height: ch,
                        x: 0,
                        y: 0,
                    }
                },
            ),
            final(surface).wf(),
    {
        let rendered = self.surface.render_copy();
        let cw: u32 = if self.surface.info.width <= surface.info.width {
            self.surface.info.width
        } else {
            surface.info.width
        };
        let ch: u32 = if self.surface.info.height <= surface.info.height {
            self.surface.info.height
        } else {
            surface.info.height
        };
        proof {
            lemma_render_len(
                self@.surface.committed,
                self@.surface.info.width as int,
                self@.surface.pending,
            );
        }
        let clipped = crop_pixels(
            &rendered,
            self.surface.info.width,
            self.surface.info.height,
            0,
            0,
            cw,
            ch,
        );
        surface.draw_pixels(clipped, cw, ch, 0, 0);
    }

    /// Rebuilds the backing surface at the new dimensions, carrying the
    /// device's density, alpha and dots-per-inch over, and records the
    /// new dimensions on the device. The new surface starts transparent
    /// with nothing pending; the drawing state and stack are untouched.
    pub fn resize(&mut self, width: u32, height: u32)
        requires
            old(self).wf(),
            0 < width <= MAX_DIM,
            0 < height <= MAX_DIM,
        ensures
            final(self)@.device == device_resized(old(self)@.device, width, height),
            final(self)@.surface.info == info_for(final(self)@.device, width, height),
            final(self)@.surface.pending.len() == 0,
            forall|i: int|
                0 <= i < final(self)@.surface.committed.len()
                    ==> #[trigger] final(self)@.surface.committed[i]
                    == Color::transparent_spec(),
            final(self)@.surface.fbo == 0,
            final(self)@.state == old(self)@.state,
            final(self)@.stack == old(self)@.stack,
            final(self)@.path == old(self)@.path,
            final(self)@.font_color == old(self)@.font_color,
            final(self).wf(),
    {
        self.device = Device {
            width,
            height,
            density: self.device.density,
            non_gpu: self.device.non_gpu,
            samples: self.device.samples,
            alpha: self.device.alpha,
            ppi: self.device.ppi,
        };
        self.surface = Surface::new(self.device, width, height, 0);
        proof {
            assert(self@.stack =~= old(self)@.stack);
        }
    }

    /// GPU-backed resize: as [`Self::resize`], but additionally bound to
    /// the platform framebuffer the caller re-queried for this very call.
    /// The binding is surface-generation-specific, so it is taken fresh
    /// on every resize and never cached across calls.
    pub fn resize_gl(&mut self, width: u32, height: u32, framebuffer_binding: i32)
        requires
            old(self).wf(),
            0 < width <= MAX_DIM,
            0 < height <= MAX_DIM,
        ensures
            final(self)@.device == device_resized(old(self)@.device, width, height),
            final(self)@.surface.info == info_for(final(self)@.device, width, height),
            final(self)@.surface.pending.len() == 0,
            forall|i: int|
                0 <= i < final(self)@.surface.committed.len()
                    ==> #[trigger] final(self)@.surface.committed[i]
                    == Color::transparent_spec(),
            final(self)@.surface.fbo == framebuffer_binding,
            final(self)@.state == old(self)@.state,
            final(self)@.stack == old(self)@.stack,
            final(self)@.path == old(self)@.path,
            final(self)@.font_color == old(self)@.font_color,
            final(self).wf(),
    {
        self.device = Device {
            width,
            height,
            density: self.device.density,
            non_gpu: self.device.non_gpu,
            samples: self.device.samples,
            alpha: self.device.alpha,
            ppi: self.device.ppi,
        };
        self.surface = Surface::new(self.device, width, height, framebuffer_binding);
        proof {
            assert(self@.stack =~= old(self)@.stack);
        }
    }
}

// ---------------------------------------------------------------------
// Save/restore laws
// ---------------------------------------------------------------------
/// The stack and current state after `n` saves, each pushing the current
/// state; `save` never changes the current state itself.
pub open spec fn saves_n(stack: Seq<StateModel>, cur: StateModel, n: nat) -> (
    Seq<StateModel>,
    StateModel,
)
    decreases n,
{
    if n == 0 {
        (stack, cur)
    } else {
        let p = saves_n(stack, cur, (n - 1) as nat);
        (p.0.push(p.1), p.1)
    }
}

/// The stack and current state after one restore: pop the top entry into
/// the current state, or change nothing on an empty stack.
pub open spec fn restore_one(stack: Seq<StateModel>, cur: StateModel) -> (
    Seq<StateModel>,
    StateModel,
) {
    if stack.len() > 0 {
        (stack.drop_last(), stack.last())
    } else {
        (stack, cur)
    }
}

/// The stack and current state after `n` restores in order.
pub open spec fn restores_n(stack: Seq<StateModel>, cur: StateModel, n: nat) -> (
    Seq<StateModel>,
    StateModel,
)
    decreases n,
{
    if n == 0 {
        (stack, cur)
    } else {
        let p = restore_one(stack, cur);
        restores_n(p.0, p.1, (n - 1) as nat)
    }
}

/// `n` saves followed by `n` restores put both the stack and the current
/// state back exactly where they were.
pub proof fn lemma_restores_after_saves(stack: Seq<StateModel>, cur: StateModel, n: nat)
    ensures
        restores_n(saves_n(stack, cur, n).0, saves_n(stack, cur, n).1, n) == (stack, cur),
    decreases n,
{
    if n > 0 {
        let p = saves_n(stack, cur, (n - 1) as nat);
        assert(saves_n(stack, cur, n) == (p.0.push(p.1), p.1));
        assert(p.0.push(p.1).len() > 0);
        assert(p.0.push(p.1).drop_last() =~= p.0);
        assert(p.0.push(p.1).last() == p.1);
        assert(restore_one(p.0.push(p.1), p.1) == p);
        lemma_restores_after_saves(stack, cur, (n - 1) as nat);
    }
}

/// Restores on an empty stack are no-ops, however many there are.
pub proof fn lemma_restores_on_empty(cur: StateModel, n: nat)
    ensures
        restores_n(Seq::empty(), cur, n) == (Seq::<StateModel>::empty(), cur),
    decreases n,
{
    if n > 0 {
        lemma_restores_on_empty(cur, (n - 1) as nat);
    }
}

/// Restores compose: `a + b` restores are `a` restores and then `b`.
pub proof fn lemma_restores_add(stack: Seq<StateModel>, cur: StateModel, a: nat, b: nat)
    ensures
        restores_n(stack, cur, a + b) == restores_n(
            restores_n(stack, cur, a).0,
            restores_n(stack, cur, a).1,
            b,
        ),
    decreases a,
{
    if a > 0 {
        let p = restore_one(stack, cur);
        lemma_restores_add(p.0, p.1, (a - 1) as nat, b);
    }
}

/// Save/restore balance: starting from an empty stack, any `n` saves
/// followed by `m >= n` restores leave the current state identical to
/// the state just before the saves, and the extra `m - n` restores are
/// no-ops that never alter it. One `save` step matches a `push` of the
/// current state and one `restore` step matches `restore_one`, exactly
/// as the contracts of [`Context::save`] and [`Context::restore`] state.
pub proof fn law_save_restore_balance(cur: StateModel, n: nat, m: nat)
    requires
        m >= n,
    ensures
        restores_n(saves_n(Seq::empty(), cur, n).0, saves_n(Seq::empty(), cur, n).1, m) == (
            Seq::<StateModel>::empty(),
            cur,
        ),
{
    let s = saves_n(Seq::empty(), cur, n);
    lemma_restores_add(s.0, s.1, n, (m - n) as nat);
    lemma_restores_after_saves(Seq::empty(), cur, n);
    lemma_restores_on_empty(cur, (m - n) as nat);
}

/// Reset independence from the stack: a reset never changes the stack,
/// and the restore that follows pops exactly the entry that a restore
/// before the reset would have popped — whatever the current state is.
pub proof fn law_reset_then_restore(stack: Seq<StateModel>, before: StateModel, reset: StateModel)
    requires
        stack.len() > 0,
    ensures
        restore_one(stack, reset) == restore_one(stack, before),
{
}

/// Resize idempotence on same dimensions: resizing twice with identical
/// dimensions records the same device and yields a surface with
/// identical image metadata both times.
pub proof fn law_resize_idempotent(d: Device, width: u32, height: u32)
    ensures
        device_resized(device_resized(d, width, height), width, height) == device_resized(
            d,
            width,
            height,
        ),
        info_for(device_resized(device_resized(d, width, height), width, height), width, height)
            == info_for(device_resized(d, width, height), width, height),
{
}

/// Read-back reflects every draw: a command enqueued on a surface is
/// applied on top of everything already pending by the time of the next
/// read-back, whose flush renders the whole batch.
pub proof fn law_read_back_reflects_draw(m: SurfaceModel, op: OpModel)
    ensures
        (SurfaceModel { pending: m.pending.push(op), ..m }).rendered() == apply_op(
            m.rendered(),
            m.info.width as int,
            op,
        ),
{
    lemma_render_push(m.committed, m.info.width as int, m.pending, op);
}

} // verus!
