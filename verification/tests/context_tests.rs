use canvas_core::color::Color;
use canvas_core::context::Context;
use canvas_core::device::Device;
use canvas_core::handle::ContextWrapper;
use canvas_core::state::{
    CompositeOperationType, FilterQuality, ImageSmoothingQuality, State, TextDirection,
};
use canvas_core::surface::Surface;

fn small_context() -> Context {
    let device = Device::new_non_gpu(2, 2, 1000, 96000);
    Context::new(device, TextDirection::Ltr)
}

#[test]
fn device_new_non_gpu_fields() {
    let d = Device::new_non_gpu(640, 480, 2000, 96000);
    assert_eq!(d.width, 640);
    assert_eq!(d.height, 480);
    assert_eq!(d.density, 2000);
    assert!(d.non_gpu);
    assert_eq!(d.samples, 0);
    assert!(!d.alpha);
    assert_eq!(d.ppi, 96000);
}

#[test]
fn fresh_state_defaults() {
    let d = Device::new_non_gpu(2, 2, 1000, 96000);
    let s = State::from_device(d, TextDirection::Ltr);
    assert_eq!(s.line_width, 1000);
    assert_eq!(s.miter_limit, 10000);
    assert_eq!(s.global_alpha, 1000);
    assert_eq!(s.global_composite_operation, CompositeOperationType::SourceOver);
    assert_eq!(s.filter, "none");
    assert!(!s.image_smoothing_enabled);
    assert_eq!(s.font.spec_string, "10px sans-serif");
    assert!(s.line_dash_list.is_empty());
}

#[test]
fn image_filter_quality_follows_smoothing() {
    let d = Device::new_non_gpu(2, 2, 1000, 96000);
    let mut s = State::from_device(d, TextDirection::Ltr);
    assert_eq!(s.image_filter_quality(), FilterQuality::Nearest);
    s.image_smoothing_enabled = true;
    s.image_smoothing_quality = ImageSmoothingQuality::High;
    assert_eq!(s.image_filter_quality(), FilterQuality::High);
}

#[test]
fn save_restore_balance() {
    // Two saves, modifications in between, then more restores than
    // saves: the state ends identical to the state before the first
    // save, and the extra restores change nothing.
    let mut ctx = small_context();
    ctx.state.line_width = 5000;
    ctx.save();
    ctx.state.line_width = 6000;
    ctx.save();
    ctx.state.line_width = 7000;
    ctx.restore();
    assert_eq!(ctx.state.line_width, 6000);
    ctx.restore();
    assert_eq!(ctx.state.line_width, 5000);
    assert_eq!(ctx.state_stack.len(), 0);
    ctx.restore();
    ctx.restore();
    assert_eq!(ctx.state.line_width, 5000);
    assert_eq!(ctx.state_stack.len(), 0);
}

#[test]
fn restore_on_empty_stack_is_a_no_op() {
    let mut ctx = small_context();
    ctx.state.global_alpha = 500;
    ctx.restore();
    assert_eq!(ctx.state.global_alpha, 500);
    assert_eq!(ctx.state_stack.len(), 0);
}

#[test]
fn reset_keeps_stack_and_restore_pops_pre_reset_state() {
    let mut ctx = small_context();
    ctx.state.line_width = 5000;
    ctx.save();
    assert_eq!(ctx.state_stack.len(), 1);
    ctx.state.line_width = 7000;
    ctx.reset_state();
    assert_eq!(ctx.state_stack.len(), 1);
    assert_eq!(ctx.state.line_width, 1000);
    ctx.restore();
    assert_eq!(ctx.state.line_width, 5000);
    assert_eq!(ctx.state_stack.len(), 0);
}

#[test]
fn reset_keeps_text_direction() {
    let device = Device::new_non_gpu(2, 2, 1000, 96000);
    let mut ctx = Context::new(device, TextDirection::Rtl);
    ctx.state.line_width = 4000;
    ctx.reset_state();
    assert_eq!(ctx.state.direction, TextDirection::Rtl);
    assert_eq!(ctx.state.line_width, 1000);
}

#[test]
fn resize_same_dimensions_keeps_identical_metadata() {
    let mut ctx = small_context();
    ctx.resize(5, 7);
    let first = ctx.surface.info;
    ctx.resize(5, 7);
    let second = ctx.surface.info;
    assert_eq!(first, second);
    assert_eq!(ctx.device.width, 5);
    assert_eq!(ctx.device.height, 7);
}

#[test]
fn resize_does_not_touch_state_or_stack() {
    let mut ctx = small_context();
    ctx.state.line_width = 3000;
    ctx.save();
    ctx.resize(8, 8);
    assert_eq!(ctx.state.line_width, 3000);
    assert_eq!(ctx.state_stack.len(), 1);
}

#[test]
fn resize_gl_records_fresh_framebuffer_binding() {
    let mut ctx = small_context();
    ctx.resize_gl(4, 4, 7);
    assert_eq!(ctx.surface.fbo, 7);
    ctx.resize_gl(4, 4, 9);
    assert_eq!(ctx.surface.fbo, 9);
}

#[test]
fn read_back_reflects_draw_without_manual_flush() {
    // A draw is only enqueued; read_pixels flushes internally and must
    // reflect it.
    let mut ctx = small_context();
    ctx.surface.clear(Color { r: 255, g: 0, b: 0, a: 255 });
    let bytes = ctx.read_pixels();
    assert_eq!(bytes.len(), 2 * 2 * 4);
    for px in bytes.chunks(4) {
        assert_eq!(px, &[255, 0, 0, 255]);
    }
}

#[test]
fn read_pixels_layout_is_rows_of_min_row_bytes() {
    let mut ctx = small_context();
    ctx.resize(3, 2);
    assert_eq!(ctx.surface.min_row_bytes(), 12);
    let bytes = ctx.read_pixels();
    assert_eq!(bytes.len(), 2 * 12);
}

#[test]
fn clear_canvas_makes_everything_transparent() {
    let mut ctx = small_context();
    ctx.surface.clear(Color { r: 9, g: 9, b: 9, a: 9 });
    ctx.clear_canvas();
    assert_eq!(ctx.surface.pending.len(), 0);
    for p in &ctx.surface.committed {
        assert_eq!(*p, Color { r: 0, g: 0, b: 0, a: 0 });
    }
}

#[test]
fn read_pixels_into_bitmap_copies() {
    let mut ctx = small_context();
    ctx.surface.clear(Color { r: 1, g: 2, b: 3, a: 4 });
    let bm = ctx.read_pixels_into_bitmap();
    assert_eq!(bm.info, ctx.surface.info);
    assert_eq!(bm.pixels.len(), 4);
    assert_eq!(bm.pixels[0], Color { r: 1, g: 2, b: 3, a: 4 });
}

#[test]
fn read_pixels_into_image_wraps_surface_content() {
    let mut ctx = small_context();
    ctx.surface.clear(Color { r: 5, g: 6, b: 7, a: 8 });
    let img = ctx.read_pixels_into_image().unwrap();
    assert_eq!(img.width, 2);
    assert_eq!(img.height, 2);
    assert_eq!(img.data[3], Color { r: 5, g: 6, b: 7, a: 8 });
}

#[test]
fn image_snapshot_sees_pending_draws_and_keeps_them_pending() {
    let mut ctx = small_context();
    ctx.surface.clear(Color { r: 4, g: 4, b: 4, a: 4 });
    let img = ctx.image_snapshot();
    assert_eq!(img.data[0], Color { r: 4, g: 4, b: 4, a: 4 });
    assert_eq!(ctx.surface.pending.len(), 1);
    let snap = ctx.snapshot();
    assert_eq!(snap.data[0], Color { r: 4, g: 4, b: 4, a: 4 });
    assert_eq!(ctx.surface.pending.len(), 0);
}

#[test]
fn draw_on_surface_blits_at_origin_with_clipping() {
    let mut ctx = small_context();
    ctx.surface.clear(Color { r: 30, g: 0, b: 0, a: 255 });
    let device = Device::new_non_gpu(1, 1, 1000, 96000);
    let mut target = Surface::new(device, 1, 1, 0);
    ctx.draw_on_surface(&mut target);
    assert_eq!(target.pending.len(), 1);
    target.flush();
    assert_eq!(target.committed.len(), 1);
    assert_eq!(target.committed[0], Color { r: 30, g: 0, b: 0, a: 255 });
}

#[test]
fn handle_shares_one_context() {
    let mut wrapper = ContextWrapper::new(small_context());
    let peer = wrapper.share();
    wrapper.resize(6, 5);
    let read = peer.get_context();
    assert_eq!(read.borrow().device.width, 6);
    assert_eq!(read.borrow().device.height, 5);
    read.release_read();
}

#[test]
fn concurrent_read_accesses_coexist() {
    let wrapper = ContextWrapper::new(small_context());
    let peer = wrapper.share();
    let r1 = wrapper.get_context();
    let r2 = peer.get_context();
    assert_eq!(r1.borrow().device.width, 2);
    assert_eq!(r2.borrow().device.width, 2);
    r1.release_read();
    r2.release_read();
    let (mut ctx, write) = wrapper.get_context_mut();
    ctx.save();
    write.release_write(ctx);
    let r3 = wrapper.get_context();
    assert_eq!(r3.borrow().state_stack.len(), 1);
    r3.release_read();
}

#[test]
fn wrapper_round_trip_through_inner() {
    let wrapper = ContextWrapper::new(small_context());
    let inner = wrapper.get_inner().clone();
    let rebuilt = ContextWrapper::from_inner(inner);
    let read = rebuilt.get_context();
    assert_eq!(read.borrow().device.width, 2);
    read.release_read();
}

#[test]
fn device_accessor_returns_the_device() {
    let ctx = small_context();
    assert_eq!(ctx.device().width, 2);
    assert_eq!(ctx.device().height, 2);
}
