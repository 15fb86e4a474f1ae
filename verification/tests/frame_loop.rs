//! The frame loop state machine: the per-tick protocol, the image-in-use
//! guard, recreation, and the bound on frames in flight.

use render_core::barrier::STAGE_COLOR_ATTACHMENT_OUTPUT;
use render_core::commands::{clear_values, record_command_buffer, DrawCommand, DEPTH_CLEAR_BITS};
use render_core::descriptor::{
    descriptor_pool_config, descriptor_set_layout_binding, descriptor_writes, UNIFORM_RECORD_SIZE,
};
use render_core::frame::{
    AcquireOutcome, AcquireStep, FrameLoop, FramePhase, PresentOutcome, SubmitPlan, TickAction,
    TickEnd,
};
use render_core::swapchain::Extent2D;
use render_core::MAX_FRAMES_IN_FLIGHT;

fn window(w: u32, h: u32) -> Extent2D {
    Extent2D { width: w, height: h }
}

fn in_flight_count(f: &FrameLoop) -> usize {
    f.slot_in_flight.iter().filter(|b| **b).count()
}

/// One successful tick against the given image index.
fn tick_ok(f: &mut FrameLoop, image: usize) -> SubmitPlan {
    let a = f.start();
    assert!(matches!(a, TickAction::AcquireImage { .. }));
    let step = f.on_acquired(AcquireOutcome::Success { image });
    let plan = match step {
        AcquireStep::Submit { plan } => plan,
        _ => panic!("expected a submission"),
    };
    assert_eq!(f.on_presented(PresentOutcome::Success), TickEnd::Done);
    plan
}

#[test]
fn first_tick_renders_image_zero_and_advances() {
    let mut f = FrameLoop::new(3, window(1024, 768));
    assert_eq!(f.frame_index, 0);
    let a = f.start();
    assert_eq!(a, TickAction::AcquireImage { slot: 0 });
    let step = f.on_acquired(AcquireOutcome::Success { image: 0 });
    assert_eq!(
        step,
        AcquireStep::Submit {
            plan: SubmitPlan {
                image: 0,
                slot: 0,
                wait_image_fence: None,
                wait_stage: STAGE_COLOR_ATTACHMENT_OUTPUT,
            },
        }
    );
    assert_eq!(f.phase, FramePhase::Presenting { image: 0 });
    assert_eq!(f.on_presented(PresentOutcome::Success), TickEnd::Done);
    assert_eq!(f.frame_index, 1);
    assert_eq!(f.phase, FramePhase::Idle);
}

#[test]
fn zero_sized_window_skips_until_restored_then_one_recreation() {
    let mut f = FrameLoop::new(3, window(1024, 768));
    tick_ok(&mut f, 0);
    assert_eq!(f.frame_index, 1);
    // The window is minimized: ticks are skipped, nothing changes.
    f.set_window_extent(window(0, 0));
    f.resized(true);
    assert_eq!(f.start(), TickAction::Skip);
    assert_eq!(f.start(), TickAction::Skip);
    assert_eq!(f.frame_index, 1);
    // Restored to a positive size: exactly one recreation comes before the
    // next successful present.
    f.set_window_extent(window(800, 600));
    assert_eq!(f.start(), TickAction::Recreate);
    f.on_recreated(3);
    let a = f.start();
    assert_eq!(a, TickAction::AcquireImage { slot: 1 });
    assert!(matches!(
        f.on_acquired(AcquireOutcome::Success { image: 1 }),
        AcquireStep::Submit { .. }
    ));
    assert_eq!(f.on_presented(PresentOutcome::Success), TickEnd::Done);
    // No second recreation is pending.
    assert!(matches!(f.start(), TickAction::AcquireImage { .. }));
}

#[test]
fn frame_index_wraps_around_slots() {
    let mut f = FrameLoop::new(3, window(1024, 768));
    tick_ok(&mut f, 0);
    tick_ok(&mut f, 1);
    assert_eq!(f.frame_index, 0);
    tick_ok(&mut f, 2);
    assert_eq!(f.frame_index, 1);
}

#[test]
fn frames_in_flight_never_exceed_the_bound() {
    let mut f = FrameLoop::new(4, window(1024, 768));
    for t in 0..12usize {
        tick_ok(&mut f, t % 4);
        assert!(in_flight_count(&f) <= MAX_FRAMES_IN_FLIGHT);
    }
    assert_eq!(in_flight_count(&f), MAX_FRAMES_IN_FLIGHT);
}

#[test]
fn image_in_use_guard_names_previous_slot() {
    let mut f = FrameLoop::new(2, window(1024, 768));
    let p0 = tick_ok(&mut f, 0);
    assert_eq!(p0.wait_image_fence, None);
    // The same image is acquired again while slot 0's work may still be
    // pending: the guard names slot 0.
    let p1 = tick_ok(&mut f, 0);
    assert_eq!(p1.slot, 1);
    assert_eq!(p1.wait_image_fence, Some(0));
    assert_eq!(f.images_in_flight[0], Some(1));
}

#[test]
fn out_of_date_acquire_goes_to_recreation_without_advancing() {
    let mut f = FrameLoop::new(3, window(1024, 768));
    assert!(matches!(f.start(), TickAction::AcquireImage { .. }));
    assert_eq!(f.on_acquired(AcquireOutcome::OutOfDate), AcquireStep::Recreate);
    assert_eq!(f.phase, FramePhase::Recreating);
    assert_eq!(f.frame_index, 0);
    f.on_recreated(3);
    assert_eq!(f.frame_index, 0);
}

#[test]
fn acquire_error_is_fatal() {
    let mut f = FrameLoop::new(3, window(1024, 768));
    f.start();
    assert_eq!(
        f.on_acquired(AcquireOutcome::Error { code: -4 }),
        AcquireStep::Fail { code: -4 }
    );
}

#[test]
fn suboptimal_present_recreates_without_advancing() {
    let mut f = FrameLoop::new(3, window(1024, 768));
    f.start();
    f.on_acquired(AcquireOutcome::Success { image: 0 });
    assert_eq!(f.on_presented(PresentOutcome::Suboptimal), TickEnd::Recreate);
    assert_eq!(f.frame_index, 0);
    f.on_recreated(3);
    f.start();
    f.on_acquired(AcquireOutcome::Success { image: 0 });
    assert_eq!(f.on_presented(PresentOutcome::OutOfDate), TickEnd::Recreate);
    f.on_recreated(3);
    f.start();
    f.on_acquired(AcquireOutcome::Success { image: 0 });
    assert_eq!(
        f.on_presented(PresentOutcome::Error { code: -1 }),
        TickEnd::Fail { code: -1 }
    );
}

#[test]
fn recreation_resizes_fence_table_to_image_count() {
    let mut f = FrameLoop::new(3, window(1024, 768));
    tick_ok(&mut f, 2);
    f.resized(true);
    assert_eq!(f.start(), TickAction::Recreate);
    // The new swapchain reports a different image count; the table follows.
    f.on_recreated(5);
    assert_eq!(f.images_in_flight.len(), 5);
    assert_eq!(f.images_in_flight[2], Some(0));
    assert_eq!(f.images_in_flight[3], None);
    f.resized(true);
    assert_eq!(f.start(), TickAction::Recreate);
    f.on_recreated(2);
    assert_eq!(f.images_in_flight.len(), 2);
}

#[test]
fn command_buffer_records_one_draw_per_object() {
    let cmds = record_command_buffer(1, &vec![30, 12]);
    assert_eq!(
        cmds,
        vec![
            DrawCommand::BeginRenderPass { image: 1 },
            DrawCommand::BindPipeline,
            DrawCommand::BindDescriptorSet { image: 1 },
            DrawCommand::BindVertexBuffer { object: 0 },
            DrawCommand::BindIndexBuffer { object: 0 },
            DrawCommand::DrawIndexed { index_count: 30 },
            DrawCommand::BindVertexBuffer { object: 1 },
            DrawCommand::BindIndexBuffer { object: 1 },
            DrawCommand::DrawIndexed { index_count: 12 },
            DrawCommand::EndRenderPass,
        ]
    );
    let empty = record_command_buffer(0, &vec![]);
    assert_eq!(
        empty,
        vec![
            DrawCommand::BeginRenderPass { image: 0 },
            DrawCommand::BindPipeline,
            DrawCommand::BindDescriptorSet { image: 0 },
            DrawCommand::EndRenderPass,
        ]
    );
}

#[test]
fn clear_values_black_background_depth_one() {
    let c = clear_values();
    assert_eq!(c.color_r, 0);
    assert_eq!(c.color_g, 0);
    assert_eq!(c.color_b, 0);
    assert_eq!(c.color_a, DEPTH_CLEAR_BITS);
    assert_eq!(c.depth, DEPTH_CLEAR_BITS);
    assert_eq!(c.depth, 1.0f32.to_bits());
    assert_eq!(c.stencil, 0);
}

#[test]
fn descriptor_state_per_image() {
    let binding = descriptor_set_layout_binding();
    assert_eq!(binding.binding, 0);
    assert!(binding.uniform_buffer);
    assert_eq!(binding.descriptor_count, 1);
    assert!(binding.vertex_stage_visible);
    let pool = descriptor_pool_config(3);
    assert_eq!(pool.uniform_descriptor_count, 3);
    assert_eq!(pool.max_sets, 3);
    let writes = descriptor_writes(3, UNIFORM_RECORD_SIZE);
    assert_eq!(writes.len(), 3);
    for (i, w) in writes.iter().enumerate() {
        assert_eq!(w.set_index, i);
        assert_eq!(w.buffer_index, i);
        assert_eq!(w.offset, 0);
        assert_eq!(w.range, UNIFORM_RECORD_SIZE);
    }
}

#[test]
fn new_frame_loop_tracks_images_with_no_fences() {
    let f = FrameLoop::new(3, window(1, 1));
    assert_eq!(f.slot_in_flight.len(), MAX_FRAMES_IN_FLIGHT);
    assert_eq!(in_flight_count(&f), 0);
    assert_eq!(f.images_in_flight, vec![None, None, None]);
    assert_eq!(f.phase, FramePhase::Idle);
    assert!(!f.resize_pending);
}
