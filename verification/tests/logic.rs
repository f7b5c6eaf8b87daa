use triangle_pan::config::{
    offscreen_texture_desc, shader_fragment_entry, shader_vertex_entry, ui_texture_debug_name,
    window_config, window_title,
};
use triangle_pan::frame::{frame_commands, frame_outcome, FrameError, RenderCmd};
use triangle_pan::pan::{PanEvent, PanOffset};
use triangle_pan::readback::{alloc_readback_buffer, bytes_per_row, full_texture_region, readback_len};
use triangle_pan::startup::{startup_outcome, StartupError, StartupSteps};
use triangle_pan::state::AppCore;

fn held(dx: i64, dy: i64) -> PanEvent {
    PanEvent { middle_down: true, dx, dy }
}

fn released(dx: i64, dy: i64) -> PanEvent {
    PanEvent { middle_down: false, dx, dy }
}

#[test]
fn pan_starts_at_origin() {
    let p = PanOffset::origin();
    assert_eq!(p, PanOffset { x: 0, y: 0 });
}

#[test]
fn pan_accumulates_deltas_while_held() {
    let p = PanOffset::origin()
        .step(held(3, -2))
        .step(held(4, 5))
        .step(held(-1, 1));
    assert_eq!(p, PanOffset { x: 6, y: 4 });
}

#[test]
fn pan_unchanged_while_released() {
    let p = PanOffset { x: 10, y: 20 }
        .step(released(100, 100))
        .step(released(-7, 3));
    assert_eq!(p, PanOffset { x: 10, y: 20 });
}

#[test]
fn pan_sums_only_held_deltas() {
    let events = [held(3, -2), released(100, 100), held(4, 5)];
    let mut p = PanOffset { x: 10, y: 20 };
    for e in events {
        p = p.step(e);
    }
    assert_eq!(p, PanOffset { x: 17, y: 23 });
}

#[test]
fn readback_row_stride_is_width_times_bytes_per_pixel() {
    assert_eq!(bytes_per_row(), 256 * 4);
}

#[test]
fn readback_buffer_size_is_width_times_bpp_times_height() {
    assert_eq!(readback_len(), 256 * 4 * 256);
    assert_eq!(readback_len(), 262144);
}

#[test]
fn readback_buffer_is_zeroed_and_sized() {
    let buf = alloc_readback_buffer();
    assert_eq!(buf.len(), 262144);
    assert!(buf.iter().all(|&b| b == 0));
}

#[test]
fn readback_buffer_size_ignores_pan() {
    let mut core = AppCore::new();
    core.handle_pointer(held(123, -456));
    let buf = alloc_readback_buffer();
    assert_eq!(buf.len(), 262144);
}

#[test]
fn readback_region_covers_whole_texture() {
    let r = full_texture_region();
    assert_eq!((r.origin_x, r.origin_y, r.origin_z), (0, 0, 0));
    assert_eq!((r.width, r.height, r.depth), (256, 256, 1));
    assert_eq!(r.mipmap_level, 0);
}

#[test]
fn frame_commands_have_expected_shape() {
    let cmds = frame_commands(&PanOffset { x: 7, y: -8 });
    let expected = vec![
        RenderCmd::BeginRenderPass { clear_on_load: true, store_on_end: true },
        RenderCmd::SetPipeline,
        RenderCmd::SetVertexPan { x: 7, y: -8 },
        RenderCmd::SetFragmentPan { x: 7, y: -8 },
        RenderCmd::Draw { first_vertex: 0, vertex_count: 6 },
        RenderCmd::EndEncoding,
        RenderCmd::Commit,
        RenderCmd::WaitUntilCompleted,
    ];
    assert_eq!(cmds, expected);
}

#[test]
fn frame_commands_identical_for_unchanged_pan() {
    let pan = PanOffset { x: 31, y: 17 };
    let first = frame_commands(&pan);
    let second = frame_commands(&pan);
    assert_eq!(first, second);
}

#[test]
fn frame_commands_follow_the_pan_offset() {
    let mut core = AppCore::new();
    core.handle_pointer(held(5, 9));
    let cmds = core.render_commands();
    assert_eq!(cmds[2], RenderCmd::SetVertexPan { x: 5, y: 9 });
    assert_eq!(cmds[3], RenderCmd::SetFragmentPan { x: 5, y: 9 });
}

#[test]
fn startup_aborts_without_device() {
    let steps = StartupSteps {
        device_ok: false,
        queue_ok: true,
        shader_ok: true,
        pipeline_ok: true,
        texture_ok: true,
    };
    let r = startup_outcome(steps);
    assert_eq!(r, Err(StartupError::NoDevice));
    assert_eq!(r.unwrap_err().message(), "Failed to create Metal device");
}

#[test]
fn startup_reports_first_failing_step() {
    let all_ok = StartupSteps {
        device_ok: true,
        queue_ok: true,
        shader_ok: true,
        pipeline_ok: true,
        texture_ok: true,
    };
    assert_eq!(startup_outcome(all_ok), Ok(()));

    let no_queue = StartupSteps { queue_ok: false, ..all_ok };
    assert_eq!(startup_outcome(no_queue), Err(StartupError::NoCommandQueue));

    let no_shader = StartupSteps { shader_ok: false, ..all_ok };
    assert_eq!(startup_outcome(no_shader), Err(StartupError::ShaderLibrary));

    let no_pipeline = StartupSteps { pipeline_ok: false, ..all_ok };
    assert_eq!(startup_outcome(no_pipeline), Err(StartupError::PipelineCreation));

    let no_texture = StartupSteps { texture_ok: false, ..all_ok };
    assert_eq!(startup_outcome(no_texture), Err(StartupError::TextureAllocation));

    let nothing = StartupSteps {
        device_ok: false,
        queue_ok: false,
        shader_ok: false,
        pipeline_ok: false,
        texture_ok: false,
    };
    assert_eq!(startup_outcome(nothing), Err(StartupError::NoDevice));
}

#[test]
fn startup_messages_are_descriptive() {
    assert_eq!(StartupError::NoCommandQueue.message(), "Failed to create command queue");
    assert_eq!(StartupError::ShaderLibrary.message(), "Failed to create library");
    assert_eq!(StartupError::PipelineCreation.message(), "Failed to create pipeline state");
    assert_eq!(StartupError::TextureAllocation.message(), "newTextureWithDescriptor() failed");
}

#[test]
fn frame_faults_are_decided_in_order() {
    assert_eq!(frame_outcome(true, true), Ok(()));
    assert_eq!(frame_outcome(false, true), Err(FrameError::CommandBufferCreation));
    assert_eq!(frame_outcome(false, false), Err(FrameError::CommandBufferCreation));
    assert_eq!(frame_outcome(true, false), Err(FrameError::EncoderCreation));
    assert_eq!(
        FrameError::CommandBufferCreation.message(),
        "Failed to create command buffer"
    );
    assert_eq!(
        FrameError::EncoderCreation.message(),
        "failed to create render command encoder"
    );
}

#[test]
fn window_is_titled_and_sized_as_fixed() {
    assert_eq!(window_title(), "eframe template");
    let c = window_config();
    assert_eq!((c.width, c.height), (700, 700));
    assert_eq!((c.min_width, c.min_height), (300, 220));
}

#[test]
fn shader_and_texture_names_are_fixed() {
    assert_eq!(shader_vertex_entry(), "vertex_main");
    assert_eq!(shader_fragment_entry(), "fragment_main");
    assert_eq!(ui_texture_debug_name(), "metal texture");
}

#[test]
fn offscreen_texture_is_256_square_and_dual_use() {
    let d = offscreen_texture_desc();
    assert_eq!((d.width, d.height), (256, 256));
    assert!(d.shader_read);
    assert!(d.render_target);
}

#[test]
fn app_core_starts_fresh() {
    let core = AppCore::new();
    assert_eq!(core.label, "Hello World!");
    assert_eq!(core.pan, PanOffset { x: 0, y: 0 });
}

#[test]
fn app_core_pans_only_while_held() {
    let mut core = AppCore::new();
    core.handle_pointer(held(3, 4));
    core.handle_pointer(released(50, 60));
    core.handle_pointer(held(-1, -2));
    assert_eq!(core.pan, PanOffset { x: 2, y: 2 });
    assert_eq!(core.label, "Hello World!");
}
