use irid::BindGroupLayoutKind;
use irid::BindGroupRef;
use irid::BuildContext;
use irid::CacheIndex;
use irid::CameraKey;
use irid::Color;
use irid::FrameAcquireError;
use irid::FrameAcquireOutcome;
use irid::FrameErrorClass;
use irid::IndexFormat;
use irid::LoadedTexture;
use irid::RenderCommand;
use irid::RendererBuilder;
use irid::RendererError;
use irid::ShaderModuleId;
use irid::TextureFormat;
use irid::VertexBufferSource;
use irid::WindowSize;

fn ok_context() -> BuildContext {
    BuildContext {
        adapter_found: true,
        detected_format: Some(TextureFormat::Bgra8UnormSrgb),
        device_ok: true,
        shader_module: None,
        loaded_texture: None,
    }
}

fn triangle_vertices() -> Vec<u8> {
    // Three mesh vertices of 32 bytes each, as ModelVertex lays them out.
    vec![0u8; 96]
}

fn texture_256() -> LoadedTexture {
    LoadedTexture {
        width: 256,
        height: 256,
        rgba_bytes: Some(vec![0u8; 4 * 256 * 256]),
        path: String::from("suzanne.png"),
    }
}

fn full_context() -> BuildContext {
    BuildContext {
        adapter_found: true,
        detected_format: Some(TextureFormat::Bgra8UnormSrgb),
        device_ok: true,
        shader_module: Some(ShaderModuleId { id: 1 }),
        loaded_texture: Some(texture_256()),
    }
}

fn full_builder() -> RendererBuilder {
    RendererBuilder::new(WindowSize::new(800, 600))
        .with_shader_path(Some(String::from("shader.wgsl")))
        .with_texture_path(Some(String::from("suzanne.png")))
        .with_vertices(Some(triangle_vertices()))
        .with_indices(Some(vec![0u16, 1, 2]))
}

#[test]
fn build_fails_without_adapter() {
    let ctx = BuildContext { adapter_found: false, ..ok_context() };
    let r = RendererBuilder::new(WindowSize::new(800, 600)).build(ctx);
    assert!(matches!(r.err(), Some(RendererError::SurfaceAdapterRequest)));
}

#[test]
fn build_fails_without_negotiable_format() {
    let ctx = BuildContext { detected_format: None, ..ok_context() };
    let r = RendererBuilder::new(WindowSize::new(800, 600)).build(ctx);
    assert!(matches!(r.err(), Some(RendererError::SurfaceAdapterRequest)));
}

#[test]
fn build_fails_without_device() {
    let ctx = BuildContext { device_ok: false, ..ok_context() };
    let r = RendererBuilder::new(WindowSize::new(800, 600)).build(ctx);
    assert!(matches!(r.err(), Some(RendererError::DeviceRequest)));
}

#[test]
fn builder_defaults_are_documented_ones() {
    let b = RendererBuilder::new(WindowSize::new(800, 600));
    assert!(b.clear_color.is_none());
    assert!(b.preferred_format.is_none());
    assert_eq!(b.present_mode, irid::PresentMode::Fifo);
    assert_eq!(b.power_preference, irid::PowerPreference::HighPerformance);
    assert!(!b.force_fallback_adapter);
    assert_eq!(b.instances_per_row, 10);
}

#[test]
fn preferred_format_overrides_the_detected_one() {
    let mut builder = RendererBuilder::new(WindowSize::new(800, 600));
    builder.preferred_format = Some(TextureFormat::Rgba8UnormSrgb);
    let ren = builder.build(ok_context()).unwrap();
    assert_eq!(ren.surface.configuration.format, TextureFormat::Rgba8UnormSrgb);

    // A preferred format even rescues a pair whose negotiation detected
    // none.
    let mut builder = RendererBuilder::new(WindowSize::new(800, 600));
    builder.preferred_format = Some(TextureFormat::Rgba8Unorm);
    let ctx = BuildContext { detected_format: None, ..ok_context() };
    assert!(builder.build(ctx).is_ok());
}

#[test]
fn build_defaults_are_documented_ones() {
    let ren = RendererBuilder::new(WindowSize::new(800, 600)).build(ok_context()).unwrap();
    // Clear color defaults to opaque white.
    assert_eq!(ren.clear_color, Color { r: 255, g: 255, b: 255, a: 255 });
    // No shader: no pipeline. No mesh: no buffers, no instances.
    assert!(ren.pipeline.is_none());
    assert!(ren.vertex_data.is_none());
    assert!(ren.index_data.is_none());
    assert!(ren.instances.is_none());
    assert_eq!(ren.num_indices, 0);
    assert_eq!(ren.num_instances, 0);
    // The bound texture slot defaults to the 256-by-256 entry.
    assert_eq!(ren.texture_entry, CacheIndex { width_exp: 8, height_exp: 8 });
    // The surface carries the negotiated format at the window size.
    assert_eq!(ren.surface.configuration.format, TextureFormat::Bgra8UnormSrgb);
    assert_eq!(ren.surface.configuration.width, 800);
    assert_eq!(ren.surface.configuration.height, 600);
    assert_eq!(ren.depth_size, WindowSize::new(800, 600));
    assert_eq!(ren.get_size(), WindowSize::new(800, 600));
}

#[test]
fn end_to_end_one_submission_one_present_from_cache_slot_8_8() {
    let mut ren = full_builder().build(full_context()).unwrap();

    // The 256-by-256 texture was planned into slot (log2 256, log2 256).
    assert_eq!(ren.texture_entry, CacheIndex { width_exp: 8, height_exp: 8 });
    let plan = ren.texture_write.expect("a write was planned");
    assert_eq!(plan.width_exp, 8);
    assert_eq!(plan.height_exp, 8);
    assert_eq!(plan.entry.width, 256);
    assert_eq!(plan.entry.bytes_per_row, 1024);

    // The pipeline binds texture and camera layouts in that order.
    let pipeline = ren.pipeline.as_ref().expect("a shader was configured");
    assert_eq!(
        pipeline.bind_group_layouts,
        vec![BindGroupLayoutKind::Texture, BindGroupLayoutKind::Camera]
    );

    let cmds = ren.redraw(FrameAcquireOutcome::Available).unwrap();

    let submissions = cmds.iter().filter(|c| matches!(c, RenderCommand::Submit)).count();
    let presents = cmds.iter().filter(|c| matches!(c, RenderCommand::Present)).count();
    assert_eq!(submissions, 1);
    assert_eq!(presents, 1);

    // Bind group 0 is sourced from the cache entry (8, 8).
    assert!(cmds.contains(&RenderCommand::SetBindGroup {
        index: 0,
        group: BindGroupRef::TextureEntry {
            index: CacheIndex { width_exp: 8, height_exp: 8 },
        },
    }));
    assert!(cmds.contains(&RenderCommand::SetBindGroup {
        index: 1,
        group: BindGroupRef::Camera,
    }));

    // Both vertex slots, the 16-bit index binding, and the one draw of
    // the triangle across the hundred grid instances.
    assert!(cmds.contains(&RenderCommand::SetVertexBuffer {
        slot: 0,
        source: VertexBufferSource::Mesh,
    }));
    assert!(cmds.contains(&RenderCommand::SetVertexBuffer {
        slot: 1,
        source: VertexBufferSource::Instances,
    }));
    assert!(cmds.contains(&RenderCommand::SetIndexBuffer { format: IndexFormat::Uint16 }));
    let draws: Vec<&RenderCommand> =
        cmds.iter().filter(|c| matches!(c, RenderCommand::DrawIndexed { .. })).collect();
    assert_eq!(draws.len(), 1);
    assert_eq!(draws[0], &RenderCommand::DrawIndexed { index_count: 3, instance_count: 100 });

    // Submission, then presentation, close the frame in that order.
    assert_eq!(cmds[cmds.len() - 2], RenderCommand::Submit);
    assert_eq!(cmds[cmds.len() - 1], RenderCommand::Present);
    // The camera upload was scheduled first.
    assert_eq!(cmds[0], RenderCommand::WriteCameraBuffer);
}

#[test]
fn redraw_without_buffers_clears_but_never_draws() {
    // A pipeline without any mesh: the pass still clears color and
    // depth, submits and presents, but issues zero draw calls.
    let builder = RendererBuilder::new(WindowSize::new(640, 480))
        .with_shader_path(Some(String::from("shader.wgsl")));
    let ctx = BuildContext { shader_module: Some(ShaderModuleId { id: 1 }), ..ok_context() };
    let mut ren = builder.build(ctx).unwrap();

    let cmds = ren.redraw(FrameAcquireOutcome::Available).unwrap();
    assert_eq!(cmds.iter().filter(|c| matches!(c, RenderCommand::DrawIndexed { .. })).count(), 0);
    assert_eq!(cmds.iter().filter(|c| matches!(c, RenderCommand::SetVertexBuffer { .. })).count(), 0);
    assert_eq!(cmds.iter().filter(|c| matches!(c, RenderCommand::Submit)).count(), 1);
    assert_eq!(cmds.iter().filter(|c| matches!(c, RenderCommand::Present)).count(), 1);

    // Without even a pipeline the frame still clears, submits, presents.
    let mut bare = RendererBuilder::new(WindowSize::new(640, 480)).build(ok_context()).unwrap();
    let cmds = bare.redraw(FrameAcquireOutcome::Available).unwrap();
    assert_eq!(cmds.len(), 4);
    assert_eq!(cmds[0], RenderCommand::WriteCameraBuffer);
    assert!(matches!(cmds[1], RenderCommand::BeginRenderPass { .. }));
    assert_eq!(cmds[2], RenderCommand::Submit);
    assert_eq!(cmds[3], RenderCommand::Present);
}

#[test]
fn resize_then_redraw_uses_the_new_depth_attachment() {
    let mut ren = full_builder().build(full_context()).unwrap();
    ren.resize(WindowSize::new(1920, 1080));
    assert_eq!(ren.get_size(), WindowSize::new(1920, 1080));
    assert_eq!(ren.depth_size, WindowSize::new(1920, 1080));
    assert_eq!(ren.surface.configuration.width, 1920);
    assert_eq!(ren.surface.configuration.height, 1080);

    let cmds = ren.redraw(FrameAcquireOutcome::Available).unwrap();
    match cmds[1] {
        RenderCommand::BeginRenderPass { clear_color, depth_width, depth_height } => {
            assert_eq!(clear_color, Color { r: 255, g: 255, b: 255, a: 255 });
            assert_eq!(depth_width, 1920);
            assert_eq!(depth_height, 1080);
        }
        ref other => panic!("expected the render pass, found {:?}", other),
    }
}

#[test]
fn failed_acquisition_is_classified_and_keeps_state() {
    let mut ren = full_builder().build(full_context()).unwrap();

    let err = ren.redraw(FrameAcquireOutcome::Failed(FrameAcquireError::Outdated)).unwrap_err();
    assert_eq!(err, FrameAcquireError::Outdated);
    assert_eq!(err.classify(), FrameErrorClass::Recoverable);
    assert_eq!(FrameAcquireError::Lost.classify(), FrameErrorClass::Recoverable);
    assert_eq!(FrameAcquireError::Timeout.classify(), FrameErrorClass::Recoverable);
    assert_eq!(FrameAcquireError::OutOfMemory.classify(), FrameErrorClass::Fatal);

    // The camera upload stays scheduled across the failure: the next
    // successful frame is unchanged in shape.
    assert_eq!(ren.camera_updates, 1);
    let cmds = ren.redraw(FrameAcquireOutcome::Available).unwrap();
    assert_eq!(cmds.iter().filter(|c| matches!(c, RenderCommand::Submit)).count(), 1);
    assert_eq!(ren.camera_updates, 2);
}

#[test]
fn camera_events_accumulate_in_the_controller() {
    let mut ren = full_builder().build(full_context()).unwrap();
    assert_eq!(ren.camera_controller.speed_milli, 200);
    assert!(!ren.camera_controller.is_forward_pressed);
    assert!(ren.process_camera_events(CameraKey::Forward, true));
    assert!(ren.camera_controller.is_forward_pressed);
    assert!(ren.process_camera_events(CameraKey::Forward, false));
    assert!(!ren.camera_controller.is_forward_pressed);
    assert!(ren.process_camera_events(CameraKey::Left, true));
    assert!(ren.camera_controller.is_left_pressed);
}

#[test]
fn instances_exist_only_with_a_mesh() {
    let ren = full_builder().build(full_context()).unwrap();
    let instances = ren.instances.as_ref().expect("a mesh was configured");
    assert_eq!(instances.len(), 100);
    assert_eq!(ren.num_instances, 100);
    assert_eq!(ren.num_indices, 3);

    let no_mesh = RendererBuilder::new(WindowSize::new(800, 600)).build(ok_context()).unwrap();
    assert!(no_mesh.instances.is_none());
    assert_eq!(no_mesh.num_instances, 0);
}

#[test]
fn grid_size_is_a_configuration_parameter() {
    let ren = full_builder().with_instances_per_row(4).build(full_context()).unwrap();
    assert_eq!(ren.num_instances, 16);
    assert_eq!(ren.instances.as_ref().unwrap().len(), 16);
}

#[test]
fn oversized_texture_is_skipped_not_fatal() {
    // A decoded image larger than the cache's bound: the write is
    // skipped, the renderer is still built, and group 0 falls back to
    // the default slot.
    let big = LoadedTexture {
        width: 16384,
        height: 16384,
        rgba_bytes: Some(Vec::new()),
        path: String::from("huge.png"),
    };
    let ctx = BuildContext { loaded_texture: Some(big), ..ok_context() };
    let builder = RendererBuilder::new(WindowSize::new(800, 600))
        .with_texture_path(Some(String::from("huge.png")));
    let ren = builder.build(ctx).unwrap();
    assert!(ren.texture_write.is_none());
    assert_eq!(ren.texture_entry, CacheIndex { width_exp: 8, height_exp: 8 });
}
