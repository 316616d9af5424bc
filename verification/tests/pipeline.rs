use irid::BindGroupLayoutKind;
use irid::BlendMode;
use irid::ColorTargetState;
use irid::ColorWriteMask;
use irid::FragmentState;
use irid::ModelVertex;
use irid::PipelineError;
use irid::RenderPipelineBuilder;
use irid::ShaderModuleId;
use irid::TextureFormat;
use irid::VertexState;

fn sample_vertex_state() -> VertexState {
    VertexState {
        shader: ShaderModuleId { id: 7 },
        buffers: vec![ModelVertex::desc()],
    }
}

fn sample_fragment_state() -> FragmentState {
    FragmentState {
        shader: ShaderModuleId { id: 7 },
        targets: vec![ColorTargetState {
            format: TextureFormat::Bgra8UnormSrgb,
            blend: Some(BlendMode::Replace),
            write_mask: ColorWriteMask::all(),
        }],
    }
}

#[test]
fn build_fails_without_vertex_stage() {
    let r = RenderPipelineBuilder::new().build();
    assert_eq!(r.err(), Some(PipelineError::MissingVertexStage));

    // A fragment stage alone does not help: the vertex stage is what the
    // contract demands.
    let r = RenderPipelineBuilder::new().with_fragment(sample_fragment_state()).build();
    assert_eq!(r.err(), Some(PipelineError::MissingVertexStage));
}

#[test]
fn build_succeeds_without_fragment_stage() {
    let p = RenderPipelineBuilder::new().with_vertex(sample_vertex_state()).build().unwrap();
    assert!(p.fragment.is_none());
    assert_eq!(p.vertex.shader, ShaderModuleId { id: 7 });
    assert_eq!(p.vertex.buffers.len(), 1);
}

#[test]
fn build_succeeds_with_fragment_stage() {
    let p = RenderPipelineBuilder::new()
        .with_vertex(sample_vertex_state())
        .with_fragment(sample_fragment_state())
        .build()
        .unwrap();
    let fragment = p.fragment.expect("fragment stage kept");
    assert_eq!(fragment.shader, ShaderModuleId { id: 7 });
    assert_eq!(fragment.targets.len(), 1);
    assert_eq!(fragment.targets[0].format, TextureFormat::Bgra8UnormSrgb);
    assert_eq!(fragment.targets[0].blend, Some(BlendMode::Replace));
}

#[test]
fn build_keeps_bind_group_layout_order() {
    let p = RenderPipelineBuilder::new()
        .with_vertex(sample_vertex_state())
        .with_bind_group_layouts(vec![
            BindGroupLayoutKind::Texture,
            BindGroupLayoutKind::Camera,
        ])
        .build()
        .unwrap();
    assert_eq!(
        p.bind_group_layouts,
        vec![BindGroupLayoutKind::Texture, BindGroupLayoutKind::Camera]
    );
}
