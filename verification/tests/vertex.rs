use irid::ColorVertex;
use irid::InstanceRaw;
use irid::ModelVertex;
use irid::TextCoordsVertex;
use irid::VertexFormat;
use irid::VertexStepMode;

#[test]
fn model_vertex_layout_is_packed() {
    let l = ModelVertex::desc();
    assert_eq!(l.array_stride, 32);
    assert_eq!(l.step_mode, VertexStepMode::Vertex);
    assert_eq!(l.attributes.len(), 3);
    assert_eq!(l.attributes[0].offset, 0);
    assert_eq!(l.attributes[0].shader_location, 0);
    assert_eq!(l.attributes[0].format, VertexFormat::Float32x3);
    assert_eq!(l.attributes[1].offset, 12);
    assert_eq!(l.attributes[1].shader_location, 1);
    assert_eq!(l.attributes[1].format, VertexFormat::Float32x2);
    assert_eq!(l.attributes[2].offset, 20);
    assert_eq!(l.attributes[2].shader_location, 2);
    assert_eq!(l.attributes[2].format, VertexFormat::Float32x3);
    // The stride is the size of the position, texture-coordinate and
    // normal floats, packed.
    assert_eq!(l.array_stride as usize, std::mem::size_of::<[f32; 8]>());
}

#[test]
fn color_vertex_layout_is_packed() {
    let l = ColorVertex::desc();
    assert_eq!(l.array_stride, 24);
    assert_eq!(l.step_mode, VertexStepMode::Vertex);
    assert_eq!(l.attributes.len(), 2);
    assert_eq!(l.attributes[0].offset, 0);
    assert_eq!(l.attributes[1].offset, 12);
    assert_eq!(l.attributes[1].format, VertexFormat::Float32x3);
    assert_eq!(l.array_stride as usize, std::mem::size_of::<[f32; 6]>());
}

#[test]
fn text_coords_vertex_layout_is_packed() {
    let l = TextCoordsVertex::desc();
    assert_eq!(l.array_stride, 20);
    assert_eq!(l.step_mode, VertexStepMode::Vertex);
    assert_eq!(l.attributes.len(), 2);
    assert_eq!(l.attributes[0].format, VertexFormat::Float32x3);
    assert_eq!(l.attributes[1].offset, 12);
    assert_eq!(l.attributes[1].format, VertexFormat::Float32x2);
    assert_eq!(l.array_stride as usize, std::mem::size_of::<[f32; 5]>());
}

#[test]
fn instance_raw_layout_is_a_matrix_per_instance() {
    let l = InstanceRaw::desc();
    assert_eq!(l.array_stride, 64);
    assert_eq!(l.step_mode, VertexStepMode::Instance);
    assert_eq!(l.attributes.len(), 4);
    for (i, a) in l.attributes.iter().enumerate() {
        assert_eq!(a.format, VertexFormat::Float32x4);
        assert_eq!(a.offset, 16 * i as u64);
        assert_eq!(a.shader_location, 5 + i as u32);
    }
    assert_eq!(l.array_stride as usize, std::mem::size_of::<[[f32; 4]; 4]>());
}
