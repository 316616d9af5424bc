//! Vertex buffer layouts. Each concrete vertex kind describes its own GPU
//! buffer layout: a list of attributes packed back to back, a stride equal
//! to their total size, and consecutive shader locations. The float fields
//! of the vertices themselves live in the application's mirror types; the
//! engine's logic reads only these layouts.

use vstd::prelude::*;

verus! {

/// The data format of one vertex attribute.
#[derive(Clone, Copy, Debug, PartialEq, Eq, Structural)]
pub enum VertexFormat {
    Float32x2,
    Float32x3,
    Float32x4,
}

impl VertexFormat {
    /// The byte size of one attribute of this format.
    pub open spec fn size_spec(self) -> nat {
        match self {
            VertexFormat::Float32x2 => 8,
            VertexFormat::Float32x3 => 12,
            VertexFormat::Float32x4 => 16,
        }
    }

    pub fn size(self) -> (s: u64)
        ensures
            s == self.size_spec(),
    {
        match self {
            VertexFormat::Float32x2 => 8,
            VertexFormat::Float32x3 => 12,
            VertexFormat::Float32x4 => 16,
        }
    }
}

/// Whether a buffer slot advances per vertex or per drawn instance.
#[derive(Clone, Copy, Debug, PartialEq, Eq, Structural)]
pub enum VertexStepMode {
    Vertex,
    Instance,
}

/// One attribute: its format, its byte offset within a stride, and the
/// shader location it feeds.
#[derive(Clone, Copy, Debug, PartialEq, Eq, Structural)]
pub struct VertexAttribute {
    pub format: VertexFormat,
    pub offset: u64,
    pub shader_location: u32,
}

/// The layout of one vertex buffer slot.
#[derive(Clone, Debug)]
pub struct VertexBufferLayout {
    pub array_stride: u64,
    pub step_mode: VertexStepMode,
    pub attributes: Vec<VertexAttribute>,
}

/// The total byte size of the first `i` attributes.
pub open spec fn packed_size(attrs: Seq<VertexAttribute>, i: int) -> nat
    decreases i,
{
    if i <= 0 {
        0
    } else {
        packed_size(attrs, i - 1) + attrs[i - 1].format.size_spec()
    }
}

impl VertexBufferLayout {
    /// Attributes are packed back to back — each offset is the total size
    /// of the attributes before it — and the stride covers them exactly.
    pub open spec fn wf(self) -> bool {
        &&& forall|i: int|
            0 <= i < self.attributes@.len() ==> (#[trigger] self.attributes@[i]).offset
                == packed_size(self.attributes@, i)
        &&& self.array_stride == packed_size(self.attributes@, self.attributes@.len() as int)
    }
}

/// The attributes of the mesh vertex: position, texture coordinates,
/// normal, at shader locations 0 through 2.
pub open spec fn model_vertex_attrs() -> Seq<VertexAttribute> {
    seq![
        VertexAttribute { format: VertexFormat::Float32x3, offset: 0, shader_location: 0 },
        VertexAttribute { format: VertexFormat::Float32x2, offset: 12, shader_location: 1 },
        VertexAttribute { format: VertexFormat::Float32x3, offset: 20, shader_location: 2 },
    ]
}

/// A layout is the mesh vertex layout: a 32-byte stride stepped per
/// vertex, carrying [`model_vertex_attrs`].
pub open spec fn is_model_vertex_layout(l: VertexBufferLayout) -> bool {
    l.array_stride == 32 && l.step_mode == VertexStepMode::Vertex && l.attributes@
        == model_vertex_attrs()
}

/// The attributes of the colored vertex: position and color.
pub open spec fn color_vertex_attrs() -> Seq<VertexAttribute> {
    seq![
        VertexAttribute { format: VertexFormat::Float32x3, offset: 0, shader_location: 0 },
        VertexAttribute { format: VertexFormat::Float32x3, offset: 12, shader_location: 1 },
    ]
}

/// A layout is the colored vertex layout: a 24-byte stride stepped per
/// vertex, carrying [`color_vertex_attrs`].
pub open spec fn is_color_vertex_layout(l: VertexBufferLayout) -> bool {
    l.array_stride == 24 && l.step_mode == VertexStepMode::Vertex && l.attributes@
        == color_vertex_attrs()
}

/// The attributes of the textured vertex: position and texture
/// coordinates.
pub open spec fn text_coords_vertex_attrs() -> Seq<VertexAttribute> {
    seq![
        VertexAttribute { format: VertexFormat::Float32x3, offset: 0, shader_location: 0 },
        VertexAttribute { format: VertexFormat::Float32x2, offset: 12, shader_location: 1 },
    ]
}

/// A layout is the textured vertex layout: a 20-byte stride stepped per
/// vertex, carrying [`text_coords_vertex_attrs`].
pub open spec fn is_text_coords_vertex_layout(l: VertexBufferLayout) -> bool {
    l.array_stride == 20 && l.step_mode == VertexStepMode::Vertex && l.attributes@
        == text_coords_vertex_attrs()
}

/// The attributes of the raw per-instance transform: the four columns of
/// a 4-by-4 model matrix, at shader locations 5 through 8.
pub open spec fn instance_raw_attrs() -> Seq<VertexAttribute> {
    seq![
        VertexAttribute { format: VertexFormat::Float32x4, offset: 0, shader_location: 5 },
        VertexAttribute { format: VertexFormat::Float32x4, offset: 16, shader_location: 6 },
        VertexAttribute { format: VertexFormat::Float32x4, offset: 32, shader_location: 7 },
        VertexAttribute { format: VertexFormat::Float32x4, offset: 48, shader_location: 8 },
    ]
}

/// A layout is the per-instance transform layout: a 64-byte stride
/// stepped per instance, carrying [`instance_raw_attrs`].
pub open spec fn is_instance_raw_layout(l: VertexBufferLayout) -> bool {
    l.array_stride == 64 && l.step_mode == VertexStepMode::Instance && l.attributes@
        == instance_raw_attrs()
}

/// The mesh vertex kind: position, texture coordinates and normal. The
/// application's mirror struct holds the float fields.
pub struct ModelVertex;

impl ModelVertex {
    /// The buffer layout of a slot of mesh vertices.
    pub fn desc() -> (l: VertexBufferLayout)
        ensures
            is_model_vertex_layout(l),
            l.wf(),
    {
        let attributes = vec![
            VertexAttribute { format: VertexFormat::Float32x3, offset: 0, shader_location: 0 },
            VertexAttribute { format: VertexFormat::Float32x2, offset: 12, shader_location: 1 },
            VertexAttribute { format: VertexFormat::Float32x3, offset: 20, shader_location: 2 },
        ];
        let l = VertexBufferLayout {
            array_stride: 32,
            step_mode: VertexStepMode::Vertex,
            attributes,
        };
        proof {
            assert(l.attributes@ =~= model_vertex_attrs());
            lemma_packed_prefixes(l.attributes@);
        }
        l
    }
}

/// The colored vertex kind: position and color.
pub struct ColorVertex;

impl ColorVertex {
    /// The buffer layout of a slot of colored vertices.
    pub fn desc() -> (l: VertexBufferLayout)
        ensures
            is_color_vertex_layout(l),
            l.wf(),
    {
        let attributes = vec![
            VertexAttribute { format: VertexFormat::Float32x3, offset: 0, shader_location: 0 },
            VertexAttribute { format: VertexFormat::Float32x3, offset: 12, shader_location: 1 },
        ];
        let l = VertexBufferLayout {
            array_stride: 24,
            step_mode: VertexStepMode::Vertex,
            attributes,
        };
        proof {
            assert(l.attributes@ =~= color_vertex_attrs());
            lemma_packed_prefixes(l.attributes@);
        }
        l
    }
}

/// The textured vertex kind: position and texture coordinates.
pub struct TextCoordsVertex;

impl TextCoordsVertex {
    /// The buffer layout of a slot of textured vertices.
    pub fn desc() -> (l: VertexBufferLayout)
        ensures
            is_text_coords_vertex_layout(l),
            l.wf(),
    {
        let attributes = vec![
            VertexAttribute { format: VertexFormat::Float32x3, offset: 0, shader_location: 0 },
            VertexAttribute { format: VertexFormat::Float32x2, offset: 12, shader_location: 1 },
        ];
        let l = VertexBufferLayout {
            array_stride: 20,
            step_mode: VertexStepMode::Vertex,
            attributes,
        };
        proof {
            assert(l.attributes@ =~= text_coords_vertex_attrs());
            lemma_packed_prefixes(l.attributes@);
        }
        l
    }
}

/// The raw per-instance transform: a 4-by-4 model matrix serialized
/// column by column. The application packs it from each [`crate::Instance`].
pub struct InstanceRaw;

impl InstanceRaw {
    /// The buffer layout of the per-instance transform slot.
    pub fn desc() -> (l: VertexBufferLayout)
        ensures
            is_instance_raw_layout(l),
            l.wf(),
    {
        let attributes = vec![
            VertexAttribute { format: VertexFormat::Float32x4, offset: 0, shader_location: 5 },
            VertexAttribute { format: VertexFormat::Float32x4, offset: 16, shader_location: 6 },
            VertexAttribute { format: VertexFormat::Float32x4, offset: 32, shader_location: 7 },
            VertexAttribute { format: VertexFormat::Float32x4, offset: 48, shader_location: 8 },
        ];
        let l = VertexBufferLayout {
            array_stride: 64,
            step_mode: VertexStepMode::Instance,
            attributes,
        };
        proof {
            assert(l.attributes@ =~= instance_raw_attrs());
            lemma_packed_prefixes(l.attributes@);
        }
        l
    }
}

/// Unfolds `packed_size` over every prefix of a short attribute list, so
/// the packed offsets of the concrete layouts are plain to the solver.
proof fn lemma_packed_prefixes(attrs: Seq<VertexAttribute>)
    requires
        attrs.len() <= 4,
    ensures
        packed_size(attrs, 0) == 0,
        attrs.len() >= 1 ==> packed_size(attrs, 1) == attrs[0].format.size_spec(),
        attrs.len() >= 2 ==> packed_size(attrs, 2) == packed_size(attrs, 1)
            + attrs[1].format.size_spec(),
        attrs.len() >= 3 ==> packed_size(attrs, 3) == packed_size(attrs, 2)
            + attrs[2].format.size_spec(),
        attrs.len() >= 4 ==> packed_size(attrs, 4) == packed_size(attrs, 3)
            + attrs[3].format.size_spec(),
{
    assert(packed_size(attrs, 0) == 0);
    assert(packed_size(attrs, 1) == packed_size(attrs, 0) + attrs[0].format.size_spec());
    assert(packed_size(attrs, 2) == packed_size(attrs, 1) + attrs[1].format.size_spec());
    assert(packed_size(attrs, 3) == packed_size(attrs, 2) + attrs[2].format.size_spec());
    assert(packed_size(attrs, 4) == packed_size(attrs, 3) + attrs[3].format.size_spec());
}

} // verus!
