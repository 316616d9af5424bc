//! The pipeline builder: assembles a vertex stage, an optional fragment
//! stage and an ordered list of bind-group layouts into one immutable
//! graphics pipeline description. Building without a vertex stage is a
//! contract violation and fails; omitting the fragment stage is valid
//! (a depth- or vertex-only pass). The application compiles the actual
//! pipeline object from the description.

use vstd::prelude::*;
use crate::TextureFormat;
use crate::vertex::VertexBufferLayout;

verus! {

/// An opaque handle to a compiled shader module, assigned by the
/// application when it compiles the module's source.
#[derive(Clone, Copy, Debug, PartialEq, Eq, Structural)]
pub struct ShaderModuleId {
    pub id: u64,
}

/// How a fragment's color is combined with the target's: this engine only
/// ever replaces it.
#[derive(Clone, Copy, Debug, PartialEq, Eq, Structural)]
pub enum BlendMode {
    Replace,
}

/// Which color channels a draw may write.
#[derive(Clone, Copy, Debug, PartialEq, Eq, Structural)]
pub struct ColorWriteMask {
    pub red: bool,
    pub green: bool,
    pub blue: bool,
    pub alpha: bool,
}

impl ColorWriteMask {
    /// Every channel writable.
    pub fn all() -> (m: ColorWriteMask)
        ensures
            m == (ColorWriteMask { red: true, green: true, blue: true, alpha: true }),
    {
        ColorWriteMask { red: true, green: true, blue: true, alpha: true }
    }
}

/// The description of one color target of the fragment stage.
#[derive(Clone, Copy, Debug, PartialEq, Eq, Structural)]
pub struct ColorTargetState {
    pub format: TextureFormat,
    pub blend: Option<BlendMode>,
    pub write_mask: ColorWriteMask,
}

/// The vertex stage: a shader module and the layouts of the buffer slots
/// it consumes.
#[derive(Clone, Debug)]
pub struct VertexState {
    pub shader: ShaderModuleId,
    pub buffers: Vec<VertexBufferLayout>,
}

/// The fragment stage: a shader module and its color targets.
#[derive(Clone, Debug)]
pub struct FragmentState {
    pub shader: ShaderModuleId,
    pub targets: Vec<ColorTargetState>,
}

/// The kinds of bind-group layout this engine binds, in the order draw
/// calls must bind the groups.
#[derive(Clone, Copy, Debug, PartialEq, Eq, Structural)]
pub enum BindGroupLayoutKind {
    Texture,
    Camera,
}

/// Building a pipeline without a vertex stage is refused.
#[derive(Clone, Copy, Debug, PartialEq, Eq, Structural)]
pub enum PipelineError {
    MissingVertexStage,
}

/// A complete pipeline description, immutable once built and reused for
/// every frame until the renderer is rebuilt.
#[derive(Clone, Debug)]
pub struct RenderPipeline {
    pub vertex: VertexState,
    pub fragment: Option<FragmentState>,
    pub bind_group_layouts: Vec<BindGroupLayoutKind>,
}

/// Assembles a pipeline step by step: empty, then a vertex stage, then
/// optionally a fragment stage, then built.
#[derive(Clone, Debug)]
pub struct RenderPipelineBuilder {
    pub vertex: Option<VertexState>,
    pub fragment: Option<FragmentState>,
    pub bind_group_layouts: Vec<BindGroupLayoutKind>,
}

impl RenderPipelineBuilder {
    /// What `build` returns: the pipeline with exactly the configured
    /// stages and bind-group layout order, or `MissingVertexStage` when no
    /// vertex stage was supplied.
    pub open spec fn build_spec(self) -> Result<RenderPipeline, PipelineError> {
        match self.vertex {
            Some(v) => Ok(
                RenderPipeline {
                    vertex: v,
                    fragment: self.fragment,
                    bind_group_layouts: self.bind_group_layouts,
                },
            ),
            None => Err(PipelineError::MissingVertexStage),
        }
    }

    /// An empty builder: no stages, no bind-group layouts.
    pub fn new() -> (b: RenderPipelineBuilder)
        ensures
            b.vertex is None,
            b.fragment is None,
            b.bind_group_layouts@ == Seq::<BindGroupLayoutKind>::empty(),
    {
        let b = RenderPipelineBuilder { vertex: None, fragment: None, bind_group_layouts: Vec::new() };
        proof {
            assert(b.bind_group_layouts@ =~= Seq::<BindGroupLayoutKind>::empty());
        }
        b
    }

    /// Supplies the vertex stage.
    pub fn with_vertex(self, vertex: VertexState) -> (b: RenderPipelineBuilder)
        ensures
            b == (RenderPipelineBuilder { vertex: Some(vertex), ..self }),
    {
        RenderPipelineBuilder { vertex: Some(vertex), ..self }
    }

    /// Supplies the optional fragment stage.
    pub fn with_fragment(self, fragment: FragmentState) -> (b: RenderPipelineBuilder)
        ensures
            b == (RenderPipelineBuilder { fragment: Some(fragment), ..self }),
    {
        RenderPipelineBuilder { fragment: Some(fragment), ..self }
    }

    /// Supplies the ordered bind-group layouts. Draw calls must bind their
    /// groups in this same order.
    pub fn with_bind_group_layouts(self, layouts: Vec<BindGroupLayoutKind>) -> (b:
        RenderPipelineBuilder)
        ensures
            b == (RenderPipelineBuilder { bind_group_layouts: layouts, ..self }),
    {
        RenderPipelineBuilder { bind_group_layouts: layouts, ..self }
    }

    /// Terminal step: produces the immutable pipeline, or fails when no
    /// vertex stage was supplied.
    pub fn build(self) -> (r: Result<RenderPipeline, PipelineError>)
        ensures
            r == self.build_spec(),
    {
        match self.vertex {
            Some(v) => Ok(
                RenderPipeline {
                    vertex: v,
                    fragment: self.fragment,
                    bind_group_layouts: self.bind_group_layouts,
                },
            ),
            None => Err(PipelineError::MissingVertexStage),
        }
    }
}

/// Building fails exactly when no vertex stage was supplied, whatever the
/// fragment stage holds: with a vertex stage the build succeeds, with or
/// without a fragment stage, and carries both stages and the bind-group
/// layout order over unchanged.
pub proof fn lemma_build_requires_vertex_stage(b: RenderPipelineBuilder)
    ensures
        b.build_spec() is Ok <==> b.vertex is Some,
        b.vertex is None ==> b.build_spec() == Err::<RenderPipeline, PipelineError>(
            PipelineError::MissingVertexStage,
        ),
        b.vertex matches Some(v) ==> b.build_spec() matches Ok(p) && p.vertex == v && p.fragment
            == b.fragment && p.bind_group_layouts == b.bind_group_layouts,
{
}

} // verus!
