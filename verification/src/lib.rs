//! A frame-rendering engine core: the resource manager and draw-frame state
//! machine of a real-time renderer, stated and verified over a plain-value
//! model of the GPU objects it drives.
//!
//! The library decides; the surrounding application performs. Every GPU
//! object (surface, device, queue, texture, pipeline, buffer) appears here
//! as the plain data the engine's logic reads of it: sizes, formats, table
//! indices, counts and command sequences. The application layer owns the
//! actual handles, feeds acquisition outcomes in, and executes the command
//! traces that [`renderer::Renderer`] emits.

use vstd::prelude::*;

mod adapter;
mod camera;
mod instances;
mod pipeline;
mod queue;
mod renderer;
mod surface;
mod texture_cache;
mod vertex;

pub use adapter::AdapterError;
pub use adapter::confirm_adapter;
pub use instances::Instance;
pub use instances::InstancePosition;
pub use instances::InstanceRotation;
pub use instances::create_instances;
pub use instances::instance_at;
pub use instances::lemma_grid_ten_by_ten;
pub use pipeline::BindGroupLayoutKind;
pub use pipeline::BlendMode;
pub use pipeline::ColorTargetState;
pub use pipeline::ColorWriteMask;
pub use pipeline::FragmentState;
pub use pipeline::PipelineError;
pub use pipeline::RenderPipeline;
pub use pipeline::RenderPipelineBuilder;
pub use pipeline::ShaderModuleId;
pub use pipeline::VertexState;
pub use pipeline::lemma_build_requires_vertex_stage;
pub use queue::LoadedTexture;
pub use queue::QueueError;
pub use queue::TextureWritePlan;
pub use queue::plan_texture_write;
pub use queue::texture_write_ok;
pub use queue::texture_write_plan_of;
pub use renderer::BindGroupRef;
pub use renderer::BuildContext;
pub use renderer::CacheIndex;
pub use renderer::RenderCommand;
pub use renderer::RenderCommandKind;
pub use renderer::Renderer;
pub use renderer::RendererBuilder;
pub use renderer::RendererError;
pub use renderer::VertexBufferSource;
pub use renderer::DEFAULT_TEXTURE_EXPONENT;
pub use renderer::command_kind;
pub use renderer::count_kind;
pub use renderer::lemma_bind_group_order;
pub use renderer::lemma_indexed_draw_shape;
pub use renderer::lemma_no_draw_without_index_buffer;
pub use renderer::lemma_one_submission_one_present;
pub use renderer::lemma_resize_then_redraw_depth;
pub use surface::FrameAcquireError;
pub use surface::FrameAcquireOutcome;
pub use surface::FrameErrorClass;
pub use surface::Surface;
pub use surface::SurfaceConfiguration;
pub use surface::SurfaceError;
pub use surface::negotiated_format;
pub use camera::CameraController;
pub use camera::CameraKey;
pub use texture_cache::COPY_BYTES_PER_ROW_ALIGNMENT;
pub use texture_cache::DEFAULT_MAX_TEXTURE_DIMENSION_2D;
pub use texture_cache::TextureCacheError;
pub use texture_cache::TextureMetadataCache;
pub use texture_cache::TextureMetadataEntry;
pub use texture_cache::aligned_bytes_per_row;
pub use texture_cache::entry_spec;
pub use texture_cache::exp_of;
pub use texture_cache::lemma_get_or_fail_supported_stable;
pub use texture_cache::lemma_get_or_fail_unsupported_fails;
pub use texture_cache::size_supported;
pub use vertex::ColorVertex;
pub use vertex::InstanceRaw;
pub use vertex::ModelVertex;
pub use vertex::TextCoordsVertex;
pub use vertex::VertexAttribute;
pub use vertex::VertexBufferLayout;
pub use vertex::VertexFormat;
pub use vertex::VertexStepMode;
pub use vertex::color_vertex_attrs;
pub use vertex::instance_raw_attrs;
pub use vertex::is_color_vertex_layout;
pub use vertex::is_instance_raw_layout;
pub use vertex::is_model_vertex_layout;
pub use vertex::is_text_coords_vertex_layout;
pub use vertex::model_vertex_attrs;
pub use vertex::packed_size;
pub use vertex::text_coords_vertex_attrs;

verus! {

/// Physical pixel size of the presentation window.
#[derive(Clone, Copy, Debug, PartialEq, Eq, Structural)]
pub struct WindowSize {
    pub width: u32,
    pub height: u32,
}

impl WindowSize {
    pub fn new(width: u32, height: u32) -> (r: WindowSize)
        ensures
            r.width == width,
            r.height == height,
    {
        WindowSize { width, height }
    }
}

/// An RGBA color with 8 bits per channel; the application scales each
/// channel to the unit interval the GPU API expects.
#[derive(Clone, Copy, Debug, PartialEq, Eq, Structural)]
pub struct Color {
    pub r: u8,
    pub g: u8,
    pub b: u8,
    pub a: u8,
}

impl Color {
    /// The default clear color: opaque white.
    pub fn white() -> (c: Color)
        ensures
            c == (Color { r: 255, g: 255, b: 255, a: 255 }),
    {
        Color { r: 255, g: 255, b: 255, a: 255 }
    }
}

/// Texture formats the presentation surface can negotiate.
#[derive(Clone, Copy, Debug, PartialEq, Eq, Structural)]
pub enum TextureFormat {
    Rgba8Unorm,
    Rgba8UnormSrgb,
    Bgra8Unorm,
    Bgra8UnormSrgb,
}

/// Presentation modes of the surface's swap chain.
#[derive(Clone, Copy, Debug, PartialEq, Eq, Structural)]
pub enum PresentMode {
    Immediate,
    Mailbox,
    Fifo,
}

/// Which physical adapter the application should prefer when it requests
/// one.
#[derive(Clone, Copy, Debug, PartialEq, Eq, Structural)]
pub enum PowerPreference {
    LowPower,
    HighPerformance,
}

/// Index formats an index buffer can be bound with. Draws issued by this
/// engine always use [`IndexFormat::Uint16`].
#[derive(Clone, Copy, Debug, PartialEq, Eq, Structural)]
pub enum IndexFormat {
    Uint16,
    Uint32,
}

} // verus!
