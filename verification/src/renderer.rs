//! The renderer: root owner of the engine's state, assembled once by
//! [`RendererBuilder::build`] and driven per frame by [`Renderer::redraw`].
//!
//! The outside work of a frame — acquiring the platform surface, devices
//! and queues, compiling shaders, decoding images, executing GPU commands
//! — is the application's. The renderer decides: `build` turns the
//! builder's configuration and the application's acquisition outcomes
//! into either a fatal construction error or a complete renderer state,
//! and `redraw` turns that state and a frame-acquisition outcome into the
//! exact command sequence of one frame, which the application executes
//! and whose shape the frame laws below pin down.

use vstd::prelude::*;
use vstd::arithmetic::power2::lemma_pow2_strictly_increases;
use vstd::arithmetic::power2::lemma2_to64;
use crate::Color;
use crate::IndexFormat;
use crate::PresentMode;
use crate::TextureFormat;
use crate::WindowSize;
use crate::camera::CameraController;
use crate::camera::CameraKey;
use crate::instances::Instance;
use crate::instances::create_instances;
use crate::instances::instance_at;
use crate::pipeline::BindGroupLayoutKind;
use crate::pipeline::BlendMode;
use crate::pipeline::ColorTargetState;
use crate::pipeline::ColorWriteMask;
use crate::pipeline::FragmentState;
use crate::pipeline::RenderPipeline;
use crate::pipeline::RenderPipelineBuilder;
use crate::pipeline::ShaderModuleId;
use crate::pipeline::VertexState;
use crate::queue::LoadedTexture;
use crate::queue::TextureWritePlan;
use crate::queue::plan_texture_write;
use crate::queue::texture_write_ok;
use crate::queue::texture_write_plan_of;
use crate::PowerPreference;
use crate::surface::FrameAcquireError;
use crate::surface::FrameAcquireOutcome;
use crate::surface::Surface;
use crate::surface::SurfaceConfiguration;
use crate::surface::negotiated_format;
use crate::texture_cache::DEFAULT_MAX_TEXTURE_DIMENSION_2D;
use crate::texture_cache::TextureMetadataCache;
use crate::vertex::InstanceRaw;
use crate::vertex::ModelVertex;
use crate::vertex::is_instance_raw_layout;
use crate::vertex::is_model_vertex_layout;

verus! {

/// A fatal construction failure: no renderer is returned, the assembly
/// aborts entirely.
#[derive(Clone, Copy, Debug, PartialEq, Eq, Structural)]
pub enum RendererError {
    /// No surface or compatible adapter could be obtained, or no surface
    /// format was negotiable.
    SurfaceAdapterRequest,
    /// The logical device request was denied.
    DeviceRequest,
}

/// The cache slot a texture of 256 by 256 pixels occupies: the slot bound
/// when no loaded texture dictates another.
pub const DEFAULT_TEXTURE_EXPONENT: u32 = 8;

/// Coordinates of one slot of the texture metadata table: the base-2
/// logarithms of the slot's width and height.
#[derive(Clone, Copy, Debug, PartialEq, Eq, Structural)]
pub struct CacheIndex {
    pub width_exp: u32,
    pub height_exp: u32,
}

/// The bind group a draw binds at one index.
#[derive(Clone, Copy, Debug, PartialEq, Eq, Structural)]
pub enum BindGroupRef {
    /// The bind group of the texture cached at the given table slot.
    TextureEntry { index: CacheIndex },
    /// The camera's uniform bind group.
    Camera,
}

/// Which of the renderer's buffers a vertex slot reads.
#[derive(Clone, Copy, Debug, PartialEq, Eq, Structural)]
pub enum VertexBufferSource {
    Mesh,
    Instances,
}

/// One step of a frame, in the exact order the application must execute
/// them. The render pass clears its color attachment to the given color
/// and its depth attachment — of the given pixel size — to a depth of
/// one, with no stencil operations.
#[derive(Clone, Copy, Debug, PartialEq, Eq, Structural)]
pub enum RenderCommand {
    /// Schedule the camera uniform upload; the queue applies it at the
    /// next submission.
    WriteCameraBuffer,
    /// Open the one command encoder and begin the one render pass of the
    /// frame.
    BeginRenderPass { clear_color: Color, depth_width: u32, depth_height: u32 },
    /// Bind the renderer's pipeline.
    SetPipeline,
    /// Bind a group at an index; groups must be bound in the pipeline's
    /// bind-group-layout order.
    SetBindGroup { index: u32, group: BindGroupRef },
    /// Bind a buffer to a vertex slot.
    SetVertexBuffer { slot: u32, source: VertexBufferSource },
    /// Bind the index buffer.
    SetIndexBuffer { format: IndexFormat },
    /// Issue the one instanced, indexed draw of the pass.
    DrawIndexed { index_count: u32, instance_count: u32 },
    /// End the pass and submit the one command buffer of this frame.
    Submit,
    /// Present the acquired frame.
    Present,
}

/// The kind of a command, for counting occurrences in a frame.
#[derive(Clone, Copy, Debug, PartialEq, Eq, Structural)]
pub enum RenderCommandKind {
    WriteCameraBuffer,
    BeginRenderPass,
    SetPipeline,
    SetBindGroup,
    SetVertexBuffer,
    SetIndexBuffer,
    DrawIndexed,
    Submit,
    Present,
}

pub open spec fn command_kind(c: RenderCommand) -> RenderCommandKind {
    match c {
        RenderCommand::WriteCameraBuffer => RenderCommandKind::WriteCameraBuffer,
        RenderCommand::BeginRenderPass { .. } => RenderCommandKind::BeginRenderPass,
        RenderCommand::SetPipeline => RenderCommandKind::SetPipeline,
        RenderCommand::SetBindGroup { .. } => RenderCommandKind::SetBindGroup,
        RenderCommand::SetVertexBuffer { .. } => RenderCommandKind::SetVertexBuffer,
        RenderCommand::SetIndexBuffer { .. } => RenderCommandKind::SetIndexBuffer,
        RenderCommand::DrawIndexed { .. } => RenderCommandKind::DrawIndexed,
        RenderCommand::Submit => RenderCommandKind::Submit,
        RenderCommand::Present => RenderCommandKind::Present,
    }
}

/// How many commands of a kind a sequence holds.
pub open spec fn count_kind(s: Seq<RenderCommand>, k: RenderCommandKind) -> nat
    decreases s.len(),
{
    if s.len() == 0 {
        0
    } else {
        count_kind(s.drop_last(), k) + if command_kind(s.last()) == k {
            1nat
        } else {
            0nat
        }
    }
}

/// The outcomes of the outside work `build` depends on, performed by the
/// application in the assembly order: surface and adapter acquisition,
/// format negotiation, device and queue acquisition, shader compilation,
/// texture decoding. The application compiles a shader module exactly
/// when a shader path was configured, and loads a texture exactly when a
/// texture path was configured.
#[derive(Clone, Debug)]
pub struct BuildContext {
    /// An adapter compatible with the window's surface was obtained.
    pub adapter_found: bool,
    /// The texture format the adapter/surface pair negotiated, if any.
    pub detected_format: Option<TextureFormat>,
    /// The device and queue request succeeded.
    pub device_ok: bool,
    /// The module compiled from the configured shader path.
    pub shader_module: Option<ShaderModuleId>,
    /// The image decoded from the configured texture path.
    pub loaded_texture: Option<LoadedTexture>,
}

/// Collects the renderer's configuration, then assembles it in one
/// ordered `build`. Every knob is optional, with its default documented
/// on [`RendererBuilder::new`]. The power preference and the fallback
/// policy steer the application's adapter request; the preferred format
/// and the present mode steer the surface configuration here.
pub struct RendererBuilder {
    pub window_size: WindowSize,
    pub clear_color: Option<Color>,
    pub shader_path: Option<String>,
    pub texture_path: Option<String>,
    pub vertices: Option<Vec<u8>>,
    pub indices: Option<Vec<u16>>,
    pub instances_per_row: u32,
    pub preferred_format: Option<TextureFormat>,
    pub present_mode: PresentMode,
    pub power_preference: PowerPreference,
    pub force_fallback_adapter: bool,
}

/// The root owner of the engine's state: the surface configuration, the
/// camera controller, the texture metadata cache, the pipeline
/// description, the mesh and instance data, and the current window and
/// depth-attachment sizes.
pub struct Renderer {
    pub window_size: WindowSize,
    pub clear_color: Color,
    pub surface: Surface,
    pub camera_controller: CameraController,
    /// How many camera uniform uploads have been scheduled; saturates.
    pub camera_updates: u64,
    pub texture_cache: TextureMetadataCache,
    /// The cache slot whose bind group draws bind at group 0: the slot of
    /// the loaded texture when one was planned, the 256-by-256 slot
    /// otherwise.
    pub texture_entry: CacheIndex,
    /// The pixel size of the depth attachment, rebuilt on every resize.
    pub depth_size: WindowSize,
    pub pipeline: Option<RenderPipeline>,
    /// The texture upload scheduled at build time, if one was planned.
    pub texture_write: Option<TextureWritePlan>,
    /// Raw mesh vertex bytes, laid out per [`ModelVertex::desc`].
    pub vertex_data: Option<Vec<u8>>,
    /// Mesh indices; draws bind them with the fixed 16-bit format.
    pub index_data: Option<Vec<u16>>,
    pub num_indices: u32,
    pub instances: Option<Vec<Instance>>,
    pub num_instances: u32,
}

/// A saturating frame counter step.
pub open spec fn bumped(n: u64) -> u64 {
    if n < u64::MAX {
        (n + 1) as u64
    } else {
        n
    }
}

impl RendererBuilder {
    /// A builder with nothing configured: the defaults are a white clear
    /// color, a fifo present mode, a high-performance power preference
    /// with the fallback adapter disabled, no preferred surface format,
    /// and a grid of ten instances per row.
    pub fn new(window_size: WindowSize) -> (b: RendererBuilder)
        ensures
            b.window_size == window_size,
            b.clear_color is None,
            b.shader_path is None,
            b.texture_path is None,
            b.vertices is None,
            b.indices is None,
            b.instances_per_row == 10,
            b.preferred_format is None,
            b.present_mode == PresentMode::Fifo,
            b.power_preference == PowerPreference::HighPerformance,
            !b.force_fallback_adapter,
    {
        RendererBuilder {
            window_size,
            clear_color: None,
            shader_path: None,
            texture_path: None,
            vertices: None,
            indices: None,
            instances_per_row: 10,
            preferred_format: None,
            present_mode: PresentMode::Fifo,
            power_preference: PowerPreference::HighPerformance,
            force_fallback_adapter: false,
        }
    }

    /// Replaces the window whose surface the renderer will present to,
    /// given as its current physical size.
    pub fn with_window(self, window_size: WindowSize) -> (b: RendererBuilder)
        ensures
            b == (RendererBuilder { window_size, ..self }),
    {
        RendererBuilder { window_size, ..self }
    }

    /// The color the render pass clears its color attachment to.
    pub fn with_clear_color(self, clear_color: Option<Color>) -> (b: RendererBuilder)
        ensures
            b == (RendererBuilder { clear_color, ..self }),
    {
        RendererBuilder { clear_color, ..self }
    }

    /// The path of the shader whose module drives the pipeline; without
    /// one, no pipeline is built and frames only clear.
    pub fn with_shader_path(self, shader_path: Option<String>) -> (b: RendererBuilder)
        ensures
            b == (RendererBuilder { shader_path, ..self }),
    {
        RendererBuilder { shader_path, ..self }
    }

    /// The path of the texture to upload into its cache slot at build
    /// time.
    pub fn with_texture_path(self, texture_path: Option<String>) -> (b: RendererBuilder)
        ensures
            b == (RendererBuilder { texture_path, ..self }),
    {
        RendererBuilder { texture_path, ..self }
    }

    /// The mesh's vertex bytes, laid out per [`ModelVertex::desc`].
    pub fn with_vertices(self, vertices: Option<Vec<u8>>) -> (b: RendererBuilder)
        ensures
            b == (RendererBuilder { vertices, ..self }),
    {
        RendererBuilder { vertices, ..self }
    }

    /// The mesh's indices, drawn with the fixed 16-bit index format.
    pub fn with_indices(self, indices: Option<Vec<u16>>) -> (b: RendererBuilder)
        ensures
            b == (RendererBuilder { indices, ..self }),
    {
        RendererBuilder { indices, ..self }
    }

    /// The edge length of the instance grid.
    pub fn with_instances_per_row(self, instances_per_row: u32) -> (b: RendererBuilder)
        ensures
            b == (RendererBuilder { instances_per_row, ..self }),
    {
        RendererBuilder { instances_per_row, ..self }
    }

    /// Builds the texture metadata cache from the backend's default
    /// maximum texture dimension, so the table's bound is the same on
    /// every device. Entries lay their bytes out for RGBA8 pixels.
    pub fn create_texture_image_metadatas(&self) -> (c: TextureMetadataCache)
        ensures
            c.wf(),
            c.max_exp() == 13,
    {
        let cache = TextureMetadataCache::new(DEFAULT_MAX_TEXTURE_DIMENSION_2D);
        proof {
            lemma2_to64();
            if cache.max_exp() < 13 {
                lemma_pow2_strictly_increases(cache.max_exp(), 13);
            }
            if cache.max_exp() > 13 {
                if cache.max_exp() - 1 > 13 {
                    lemma_pow2_strictly_increases(13, (cache.max_exp() - 1) as nat);
                }
            }
        }
        cache
    }

    /// Ordered assembly. Each step depends on the previous, and any
    /// acquisition failure aborts the whole construction: no partially
    /// built renderer is ever returned. On success the renderer holds
    /// exactly the configured state, with every default documented in the
    /// clauses below.
    pub fn build(self, ctx: BuildContext) -> (r: Result<Renderer, RendererError>)
        requires
            ctx.shader_module is Some <==> self.shader_path is Some,
            ctx.loaded_texture is Some <==> self.texture_path is Some,
            self.instances_per_row <= 0xFFFF,
            self.indices matches Some(ix) ==> ix@.len() <= u32::MAX,
        ensures
            r is Ok <==> ctx.adapter_found && negotiated_format(
                self.preferred_format,
                ctx.detected_format,
            ) is Some && ctx.device_ok,
            !ctx.adapter_found ==> r == Err::<Renderer, RendererError>(
                RendererError::SurfaceAdapterRequest,
            ),
            ctx.adapter_found && negotiated_format(self.preferred_format, ctx.detected_format)
                is None ==> r == Err::<Renderer, RendererError>(
                RendererError::SurfaceAdapterRequest,
            ),
            ctx.adapter_found && negotiated_format(self.preferred_format, ctx.detected_format)
                is Some && !ctx.device_ok ==> r == Err::<Renderer, RendererError>(
                RendererError::DeviceRequest,
            ),
            r matches Ok(ren) ==> ren.window_size == self.window_size && ren.depth_size
                == self.window_size,
            r matches Ok(ren) ==> ren.clear_color == (match self.clear_color {
                Some(c) => c,
                None => Color { r: 255, g: 255, b: 255, a: 255 },
            }),
            r matches Ok(ren) ==> (negotiated_format(self.preferred_format, ctx.detected_format)
                matches Some(f) ==> ren.surface.configuration == (SurfaceConfiguration {
                format: f,
                width: self.window_size.width,
                height: self.window_size.height,
                present_mode: self.present_mode,
            })),
            r matches Ok(ren) ==> ren.camera_updates == 0 && ren.camera_controller.speed_milli
                == 200 && !ren.camera_controller.is_forward_pressed
                && !ren.camera_controller.is_backward_pressed
                && !ren.camera_controller.is_left_pressed
                && !ren.camera_controller.is_right_pressed,
            r matches Ok(ren) ==> ren.texture_cache.wf() && ren.texture_cache.max_exp() == 13,
            r matches Ok(ren) ==> (ren.pipeline is Some <==> self.shader_path is Some),
            r matches Ok(ren) ==> (ren.pipeline matches Some(p) ==> p.vertex.shader
                == ctx.shader_module->0 && p.vertex.buffers@.len() == 2 && is_model_vertex_layout(
                p.vertex.buffers@[0],
            ) && is_instance_raw_layout(p.vertex.buffers@[1])),
            r matches Ok(ren) ==> (ren.pipeline matches Some(p) ==> (p.fragment matches Some(f)
                && f.shader == ctx.shader_module->0 && f.targets@ == seq![
                ColorTargetState {
                    format: negotiated_format(self.preferred_format, ctx.detected_format)->0,
                    blend: Some(BlendMode::Replace),
                    write_mask: ColorWriteMask { red: true, green: true, blue: true, alpha: true },
                },
            ])),
            r matches Ok(ren) ==> (ren.pipeline matches Some(p) ==> p.bind_group_layouts@ == seq![
                BindGroupLayoutKind::Texture,
                BindGroupLayoutKind::Camera,
            ]),
            r matches Ok(ren) ==> ren.texture_write == (match ctx.loaded_texture {
                Some(t) => if texture_write_ok(13, t) {
                    Some(texture_write_plan_of(t))
                } else {
                    None::<TextureWritePlan>
                },
                None => None::<TextureWritePlan>,
            }),
            r matches Ok(ren) ==> ren.texture_entry == (match ctx.loaded_texture {
                Some(t) => if texture_write_ok(13, t) {
                    CacheIndex {
                        width_exp: texture_write_plan_of(t).width_exp,
                        height_exp: texture_write_plan_of(t).height_exp,
                    }
                } else {
                    CacheIndex {
                        width_exp: DEFAULT_TEXTURE_EXPONENT,
                        height_exp: DEFAULT_TEXTURE_EXPONENT,
                    }
                },
                None => CacheIndex {
                    width_exp: DEFAULT_TEXTURE_EXPONENT,
                    height_exp: DEFAULT_TEXTURE_EXPONENT,
                },
            }),
            r matches Ok(ren) ==> ren.vertex_data == self.vertices && ren.index_data
                == self.indices,
            r matches Ok(ren) ==> ren.num_indices == (match self.indices {
                Some(ix) => ix@.len() as u32,
                None => 0u32,
            }),
            r matches Ok(ren) ==> (ren.instances is Some <==> self.vertices is Some),
            r matches Ok(ren) ==> (ren.instances matches Some(ins) ==> ins@.len()
                == self.instances_per_row * self.instances_per_row && (forall|i: int|
                0 <= i < ins@.len() ==> ins@[i] == instance_at(self.instances_per_row, i))),
            r matches Ok(ren) ==> ren.num_instances == (if self.vertices is Some {
                self.instances_per_row * self.instances_per_row
            } else {
                0
            }),
    {
        let window_size = self.window_size;

        // Step 1: surface and adapter, with the negotiated format.
        let surface = match Surface::new(
            ctx.adapter_found,
            self.preferred_format,
            ctx.detected_format,
            window_size,
            self.present_mode,
        ) {
            Ok(s) => s,
            Err(_) => {
                return Err(RendererError::SurfaceAdapterRequest);
            }
        };

        // Step 2: device and queue.
        if !ctx.device_ok {
            return Err(RendererError::DeviceRequest);
        }

        // Steps 3 and 4: the application configures the surface with the
        // device; the camera's uniform and bind group are created from
        // this controller state.
        let camera_controller = CameraController::new(200);

        // Step 5: the texture metadata cache.
        let texture_cache = self.create_texture_image_metadatas();

        // Step 6: the pipeline, from the texture and camera bind-group
        // layouts in that fixed order.
        let renderer_pipeline = match ctx.shader_module {
            Some(shader) => {
                let buffers = vec![ModelVertex::desc(), InstanceRaw::desc()];
                let vertex = VertexState { shader, buffers };
                let targets = vec![
                    ColorTargetState {
                        format: surface.format(),
                        blend: Some(BlendMode::Replace),
                        write_mask: ColorWriteMask::all(),
                    },
                ];
                let fragment = FragmentState { shader, targets };
                let layouts = vec![BindGroupLayoutKind::Texture, BindGroupLayoutKind::Camera];
                match RenderPipelineBuilder::new().with_vertex(vertex).with_fragment(
                    fragment,
                ).with_bind_group_layouts(layouts).build() {
                    Ok(p) => Some(p),
                    Err(_) => vstd::pervasive::unreached(),
                }
            }
            None => None,
        };

        // Step 7: schedule the optional texture upload; a failed plan is
        // recoverable — the write is skipped and the renderer continues.
        let (texture_write, texture_entry) = match &ctx.loaded_texture {
            Some(t) => {
                match plan_texture_write(&texture_cache, t) {
                    Ok(plan) => (
                        Some(plan),
                        CacheIndex { width_exp: plan.width_exp, height_exp: plan.height_exp },
                    ),
                    Err(_) => (
                        None,
                        CacheIndex {
                            width_exp: DEFAULT_TEXTURE_EXPONENT,
                            height_exp: DEFAULT_TEXTURE_EXPONENT,
                        },
                    ),
                }
            }
            None => (
                None,
                CacheIndex {
                    width_exp: DEFAULT_TEXTURE_EXPONENT,
                    height_exp: DEFAULT_TEXTURE_EXPONENT,
                },
            ),
        };

        // Step 8: the mesh buffers.
        let num_indices: u32 = match &self.indices {
            Some(ix) => ix.len() as u32,
            None => 0,
        };

        // Step 9: the instance grid, generated only for a mesh.
        let (instances, num_instances) = if self.vertices.is_some() {
            proof {
                assert(self.instances_per_row * self.instances_per_row <= 0xFFFF * 0xFFFF)
                    by (nonlinear_arith)
                    requires
                        self.instances_per_row <= 0xFFFF,
                ;
            }
            let ins = create_instances(self.instances_per_row);
            let n: u32 = self.instances_per_row * self.instances_per_row;
            (Some(ins), n)
        } else {
            (None, 0u32)
        };

        Ok(
            Renderer {
                window_size,
                clear_color: match self.clear_color {
                    Some(c) => c,
                    None => Color::white(),
                },
                surface,
                camera_controller,
                camera_updates: 0,
                texture_cache,
                texture_entry,
                depth_size: window_size,
                pipeline: renderer_pipeline,
                texture_write,
                vertex_data: self.vertices,
                index_data: self.indices,
                num_indices,
                instances,
                num_instances,
            },
        )
    }
}

impl Renderer {
    /// The commands binding the pipeline and its two bind groups, in the
    /// pipeline's fixed layout order: the texture's group at index 0, the
    /// camera's at index 1.
    pub open spec fn binding_commands(self) -> Seq<RenderCommand> {
        seq![
            RenderCommand::SetPipeline,
            RenderCommand::SetBindGroup {
                index: 0,
                group: BindGroupRef::TextureEntry { index: self.texture_entry },
            },
            RenderCommand::SetBindGroup { index: 1, group: BindGroupRef::Camera },
        ]
    }

    /// The mesh vertex slot, bound only when mesh vertices exist.
    pub open spec fn mesh_slot_commands(self) -> Seq<RenderCommand> {
        if self.vertex_data is Some {
            seq![RenderCommand::SetVertexBuffer { slot: 0, source: VertexBufferSource::Mesh }]
        } else {
            Seq::empty()
        }
    }

    /// The instance slot, bound only when the instance grid exists.
    pub open spec fn instance_slot_commands(self) -> Seq<RenderCommand> {
        if self.instances is Some {
            seq![RenderCommand::SetVertexBuffer { slot: 1, source: VertexBufferSource::Instances }]
        } else {
            Seq::empty()
        }
    }

    /// The index binding and the one draw call — only with an index
    /// buffer. Without one, no draw call is issued: an empty mesh is a
    /// valid no-op render, not an error.
    pub open spec fn draw_commands(self) -> Seq<RenderCommand> {
        if self.index_data is Some {
            seq![
                RenderCommand::SetIndexBuffer { format: IndexFormat::Uint16 },
                RenderCommand::DrawIndexed {
                    index_count: self.num_indices,
                    instance_count: self.num_instances,
                },
            ]
        } else {
            Seq::empty()
        }
    }

    /// Everything inside the render pass: nothing at all without a
    /// pipeline — the pass still clears color and depth.
    pub open spec fn pass_body_commands(self) -> Seq<RenderCommand> {
        if self.pipeline is Some {
            self.binding_commands() + self.mesh_slot_commands() + self.instance_slot_commands()
                + self.draw_commands()
        } else {
            Seq::empty()
        }
    }

    /// The full encoded frame: one render pass clearing to the configured
    /// color with the current depth attachment, the pass body, then
    /// exactly one submission and one present, in that order.
    pub open spec fn frame_commands(self) -> Seq<RenderCommand> {
        seq![
            RenderCommand::BeginRenderPass {
                clear_color: self.clear_color,
                depth_width: self.depth_size.width,
                depth_height: self.depth_size.height,
            },
        ] + self.pass_body_commands() + seq![RenderCommand::Submit, RenderCommand::Present]
    }

    /// The renderer after a resize: the stored window size, the depth
    /// attachment and the surface configuration all carry the new size;
    /// nothing else moves.
    pub open spec fn resized(self, new_size: WindowSize) -> Renderer {
        Renderer {
            window_size: new_size,
            depth_size: new_size,
            surface: Surface {
                configuration: SurfaceConfiguration {
                    width: new_size.width,
                    height: new_size.height,
                    ..self.surface.configuration
                },
            },
            ..self
        }
    }

    /// Getter for the window's physical size.
    pub fn get_size(&self) -> (s: WindowSize)
        ensures
            s == self.window_size,
    {
        self.window_size
    }

    /// Resize the renderer: store the new window size, rebuild the depth
    /// attachment at it, and reconfigure the surface at it — complete
    /// before the next redraw begins.
    pub fn resize(&mut self, new_size: WindowSize)
        ensures
            *final(self) == old(self).resized(new_size),
    {
        self.window_size = new_size;
        self.depth_size = new_size;
        self.refresh_current_size();
    }

    /// Reconfigures the surface at the stored window size.
    pub fn refresh_current_size(&mut self)
        ensures
            *final(self) == (Renderer {
                surface: Surface {
                    configuration: SurfaceConfiguration {
                        width: old(self).window_size.width,
                        height: old(self).window_size.height,
                        ..old(self).surface.configuration
                    },
                },
                ..*old(self)
            }),
    {
        let size = self.window_size;
        self.surface.update(size);
    }

    /// Hands a camera key event to the controller.
    pub fn process_camera_events(&mut self, key: CameraKey, pressed: bool) -> (handled: bool)
        ensures
            *final(self) == (Renderer {
                camera_controller: old(self).camera_controller.with_key(key, pressed),
                ..*old(self)
            }),
            handled,
    {
        self.camera_controller.process_events(key, pressed)
    }

    /// Step 1 of a frame: consume the controller's accumulated input and
    /// schedule the camera uniform upload. The write is deferred to the
    /// next submission, so it is scheduled before the frame is acquired
    /// and survives an acquisition failure.
    pub fn update_camera_uniform(&mut self) -> (c: RenderCommand)
        ensures
            *final(self) == (Renderer { camera_updates: bumped(old(self).camera_updates), ..*old(self) }),
            c == RenderCommand::WriteCameraBuffer,
    {
        if self.camera_updates < u64::MAX {
            self.camera_updates = self.camera_updates + 1;
        }
        RenderCommand::WriteCameraBuffer
    }

    /// Steps 2 through 5 of a frame: with an acquired frame, the exact
    /// command sequence of the pass, the one submission and the one
    /// present; with a failed acquisition, the failure for the caller to
    /// classify.
    pub fn encode_frame(&self, acquire: FrameAcquireOutcome) -> (r: Result<
        Vec<RenderCommand>,
        FrameAcquireError,
    >)
        ensures
            acquire == FrameAcquireOutcome::Available ==> (r matches Ok(cmds) && cmds@
                == self.frame_commands()),
            acquire matches FrameAcquireOutcome::Failed(e) ==> r == Err::<
                Vec<RenderCommand>,
                FrameAcquireError,
            >(e),
    {
        let e = match acquire {
            FrameAcquireOutcome::Available => {
                let mut cmds: Vec<RenderCommand> = Vec::new();
                cmds.push(
                    RenderCommand::BeginRenderPass {
                        clear_color: self.clear_color,
                        depth_width: self.depth_size.width,
                        depth_height: self.depth_size.height,
                    },
                );
                if self.pipeline.is_some() {
                    cmds.push(RenderCommand::SetPipeline);
                    cmds.push(
                        RenderCommand::SetBindGroup {
                            index: 0,
                            group: BindGroupRef::TextureEntry { index: self.texture_entry },
                        },
                    );
                    cmds.push(RenderCommand::SetBindGroup { index: 1, group: BindGroupRef::Camera });
                    if self.vertex_data.is_some() {
                        cmds.push(
                            RenderCommand::SetVertexBuffer {
                                slot: 0,
                                source: VertexBufferSource::Mesh,
                            },
                        );
                    }
                    if self.instances.is_some() {
                        cmds.push(
                            RenderCommand::SetVertexBuffer {
                                slot: 1,
                                source: VertexBufferSource::Instances,
                            },
                        );
                    }
                    if self.index_data.is_some() {
                        cmds.push(RenderCommand::SetIndexBuffer { format: IndexFormat::Uint16 });
                        cmds.push(
                            RenderCommand::DrawIndexed {
                                index_count: self.num_indices,
                                instance_count: self.num_instances,
                            },
                        );
                    }
                }
                cmds.push(RenderCommand::Submit);
                cmds.push(RenderCommand::Present);
                proof {
                    assert(cmds@ =~= self.frame_commands());
                }
                return Ok(cmds);
            }
            FrameAcquireOutcome::Failed(e) => e,
        };
        Err(e)
    }

    /// One full frame: schedule the camera upload, then encode, submit
    /// and present. On an acquisition failure the camera upload stays
    /// scheduled — the returned error is the caller's to classify, and
    /// the renderer's state is otherwise untouched.
    pub fn redraw(&mut self, acquire: FrameAcquireOutcome) -> (r: Result<
        Vec<RenderCommand>,
        FrameAcquireError,
    >)
        ensures
            *final(self) == (Renderer { camera_updates: bumped(old(self).camera_updates), ..*old(self) }),
            acquire == FrameAcquireOutcome::Available ==> (r matches Ok(cmds) && cmds@ == seq![
                RenderCommand::WriteCameraBuffer,
            ] + old(self).frame_commands()),
            acquire matches FrameAcquireOutcome::Failed(e) ==> r == Err::<
                Vec<RenderCommand>,
                FrameAcquireError,
            >(e),
    {
        let camera_write = self.update_camera_uniform();
        match self.encode_frame(acquire) {
            Ok(mut rest) => {
                let mut cmds: Vec<RenderCommand> = Vec::new();
                cmds.push(camera_write);
                cmds.append(&mut rest);
                proof {
                    assert(cmds@ =~= seq![RenderCommand::WriteCameraBuffer]
                        + old(self).frame_commands());
                }
                Ok(cmds)
            }
            Err(e) => Err(e),
        }
    }
}

/// Counting distributes over concatenation.
proof fn lemma_count_kind_add(a: Seq<RenderCommand>, b: Seq<RenderCommand>, k: RenderCommandKind)
    ensures
        count_kind(a + b, k) == count_kind(a, k) + count_kind(b, k),
    decreases b.len(),
{
    if b.len() == 0 {
        assert(a + b =~= a);
    } else {
        lemma_count_kind_add(a, b.drop_last(), k);
        assert((a + b).drop_last() =~= a + b.drop_last());
    }
}

/// A sequence without any command of a kind counts none of it.
proof fn lemma_count_kind_zero(s: Seq<RenderCommand>, k: RenderCommandKind)
    requires
        forall|i: int| 0 <= i < s.len() ==> command_kind(#[trigger] s[i]) != k,
    ensures
        count_kind(s, k) == 0,
    decreases s.len(),
{
    if s.len() > 0 {
        lemma_count_kind_zero(s.drop_last(), k);
    }
}

/// Every piece of a frame counts its submissions, presents, render
/// passes and draws exactly.
proof fn lemma_frame_piece_counts(r: Renderer, k: RenderCommandKind)
    requires
        k == RenderCommandKind::Submit || k == RenderCommandKind::Present || k
            == RenderCommandKind::BeginRenderPass || k == RenderCommandKind::DrawIndexed,
    ensures
        count_kind(r.pass_body_commands(), k) == (
        if k == RenderCommandKind::DrawIndexed && r.pipeline is Some && r.index_data is Some {
            1nat
        } else {
            0nat
        }),
{
    let body = r.pass_body_commands();
    if r.pipeline is Some {
        lemma_count_kind_add(
            r.binding_commands() + r.mesh_slot_commands() + r.instance_slot_commands(),
            r.draw_commands(),
            k,
        );
        lemma_count_kind_add(r.binding_commands() + r.mesh_slot_commands(),
            r.instance_slot_commands(), k);
        lemma_count_kind_add(r.binding_commands(), r.mesh_slot_commands(), k);
        lemma_count_kind_zero(r.binding_commands(), k);
        lemma_count_kind_zero(r.mesh_slot_commands(), k);
        lemma_count_kind_zero(r.instance_slot_commands(), k);
        if r.index_data is Some {
            if k == RenderCommandKind::DrawIndexed {
                assert(count_kind(r.draw_commands(), k) == 1) by {
                    reveal_with_fuel(count_kind, 3);
                }
            } else {
                lemma_count_kind_zero(r.draw_commands(), k);
            }
        } else {
            lemma_count_kind_zero(r.draw_commands(), k);
        }
    } else {
        lemma_count_kind_zero(body, k);
    }
}

/// The counts of one whole frame trace.
proof fn lemma_frame_counts(r: Renderer, k: RenderCommandKind)
    requires
        k == RenderCommandKind::Submit || k == RenderCommandKind::Present || k
            == RenderCommandKind::BeginRenderPass || k == RenderCommandKind::DrawIndexed,
    ensures
        count_kind(r.frame_commands(), k) == (if k == RenderCommandKind::DrawIndexed {
            if r.pipeline is Some && r.index_data is Some {
                1nat
            } else {
                0nat
            }
        } else {
            1nat
        }),
{
    let begin = seq![
        RenderCommand::BeginRenderPass {
            clear_color: r.clear_color,
            depth_width: r.depth_size.width,
            depth_height: r.depth_size.height,
        },
    ];
    let tail = seq![RenderCommand::Submit, RenderCommand::Present];
    lemma_count_kind_add(begin + r.pass_body_commands(), tail, k);
    lemma_count_kind_add(begin, r.pass_body_commands(), k);
    lemma_frame_piece_counts(r, k);
    assert(count_kind(begin, k) == (if k == RenderCommandKind::BeginRenderPass {
        1nat
    } else {
        0nat
    })) by {
        reveal_with_fuel(count_kind, 2);
    }
    assert(count_kind(tail, k) == (if k == RenderCommandKind::Submit || k
        == RenderCommandKind::Present {
        1nat
    } else {
        0nat
    })) by {
        reveal_with_fuel(count_kind, 3);
    }
}

/// Every frame submits exactly one command buffer and presents exactly
/// one frame, opens exactly one render pass, and presents only after the
/// submission: the last two commands of every trace are the submit, then
/// the present.
pub proof fn lemma_one_submission_one_present(r: Renderer)
    ensures
        count_kind(r.frame_commands(), RenderCommandKind::Submit) == 1,
        count_kind(r.frame_commands(), RenderCommandKind::Present) == 1,
        count_kind(r.frame_commands(), RenderCommandKind::BeginRenderPass) == 1,
        r.frame_commands().len() >= 3,
        r.frame_commands()[r.frame_commands().len() - 2] == RenderCommand::Submit,
        r.frame_commands()[r.frame_commands().len() - 1] == RenderCommand::Present,
        r.frame_commands()[0] == (RenderCommand::BeginRenderPass {
            clear_color: r.clear_color,
            depth_width: r.depth_size.width,
            depth_height: r.depth_size.height,
        }),
{
    lemma_frame_counts(r, RenderCommandKind::Submit);
    lemma_frame_counts(r, RenderCommandKind::Present);
    lemma_frame_counts(r, RenderCommandKind::BeginRenderPass);
}

/// Without an index buffer a frame issues no draw call at all, while the
/// clear-and-depth pass, the one submission and the one present still
/// happen — an empty mesh renders as a clear, it does not fail.
pub proof fn lemma_no_draw_without_index_buffer(r: Renderer)
    requires
        r.index_data is None,
    ensures
        count_kind(r.frame_commands(), RenderCommandKind::DrawIndexed) == 0,
        count_kind(r.frame_commands(), RenderCommandKind::Submit) == 1,
        count_kind(r.frame_commands(), RenderCommandKind::Present) == 1,
        count_kind(r.frame_commands(), RenderCommandKind::BeginRenderPass) == 1,
{
    lemma_frame_counts(r, RenderCommandKind::DrawIndexed);
    lemma_one_submission_one_present(r);
}

/// Binding order is the pipeline's bind-group-layout order: immediately
/// after the pipeline is set, group 0 is the texture entry's bind group
/// and group 1 is the camera's.
pub proof fn lemma_bind_group_order(r: Renderer)
    requires
        r.pipeline is Some,
    ensures
        r.frame_commands()[1] == RenderCommand::SetPipeline,
        r.frame_commands()[2] == (RenderCommand::SetBindGroup {
            index: 0,
            group: BindGroupRef::TextureEntry { index: r.texture_entry },
        }),
        r.frame_commands()[3] == (RenderCommand::SetBindGroup {
            index: 1,
            group: BindGroupRef::Camera,
        }),
{
}

/// With a pipeline and an index buffer, the pass's one draw immediately
/// follows the 16-bit index binding, draws exactly the renderer's index
/// count across its instance count, and nothing stands between the draw
/// and the closing submission and presentation.
pub proof fn lemma_indexed_draw_shape(r: Renderer)
    requires
        r.pipeline is Some,
        r.index_data is Some,
    ensures
        r.frame_commands().len() >= 5,
        r.frame_commands()[r.frame_commands().len() - 4] == (RenderCommand::SetIndexBuffer {
            format: IndexFormat::Uint16,
        }),
        r.frame_commands()[r.frame_commands().len() - 3] == (RenderCommand::DrawIndexed {
            index_count: r.num_indices,
            instance_count: r.num_instances,
        }),
        count_kind(r.frame_commands(), RenderCommandKind::DrawIndexed) == 1,
{
    lemma_frame_counts(r, RenderCommandKind::DrawIndexed);
}

/// Resizing, then redrawing: the depth attachment of the next frame's
/// render pass matches the new size exactly, and the frame still submits
/// and presents exactly once. Together with `resize`'s own contract this
/// pins the whole resize-then-redraw path; none of it can panic, both
/// functions being total.
pub proof fn lemma_resize_then_redraw_depth(r: Renderer, new_size: WindowSize)
    ensures
        r.resized(new_size).frame_commands()[0] == (RenderCommand::BeginRenderPass {
            clear_color: r.clear_color,
            depth_width: new_size.width,
            depth_height: new_size.height,
        }),
        count_kind(r.resized(new_size).frame_commands(), RenderCommandKind::BeginRenderPass) == 1,
        count_kind(r.resized(new_size).frame_commands(), RenderCommandKind::Submit) == 1,
        count_kind(r.resized(new_size).frame_commands(), RenderCommandKind::Present) == 1,
{
    lemma_one_submission_one_present(r.resized(new_size));
}

} // verus!
