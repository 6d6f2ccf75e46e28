//! The state of the backend as plain mathematics: what every operation
//! does to the tables and to the rendering state, which native calls it asks
//! for, and what follows from that for every backend.

use crate::gfx::color::Color;
use crate::gfx::commands::Commands;
use crate::gfx::device::ResourceId;
use crate::gfx::dpi::{lemma_unit_scale, DpiScale};
use crate::gfx::error::GfxError;
use crate::gfx::limits::Limits;
use crate::gfx::pipeline::{DrawPrimitive, PipelineOptions};
use crate::gfx::texture::{TextureFormat, TextureLayout, TextureRead, TextureUpdate};
use crate::gfx_backend::buffer::{target_of, InnerBuffer, Kind};
use crate::gfx_backend::gl;
use crate::gfx_backend::gl::{GlCall, GlQuery, GlReply};
use crate::gfx_backend::pipeline::{
    bind_calls, clean_calls, pipeline_step, InnerPipeline, PipelineSetup, PipelineStep,
};
use crate::gfx_backend::render_target::{
    color_attachment_calls, fbo_step, FboSetup, FboStep, InnerRenderTexture,
};
use crate::gfx_backend::texture::{
    slot_is_supported, spec_texture_format, texture_bind_calls, texture_calls, InnerTexture,
};
use crate::gfx_backend::to_gl::ToGl;
use crate::gfx_backend::{ReadSetup, Step, Task};
use vstd::prelude::*;

verus! {

/// The buffers a clear touches, as the native bit mask.
pub open spec fn clear_mask(color: bool, depth: bool, stencil: bool) -> u32 {
    ((if color {
        gl::COLOR_BUFFER_BIT as int
    } else {
        0
    }) + (if depth {
        gl::DEPTH_BUFFER_BIT as int
    } else {
        0
    }) + (if stencil {
        gl::STENCIL_BUFFER_BIT as int
    } else {
        0
    })) as u32
}

/// The calls of a clear. Each buffer that is named gets its clear value
/// set; depth and stencil are also made writable, or the clear would not
/// reach them. One clear call then covers all that was named; where nothing
/// was, nothing is cleared.
pub open spec fn clear_calls(color: Option<Color>, depth: Option<u32>, stencil: Option<i32>) -> Seq<
    GlCall,
> {
    (match color {
        Some(color) => seq![GlCall::ClearColor { r: color.r, g: color.g, b: color.b, a: color.a }],
        None => Seq::<GlCall>::empty(),
    }) + (match depth {
        Some(depth) => seq![
            GlCall::Enable { cap: gl::DEPTH_TEST },
            GlCall::DepthMask { flag: true },
            GlCall::ClearDepthf { depth },
        ],
        None => Seq::<GlCall>::empty(),
    }) + (match stencil {
        Some(stencil) => seq![
            GlCall::Enable { cap: gl::STENCIL_TEST },
            GlCall::StencilMask { mask: 0xff },
            GlCall::ClearStencil { stencil },
        ],
        None => Seq::<GlCall>::empty(),
    }) + (if color is Some || depth is Some || stencil is Some {
        seq![GlCall::Clear { mask: clear_mask(color is Some, depth is Some, stencil is Some) }]
    } else {
        Seq::<GlCall>::empty()
    })
}

/// The viewport call for a rectangle in logical pixels: every coordinate is
/// scaled by the DPI.
pub open spec fn viewport_call(x: i32, y: i32, width: i32, height: i32, dpi: DpiScale) -> GlCall {
    GlCall::Viewport {
        x: dpi.scaled(x as int) as i32,
        y: dpi.scaled(y as int) as i32,
        width: dpi.scaled(width as int) as i32,
        height: dpi.scaled(height as int) as i32,
    }
}

/// The calls that restrict drawing to a rectangle in logical pixels on a
/// surface `surface_height` logical pixels high. The caller counts `y` down
/// from the top; the native API counts up from the bottom, so the native
/// `y` is what lies below the rectangle: `surface_height - (height + y)`.
/// Every coordinate is scaled by the DPI.
pub open spec fn scissor_calls(
    surface_height: i32,
    x: i32,
    y: i32,
    width: i32,
    height: i32,
    dpi: DpiScale,
) -> Seq<GlCall> {
    seq![
        GlCall::Enable { cap: gl::SCISSOR_TEST },
        GlCall::Scissor {
            x: dpi.scaled(x as int) as i32,
            y: dpi.scaled(surface_height - (height + y)) as i32,
            width: dpi.scaled(width as int) as i32,
            height: dpi.scaled(height as int) as i32,
        },
    ]
}

/// The calls that end a pass: scissoring off, every buffer target, the
/// vertex array and the framebuffer back to none.
pub open spec fn end_calls() -> Seq<GlCall> {
    seq![
        GlCall::Disable { cap: gl::SCISSOR_TEST },
        GlCall::BindBuffer { target: gl::ARRAY_BUFFER, buffer: 0 },
        GlCall::BindBuffer { target: gl::ELEMENT_ARRAY_BUFFER, buffer: 0 },
        GlCall::BindBuffer { target: gl::UNIFORM_BUFFER, buffer: 0 },
        GlCall::BindVertexArray { array: 0 },
        GlCall::BindFramebuffer { target: gl::FRAMEBUFFER, framebuffer: 0 },
    ]
}

/// The draw call for `count` vertices from `offset`: through the bound
/// index buffer, whose indices are four bytes each, where one is in use,
/// straight from the vertex buffers otherwise.
pub open spec fn draw_call(using_indices: bool, primitive: DrawPrimitive, offset: i32, count: i32) -> GlCall {
    if using_indices {
        GlCall::DrawElements {
            mode: primitive.gl_value(),
            count,
            index_type: gl::UNSIGNED_INT,
            offset: (offset * 4) as i64,
        }
    } else {
        GlCall::DrawArrays { mode: primitive.gl_value(), first: offset, count }
    }
}

/// The draw call for `length` instances of `count` vertices from `offset`:
/// the draw call of [`draw_call`] with an instance count and nothing else
/// changed.
pub open spec fn draw_instanced_call(
    using_indices: bool,
    primitive: DrawPrimitive,
    offset: i32,
    count: i32,
    length: i32,
) -> GlCall {
    if using_indices {
        GlCall::DrawElementsInstanced {
            mode: primitive.gl_value(),
            count,
            index_type: gl::UNSIGNED_INT,
            offset: (offset * 4) as i64,
            instances: length,
        }
    } else {
        GlCall::DrawArraysInstanced {
            mode: primitive.gl_value(),
            first: offset,
            count,
            instances: length,
        }
    }
}

/// The state of a backend as plain mathematics.
pub struct BackendView {
    pub buffer_count: u64,
    pub texture_count: u64,
    pub pipeline_count: u64,
    pub render_target_count: u64,
    pub size: (i32, i32),
    pub dpi: DpiScale,
    pub pipelines: Map<u64, InnerPipeline>,
    pub buffers: Map<u64, InnerBuffer>,
    pub textures: Map<u64, InnerTexture>,
    pub render_targets: Map<u64, InnerRenderTexture>,
    pub using_indices: bool,
    pub current_pipeline: u64,
    pub limits: Limits,
    pub current_uniforms: Seq<u32>,
}

impl BackendView {
    /// No id beyond the last one handed out names anything: the next id of
    /// each kind is fresh.
    pub open spec fn wf(self) -> bool {
        &&& forall|id: u64| #[trigger] self.pipelines.contains_key(id) ==> id <= self.pipeline_count
        &&& forall|id: u64| #[trigger] self.buffers.contains_key(id) ==> id <= self.buffer_count
        &&& forall|id: u64| #[trigger] self.textures.contains_key(id) ==> id <= self.texture_count
        &&& forall|id: u64| #[trigger]
            self.render_targets.contains_key(id) ==> id <= self.render_target_count
    }

    /// The render target a pass over `target` draws into, if there is one.
    pub open spec fn target_of(self, target: Option<u64>) -> Option<InnerRenderTexture> {
        match target {
            Some(id) => if self.render_targets.contains_key(id) {
                Some(self.render_targets[id])
            } else {
                None
            },
            None => None,
        }
    }

    /// The calls that start a pass. A render target is bound and covered
    /// whole at a scale of one, its pixels being native ones; without one
    /// the default framebuffer is bound and covered at the DPI of the
    /// surface. Then what was named is cleared.
    pub open spec fn begin_calls(
        self,
        target: Option<u64>,
        color: Option<Color>,
        depth: Option<u32>,
        stencil: Option<i32>,
    ) -> Seq<GlCall> {
        (match self.target_of(target) {
            Some(rt) => seq![
                GlCall::BindFramebuffer { target: gl::FRAMEBUFFER, framebuffer: rt.fbo },
                viewport_call(0, 0, rt.size.0, rt.size.1, DpiScale::spec_one()),
            ],
            None => seq![
                GlCall::BindFramebuffer { target: gl::FRAMEBUFFER, framebuffer: 0 },
                viewport_call(0, 0, self.size.0, self.size.1, self.dpi),
            ],
        }) + clear_calls(color, depth, stencil)
    }
}

/// The calls that take the temporary framebuffer of a read-back down again.
pub open spec fn teardown_calls(fbo: u32) -> Seq<GlCall> {
    seq![
        GlCall::BindFramebuffer { target: gl::FRAMEBUFFER, framebuffer: 0 },
        GlCall::DeleteFramebuffer { framebuffer: fbo },
    ]
}

/// The call that reads the rectangle of `opts` from the bound framebuffer
/// into the bytes of the caller.
pub open spec fn read_call(opts: TextureRead) -> GlCall {
    GlCall::ReadPixels {
        x: opts.x_offset,
        y: opts.y_offset,
        width: opts.width,
        height: opts.height,
        format: spec_texture_format(opts.format),
        data_type: gl::UNSIGNED_BYTE,
    }
}

/// What one step of a read-back asks for and yields, given the native reply
/// to the query of the step before.
///
/// The temporary framebuffer is bound over the texture and checked. A
/// complete one is read from; an incomplete one ends the read-back with
/// `FramebufferIncomplete`. Either way the framebuffer is taken down before
/// the read-back ends. A reply of the wrong kind ends it with
/// `UnexpectedReply`.
pub open spec fn read_step(setup: ReadSetup, reply: GlReply) -> (Seq<GlCall>, Step) {
    match (setup, reply) {
        (ReadSetup::Framebuffer { texture, opts }, GlReply::Name(fbo)) => (
            color_attachment_calls(fbo, texture),
            Step::Ask {
                query: GlQuery::FramebufferStatus { target: gl::FRAMEBUFFER },
                task: Task::ReadPixels { setup: ReadSetup::Status { fbo, opts } },
            },
        ),
        (ReadSetup::Status { fbo, opts }, GlReply::Status(status)) => {
            if status == gl::FRAMEBUFFER_COMPLETE {
                (seq![read_call(opts)] + teardown_calls(fbo), Step::Finished(Ok(())))
            } else {
                (teardown_calls(fbo), Step::Finished(Err(GfxError::FramebufferIncomplete)))
            }
        },
        _ => (Seq::empty(), Step::Finished(Err(GfxError::UnexpectedReply))),
    }
}

/// The calls that overwrite the rectangle of `opts` in the texture named
/// `texture`.
pub open spec fn update_calls(texture: u32, opts: TextureUpdate) -> Seq<GlCall> {
    seq![
        GlCall::BindTexture { target: gl::TEXTURE_2D, texture },
        GlCall::TexSubImage2D {
            target: gl::TEXTURE_2D,
            level: 0,
            x_offset: opts.x_offset,
            y_offset: opts.y_offset,
            width: opts.width,
            height: opts.height,
            format: spec_texture_format(opts.format),
            data_type: gl::UNSIGNED_BYTE,
        },
    ]
}

/// The record of a buffer that was just generated under the name `name`.
pub open spec fn fresh_buffer(name: u32, kind: Kind) -> InnerBuffer {
    InnerBuffer {
        buffer: name,
        block_binded: false,
        gpu_buff_size: 0,
        draw_usage: gl::DYNAMIC_DRAW,
        draw_target: target_of(kind),
        kind,
        last_pipeline: None,
    }
}

/// The record of a texture that was just set up under the name `name`.
pub open spec fn fresh_texture(name: u32, layout: TextureLayout) -> InnerTexture {
    InnerTexture {
        texture: name,
        size: (layout.width, layout.height),
        is_srgba: layout.format == TextureFormat::SRgba8,
    }
}

impl BackendView {
    /// Making pipeline `id` current: it is bound with `options`, and the
    /// uniform locations of the pipeline become the current ones. Whether
    /// draws are indexed is not touched. An id that names no pipeline
    /// changes nothing.
    pub open spec fn set_pipeline(self, id: u64, options: PipelineOptions) -> (BackendView, Seq<GlCall>) {
        if self.pipelines.contains_key(id) {
            let pip = self.pipelines[id];
            (
                BackendView {
                    current_pipeline: id,
                    current_uniforms: pip.uniform_locations@,
                    ..self
                },
                bind_calls(pip.vao, pip.program, options),
            )
        } else {
            (self, Seq::empty())
        }
    }

    /// Whether binding `buffer` has the block of a uniform buffer bound in
    /// the program of the current pipeline first: once per buffer, and only
    /// while a pipeline is current.
    pub open spec fn binds_block(self, buffer: InnerBuffer) -> bool {
        &&& buffer.kind is Uniform
        &&& !buffer.block_binded
        &&& self.pipelines.contains_key(self.current_pipeline)
    }

    /// Binding buffer `id` under the current pipeline. An index buffer
    /// switches indexed drawing on. An id that names no buffer changes
    /// nothing.
    pub open spec fn bind_buffer(self, id: u64) -> (BackendView, Seq<GlCall>) {
        if self.buffers.contains_key(id) {
            let buffer = self.buffers[id];
            let with_block = if self.binds_block(buffer) {
                InnerBuffer { block_binded: true, ..buffer }
            } else {
                buffer
            };
            let block_calls = if self.binds_block(buffer) {
                buffer.block_calls(self.pipelines[self.current_pipeline].program)
            } else {
                Seq::<GlCall>::empty()
            };
            (
                BackendView {
                    using_indices: self.using_indices || buffer.kind is Index,
                    buffers: self.buffers.insert(
                        id,
                        with_block.bound(Some(self.current_pipeline)),
                    ),
                    ..self
                },
                block_calls + with_block.bind_calls(Some(self.current_pipeline)),
            )
        } else {
            (self, Seq::empty())
        }
    }

    /// The calls that bind texture `id` to unit `slot` for the `location`-th
    /// uniform of the current pipeline. Where the texture, the uniform or
    /// the unit does not exist, the command is skipped.
    pub open spec fn bind_texture_calls(self, id: u64, slot: u32, location: u32) -> Seq<GlCall> {
        if self.textures.contains_key(id) && location < self.current_uniforms.len()
            && slot_is_supported(slot) {
            texture_bind_calls(
                self.textures[id].texture,
                slot,
                self.current_uniforms[location as int],
            )
        } else {
            Seq::empty()
        }
    }

    /// Uploading `size` bytes to buffer `id`: the buffer is bound, outside
    /// any pipeline, and filled. An id that names no buffer asks for
    /// nothing.
    pub open spec fn buffer_data_calls(self, id: u64, size: usize) -> Seq<GlCall> {
        if self.buffers.contains_key(id) {
            self.buffers[id].bind_calls(None).push(self.buffers[id].update_call(size))
        } else {
            Seq::empty()
        }
    }

    /// Deleting one resource: it leaves its table and its native objects
    /// are freed. An id that names nothing changes nothing.
    pub open spec fn clean_one(self, resource: ResourceId) -> (BackendView, Seq<GlCall>) {
        match resource {
            ResourceId::Pipeline(id) => if self.pipelines.contains_key(id) {
                let pip = self.pipelines[id];
                (
                    BackendView { pipelines: self.pipelines.remove(id), ..self },
                    clean_calls(pip.vertex, pip.fragment, pip.program, pip.vao),
                )
            } else {
                (self, Seq::empty())
            },
            ResourceId::Buffer(id) => if self.buffers.contains_key(id) {
                (
                    BackendView { buffers: self.buffers.remove(id), ..self },
                    seq![GlCall::DeleteBuffer { buffer: self.buffers[id].buffer }],
                )
            } else {
                (self, Seq::empty())
            },
            ResourceId::Texture(id) => if self.textures.contains_key(id) {
                (
                    BackendView { textures: self.textures.remove(id), ..self },
                    seq![GlCall::DeleteTexture { texture: self.textures[id].texture }],
                )
            } else {
                (self, Seq::empty())
            },
            ResourceId::RenderTexture(id) => if self.render_targets.contains_key(id) {
                (
                    BackendView { render_targets: self.render_targets.remove(id), ..self },
                    self.render_targets[id].clean_calls(),
                )
            } else {
                (self, Seq::empty())
            },
        }
    }

    /// Deleting the first `n` resources of a batch, in order.
    pub open spec fn clean(self, batch: Seq<ResourceId>, n: int) -> (BackendView, Seq<GlCall>)
        decreases n,
    {
        if n <= 0 {
            (self, Seq::empty())
        } else {
            let before = self.clean(batch, n - 1);
            let last = before.0.clean_one(batch[n - 1]);
            (last.0, before.1 + last.1)
        }
    }

    /// Executing one command of a pass over `target`.
    pub open spec fn exec(self, command: Commands, target: Option<u64>) -> (BackendView, Seq<GlCall>) {
        match command {
            Commands::Begin { color, depth, stencil } => (
                self,
                self.begin_calls(target, color, depth, stencil),
            ),
            Commands::End => (BackendView { using_indices: false, ..self }, end_calls()),
            Commands::Pipeline { id, options } => self.set_pipeline(id, options),
            Commands::BindBuffer { id } => self.bind_buffer(id),
            Commands::Draw { primitive, offset, count } => (
                self,
                seq![draw_call(self.using_indices, primitive, offset, count)],
            ),
            Commands::DrawInstanced { primitive, offset, count, length } => (
                self,
                seq![draw_instanced_call(self.using_indices, primitive, offset, count, length)],
            ),
            Commands::BindTexture { id, slot, location } => (
                self,
                self.bind_texture_calls(id, slot, location),
            ),
            Commands::Size { width, height } => (
                BackendView { size: (width, height), ..self },
                Seq::empty(),
            ),
            Commands::Viewport { x, y, width, height } => (
                self,
                seq![viewport_call(x, y, width, height, self.dpi)],
            ),
            Commands::Scissors { x, y, width, height } => (
                self,
                scissor_calls(self.size.1, x, y, width, height, self.dpi),
            ),
        }
    }

    /// Executing the first `n` commands of a list, strictly in recorded
    /// order: each command meets the state the one before it left.
    pub open spec fn run(self, commands: Seq<Commands>, target: Option<u64>, n: int) -> (
        BackendView,
        Seq<GlCall>,
    )
        decreases n,
    {
        if n <= 0 {
            (self, Seq::empty())
        } else {
            let before = self.run(commands, target, n - 1);
            let last = before.0.exec(commands[n - 1], target);
            (last.0, before.1 + last.1)
        }
    }

    /// Taking a generated buffer into the table: it is bound under the
    /// current pipeline and gets the next id. With every id handed out, the
    /// buffer is deleted again.
    pub open spec fn register_buffer(self, kind: Kind, name: u32) -> (
        BackendView,
        Seq<GlCall>,
        Result<u64, GfxError>,
    ) {
        if self.buffer_count == u64::MAX {
            (self, seq![GlCall::DeleteBuffer { buffer: name }], Err(GfxError::IdsExhausted))
        } else {
            let id = (self.buffer_count + 1) as u64;
            let buffer = fresh_buffer(name, kind);
            (
                BackendView {
                    buffer_count: id,
                    buffers: self.buffers.insert(id, buffer.bound(Some(self.current_pipeline))),
                    ..self
                },
                buffer.bind_calls(Some(self.current_pipeline)),
                Ok(id),
            )
        }
    }

    /// Taking a generated texture into the table: it is set up for
    /// `layout` and gets the next id. With every id handed out, the texture
    /// is deleted again.
    pub open spec fn register_texture(self, layout: TextureLayout, name: u32) -> (
        BackendView,
        Seq<GlCall>,
        Result<u64, GfxError>,
    ) {
        if self.texture_count == u64::MAX {
            (self, seq![GlCall::DeleteTexture { texture: name }], Err(GfxError::IdsExhausted))
        } else {
            let id = (self.texture_count + 1) as u64;
            (
                BackendView {
                    texture_count: id,
                    textures: self.textures.insert(id, fresh_texture(name, layout)),
                    ..self
                },
                texture_calls(name, layout),
                Ok(id),
            )
        }
    }

    /// Taking a finished framebuffer into the table under the next id. With
    /// every id handed out, its native objects are freed again.
    pub open spec fn register_target(self, target: InnerRenderTexture) -> (
        BackendView,
        Seq<GlCall>,
        Result<u64, GfxError>,
    ) {
        if self.render_target_count == u64::MAX {
            (self, target.clean_calls(), Err(GfxError::IdsExhausted))
        } else {
            let id = (self.render_target_count + 1) as u64;
            (
                BackendView {
                    render_target_count: id,
                    render_targets: self.render_targets.insert(id, target),
                    ..self
                },
                Seq::empty(),
                Ok(id),
            )
        }
    }

    /// Taking a finished pipeline into the table under the next id and
    /// making it current. With every id handed out, its native objects are
    /// freed again.
    pub open spec fn register_pipeline(self, pipeline: InnerPipeline, options: PipelineOptions) -> (
        BackendView,
        Seq<GlCall>,
        Result<u64, GfxError>,
    ) {
        if self.pipeline_count == u64::MAX {
            (
                self,
                clean_calls(pipeline.vertex, pipeline.fragment, pipeline.program, pipeline.vao),
                Err(GfxError::IdsExhausted),
            )
        } else {
            let id = (self.pipeline_count + 1) as u64;
            (
                BackendView {
                    pipeline_count: id,
                    pipelines: self.pipelines.insert(id, pipeline),
                    current_pipeline: id,
                    current_uniforms: pipeline.uniform_locations@,
                    ..self
                },
                bind_calls(pipeline.vao, pipeline.program, options),
                Ok(id),
            )
        }
    }

    /// What resuming the construction of a pipeline does: `after` is the
    /// state `self` after the step, `calls_after` the call list
    /// `calls_before` with the calls of the step appended, `step` where the
    /// creation stands then. The last step takes the pipeline into the
    /// table; every other leaves the state alone and passes on what
    /// [`pipeline_step`] yields.
    pub open spec fn pipeline_resumed(
        self,
        setup: PipelineSetup,
        options: PipelineOptions,
        reply: GlReply,
        calls_before: Seq<GlCall>,
        after: BackendView,
        calls_after: Seq<GlCall>,
        step: Step,
    ) -> bool {
        match (setup, reply) {
            (
                PipelineSetup::VertexArray { vertex, fragment, program, uniform_locations },
                GlReply::Name(vao),
            ) => {
                let registered = self.register_pipeline(
                    InnerPipeline { vertex, fragment, program, vao, uniform_locations },
                    options,
                );
                &&& after == registered.0
                &&& calls_after == calls_before.push(GlCall::BindVertexArray { array: vao })
                    + registered.1
                &&& step == Step::Created(registered.2)
            },
            _ => {
                &&& after == self
                &&& match step {
                    Step::Ask { query, task: Task::Pipeline { setup: next, options: kept } } => {
                        &&& kept == options
                        &&& pipeline_step(
                            setup,
                            reply,
                            calls_before,
                            calls_after,
                            PipelineStep::Ask { query, setup: next },
                        )
                    },
                    Step::Created(Err(error)) => pipeline_step(
                        setup,
                        reply,
                        calls_before,
                        calls_after,
                        PipelineStep::Done(Err(error)),
                    ),
                    _ => false,
                }
            },
        }
    }

    /// What resuming the construction of a render target of `size` does:
    /// the resulting state, the calls of the step and where the creation
    /// stands then. The last step takes the framebuffer into the table;
    /// every other leaves the state alone and passes on what [`fbo_step`]
    /// yields.
    pub open spec fn target_resumed(self, setup: FboSetup, size: (i32, i32), reply: GlReply) -> (
        BackendView,
        Seq<GlCall>,
        Step,
    ) {
        let (calls, step) = fbo_step(setup, reply);
        match step {
            FboStep::Ask { query, setup: next } => (
                self,
                calls,
                Step::Ask { query, task: Task::RenderTarget { setup: next, size } },
            ),
            FboStep::Done(Err(error)) => (self, calls, Step::Created(Err(error))),
            FboStep::Done(Ok((fbo, depth_texture))) => {
                let registered = self.register_target(
                    InnerRenderTexture { fbo, depth_texture, size },
                );
                (registered.0, calls + registered.1, Step::Created(registered.2))
            },
        }
    }
}

impl BackendView {
    /// Whether a resource lives in the table of its kind.
    pub open spec fn holds(self, resource: ResourceId) -> bool {
        match resource {
            ResourceId::Pipeline(id) => self.pipelines.contains_key(id),
            ResourceId::Buffer(id) => self.buffers.contains_key(id),
            ResourceId::Texture(id) => self.textures.contains_key(id),
            ResourceId::RenderTexture(id) => self.render_targets.contains_key(id),
        }
    }

    /// The last id handed out for resources of the kind of `resource`.
    pub open spec fn last_id(self, resource: ResourceId) -> u64 {
        match resource {
            ResourceId::Pipeline(_) => self.pipeline_count,
            ResourceId::Buffer(_) => self.buffer_count,
            ResourceId::Texture(_) => self.texture_count,
            ResourceId::RenderTexture(_) => self.render_target_count,
        }
    }
}

/// Deleting one resource takes it out of its table, brings nothing into any
/// table, and hands out no id.
pub proof fn lemma_clean_one(state: BackendView, resource: ResourceId, other: ResourceId)
    ensures
        !state.clean_one(resource).0.holds(resource),
        state.clean_one(resource).0.holds(other) ==> state.holds(other),
        other != resource ==> (state.clean_one(resource).0.holds(other) <==> state.holds(other)),
        state.clean_one(resource).0.last_id(other) == state.last_id(other),
        state.wf() ==> state.clean_one(resource).0.wf(),
{
}

/// Deleting a batch brings nothing into any table, hands out no id, and
/// leaves every resource that is not in the batch where it is.
pub proof fn lemma_clean_shrinks(state: BackendView, batch: Seq<ResourceId>, n: int, other: ResourceId)
    requires
        0 <= n <= batch.len(),
    ensures
        state.clean(batch, n).0.holds(other) ==> state.holds(other),
        (forall|k: int| 0 <= k < n ==> batch[k] != other) ==> (state.clean(batch, n).0.holds(other)
            <==> state.holds(other)),
        state.clean(batch, n).0.last_id(other) == state.last_id(other),
        state.wf() ==> state.clean(batch, n).0.wf(),
    decreases n,
{
    if n > 0 {
        lemma_clean_shrinks(state, batch, n - 1, other);
        lemma_clean_one(state.clean(batch, n - 1).0, batch[n - 1], other);
    }
}

/// After a batch is deleted, no resource of the batch lives in any table.
pub proof fn lemma_clean_removes(state: BackendView, batch: Seq<ResourceId>, n: int, k: int)
    requires
        0 <= k < n <= batch.len(),
    ensures
        !state.clean(batch, n).0.holds(batch[k]),
    decreases n,
{
    let before = state.clean(batch, n - 1).0;
    lemma_clean_one(before, batch[n - 1], batch[k]);
    if k < n - 1 {
        lemma_clean_removes(state, batch, n - 1, k);
    }
}

/// The id of a resource that ever lived is never handed out again: after
/// any batch is deleted, the next resource of each kind gets an id beyond
/// every id that was live before.
pub proof fn lemma_ids_not_reused(
    state: BackendView,
    batch: Seq<ResourceId>,
    kind: Kind,
    layout: TextureLayout,
    target: InnerRenderTexture,
    pipeline: InnerPipeline,
    options: PipelineOptions,
    name: u32,
    id: u64,
)
    requires
        state.wf(),
    ensures
        ({
            let cleaned = state.clean(batch, batch.len() as int).0;
            &&& state.holds(ResourceId::Buffer(id)) ==> cleaned.register_buffer(kind, name).2
                != Ok::<u64, GfxError>(id)
            &&& state.holds(ResourceId::Texture(id)) ==> cleaned.register_texture(layout, name).2
                != Ok::<u64, GfxError>(id)
            &&& state.holds(ResourceId::RenderTexture(id)) ==> cleaned.register_target(target).2
                != Ok::<u64, GfxError>(id)
            &&& state.holds(ResourceId::Pipeline(id)) ==> cleaned.register_pipeline(
                pipeline,
                options,
            ).2 != Ok::<u64, GfxError>(id)
        }),
{
    lemma_clean_shrinks(state, batch, batch.len() as int, ResourceId::Buffer(id));
    lemma_clean_shrinks(state, batch, batch.len() as int, ResourceId::Texture(id));
    lemma_clean_shrinks(state, batch, batch.len() as int, ResourceId::RenderTexture(id));
    lemma_clean_shrinks(state, batch, batch.len() as int, ResourceId::Pipeline(id));
}

/// Executing a command list depends on nothing but the commands executed:
/// two lists that agree on their first `n` commands run alike that far.
pub proof fn lemma_run_prefix(
    state: BackendView,
    first: Seq<Commands>,
    second: Seq<Commands>,
    target: Option<u64>,
    n: int,
)
    requires
        0 <= n <= first.len(),
        n <= second.len(),
        forall|k: int| 0 <= k < n ==> first[k] == second[k],
    ensures
        state.run(first, target, n) == state.run(second, target, n),
    decreases n,
{
    if n > 0 {
        lemma_run_prefix(state, first, second, target, n - 1);
    }
}

/// Execution order is recorded order. Executing a list is executing its
/// first part and then, from the state that leaves, the rest: the calls of
/// the first part all come before those of the rest, and no command is
/// moved, merged or left out.
pub proof fn lemma_run_in_order(
    state: BackendView,
    first: Seq<Commands>,
    rest: Seq<Commands>,
    target: Option<u64>,
    n: int,
)
    requires
        0 <= n <= rest.len(),
    ensures
        ({
            let head = state.run(first, target, first.len() as int);
            let tail = head.0.run(rest, target, n);
            state.run(first + rest, target, first.len() + n) == (tail.0, head.1 + tail.1)
        }),
    decreases n,
{
    let head = state.run(first, target, first.len() as int);
    if n == 0 {
        lemma_run_prefix(state, first + rest, first, target, first.len() as int);
        assert(head.1 + Seq::<GlCall>::empty() =~= head.1);
    } else {
        lemma_run_in_order(state, first, rest, target, n - 1);
        let before = head.0.run(rest, target, n - 1);
        let last = before.0.exec(rest[n - 1], target);
        assert((first + rest)[first.len() + n - 1] == rest[n - 1]);
        assert((head.1 + before.1) + last.1 =~= head.1 + (before.1 + last.1));
    }
}

/// A command list of one command asks for exactly what that command asks
/// for in the state it meets.
pub proof fn lemma_run_one(state: BackendView, command: Commands, target: Option<u64>)
    ensures
        state.run(seq![command], target, 1) == state.exec(command, target),
{
    reveal_with_fuel(BackendView::run, 2);
    assert(Seq::<GlCall>::empty() + state.exec(command, target).1 =~= state.exec(
        command,
        target,
    ).1);
}

/// At a scale of one the native scissor rectangle is the logical one with
/// its vertical origin flipped: its `y` is the surface height less the
/// bottom edge `height + y` of the rectangle.
pub proof fn lemma_scissor_flip(surface_height: i32, x: i32, y: i32, width: i32, height: i32)
    requires
        i32::MIN <= surface_height - (height + y) <= i32::MAX,
    ensures
        scissor_calls(surface_height, x, y, width, height, DpiScale::spec_one()) == seq![
            GlCall::Enable { cap: gl::SCISSOR_TEST },
            GlCall::Scissor { x, y: (surface_height - (height + y)) as i32, width, height },
        ],
{
    lemma_unit_scale(x as int);
    lemma_unit_scale(surface_height - (height + y));
    lemma_unit_scale(width as int);
    lemma_unit_scale(height as int);
}

/// Whatever the completeness check of a read-back says, the temporary
/// framebuffer is unbound and deleted before the read-back ends, and an
/// incomplete framebuffer is reported as such and never read from.
pub proof fn lemma_read_back_tears_down(fbo: u32, opts: TextureRead, status: u32)
    ensures
        ({
            let (calls, step) = read_step(ReadSetup::Status { fbo, opts }, GlReply::Status(status));
            &&& calls.len() >= 2
            &&& calls.last() == GlCall::DeleteFramebuffer { framebuffer: fbo }
            &&& calls[calls.len() - 2] == GlCall::BindFramebuffer {
                target: gl::FRAMEBUFFER,
                framebuffer: 0,
            }
            &&& status != gl::FRAMEBUFFER_COMPLETE ==> step == Step::Finished(
                Err(GfxError::FramebufferIncomplete),
            ) && !calls.contains(read_call(opts))
            &&& status == gl::FRAMEBUFFER_COMPLETE ==> step == Step::Finished(Ok(()))
                && calls[0] == read_call(opts)
        }),
{
}

/// A command that names a resource that does not exist is skipped: it
/// changes nothing and asks for nothing, and so takes nothing from the
/// commands that follow it.
pub proof fn lemma_stale_ids_are_skipped(
    state: BackendView,
    id: u64,
    options: PipelineOptions,
    slot: u32,
    location: u32,
    target: Option<u64>,
)
    ensures
        !state.pipelines.contains_key(id) ==> state.exec(Commands::Pipeline { id, options }, target)
            == (state, Seq::<GlCall>::empty()),
        !state.buffers.contains_key(id) ==> state.exec(Commands::BindBuffer { id }, target) == (
            state,
            Seq::<GlCall>::empty(),
        ),
        !state.textures.contains_key(id) ==> state.exec(
            Commands::BindTexture { id, slot, location },
            target,
        ) == (state, Seq::<GlCall>::empty()),
{
}

/// Executing commands neither creates nor deletes: every table names the
/// same resources after a command as before it, and no id is handed out.
pub proof fn lemma_exec_keeps_resources(
    state: BackendView,
    command: Commands,
    target: Option<u64>,
    resource: ResourceId,
)
    ensures
        state.exec(command, target).0.holds(resource) == state.holds(resource),
        state.exec(command, target).0.last_id(resource) == state.last_id(resource),
        state.exec(command, target).0.pipelines == state.pipelines,
        state.exec(command, target).0.textures == state.textures,
        state.exec(command, target).0.render_targets == state.render_targets,
        state.wf() ==> state.exec(command, target).0.wf(),
{
}

/// Executing a command list neither creates nor deletes: nothing that lives
/// when the list starts is gone when it ends, whatever the list holds.
pub proof fn lemma_run_keeps_resources(
    state: BackendView,
    commands: Seq<Commands>,
    target: Option<u64>,
    n: int,
    resource: ResourceId,
)
    requires
        0 <= n <= commands.len(),
    ensures
        state.run(commands, target, n).0.holds(resource) == state.holds(resource),
        state.run(commands, target, n).0.last_id(resource) == state.last_id(resource),
        state.wf() ==> state.run(commands, target, n).0.wf(),
    decreases n,
{
    if n > 0 {
        lemma_run_keeps_resources(state, commands, target, n - 1, resource);
        lemma_exec_keeps_resources(
            state.run(commands, target, n - 1).0,
            commands[n - 1],
            target,
            resource,
        );
    }
}

/// Binding a buffer a second time under the same pipeline repeats nothing
/// that the first bind settled: the vertex layout is not specified again,
/// and a uniform block that was bound, which takes a current pipeline, is
/// not looked up again. What is left is the bind itself and, for a uniform
/// buffer, its attachment to the slot.
pub proof fn lemma_second_bind_is_plain(state: BackendView, id: u64)
    requires
        state.buffers.contains_key(id),
    ensures
        ({
            let buffer = state.buffers[id];
            let again = state.bind_buffer(id).0.bind_buffer(id);
            let bind = GlCall::BindBuffer { target: buffer.draw_target, buffer: buffer.buffer };
            &&& again.0 == state.bind_buffer(id).0
            &&& match buffer.kind {
                Kind::Vertex(_) => again.1 == seq![bind],
                Kind::Index => again.1 == seq![bind],
                Kind::Uniform(slot, _) => state.pipelines.contains_key(state.current_pipeline)
                    ==> again.1 == seq![
                    bind,
                    GlCall::BindBufferBase {
                        target: gl::UNIFORM_BUFFER,
                        index: slot,
                        buffer: buffer.buffer,
                    },
                ],
            }
        }),
{
    let first = state.bind_buffer(id).0;
    let again = first.bind_buffer(id);
    assert(first.buffers.contains_key(id));
    assert(again.0.buffers =~= first.buffers);
}

/// Draws are indexed from the binding of an index buffer to the end of
/// the pass. Among the commands, only the binding of an index buffer that
/// exists switches indexed drawing on and only `End` switches it off; a
/// change of pipeline, like every other command, leaves it as it is.
pub proof fn lemma_indexing(state: BackendView, command: Commands, target: Option<u64>)
    ensures
        state.exec(command, target).0.using_indices == (match command {
            Commands::End => false,
            Commands::BindBuffer { id } => state.using_indices || (state.buffers.contains_key(id)
                && state.buffers[id].kind is Index),
            _ => state.using_indices,
        }),
{
}

/// A draw that follows the binding of an index buffer is indexed, whether
/// or not the pipeline is changed in between: it goes through the index
/// buffer, from the byte where index `offset` lies.
pub proof fn lemma_draw_after_index_buffer(
    state: BackendView,
    buffer: u64,
    pipeline: u64,
    options: PipelineOptions,
    primitive: DrawPrimitive,
    offset: i32,
    count: i32,
    length: i32,
    target: Option<u64>,
)
    requires
        state.buffers.contains_key(buffer),
        state.buffers[buffer].kind is Index,
    ensures
        ({
            let bound = state.exec(Commands::BindBuffer { id: buffer }, target).0;
            let switched = bound.exec(Commands::Pipeline { id: pipeline, options }, target).0;
            &&& switched.exec(Commands::Draw { primitive, offset, count }, target).1 == seq![
                GlCall::DrawElements {
                    mode: primitive.gl_value(),
                    count,
                    index_type: gl::UNSIGNED_INT,
                    offset: (offset * 4) as i64,
                },
            ]
            &&& switched.exec(
                Commands::DrawInstanced { primitive, offset, count, length },
                target,
            ).1 == seq![
                GlCall::DrawElementsInstanced {
                    mode: primitive.gl_value(),
                    count,
                    index_type: gl::UNSIGNED_INT,
                    offset: (offset * 4) as i64,
                    instances: length,
                },
            ]
        }),
{
}

} // verus!
