//! The rasterization backend: its native call vocabulary and the state
//! machine that decides which calls to issue.

pub mod buffer;
pub mod gl;
pub mod pipeline;
pub mod render_target;
pub mod state;
pub mod texture;
pub mod to_gl;

use crate::gfx::buffer::{offset_of, stride_of, VertexAttr, VertexStepMode};
use crate::gfx::color::Color;
use crate::gfx::commands::Commands;
use crate::gfx::device::{stride, ResourceId};
use crate::gfx::dpi::DpiScale;
use crate::gfx::error::GfxError;
use crate::gfx::limits::Limits;
use crate::gfx::pipeline::{DrawPrimitive, PipelineOptions, ShaderStage};
use crate::gfx::texture::{TextureInfo, TextureLayout, TextureRead, TextureUpdate};
use crate::gfx_backend::buffer::{InnerBuffer, Kind};
use crate::gfx_backend::gl::{GlCall, GlQuery, GlReply};
use crate::gfx_backend::pipeline::{
    create_pipeline, get_inner_attrs, inner_attr, InnerPipeline, PipelineSetup, PipelineStep,
    VertexAttributes,
};
use crate::gfx_backend::render_target::{
    create_fbo, DepthInfo, FboSetup, FboStep, InnerRenderTexture,
};
use crate::gfx_backend::state::{
    clear_calls, clear_mask, draw_call, draw_instanced_call, end_calls, read_step, scissor_calls,
    update_calls, viewport_call, BackendView,
};
use crate::gfx_backend::texture::{texture_format, InnerTexture};
use crate::gfx_backend::to_gl::ToGl;
use std::collections::HashMap;
use vstd::prelude::*;
use vstd::string::StringSliceAdditionalSpecFns;
use vstd::utf8::{encode_utf8, valid_utf8};

verus! {

/// How far reading pixels back has come.
#[derive(Clone, Copy, Debug, PartialEq, Eq)]
pub enum ReadSetup {
    /// The name of the temporary framebuffer is being generated.
    Framebuffer { texture: u32, opts: TextureRead },
    /// The completeness of the temporary framebuffer is being checked.
    Status { fbo: u32, opts: TextureRead },
}

/// An operation of the backend that waits for a native reply.
#[allow(inconsistent_fields)]
#[derive(Debug, PartialEq, Eq)]
pub enum Task {
    Pipeline { setup: PipelineSetup, options: PipelineOptions },
    Buffer { kind: Kind },
    Texture { layout: TextureLayout },
    RenderTarget { setup: FboSetup, size: (i32, i32) },
    ReadPixels { setup: ReadSetup },
}

/// Where an operation of the backend stands.
#[derive(Debug, PartialEq, Eq)]
pub enum Step {
    /// Issue the calls gathered so far, put `query` to the native API and
    /// hand its reply to [`GlesBackend::resume`] together with `task`.
    Ask { query: GlQuery, task: Task },
    /// A creation is over: the id of the new resource, or why there is
    /// none.
    Created(Result<u64, GfxError>),
    /// Any other operation is over.
    Finished(Result<(), GfxError>),
}

/// One backend instance: the tables of its live native objects, keyed by the
/// ids it handed out, and the rendering state between commands.
pub struct GlesBackend {
    buffer_count: u64,
    texture_count: u64,
    pipeline_count: u64,
    render_target_count: u64,
    size: (i32, i32),
    dpi: DpiScale,
    pipelines: HashMap<u64, InnerPipeline>,
    buffers: HashMap<u64, InnerBuffer>,
    textures: HashMap<u64, InnerTexture>,
    render_targets: HashMap<u64, InnerRenderTexture>,
    using_indices: bool,
    current_pipeline: u64,
    limits: Limits,
    current_uniforms: Vec<u32>,
}

impl View for GlesBackend {
    type V = BackendView;

    closed spec fn view(&self) -> BackendView {
        BackendView {
            buffer_count: self.buffer_count,
            texture_count: self.texture_count,
            pipeline_count: self.pipeline_count,
            render_target_count: self.render_target_count,
            size: self.size,
            dpi: self.dpi,
            pipelines: self.pipelines@,
            buffers: self.buffers@,
            textures: self.textures@,
            render_targets: self.render_targets@,
            using_indices: self.using_indices,
            current_pipeline: self.current_pipeline,
            limits: self.limits,
            current_uniforms: self.current_uniforms@,
        }
    }
}

impl GlesBackend {
    /// A backend with no resources, on a surface of no size at a scale of
    /// one, with the limits the native API reported.
    pub fn new(limits: Limits) -> (backend: GlesBackend)
        ensures
            backend@ == (BackendView {
                buffer_count: 0,
                texture_count: 0,
                pipeline_count: 0,
                render_target_count: 0,
                size: (0, 0),
                dpi: DpiScale::spec_one(),
                pipelines: Map::empty(),
                buffers: Map::empty(),
                textures: Map::empty(),
                render_targets: Map::empty(),
                using_indices: false,
                current_pipeline: 0,
                limits,
                current_uniforms: Seq::empty(),
            }),
            backend@.wf(),
    {
        let backend = GlesBackend {
            pipeline_count: 0,
            buffer_count: 0,
            texture_count: 0,
            render_target_count: 0,
            size: (0, 0),
            dpi: DpiScale::one(),
            pipelines: HashMap::new(),
            buffers: HashMap::new(),
            textures: HashMap::new(),
            render_targets: HashMap::new(),
            using_indices: false,
            current_pipeline: 0,
            limits,
            current_uniforms: Vec::new(),
        };
        assert(backend@.pipelines =~= Map::empty());
        assert(backend@.buffers =~= Map::empty());
        assert(backend@.textures =~= Map::empty());
        assert(backend@.render_targets =~= Map::empty());
        backend
    }

    /// The limits the backend was made with.
    pub fn limits(&self) -> (limits: Limits)
        ensures
            limits == self@.limits,
    {
        self.limits
    }

    /// Sets the size of the surface in logical pixels.
    pub fn set_size(&mut self, width: i32, height: i32)
        ensures
            final(self)@ == (BackendView { size: (width, height), ..old(self)@ }),
            old(self)@.wf() ==> final(self)@.wf(),
    {
        self.size = (width, height);
    }

    /// Sets the DPI scale of the surface.
    pub fn set_dpi(&mut self, scale_factor: DpiScale)
        ensures
            final(self)@ == (BackendView { dpi: scale_factor, ..old(self)@ }),
            old(self)@.wf() ==> final(self)@.wf(),
    {
        self.dpi = scale_factor;
    }

    /// Asks for the start of a pass over `target` or, without one, over the
    /// surface.
    pub fn begin(
        &self,
        target: Option<u64>,
        color: &Option<Color>,
        depth: &Option<u32>,
        stencil: &Option<i32>,
        calls: &mut Vec<GlCall>,
    )
        ensures
            final(calls)@ == old(calls)@ + self@.begin_calls(target, *color, *depth, *stencil),
    {
        let render_target = match target {
            Some(id) => self.render_targets.get(&id),
            None => None,
        };
        let (width, height, dpi) = match render_target {
            Some(rt) => {
                rt.bind(calls);
                (rt.size.0, rt.size.1, DpiScale::one())
            },
            None => {
                calls.push(GlCall::BindFramebuffer { target: gl::FRAMEBUFFER, framebuffer: 0 });
                (self.size.0, self.size.1, self.dpi)
            },
        };
        self.viewport(0, 0, width, height, dpi, calls);
        clear(color, depth, stencil, calls);
        assert(calls@ =~= old(calls)@ + self@.begin_calls(target, *color, *depth, *stencil));
    }

    /// Asks for the viewport to be the rectangle, scaled by `dpi`.
    pub fn viewport(
        &self,
        x: i32,
        y: i32,
        width: i32,
        height: i32,
        dpi: DpiScale,
        calls: &mut Vec<GlCall>,
    )
        ensures
            final(calls)@ == old(calls)@.push(viewport_call(x, y, width, height, dpi)),
    {
        calls.push(
            GlCall::Viewport {
                x: dpi.apply(x as i64),
                y: dpi.apply(y as i64),
                width: dpi.apply(width as i64),
                height: dpi.apply(height as i64),
            },
        );
    }

    /// Asks for drawing to be restricted to the rectangle, scaled by `dpi`
    /// and flipped to the native vertical origin.
    pub fn scissors(
        &self,
        x: i32,
        y: i32,
        width: i32,
        height: i32,
        dpi: DpiScale,
        calls: &mut Vec<GlCall>,
    )
        ensures
            final(calls)@ == old(calls)@ + scissor_calls(self@.size.1, x, y, width, height, dpi),
    {
        let canvas_height = dpi.apply(self.size.1 as i64 - (height as i64 + y as i64));
        calls.push(GlCall::Enable { cap: gl::SCISSOR_TEST });
        calls.push(
            GlCall::Scissor {
                x: dpi.apply(x as i64),
                y: canvas_height,
                width: dpi.apply(width as i64),
                height: dpi.apply(height as i64),
            },
        );
        assert(calls@ =~= old(calls)@ + scissor_calls(self@.size.1, x, y, width, height, dpi));
    }

    /// Asks for the end of the pass; indexed drawing is off afterwards.
    pub fn end(&mut self, calls: &mut Vec<GlCall>)
        ensures
            final(self)@ == (BackendView { using_indices: false, ..old(self)@ }),
            old(self)@.wf() ==> final(self)@.wf(),
            final(calls)@ == old(calls)@ + end_calls(),
    {
        calls.push(GlCall::Disable { cap: gl::SCISSOR_TEST });
        calls.push(GlCall::BindBuffer { target: gl::ARRAY_BUFFER, buffer: 0 });
        calls.push(GlCall::BindBuffer { target: gl::ELEMENT_ARRAY_BUFFER, buffer: 0 });
        calls.push(GlCall::BindBuffer { target: gl::UNIFORM_BUFFER, buffer: 0 });
        calls.push(GlCall::BindVertexArray { array: 0 });
        calls.push(GlCall::BindFramebuffer { target: gl::FRAMEBUFFER, framebuffer: 0 });
        self.using_indices = false;
        assert(calls@ =~= old(calls)@ + end_calls());
    }

    /// Asks for a draw, indexed where an index buffer is in use.
    pub fn draw(&self, primitive: &DrawPrimitive, offset: i32, count: i32, calls: &mut Vec<GlCall>)
        ensures
            final(calls)@ == old(calls)@.push(
                draw_call(self@.using_indices, *primitive, offset, count),
            ),
    {
        if self.using_indices {
            calls.push(
                GlCall::DrawElements {
                    mode: primitive.to_gl(),
                    count,
                    index_type: gl::UNSIGNED_INT,
                    offset: offset as i64 * 4,
                },
            );
        } else {
            calls.push(GlCall::DrawArrays { mode: primitive.to_gl(), first: offset, count });
        }
    }

    /// Asks for an instanced draw, indexed where an index buffer is in use.
    pub fn draw_instanced(
        &self,
        primitive: &DrawPrimitive,
        offset: i32,
        count: i32,
        length: i32,
        calls: &mut Vec<GlCall>,
    )
        ensures
            final(calls)@ == old(calls)@.push(
                draw_instanced_call(self@.using_indices, *primitive, offset, count, length),
            ),
    {
        if self.using_indices {
            calls.push(
                GlCall::DrawElementsInstanced {
                    mode: primitive.to_gl(),
                    count,
                    index_type: gl::UNSIGNED_INT,
                    offset: offset as i64 * 4,
                    instances: length,
                },
            );
        } else {
            calls.push(
                GlCall::DrawArraysInstanced {
                    mode: primitive.to_gl(),
                    first: offset,
                    count,
                    instances: length,
                },
            );
        }
    }

    /// The location of the `location`-th uniform of the current pipeline,
    /// if it has that many.
    pub fn get_uniform_loc(&self, location: u32) -> (found: Option<u32>)
        ensures
            found == (if location < self@.current_uniforms.len() {
                Some(self@.current_uniforms[location as int])
            } else {
                None
            }),
    {
        let index = location as usize;
        if index < self.current_uniforms.len() {
            Some(self.current_uniforms[index])
        } else {
            None
        }
    }

    /// Makes pipeline `id` current and asks for it to be bound with
    /// `options`.
    pub fn set_pipeline(&mut self, id: u64, options: &PipelineOptions, calls: &mut Vec<GlCall>)
        ensures
            final(self)@ == old(self)@.set_pipeline(id, *options).0,
            final(calls)@ == old(calls)@ + old(self)@.set_pipeline(id, *options).1,
            old(self)@.wf() ==> final(self)@.wf(),
    {
        if let Some(pip) = self.pipelines.get(&id) {
            pip.bind(options, calls);
            let uniforms = pip.uniform_locations.clone();
            self.current_pipeline = id;
            self.current_uniforms = uniforms;
        } else {
            assert(calls@ =~= old(calls)@ + Seq::<GlCall>::empty());
        }
    }

    /// Asks for buffer `id` to be bound under the current pipeline.
    pub fn bind_buffer(&mut self, id: u64, calls: &mut Vec<GlCall>)
        ensures
            final(self)@ == old(self)@.bind_buffer(id).0,
            final(calls)@ == old(calls)@ + old(self)@.bind_buffer(id).1,
            old(self)@.wf() ==> final(self)@.wf(),
    {
        match self.buffers.remove(&id) {
            Some(found) => {
                let mut buffer = found;
                let (is_index, is_uniform) = match &buffer.kind {
                    Kind::Index => (true, false),
                    Kind::Uniform(_, _) => (false, true),
                    Kind::Vertex(_) => (false, false),
                };
                if is_index {
                    self.using_indices = true;
                }
                if is_uniform && !buffer.block_binded {
                    if let Some(pipeline) = self.pipelines.get(&self.current_pipeline) {
                        buffer.bind_ubo_block(pipeline, calls);
                    }
                }
                buffer.bind(Some(self.current_pipeline), calls);
                self.buffers.insert(id, buffer);
                proof {
                    assert(self@.buffers =~= old(self)@.bind_buffer(id).0.buffers);
                    assert(calls@ =~= old(calls)@ + old(self)@.bind_buffer(id).1);
                }
            },
            None => {
                proof {
                    assert(self@.buffers =~= old(self)@.buffers);
                    assert(calls@ =~= old(calls)@ + Seq::<GlCall>::empty());
                }
            },
        }
    }

    /// Asks for texture `id` to be bound to unit `slot` for the
    /// `location`-th uniform of the current pipeline.
    pub fn bind_texture(&self, id: u64, slot: u32, location: u32, calls: &mut Vec<GlCall>)
        ensures
            final(calls)@ == old(calls)@ + self@.bind_texture_calls(id, slot, location),
    {
        if let Some(texture) = self.textures.get(&id) {
            if let Some(uniform) = self.get_uniform_loc(location) {
                let _ = texture.bind(slot, uniform, calls);
            }
        }
        assert(calls@ =~= old(calls)@ + self@.bind_texture_calls(id, slot, location));
    }

    /// Deletes pipeline `id`.
    pub fn clean_pipeline(&mut self, id: u64, calls: &mut Vec<GlCall>)
        ensures
            final(self)@ == old(self)@.clean_one(ResourceId::Pipeline(id)).0,
            final(calls)@ == old(calls)@ + old(self)@.clean_one(ResourceId::Pipeline(id)).1,
            old(self)@.wf() ==> final(self)@.wf(),
    {
        if let Some(pip) = self.pipelines.remove(&id) {
            pip.clean(calls);
        } else {
            proof {
                assert(self@.pipelines =~= old(self)@.pipelines);
                assert(calls@ =~= old(calls)@ + Seq::<GlCall>::empty());
            }
        }
    }

    /// Deletes buffer `id`.
    pub fn clean_buffer(&mut self, id: u64, calls: &mut Vec<GlCall>)
        ensures
            final(self)@ == old(self)@.clean_one(ResourceId::Buffer(id)).0,
            final(calls)@ == old(calls)@ + old(self)@.clean_one(ResourceId::Buffer(id)).1,
            old(self)@.wf() ==> final(self)@.wf(),
    {
        if let Some(buffer) = self.buffers.remove(&id) {
            buffer.clean(calls);
            assert(calls@ =~= old(calls)@ + old(self)@.clean_one(ResourceId::Buffer(id)).1);
        } else {
            proof {
                assert(self@.buffers =~= old(self)@.buffers);
                assert(calls@ =~= old(calls)@ + Seq::<GlCall>::empty());
            }
        }
    }

    /// Deletes texture `id`.
    pub fn clean_texture(&mut self, id: u64, calls: &mut Vec<GlCall>)
        ensures
            final(self)@ == old(self)@.clean_one(ResourceId::Texture(id)).0,
            final(calls)@ == old(calls)@ + old(self)@.clean_one(ResourceId::Texture(id)).1,
            old(self)@.wf() ==> final(self)@.wf(),
    {
        if let Some(texture) = self.textures.remove(&id) {
            texture.clean(calls);
            assert(calls@ =~= old(calls)@ + old(self)@.clean_one(ResourceId::Texture(id)).1);
        } else {
            proof {
                assert(self@.textures =~= old(self)@.textures);
                assert(calls@ =~= old(calls)@ + Seq::<GlCall>::empty());
            }
        }
    }

    /// Deletes render target `id`.
    pub fn clean_render_target(&mut self, id: u64, calls: &mut Vec<GlCall>)
        ensures
            final(self)@ == old(self)@.clean_one(ResourceId::RenderTexture(id)).0,
            final(calls)@ == old(calls)@ + old(self)@.clean_one(ResourceId::RenderTexture(id)).1,
            old(self)@.wf() ==> final(self)@.wf(),
    {
        if let Some(rt) = self.render_targets.remove(&id) {
            rt.clean(calls);
        } else {
            proof {
                assert(self@.render_targets =~= old(self)@.render_targets);
                assert(calls@ =~= old(calls)@ + Seq::<GlCall>::empty());
            }
        }
    }

    /// Deletes a batch of resources, each from the table of its kind, in
    /// the order of the batch.
    pub fn clean(&mut self, to_clean: &[ResourceId], calls: &mut Vec<GlCall>)
        ensures
            final(self)@ == old(self)@.clean(to_clean@, to_clean@.len() as int).0,
            final(calls)@ == old(calls)@ + old(self)@.clean(to_clean@, to_clean@.len() as int).1,
            old(self)@.wf() ==> final(self)@.wf(),
    {
        let mut i: usize = 0;
        assert(calls@ =~= old(calls)@ + Seq::<GlCall>::empty());
        while i < to_clean.len()
            invariant
                0 <= i <= to_clean@.len(),
                self@ == old(self)@.clean(to_clean@, i as int).0,
                calls@ == old(calls)@ + old(self)@.clean(to_clean@, i as int).1,
                old(self)@.wf() ==> self@.wf(),
            decreases to_clean@.len() - i,
        {
            match to_clean[i] {
                ResourceId::Pipeline(id) => self.clean_pipeline(id, calls),
                ResourceId::Buffer(id) => self.clean_buffer(id, calls),
                ResourceId::Texture(id) => self.clean_texture(id, calls),
                ResourceId::RenderTexture(id) => self.clean_render_target(id, calls),
            }
            i = i + 1;
            assert(calls@ =~= old(calls)@ + old(self)@.clean(to_clean@, i as int).1);
        }
    }

    /// Executes a command list, strictly in recorded order, as a pass over
    /// `target` or, without one, over the surface.
    pub fn render(&mut self, commands: &[Commands], target: Option<u64>, calls: &mut Vec<GlCall>)
        ensures
            final(self)@ == old(self)@.run(commands@, target, commands@.len() as int).0,
            final(calls)@ == old(calls)@ + old(self)@.run(
                commands@,
                target,
                commands@.len() as int,
            ).1,
            old(self)@.wf() ==> final(self)@.wf(),
    {
        let mut i: usize = 0;
        assert(calls@ =~= old(calls)@ + Seq::<GlCall>::empty());
        while i < commands.len()
            invariant
                0 <= i <= commands@.len(),
                self@ == old(self)@.run(commands@, target, i as int).0,
                calls@ == old(calls)@ + old(self)@.run(commands@, target, i as int).1,
                old(self)@.wf() ==> self@.wf(),
            decreases commands@.len() - i,
        {
            let ghost before = calls@;
            let ghost state = self@;
            match &commands[i] {
                Commands::Begin { color, depth, stencil } => self.begin(
                    target,
                    color,
                    depth,
                    stencil,
                    calls,
                ),
                Commands::End => self.end(calls),
                Commands::Pipeline { id, options } => self.set_pipeline(*id, options, calls),
                Commands::BindBuffer { id } => self.bind_buffer(*id, calls),
                Commands::Draw { primitive, offset, count } => self.draw(
                    primitive,
                    *offset,
                    *count,
                    calls,
                ),
                Commands::DrawInstanced { primitive, offset, count, length } => self.draw_instanced(
                    primitive,
                    *offset,
                    *count,
                    *length,
                    calls,
                ),
                Commands::BindTexture { id, slot, location } => self.bind_texture(
                    *id,
                    *slot,
                    *location,
                    calls,
                ),
                Commands::Size { width, height } => {
                    self.set_size(*width, *height);
                    assert(calls@ =~= before + Seq::<GlCall>::empty());
                },
                Commands::Viewport { x, y, width, height } => self.viewport(
                    *x,
                    *y,
                    *width,
                    *height,
                    self.dpi,
                    calls,
                ),
                Commands::Scissors { x, y, width, height } => self.scissors(
                    *x,
                    *y,
                    *width,
                    *height,
                    self.dpi,
                    calls,
                ),
            }
            proof {
                assert(self@ == state.exec(commands@[i as int], target).0);
                assert(calls@ =~= before + state.exec(commands@[i as int], target).1);
            }
            i = i + 1;
            assert(calls@ =~= old(calls)@ + old(self)@.run(commands@, target, i as int).1);
        }
    }

    /// Uploads `data` to buffer `id`.
    pub fn set_buffer_data(&self, id: u64, data: &[u8], calls: &mut Vec<GlCall>)
        ensures
            final(calls)@ == old(calls)@ + self@.buffer_data_calls(id, data@.len() as usize),
    {
        match self.buffers.get(&id) {
            Some(buffer) => {
                calls.push(GlCall::BindBuffer { target: buffer.draw_target, buffer: buffer.buffer });
                match &buffer.kind {
                    Kind::Uniform(slot, _) => {
                        calls.push(
                            GlCall::BindBufferBase {
                                target: gl::UNIFORM_BUFFER,
                                index: *slot,
                                buffer: buffer.buffer,
                            },
                        );
                    },
                    _ => {},
                }
                buffer.update(data, calls);
                assert(calls@ =~= old(calls)@ + self@.buffer_data_calls(
                    id,
                    data@.len() as usize,
                ));
            },
            None => {
                assert(calls@ =~= old(calls)@ + Seq::<GlCall>::empty());
            },
        }
    }

    /// Overwrites a rectangle of texture `texture` with the bytes of
    /// `opts`.
    pub fn update_texture(&self, texture: u64, opts: &TextureUpdate, calls: &mut Vec<GlCall>) -> (result:
        Result<(), GfxError>)
        ensures
            self@.textures.contains_key(texture) ==> result is Ok && final(calls)@ == old(calls)@
                + update_calls(self@.textures[texture].texture, *opts),
            !self@.textures.contains_key(texture) ==> result == Err::<(), GfxError>(
                GfxError::InvalidTexture { id: texture },
            ) && final(calls)@ == old(calls)@,
    {
        match self.textures.get(&texture) {
            Some(found) => {
                calls.push(GlCall::BindTexture { target: gl::TEXTURE_2D, texture: found.texture });
                calls.push(
                    GlCall::TexSubImage2D {
                        target: gl::TEXTURE_2D,
                        level: 0,
                        x_offset: opts.x_offset,
                        y_offset: opts.y_offset,
                        width: opts.width,
                        height: opts.height,
                        format: texture_format(&opts.format),
                        data_type: gl::UNSIGNED_BYTE,
                    },
                );
                assert(calls@ =~= old(calls)@ + update_calls(found.texture, *opts));
                Ok(())
            },
            None => Err(GfxError::InvalidTexture { id: texture }),
        }
    }

    /// Starts the creation of a pipeline. Both sources must be valid UTF-8,
    /// the vertex source being looked at first; then the vertex shader is
    /// compiled.
    pub fn create_pipeline(
        &self,
        vertex_source: &[u8],
        fragment_source: &[u8],
        vertex_attrs: &[VertexAttr],
        options: PipelineOptions,
    ) -> (step: Step)
        ensures
            !valid_utf8(vertex_source@) ==> step == Step::Created(
                Err(GfxError::InvalidSource { stage: ShaderStage::Vertex }),
            ),
            valid_utf8(vertex_source@) && !valid_utf8(fragment_source@) ==> step == Step::Created(
                Err(GfxError::InvalidSource { stage: ShaderStage::Fragment }),
            ),
            valid_utf8(vertex_source@) && valid_utf8(fragment_source@) ==> ({
                &&& step matches Step::Ask { query, task }
                &&& query matches GlQuery::CompileShader { stage, source }
                &&& stage == gl::VERTEX_SHADER
                &&& encode_utf8(source@) == vertex_source@
                &&& task matches Task::Pipeline { setup, options: kept }
                &&& kept == options
                &&& setup matches PipelineSetup::Vertex { fragment_source: later }
                &&& encode_utf8(later@) == fragment_source@
            }),
    {
        let vertex = match shader_text(vertex_source) {
            Some(text) => text,
            None => {
                return Step::Created(Err(GfxError::InvalidSource { stage: ShaderStage::Vertex }));
            },
        };
        let fragment = match shader_text(fragment_source) {
            Some(text) => text,
            None => {
                return Step::Created(Err(GfxError::InvalidSource { stage: ShaderStage::Fragment }));
            },
        };
        match InnerPipeline::new(vertex, fragment) {
            PipelineStep::Ask { query, setup } => Step::Ask {
                query,
                task: Task::Pipeline { setup, options },
            },
            PipelineStep::Done(_) => Step::Created(Err(GfxError::UnexpectedReply)),
        }
    }

    /// Starts the creation of a vertex buffer with the layout of `attrs`. A
    /// layout whose byte length does not fit the native integer is refused
    /// before anything is asked.
    pub fn create_vertex_buffer(&self, attrs: &[VertexAttr], step_mode: VertexStepMode) -> (step:
        Step)
        ensures
            stride_of(attrs@) > i32::MAX ==> step == Step::Created(
                Err(GfxError::LayoutTooLarge),
            ),
            stride_of(attrs@) <= i32::MAX ==> ({
                &&& step matches Step::Ask { query, task }
                &&& query == GlQuery::GenBuffer
                &&& task matches Task::Buffer { kind }
                &&& kind matches Kind::Vertex(layout)
                &&& layout.stride == stride_of(attrs@)
                &&& layout.vertex_step_mode == step_mode
                &&& layout.attrs@.len() == attrs@.len()
                &&& forall|i: int|
                    0 <= i < attrs@.len() ==> #[trigger] layout.attrs@[i] == inner_attr(
                        attrs@[i],
                        offset_of(attrs@, i),
                    )
            }),
    {
        if stride(attrs).is_none() {
            return Step::Created(Err(GfxError::LayoutTooLarge));
        }
        let (stride, inner_attrs) = get_inner_attrs(attrs);
        let kind = Kind::Vertex(VertexAttributes::new(stride, inner_attrs, step_mode));
        Step::Ask { query: GlQuery::GenBuffer, task: Task::Buffer { kind } }
    }

    /// Starts the creation of an index buffer.
    pub fn create_index_buffer(&self) -> (step: Step)
        ensures
            step == (Step::Ask { query: GlQuery::GenBuffer, task: Task::Buffer { kind: Kind::Index } }),
    {
        Step::Ask { query: GlQuery::GenBuffer, task: Task::Buffer { kind: Kind::Index } }
    }

    /// Starts the creation of a buffer for the uniform block `name` at
    /// `slot`.
    pub fn create_uniform_buffer(&self, slot: u32, name: &str) -> (step: Step)
        ensures
            ({
                &&& step matches Step::Ask { query, task }
                &&& query == GlQuery::GenBuffer
                &&& task matches Task::Buffer { kind }
                &&& kind matches Kind::Uniform(at, block)
                &&& at == slot
                &&& block@ == name@
            }),
    {
        Step::Ask {
            query: GlQuery::GenBuffer,
            task: Task::Buffer { kind: Kind::Uniform(slot, name.to_owned()) },
        }
    }

    /// Starts the creation of a texture.
    pub fn create_texture(&self, info: &TextureInfo) -> (step: Step)
        ensures
            step == (Step::Ask {
                query: GlQuery::GenTexture,
                task: Task::Texture { layout: info.spec_layout() },
            }),
    {
        Step::Ask { query: GlQuery::GenTexture, task: Task::Texture { layout: info.layout() } }
    }

    /// Starts the creation of a render target over texture `texture_id`,
    /// which must exist.
    pub fn create_render_texture(&self, texture_id: u64, info: &TextureInfo) -> (step: Step)
        ensures
            !self@.textures.contains_key(texture_id) ==> step == Step::Created(
                Err(GfxError::TextureNotFound { id: texture_id }),
            ),
            self@.textures.contains_key(texture_id) ==> step == (Step::Ask {
                query: GlQuery::GenFramebuffer,
                task: Task::RenderTarget {
                    setup: FboSetup::Framebuffer {
                        texture: self@.textures[texture_id].texture,
                        depth_info: if info.depth {
                            Some(DepthInfo { width: info.width, height: info.height })
                        } else {
                            None
                        },
                    },
                    size: self@.textures[texture_id].size,
                },
            }),
    {
        let texture = match self.textures.get(&texture_id) {
            Some(texture) => texture,
            None => {
                return Step::Created(Err(GfxError::TextureNotFound { id: texture_id }));
            },
        };
        match InnerRenderTexture::new(texture.texture, &info.layout()) {
            FboStep::Ask { query, setup } => Step::Ask {
                query,
                task: Task::RenderTarget { setup, size: texture.size },
            },
            FboStep::Done(_) => Step::Created(Err(GfxError::UnexpectedReply)),
        }
    }

    /// Starts reading a rectangle of texture `texture` back, which must
    /// exist.
    pub fn read_pixels(&self, texture: u64, opts: &TextureRead) -> (step: Step)
        ensures
            !self@.textures.contains_key(texture) ==> step == Step::Finished(
                Err(GfxError::InvalidTexture { id: texture }),
            ),
            self@.textures.contains_key(texture) ==> step == (Step::Ask {
                query: GlQuery::GenFramebuffer,
                task: Task::ReadPixels {
                    setup: ReadSetup::Framebuffer {
                        texture: self@.textures[texture].texture,
                        opts: *opts,
                    },
                },
            }),
    {
        match self.textures.get(&texture) {
            Some(found) => Step::Ask {
                query: GlQuery::GenFramebuffer,
                task: Task::ReadPixels {
                    setup: ReadSetup::Framebuffer { texture: found.texture, opts: *opts },
                },
            },
            None => Step::Finished(Err(GfxError::InvalidTexture { id: texture })),
        }
    }

    /// Takes a generated buffer into the table.
    pub fn register_buffer(&mut self, kind: Kind, name: u32, calls: &mut Vec<GlCall>) -> (result:
        Result<u64, GfxError>)
        ensures
            final(self)@ == old(self)@.register_buffer(kind, name).0,
            final(calls)@ == old(calls)@ + old(self)@.register_buffer(kind, name).1,
            result == old(self)@.register_buffer(kind, name).2,
            old(self)@.wf() ==> (result matches Ok(id) ==> !old(self)@.buffers.contains_key(id)),
            old(self)@.wf() ==> final(self)@.wf(),
    {
        if self.buffer_count == u64::MAX {
            calls.push(GlCall::DeleteBuffer { buffer: name });
            assert(calls@ =~= old(calls)@ + seq![GlCall::DeleteBuffer { buffer: name }]);
            return Err(GfxError::IdsExhausted);
        }
        let mut inner_buffer = match InnerBuffer::new(name, kind, true) {
            Ok(buffer) => buffer,
            Err(error) => {
                return Err(error);
            },
        };
        inner_buffer.bind(Some(self.current_pipeline), calls);
        self.buffer_count = self.buffer_count + 1;
        self.buffers.insert(self.buffer_count, inner_buffer);
        Ok(self.buffer_count)
    }

    /// Sets a generated texture up and takes it into the table.
    pub fn register_texture(&mut self, layout: &TextureLayout, name: u32, calls: &mut Vec<GlCall>) -> (result:
        Result<u64, GfxError>)
        ensures
            final(self)@ == old(self)@.register_texture(*layout, name).0,
            final(calls)@ == old(calls)@ + old(self)@.register_texture(*layout, name).1,
            result == old(self)@.register_texture(*layout, name).2,
            old(self)@.wf() ==> (result matches Ok(id) ==> !old(self)@.textures.contains_key(id)),
            old(self)@.wf() ==> final(self)@.wf(),
    {
        if self.texture_count == u64::MAX {
            calls.push(GlCall::DeleteTexture { texture: name });
            assert(calls@ =~= old(calls)@ + seq![GlCall::DeleteTexture { texture: name }]);
            return Err(GfxError::IdsExhausted);
        }
        let inner_texture = match InnerTexture::new(name, layout, calls) {
            Ok(texture) => texture,
            Err(error) => {
                return Err(error);
            },
        };
        self.texture_count = self.texture_count + 1;
        self.textures.insert(self.texture_count, inner_texture);
        Ok(self.texture_count)
    }

    /// Takes a finished framebuffer into the table.
    pub fn register_target(&mut self, target: InnerRenderTexture, calls: &mut Vec<GlCall>) -> (result:
        Result<u64, GfxError>)
        ensures
            final(self)@ == old(self)@.register_target(target).0,
            final(calls)@ == old(calls)@ + old(self)@.register_target(target).1,
            result == old(self)@.register_target(target).2,
            old(self)@.wf() ==> (result matches Ok(id) ==> !old(self)@.render_targets.contains_key(id)),
            old(self)@.wf() ==> final(self)@.wf(),
    {
        if self.render_target_count == u64::MAX {
            target.clean(calls);
            return Err(GfxError::IdsExhausted);
        }
        self.render_target_count = self.render_target_count + 1;
        self.render_targets.insert(self.render_target_count, target);
        assert(calls@ =~= old(calls)@ + Seq::<GlCall>::empty());
        Ok(self.render_target_count)
    }

    /// Takes a finished pipeline into the table and makes it current.
    pub fn register_pipeline(
        &mut self,
        pipeline: InnerPipeline,
        options: &PipelineOptions,
        calls: &mut Vec<GlCall>,
    ) -> (result: Result<u64, GfxError>)
        ensures
            final(self)@ == old(self)@.register_pipeline(pipeline, *options).0,
            final(calls)@ == old(calls)@ + old(self)@.register_pipeline(pipeline, *options).1,
            result == old(self)@.register_pipeline(pipeline, *options).2,
            old(self)@.wf() ==> (result matches Ok(id) ==> !old(self)@.pipelines.contains_key(id)),
            old(self)@.wf() ==> final(self)@.wf(),
    {
        if self.pipeline_count == u64::MAX {
            pipeline.clean(calls);
            return Err(GfxError::IdsExhausted);
        }
        self.pipeline_count = self.pipeline_count + 1;
        self.pipelines.insert(self.pipeline_count, pipeline);
        let id = self.pipeline_count;
        self.set_pipeline(id, options, calls);
        proof {
            assert(self@.pipelines =~= old(self)@.register_pipeline(pipeline, *options).0.pipelines);
        }
        Ok(id)
    }

    /// Takes the operation `task` on with the native reply to its query.
    ///
    /// A creation that comes to its end takes the new resource into its
    /// table under the next id of its kind, an id that named nothing
    /// before; any step before the end leaves the state alone. A reply of
    /// the wrong kind ends the operation with `UnexpectedReply`.
    pub fn resume(&mut self, task: Task, reply: GlReply, calls: &mut Vec<GlCall>) -> (step: Step)
        ensures
            match task {
                Task::Pipeline { setup, options } => old(self)@.pipeline_resumed(
                    setup,
                    options,
                    reply,
                    old(calls)@,
                    final(self)@,
                    final(calls)@,
                    step,
                ),
                Task::Buffer { kind } => match reply {
                    GlReply::Name(name) => {
                        &&& final(self)@ == old(self)@.register_buffer(kind, name).0
                        &&& final(calls)@ == old(calls)@ + old(self)@.register_buffer(kind, name).1
                        &&& step == Step::Created(old(self)@.register_buffer(kind, name).2)
                    },
                    _ => {
                        &&& final(self)@ == old(self)@
                        &&& final(calls)@ == old(calls)@
                        &&& step == Step::Created(Err(GfxError::UnexpectedReply))
                    },
                },
                Task::Texture { layout } => match reply {
                    GlReply::Name(name) => {
                        &&& final(self)@ == old(self)@.register_texture(layout, name).0
                        &&& final(calls)@ == old(calls)@ + old(self)@.register_texture(
                            layout,
                            name,
                        ).1
                        &&& step == Step::Created(old(self)@.register_texture(layout, name).2)
                    },
                    _ => {
                        &&& final(self)@ == old(self)@
                        &&& final(calls)@ == old(calls)@
                        &&& step == Step::Created(Err(GfxError::UnexpectedReply))
                    },
                },
                Task::RenderTarget { setup, size } => {
                    &&& final(self)@ == old(self)@.target_resumed(setup, size, reply).0
                    &&& final(calls)@ == old(calls)@ + old(self)@.target_resumed(
                        setup,
                        size,
                        reply,
                    ).1
                    &&& step == old(self)@.target_resumed(setup, size, reply).2
                },
                Task::ReadPixels { setup } => {
                    &&& final(self)@ == old(self)@
                    &&& final(calls)@ == old(calls)@ + read_step(setup, reply).0
                    &&& step == read_step(setup, reply).1
                },
            },
            old(self)@.wf() ==> final(self)@.wf(),
    {
        match task {
            Task::Pipeline { setup, options } => {
                match create_pipeline(setup, reply, calls) {
                    PipelineStep::Ask { query, setup } => Step::Ask {
                        query,
                        task: Task::Pipeline { setup, options },
                    },
                    PipelineStep::Done(Ok(pipeline)) => Step::Created(
                        self.register_pipeline(pipeline, &options, calls),
                    ),
                    PipelineStep::Done(Err(error)) => Step::Created(Err(error)),
                }
            },
            Task::Buffer { kind } => match reply {
                GlReply::Name(name) => Step::Created(self.register_buffer(kind, name, calls)),
                _ => Step::Created(Err(GfxError::UnexpectedReply)),
            },
            Task::Texture { layout } => match reply {
                GlReply::Name(name) => Step::Created(self.register_texture(&layout, name, calls)),
                _ => Step::Created(Err(GfxError::UnexpectedReply)),
            },
            Task::RenderTarget { setup, size } => {
                match create_fbo(setup, reply, calls) {
                    FboStep::Ask { query, setup } => Step::Ask {
                        query,
                        task: Task::RenderTarget { setup, size },
                    },
                    FboStep::Done(Ok((fbo, depth_texture))) => {
                        let result = self.register_target(
                            InnerRenderTexture { fbo, depth_texture, size },
                            calls,
                        );
                        assert(calls@ =~= old(calls)@ + old(self)@.target_resumed(
                            setup,
                            size,
                            reply,
                        ).1);
                        Step::Created(result)
                    },
                    FboStep::Done(Err(error)) => Step::Created(Err(error)),
                }
            },
            Task::ReadPixels { setup } => read_back(setup, reply, calls),
        }
    }
}

/// Asks for a clear of what is named.
pub fn clear(
    color: &Option<Color>,
    depth: &Option<u32>,
    stencil: &Option<i32>,
    calls: &mut Vec<GlCall>,
)
    ensures
        final(calls)@ == old(calls)@ + clear_calls(*color, *depth, *stencil),
{
    let mut mask: u32 = 0;
    if let Some(color) = color {
        mask = mask | gl::COLOR_BUFFER_BIT;
        calls.push(GlCall::ClearColor { r: color.r, g: color.g, b: color.b, a: color.a });
    }
    if let Some(depth) = *depth {
        mask = mask | gl::DEPTH_BUFFER_BIT;
        calls.push(GlCall::Enable { cap: gl::DEPTH_TEST });
        calls.push(GlCall::DepthMask { flag: true });
        calls.push(GlCall::ClearDepthf { depth });
    }
    if let Some(stencil) = *stencil {
        mask = mask | gl::STENCIL_BUFFER_BIT;
        calls.push(GlCall::Enable { cap: gl::STENCIL_TEST });
        calls.push(GlCall::StencilMask { mask: 0xff });
        calls.push(GlCall::ClearStencil { stencil });
    }
    proof {
        assert(0u32 | 0x4000u32 == 0x4000u32) by (bit_vector);
        assert(0u32 | 0x0100u32 == 0x0100u32) by (bit_vector);
        assert(0u32 | 0x0400u32 == 0x0400u32) by (bit_vector);
        assert(0x4000u32 | 0x0100u32 == 0x4100u32) by (bit_vector);
        assert(0x4000u32 | 0x0400u32 == 0x4400u32) by (bit_vector);
        assert(0x0100u32 | 0x0400u32 == 0x0500u32) by (bit_vector);
        assert(0x4100u32 | 0x0400u32 == 0x4500u32) by (bit_vector);
        assert(mask == clear_mask(*color is Some, *depth is Some, *stencil is Some));
    }
    if mask != 0 {
        calls.push(GlCall::Clear { mask });
    }
    assert(calls@ =~= old(calls)@ + clear_calls(*color, *depth, *stencil));
}

/// Takes a read-back one step on with the native reply to the query of the
/// step before.
pub fn read_back(setup: ReadSetup, reply: GlReply, calls: &mut Vec<GlCall>) -> (step: Step)
    ensures
        final(calls)@ == old(calls)@ + read_step(setup, reply).0,
        step == read_step(setup, reply).1,
{
    match (setup, reply) {
        (ReadSetup::Framebuffer { texture, opts }, GlReply::Name(fbo)) => {
            calls.push(GlCall::BindFramebuffer { target: gl::FRAMEBUFFER, framebuffer: fbo });
            calls.push(
                GlCall::FramebufferTexture2D {
                    target: gl::FRAMEBUFFER,
                    attachment: gl::COLOR_ATTACHMENT0,
                    textarget: gl::TEXTURE_2D,
                    texture,
                    level: 0,
                },
            );
            assert(calls@ =~= old(calls)@ + read_step(setup, reply).0);
            Step::Ask {
                query: GlQuery::FramebufferStatus { target: gl::FRAMEBUFFER },
                task: Task::ReadPixels { setup: ReadSetup::Status { fbo, opts } },
            }
        },
        (ReadSetup::Status { fbo, opts }, GlReply::Status(status)) => {
            let can_read = status == gl::FRAMEBUFFER_COMPLETE;
            if can_read {
                calls.push(
                    GlCall::ReadPixels {
                        x: opts.x_offset,
                        y: opts.y_offset,
                        width: opts.width,
                        height: opts.height,
                        format: texture_format(&opts.format),
                        data_type: gl::UNSIGNED_BYTE,
                    },
                );
            }
            calls.push(GlCall::BindFramebuffer { target: gl::FRAMEBUFFER, framebuffer: 0 });
            calls.push(GlCall::DeleteFramebuffer { framebuffer: fbo });
            assert(calls@ =~= old(calls)@ + read_step(setup, reply).0);
            if can_read {
                Step::Finished(Ok(()))
            } else {
                Step::Finished(Err(GfxError::FramebufferIncomplete))
            }
        },
        _ => {
            assert(calls@ =~= old(calls)@ + read_step(setup, reply).0);
            Step::Finished(Err(GfxError::UnexpectedReply))
        },
    }
}

/// The text of a shader source, where the bytes are valid UTF-8.
///
/// Wraps `std::str::from_utf8`, which succeeds exactly on valid UTF-8 and
/// then returns the same bytes as a string slice.
#[verifier::external_body]
fn shader_text(source: &[u8]) -> (text: Option<&str>)
    ensures
        text is Some <==> valid_utf8(source@),
        text matches Some(text) ==> text.spec_bytes() == source@,
{
    match std::str::from_utf8(source) {
        Ok(text) => Some(text),
        Err(_) => None,
    }
}

} // verus!
