use gfx_device::gfx::buffer::{VertexAttr, VertexFormat, VertexStepMode};
use gfx_device::gfx::color::Color;
use gfx_device::gfx::commands::Commands;
use gfx_device::gfx::device::ResourceId;
use gfx_device::gfx::dpi::{DpiScale, UNIT};
use gfx_device::gfx::error::{ErrorKind, GfxError};
use gfx_device::gfx::limits::Limits;
use gfx_device::gfx::pipeline::{
    BlendMode, CompareMode, DepthStencil, DrawPrimitive, PipelineOptions, ShaderStage,
};
use gfx_device::gfx::texture::{
    TextureFilter, TextureFormat, TextureInfo, TextureRead, TextureUpdate,
};
use gfx_device::gfx_backend::{clear, GlesBackend, ReadSetup, Step, Task};
use gfx_device::gfx_backend::buffer::Kind;
use gfx_device::gfx_backend::gl;
use gfx_device::gfx_backend::gl::{uniform_block_binding, GlCall, GlQuery, GlReply};
use gfx_device::gfx_backend::pipeline::{
    create_program, create_shader, uniform_locations, InnerPipeline, PipelineSetup, PipelineStep,
};
use gfx_device::gfx_backend::render_target::{FboSetup, InnerRenderTexture};

/// A stand-in for the native API: it hands out names counting up from 1 and
/// answers status queries as it is told to.
struct Native {
    next_name: u32,
    vertex_status: i32,
    fragment_status: i32,
    link_status: i32,
    framebuffer_status: u32,
    locations: Vec<i32>,
    queries: Vec<GlQuery>,
    calls: Vec<GlCall>,
}

impl Native {
    fn new() -> Native {
        Native {
            next_name: 0,
            vertex_status: 1,
            fragment_status: 1,
            link_status: 1,
            framebuffer_status: gl::FRAMEBUFFER_COMPLETE,
            locations: vec![0, -1, 3],
            queries: Vec::new(),
            calls: Vec::new(),
        }
    }

    fn name(&mut self) -> u32 {
        self.next_name += 1;
        self.next_name
    }

    fn answer(&mut self, query: GlQuery) -> GlReply {
        let reply = match &query {
            GlQuery::GenBuffer
            | GlQuery::GenTexture
            | GlQuery::GenFramebuffer
            | GlQuery::GenVertexArray => GlReply::Name(self.name()),
            GlQuery::CompileShader { stage, source } => {
                let status =
                    if *stage == gl::VERTEX_SHADER { self.vertex_status } else { self.fragment_status };
                let log = if status == 1 { String::new() } else { format!("cannot compile {source}") };
                GlReply::Built { name: self.name(), status, log }
            }
            GlQuery::LinkProgram { .. } => {
                let log = if self.link_status == 1 { String::new() } else { "cannot link".to_string() };
                GlReply::Built { name: self.name(), status: self.link_status, log }
            }
            GlQuery::UniformLocations { .. } => GlReply::Locations(self.locations.clone()),
            GlQuery::FramebufferStatus { .. } => GlReply::Status(self.framebuffer_status),
        };
        self.queries.push(query);
        reply
    }

    fn drive(&mut self, backend: &mut GlesBackend, first: Step) -> Step {
        let mut step = first;
        loop {
            match step {
                Step::Ask { query, task } => {
                    let reply = self.answer(query);
                    let mut calls = Vec::new();
                    step = backend.resume(task, reply, &mut calls);
                    self.calls.extend(calls);
                }
                done => return done,
            }
        }
    }
}

fn backend() -> GlesBackend {
    GlesBackend::new(Limits { max_texture_size: 4096, max_uniform_blocks: 16 })
}

fn triangle_attrs() -> Vec<VertexAttr> {
    vec![VertexAttr::new(0, VertexFormat::Float32x3), VertexAttr::new(1, VertexFormat::Float32x3)]
}

fn default_bind_calls(vao: u32, program: u32) -> Vec<GlCall> {
    vec![
        GlCall::BindVertexArray { array: vao },
        GlCall::UseProgram { program },
        GlCall::Disable { cap: gl::STENCIL_TEST },
        GlCall::Enable { cap: gl::DEPTH_TEST },
        GlCall::DepthFunc { func: gl::ALWAYS },
        GlCall::DepthMask { flag: true },
        GlCall::ColorMask { r: true, g: true, b: true, a: true },
        GlCall::Disable { cap: gl::CULL_FACE },
        GlCall::Disable { cap: gl::BLEND },
    ]
}

fn end_calls() -> Vec<GlCall> {
    vec![
        GlCall::Disable { cap: gl::SCISSOR_TEST },
        GlCall::BindBuffer { target: gl::ARRAY_BUFFER, buffer: 0 },
        GlCall::BindBuffer { target: gl::ELEMENT_ARRAY_BUFFER, buffer: 0 },
        GlCall::BindBuffer { target: gl::UNIFORM_BUFFER, buffer: 0 },
        GlCall::BindVertexArray { array: 0 },
        GlCall::BindFramebuffer { target: gl::FRAMEBUFFER, framebuffer: 0 },
    ]
}

fn create_pipeline(backend: &mut GlesBackend, native: &mut Native) -> u64 {
    let first =
        backend.create_pipeline(b"vertex", b"fragment", &triangle_attrs(), PipelineOptions::default());
    match native.drive(backend, first) {
        Step::Created(Ok(id)) => id,
        other => panic!("no pipeline: {other:?}"),
    }
}

fn create_vertex_buffer(backend: &mut GlesBackend, native: &mut Native) -> u64 {
    let first = backend.create_vertex_buffer(&triangle_attrs(), VertexStepMode::Vertex);
    match native.drive(backend, first) {
        Step::Created(Ok(id)) => id,
        other => panic!("no buffer: {other:?}"),
    }
}

fn create_texture(backend: &mut GlesBackend, native: &mut Native, info: &TextureInfo) -> u64 {
    let first = backend.create_texture(info);
    match native.drive(backend, first) {
        Step::Created(Ok(id)) => id,
        other => panic!("no texture: {other:?}"),
    }
}

fn render(backend: &mut GlesBackend, commands: &[Commands], target: Option<u64>) -> Vec<GlCall> {
    let mut calls = Vec::new();
    backend.render(commands, target, &mut calls);
    calls
}

#[test]
fn new_backend_reports_its_limits() {
    let limits = Limits { max_texture_size: 4096, max_uniform_blocks: 16 };
    assert_eq!(GlesBackend::new(limits).limits(), limits);
    assert_eq!(Limits::default(), Limits { max_texture_size: 8192, max_uniform_blocks: 8 });
}

#[test]
fn shader_that_compiles_is_kept() {
    let mut calls = Vec::new();
    assert_eq!(create_shader(ShaderStage::Vertex, 4, 1, String::new(), &mut calls), Ok(4));
    assert!(calls.is_empty());
}

#[test]
fn shader_that_fails_is_deleted_and_reports_its_log() {
    let mut calls = Vec::new();
    assert_eq!(
        create_shader(ShaderStage::Fragment, 4, 0, "syntax error".to_string(), &mut calls),
        Err(GfxError::Shader { stage: ShaderStage::Fragment, log: "syntax error".to_string() })
    );
    assert_eq!(calls, vec![GlCall::DeleteShader { shader: 4 }]);
}

#[test]
fn program_that_links_is_kept() {
    let mut calls = Vec::new();
    assert_eq!(create_program(6, 1, String::new(), &mut calls), Ok(6));
    assert!(calls.is_empty());
}

#[test]
fn program_that_fails_is_deleted_and_reports_its_log() {
    let mut calls = Vec::new();
    assert_eq!(
        create_program(6, 0, "unresolved".to_string(), &mut calls),
        Err(GfxError::Link { log: "unresolved".to_string() })
    );
    assert_eq!(calls, vec![GlCall::DeleteProgram { program: 6 }]);
}

#[test]
fn uniforms_without_location_are_skipped() {
    assert_eq!(uniform_locations(&vec![0, -1, 3, -1, 7]), vec![0, 3, 7]);
    assert_eq!(uniform_locations(&vec![-1, -1]), Vec::<u32>::new());
    assert_eq!(uniform_locations(&vec![]), Vec::<u32>::new());
}

#[test]
fn pipeline_construction_starts_with_the_vertex_shader() {
    assert_eq!(
        InnerPipeline::new("vs", "fs"),
        PipelineStep::Ask {
            query: GlQuery::CompileShader { stage: gl::VERTEX_SHADER, source: "vs".to_string() },
            setup: PipelineSetup::Vertex { fragment_source: "fs".to_string() },
        }
    );
}

#[test]
fn pipeline_creation_walks_through_every_stage() {
    let mut backend = backend();
    let mut native = Native::new();
    let id = create_pipeline(&mut backend, &mut native);
    assert_eq!(id, 1);
    assert_eq!(
        native.queries,
        vec![
            GlQuery::CompileShader { stage: gl::VERTEX_SHADER, source: "vertex".to_string() },
            GlQuery::CompileShader { stage: gl::FRAGMENT_SHADER, source: "fragment".to_string() },
            GlQuery::LinkProgram { vertex: 1, fragment: 2 },
            GlQuery::UniformLocations { program: 3 },
            GlQuery::GenVertexArray,
        ]
    );
    let mut expected = vec![GlCall::BindVertexArray { array: 4 }];
    expected.extend(default_bind_calls(4, 3));
    assert_eq!(native.calls, expected);
    assert_eq!(backend.get_uniform_loc(0), Some(0));
    assert_eq!(backend.get_uniform_loc(1), Some(3));
    assert_eq!(backend.get_uniform_loc(2), None);
}

#[test]
fn pipeline_ids_count_up_from_one() {
    let mut backend = backend();
    let mut native = Native::new();
    assert_eq!(create_pipeline(&mut backend, &mut native), 1);
    assert_eq!(create_pipeline(&mut backend, &mut native), 2);
    assert_eq!(create_pipeline(&mut backend, &mut native), 3);
}

#[test]
fn vertex_shader_failure_ends_pipeline_creation() {
    let mut backend = backend();
    let mut native = Native::new();
    native.vertex_status = 0;
    let first =
        backend.create_pipeline(b"vertex", b"fragment", &triangle_attrs(), PipelineOptions::default());
    let done = native.drive(&mut backend, first);
    assert_eq!(
        done,
        Step::Created(Err(GfxError::Shader {
            stage: ShaderStage::Vertex,
            log: "cannot compile vertex".to_string()
        }))
    );
    assert_eq!(native.queries.len(), 1);
    assert_eq!(native.calls, vec![GlCall::DeleteShader { shader: 1 }]);
    assert_eq!(create_pipeline(&mut backend, &mut {
        let mut healthy = Native::new();
        healthy.next_name = 10;
        healthy
    }), 1);
}

#[test]
fn fragment_shader_failure_ends_pipeline_creation() {
    let mut backend = backend();
    let mut native = Native::new();
    native.fragment_status = 0;
    let first =
        backend.create_pipeline(b"vertex", b"fragment", &triangle_attrs(), PipelineOptions::default());
    let done = native.drive(&mut backend, first);
    assert_eq!(
        done,
        Step::Created(Err(GfxError::Shader {
            stage: ShaderStage::Fragment,
            log: "cannot compile fragment".to_string()
        }))
    );
    assert_eq!(native.queries.len(), 2);
    assert_eq!(native.calls, vec![GlCall::DeleteShader { shader: 2 }]);
}

#[test]
fn link_failure_ends_pipeline_creation() {
    let mut backend = backend();
    let mut native = Native::new();
    native.link_status = 0;
    let first =
        backend.create_pipeline(b"vertex", b"fragment", &triangle_attrs(), PipelineOptions::default());
    let done = native.drive(&mut backend, first);
    assert_eq!(done, Step::Created(Err(GfxError::Link { log: "cannot link".to_string() })));
    assert_eq!(native.queries.len(), 3);
    assert_eq!(native.calls, vec![GlCall::DeleteProgram { program: 3 }]);
}

#[test]
fn sources_that_are_not_utf8_are_refused_before_any_native_call() {
    let backend = backend();
    let attrs = triangle_attrs();
    assert_eq!(
        backend.create_pipeline(&[0xff, 0xfe], b"fragment", &attrs, PipelineOptions::default()),
        Step::Created(Err(GfxError::InvalidSource { stage: ShaderStage::Vertex }))
    );
    assert_eq!(
        backend.create_pipeline(b"vertex", &[0xc3, 0x28], &attrs, PipelineOptions::default()),
        Step::Created(Err(GfxError::InvalidSource { stage: ShaderStage::Fragment }))
    );
    assert_eq!(
        backend.create_pipeline(&[0x80], &[0x80], &attrs, PipelineOptions::default()),
        Step::Created(Err(GfxError::InvalidSource { stage: ShaderStage::Vertex }))
    );
}

#[test]
fn utf8_sources_reach_the_compiler_unchanged() {
    let backend = backend();
    let source = "void main() { /* héllo ✓ */ }";
    let step = backend.create_pipeline(
        source.as_bytes(),
        "fragment".as_bytes(),
        &triangle_attrs(),
        PipelineOptions::default(),
    );
    assert_eq!(
        step,
        Step::Ask {
            query: GlQuery::CompileShader { stage: gl::VERTEX_SHADER, source: source.to_string() },
            task: Task::Pipeline {
                setup: PipelineSetup::Vertex { fragment_source: "fragment".to_string() },
                options: PipelineOptions::default(),
            },
        }
    );
}

#[test]
fn a_reply_of_the_wrong_kind_ends_the_operation() {
    let mut backend = backend();
    let mut calls = Vec::new();
    let step = backend.create_index_buffer();
    let task = match step {
        Step::Ask { task, .. } => task,
        other => panic!("{other:?}"),
    };
    assert_eq!(
        backend.resume(task, GlReply::Status(0), &mut calls),
        Step::Created(Err(GfxError::UnexpectedReply))
    );
    assert!(calls.is_empty());
    let task = Task::Pipeline {
        setup: PipelineSetup::Fragment { vertex: 1 },
        options: PipelineOptions::default(),
    };
    assert_eq!(
        backend.resume(task, GlReply::Name(3), &mut calls),
        Step::Created(Err(GfxError::UnexpectedReply))
    );
    let task = Task::ReadPixels {
        setup: ReadSetup::Status {
            fbo: 1,
            opts: TextureRead {
                x_offset: 0,
                y_offset: 0,
                width: 1,
                height: 1,
                format: TextureFormat::Rgba32,
            },
        },
    };
    assert_eq!(
        backend.resume(task, GlReply::Name(3), &mut calls),
        Step::Finished(Err(GfxError::UnexpectedReply))
    );
    let task = Task::RenderTarget {
        setup: FboSetup::Status { fbo: 1, depth_texture: None },
        size: (1, 1),
    };
    assert_eq!(
        backend.resume(task, GlReply::Name(3), &mut calls),
        Step::Created(Err(GfxError::UnexpectedReply))
    );
    assert!(calls.is_empty());
}

#[test]
fn vertex_buffer_is_bound_with_its_layout_on_creation() {
    let mut backend = backend();
    let mut native = Native::new();
    let id = create_vertex_buffer(&mut backend, &mut native);
    assert_eq!(id, 1);
    assert_eq!(native.queries, vec![GlQuery::GenBuffer]);
    assert_eq!(native.calls.len(), 1 + 6);
    assert_eq!(native.calls[0], GlCall::BindBuffer { target: gl::ARRAY_BUFFER, buffer: 1 });
    assert_eq!(
        native.calls[2],
        GlCall::VertexAttribPointer {
            index: 0,
            size: 3,
            data_type: gl::FLOAT,
            normalized: false,
            stride: 24,
            offset: 0
        }
    );
}

#[test]
fn index_and_uniform_buffers_are_bound_on_creation() {
    let mut backend = backend();
    let mut native = Native::new();
    let first = backend.create_index_buffer();
    assert_eq!(first, Step::Ask { query: GlQuery::GenBuffer, task: Task::Buffer { kind: Kind::Index } });
    assert_eq!(native.drive(&mut backend, first), Step::Created(Ok(1)));
    let first = backend.create_uniform_buffer(2, "Locals");
    assert_eq!(
        first,
        Step::Ask {
            query: GlQuery::GenBuffer,
            task: Task::Buffer { kind: Kind::Uniform(2, "Locals".to_string()) }
        }
    );
    assert_eq!(native.drive(&mut backend, first), Step::Created(Ok(2)));
    assert_eq!(
        native.calls,
        vec![
            GlCall::BindBuffer { target: gl::ELEMENT_ARRAY_BUFFER, buffer: 1 },
            GlCall::BindBuffer { target: gl::UNIFORM_BUFFER, buffer: 2 },
            GlCall::BindBufferBase { target: gl::UNIFORM_BUFFER, index: 2, buffer: 2 },
        ]
    );
}

#[test]
fn buffer_upload_allocates_or_overwrites() {
    let mut backend = backend();
    let mut native = Native::new();
    let id = create_vertex_buffer(&mut backend, &mut native);
    let mut calls = Vec::new();
    backend.set_buffer_data(id, &[1, 2, 3, 4, 5, 6, 7, 8], &mut calls);
    assert_eq!(
        calls,
        vec![
            GlCall::BindBuffer { target: gl::ARRAY_BUFFER, buffer: 1 },
            GlCall::BufferData { target: gl::ARRAY_BUFFER, size: 8, usage: gl::DYNAMIC_DRAW },
        ]
    );
    let mut calls = Vec::new();
    backend.set_buffer_data(id, &[], &mut calls);
    assert_eq!(
        calls,
        vec![
            GlCall::BindBuffer { target: gl::ARRAY_BUFFER, buffer: 1 },
            GlCall::BufferSubData { target: gl::ARRAY_BUFFER, offset: 0, size: 0 },
        ]
    );
}

#[test]
fn buffer_upload_to_an_unknown_id_is_skipped() {
    let backend = backend();
    let mut calls = Vec::new();
    backend.set_buffer_data(77, &[1, 2, 3], &mut calls);
    assert!(calls.is_empty());
}

#[test]
fn texture_creation_registers_the_texture() {
    let mut backend = backend();
    let mut native = Native::new();
    let mut info = TextureInfo::default();
    info.width = 8;
    info.height = 4;
    info.min_filter = TextureFilter::Linear;
    let id = create_texture(&mut backend, &mut native, &info);
    assert_eq!(id, 1);
    assert_eq!(native.queries, vec![GlQuery::GenTexture]);
    assert_eq!(native.calls.len(), 7);
    assert_eq!(create_texture(&mut backend, &mut native, &info), 2);
}

#[test]
fn texture_update_writes_the_rectangle() {
    let mut backend = backend();
    let mut native = Native::new();
    let id = create_texture(&mut backend, &mut native, &TextureInfo::default());
    let bytes = [9u8; 16];
    let opts = TextureUpdate {
        x_offset: 1,
        y_offset: 2,
        width: 2,
        height: 2,
        format: TextureFormat::Rgba32,
        bytes: &bytes,
    };
    let mut calls = Vec::new();
    assert_eq!(backend.update_texture(id, &opts, &mut calls), Ok(()));
    assert_eq!(
        calls,
        vec![
            GlCall::BindTexture { target: gl::TEXTURE_2D, texture: 1 },
            GlCall::TexSubImage2D {
                target: gl::TEXTURE_2D,
                level: 0,
                x_offset: 1,
                y_offset: 2,
                width: 2,
                height: 2,
                format: gl::RGBA,
                data_type: gl::UNSIGNED_BYTE
            },
        ]
    );
}

#[test]
fn texture_update_of_an_unknown_id_is_an_invalid_lookup() {
    let backend = backend();
    let bytes = [0u8; 4];
    let opts = TextureUpdate {
        x_offset: 0,
        y_offset: 0,
        width: 1,
        height: 1,
        format: TextureFormat::Rgba32,
        bytes: &bytes,
    };
    let mut calls = Vec::new();
    let result = backend.update_texture(5, &opts, &mut calls);
    assert_eq!(result, Err(GfxError::InvalidTexture { id: 5 }));
    assert_eq!(result.unwrap_err().kind(), ErrorKind::InvalidHandleLookup);
    assert!(calls.is_empty());
}

#[test]
fn render_target_without_depth() {
    let mut backend = backend();
    let mut native = Native::new();
    let mut info = TextureInfo::default();
    info.width = 320;
    info.height = 200;
    let texture = create_texture(&mut backend, &mut native, &info);
    native.calls.clear();
    native.queries.clear();
    let first = backend.create_render_texture(texture, &info);
    assert_eq!(native.drive(&mut backend, first), Step::Created(Ok(1)));
    assert_eq!(
        native.queries,
        vec![GlQuery::GenFramebuffer, GlQuery::FramebufferStatus { target: gl::FRAMEBUFFER }]
    );
    assert_eq!(
        native.calls,
        vec![
            GlCall::BindFramebuffer { target: gl::FRAMEBUFFER, framebuffer: 2 },
            GlCall::FramebufferTexture2D {
                target: gl::FRAMEBUFFER,
                attachment: gl::COLOR_ATTACHMENT0,
                textarget: gl::TEXTURE_2D,
                texture: 1,
                level: 0
            },
            GlCall::ClearColor { r: 0, g: 0, b: 0, a: 0 },
            GlCall::Clear { mask: gl::COLOR_BUFFER_BIT },
            GlCall::BindFramebuffer { target: gl::FRAMEBUFFER, framebuffer: 0 },
        ]
    );
}

#[test]
fn render_target_with_depth_gets_a_depth_texture_of_its_size() {
    let mut backend = backend();
    let mut native = Native::new();
    let mut info = TextureInfo::default();
    info.width = 320;
    info.height = 200;
    info.depth = true;
    let texture = create_texture(&mut backend, &mut native, &info);
    native.calls.clear();
    native.queries.clear();
    let first = backend.create_render_texture(texture, &info);
    assert_eq!(native.drive(&mut backend, first), Step::Created(Ok(1)));
    assert_eq!(
        native.queries,
        vec![
            GlQuery::GenFramebuffer,
            GlQuery::GenTexture,
            GlQuery::FramebufferStatus { target: gl::FRAMEBUFFER }
        ]
    );
    assert!(native.calls.contains(&GlCall::FramebufferTexture2D {
        target: gl::FRAMEBUFFER,
        attachment: gl::DEPTH_ATTACHMENT,
        textarget: gl::TEXTURE_2D,
        texture: 3,
        level: 0
    }));
    assert!(native.calls.contains(&GlCall::TexImage2D {
        target: gl::TEXTURE_2D,
        level: 0,
        internal_format: gl::DEPTH_COMPONENT16,
        width: 320,
        height: 200,
        border: 0,
        format: gl::DEPTH_COMPONENT,
        data_type: gl::UNSIGNED_SHORT,
        with_pixels: false
    }));
    let mut calls = Vec::new();
    backend.clean(&[ResourceId::RenderTexture(1)], &mut calls);
    assert_eq!(
        calls,
        vec![GlCall::DeleteFramebuffer { framebuffer: 2 }, GlCall::DeleteTexture { texture: 3 }]
    );
}

#[test]
fn incomplete_render_target_is_not_registered() {
    let mut backend = backend();
    let mut native = Native::new();
    let info = TextureInfo::default();
    let texture = create_texture(&mut backend, &mut native, &info);
    native.framebuffer_status = 0x8CD6;
    let first = backend.create_render_texture(texture, &info);
    let done = native.drive(&mut backend, first);
    assert_eq!(done, Step::Created(Err(GfxError::FramebufferIncomplete)));
    native.framebuffer_status = gl::FRAMEBUFFER_COMPLETE;
    let first = backend.create_render_texture(texture, &info);
    assert_eq!(native.drive(&mut backend, first), Step::Created(Ok(1)));
}

#[test]
fn render_target_over_an_unknown_texture_is_refused() {
    let backend = backend();
    let step = backend.create_render_texture(12, &TextureInfo::default());
    assert_eq!(step, Step::Created(Err(GfxError::TextureNotFound { id: 12 })));
}

#[test]
fn reading_pixels_reads_then_tears_the_framebuffer_down() {
    let mut backend = backend();
    let mut native = Native::new();
    let texture = create_texture(&mut backend, &mut native, &TextureInfo::default());
    native.calls.clear();
    let opts =
        TextureRead { x_offset: 1, y_offset: 2, width: 3, height: 4, format: TextureFormat::Rgba32 };
    let first = backend.read_pixels(texture, &opts);
    assert_eq!(native.drive(&mut backend, first), Step::Finished(Ok(())));
    assert_eq!(
        native.calls,
        vec![
            GlCall::BindFramebuffer { target: gl::FRAMEBUFFER, framebuffer: 2 },
            GlCall::FramebufferTexture2D {
                target: gl::FRAMEBUFFER,
                attachment: gl::COLOR_ATTACHMENT0,
                textarget: gl::TEXTURE_2D,
                texture: 1,
                level: 0
            },
            GlCall::ReadPixels {
                x: 1,
                y: 2,
                width: 3,
                height: 4,
                format: gl::RGBA,
                data_type: gl::UNSIGNED_BYTE
            },
            GlCall::BindFramebuffer { target: gl::FRAMEBUFFER, framebuffer: 0 },
            GlCall::DeleteFramebuffer { framebuffer: 2 },
        ]
    );
}

#[test]
fn reading_pixels_from_an_incomplete_framebuffer_fails_and_leaves_nothing_behind() {
    let mut backend = backend();
    let mut native = Native::new();
    let texture = create_texture(&mut backend, &mut native, &TextureInfo::default());
    native.calls.clear();
    native.framebuffer_status = 0x8CD6;
    let opts =
        TextureRead { x_offset: 0, y_offset: 0, width: 1, height: 1, format: TextureFormat::Rgba32 };
    let first = backend.read_pixels(texture, &opts);
    let done = native.drive(&mut backend, first);
    assert_eq!(done, Step::Finished(Err(GfxError::FramebufferIncomplete)));
    assert_eq!(GfxError::FramebufferIncomplete.kind(), ErrorKind::FramebufferIncomplete);
    let generated = 2;
    assert_eq!(
        native.calls.last(),
        Some(&GlCall::DeleteFramebuffer { framebuffer: generated })
    );
    assert!(!native.calls.iter().any(|call| matches!(call, GlCall::ReadPixels { .. })));
    let made = native.queries.iter().filter(|query| **query == GlQuery::GenFramebuffer).count();
    let deleted = native
        .calls
        .iter()
        .filter(|call| matches!(call, GlCall::DeleteFramebuffer { .. }))
        .count();
    assert_eq!(made, deleted);
}

#[test]
fn reading_pixels_of_an_unknown_texture_is_an_invalid_lookup() {
    let backend = backend();
    let opts =
        TextureRead { x_offset: 0, y_offset: 0, width: 1, height: 1, format: TextureFormat::Rgba32 };
    assert_eq!(
        backend.read_pixels(3, &opts),
        Step::Finished(Err(GfxError::InvalidTexture { id: 3 }))
    );
}

#[test]
fn scissor_flips_the_vertical_origin() {
    let mut backend = backend();
    backend.set_size(1280, 720);
    let calls = render(
        &mut backend,
        &[Commands::Scissors { x: 10, y: 10, width: 100, height: 50 }],
        None,
    );
    assert_eq!(
        calls,
        vec![
            GlCall::Enable { cap: gl::SCISSOR_TEST },
            GlCall::Scissor { x: 10, y: 660, width: 100, height: 50 },
        ]
    );
}

#[test]
fn scissor_and_viewport_scale_by_the_dpi() {
    let mut backend = backend();
    backend.set_size(1280, 720);
    backend.set_dpi(DpiScale::from_raw(2 * UNIT));
    let calls = render(
        &mut backend,
        &[
            Commands::Scissors { x: 10, y: 10, width: 100, height: 50 },
            Commands::Viewport { x: 5, y: 6, width: 70, height: 80 },
        ],
        None,
    );
    assert_eq!(
        calls,
        vec![
            GlCall::Enable { cap: gl::SCISSOR_TEST },
            GlCall::Scissor { x: 20, y: 1320, width: 200, height: 100 },
            GlCall::Viewport { x: 10, y: 12, width: 140, height: 160 },
        ]
    );
}

#[test]
fn begin_on_the_surface_covers_it_at_the_dpi_and_clears() {
    let mut backend = backend();
    backend.set_size(800, 600);
    backend.set_dpi(DpiScale::from_raw(UNIT + UNIT / 2));
    let calls = render(
        &mut backend,
        &[Commands::Begin { color: Some(Color::blue()), depth: Some(0x3F80_0000), stencil: Some(0) }],
        None,
    );
    assert_eq!(
        calls,
        vec![
            GlCall::BindFramebuffer { target: gl::FRAMEBUFFER, framebuffer: 0 },
            GlCall::Viewport { x: 0, y: 0, width: 1200, height: 900 },
            GlCall::ClearColor { r: 0, g: 0, b: 0x3F80_0000, a: 0x3F80_0000 },
            GlCall::Enable { cap: gl::DEPTH_TEST },
            GlCall::DepthMask { flag: true },
            GlCall::ClearDepthf { depth: 0x3F80_0000 },
            GlCall::Enable { cap: gl::STENCIL_TEST },
            GlCall::StencilMask { mask: 0xff },
            GlCall::ClearStencil { stencil: 0 },
            GlCall::Clear { mask: 0x4000 | 0x0100 | 0x0400 },
        ]
    );
}

#[test]
fn begin_on_a_render_target_covers_it_at_a_scale_of_one() {
    let mut backend = backend();
    let mut native = Native::new();
    let mut info = TextureInfo::default();
    info.width = 320;
    info.height = 200;
    let texture = create_texture(&mut backend, &mut native, &info);
    let first = backend.create_render_texture(texture, &info);
    let target = match native.drive(&mut backend, first) {
        Step::Created(Ok(id)) => id,
        other => panic!("{other:?}"),
    };
    backend.set_size(800, 600);
    backend.set_dpi(DpiScale::from_raw(2 * UNIT));
    let calls =
        render(&mut backend, &[Commands::Begin { color: None, depth: None, stencil: None }], Some(target));
    assert_eq!(
        calls,
        vec![
            GlCall::BindFramebuffer { target: gl::FRAMEBUFFER, framebuffer: 2 },
            GlCall::Viewport { x: 0, y: 0, width: 320, height: 200 },
        ]
    );
    let calls =
        render(&mut backend, &[Commands::Begin { color: None, depth: None, stencil: None }], Some(99));
    assert_eq!(
        calls,
        vec![
            GlCall::BindFramebuffer { target: gl::FRAMEBUFFER, framebuffer: 0 },
            GlCall::Viewport { x: 0, y: 0, width: 1600, height: 1200 },
        ]
    );
}

#[test]
fn clear_touches_only_what_is_named() {
    let mut calls = Vec::new();
    clear(&None, &None, &None, &mut calls);
    assert!(calls.is_empty());
    clear(&None, &Some(0), &None, &mut calls);
    assert_eq!(
        calls,
        vec![
            GlCall::Enable { cap: gl::DEPTH_TEST },
            GlCall::DepthMask { flag: true },
            GlCall::ClearDepthf { depth: 0 },
            GlCall::Clear { mask: 0x0100 },
        ]
    );
    let mut calls = Vec::new();
    clear(&Some(Color::white()), &None, &Some(5), &mut calls);
    assert_eq!(calls.last(), Some(&GlCall::Clear { mask: 0x4400 }));
}

#[test]
fn size_command_changes_the_surface_for_later_commands() {
    let mut backend = backend();
    let calls = render(
        &mut backend,
        &[
            Commands::Size { width: 100, height: 300 },
            Commands::Scissors { x: 0, y: 0, width: 10, height: 100 },
        ],
        None,
    );
    assert_eq!(calls[1], GlCall::Scissor { x: 0, y: 200, width: 10, height: 100 });
}

#[test]
fn draws_are_indexed_only_after_an_index_buffer_is_bound() {
    let mut backend = backend();
    let mut native = Native::new();
    let first = backend.create_index_buffer();
    let index = match native.drive(&mut backend, first) {
        Step::Created(Ok(id)) => id,
        other => panic!("{other:?}"),
    };
    let calls = render(
        &mut backend,
        &[
            Commands::Draw { primitive: DrawPrimitive::Triangles, offset: 2, count: 3 },
            Commands::BindBuffer { id: index },
            Commands::Draw { primitive: DrawPrimitive::Lines, offset: 2, count: 6 },
            Commands::DrawInstanced {
                primitive: DrawPrimitive::TriangleStrip,
                offset: 2,
                count: 6,
                length: 9,
            },
            Commands::End,
            Commands::Draw { primitive: DrawPrimitive::LineStrip, offset: 0, count: 3 },
            Commands::DrawInstanced {
                primitive: DrawPrimitive::Triangles,
                offset: 1,
                count: 3,
                length: 4,
            },
        ],
        None,
    );
    let mut expected = vec![
        GlCall::DrawArrays { mode: gl::TRIANGLES, first: 2, count: 3 },
        GlCall::BindBuffer { target: gl::ELEMENT_ARRAY_BUFFER, buffer: 1 },
        GlCall::DrawElements { mode: gl::LINES, count: 6, index_type: gl::UNSIGNED_INT, offset: 8 },
        GlCall::DrawElementsInstanced {
            mode: gl::TRIANGLE_STRIP,
            count: 6,
            index_type: gl::UNSIGNED_INT,
            offset: 8,
            instances: 9,
        },
    ];
    expected.extend(end_calls());
    expected.push(GlCall::DrawArrays { mode: gl::LINE_STRIP, first: 0, count: 3 });
    expected.push(GlCall::DrawArraysInstanced {
        mode: gl::TRIANGLES,
        first: 1,
        count: 3,
        instances: 4,
    });
    assert_eq!(calls, expected);
}

#[test]
fn a_pipeline_switch_keeps_draws_indexed() {
    let mut backend = backend();
    let mut native = Native::new();
    let pipeline = create_pipeline(&mut backend, &mut native);
    let first = backend.create_index_buffer();
    let index = match native.drive(&mut backend, first) {
        Step::Created(Ok(id)) => id,
        other => panic!("{other:?}"),
    };
    let calls = render(
        &mut backend,
        &[
            Commands::Begin { color: None, depth: None, stencil: None },
            Commands::BindBuffer { id: index },
            Commands::Pipeline { id: pipeline, options: PipelineOptions::default() },
            Commands::Draw { primitive: DrawPrimitive::Triangles, offset: 3, count: 6 },
            Commands::DrawInstanced {
                primitive: DrawPrimitive::Triangles,
                offset: 3,
                count: 6,
                length: 2,
            },
            Commands::End,
            Commands::Pipeline { id: pipeline, options: PipelineOptions::default() },
            Commands::Draw { primitive: DrawPrimitive::Triangles, offset: 3, count: 6 },
        ],
        None,
    );
    let draws: Vec<&GlCall> = calls
        .iter()
        .filter(|call| {
            matches!(
                call,
                GlCall::DrawArrays { .. }
                    | GlCall::DrawElements { .. }
                    | GlCall::DrawElementsInstanced { .. }
                    | GlCall::DrawArraysInstanced { .. }
            )
        })
        .collect();
    assert_eq!(
        draws,
        vec![
            &GlCall::DrawElements {
                mode: gl::TRIANGLES,
                count: 6,
                index_type: gl::UNSIGNED_INT,
                offset: 12
            },
            &GlCall::DrawElementsInstanced {
                mode: gl::TRIANGLES,
                count: 6,
                index_type: gl::UNSIGNED_INT,
                offset: 12,
                instances: 2
            },
            &GlCall::DrawArrays { mode: gl::TRIANGLES, first: 3, count: 6 },
        ]
    );
}

#[test]
fn creating_a_pipeline_keeps_draws_indexed() {
    let mut backend = backend();
    let mut native = Native::new();
    let first = backend.create_index_buffer();
    let index = match native.drive(&mut backend, first) {
        Step::Created(Ok(id)) => id,
        other => panic!("{other:?}"),
    };
    render(&mut backend, &[Commands::BindBuffer { id: index }], None);
    create_pipeline(&mut backend, &mut native);
    let calls = render(
        &mut backend,
        &[Commands::Draw { primitive: DrawPrimitive::Lines, offset: 0, count: 2 }],
        None,
    );
    assert_eq!(
        calls,
        vec![GlCall::DrawElements {
            mode: gl::LINES,
            count: 2,
            index_type: gl::UNSIGNED_INT,
            offset: 0
        }]
    );
}

#[test]
fn vertex_layout_is_specified_again_only_when_the_pipeline_changes() {
    let mut backend = backend();
    let mut native = Native::new();
    let first = create_pipeline(&mut backend, &mut native);
    let second = create_pipeline(&mut backend, &mut native);
    let buffer = create_vertex_buffer(&mut backend, &mut native);
    let bind = |backend: &mut GlesBackend| render(backend, &[Commands::BindBuffer { id: buffer }], None);
    let set = |backend: &mut GlesBackend, id: u64| {
        render(backend, &[Commands::Pipeline { id, options: PipelineOptions::default() }], None);
    };
    assert_eq!(bind(&mut backend).len(), 1);
    set(&mut backend, first);
    assert_eq!(bind(&mut backend).len(), 1 + 6);
    assert_eq!(bind(&mut backend).len(), 1);
    set(&mut backend, first);
    assert_eq!(bind(&mut backend).len(), 1);
    set(&mut backend, second);
    assert_eq!(bind(&mut backend).len(), 1 + 6);
    assert_eq!(bind(&mut backend).len(), 1);
}

#[test]
fn uniform_block_is_bound_once_per_buffer() {
    let mut backend = backend();
    let mut native = Native::new();
    let pipeline = create_pipeline(&mut backend, &mut native);
    let first = backend.create_uniform_buffer(1, "Locals");
    let buffer = match native.drive(&mut backend, first) {
        Step::Created(Ok(id)) => id,
        other => panic!("{other:?}"),
    };
    let calls = render(&mut backend, &[Commands::BindBuffer { id: buffer }], None);
    assert_eq!(
        calls,
        vec![
            GlCall::BindUniformBlock { program: 3, name: "Locals".to_string(), slot: 1 },
            GlCall::BindBuffer { target: gl::UNIFORM_BUFFER, buffer: 5 },
            GlCall::BindBufferBase { target: gl::UNIFORM_BUFFER, index: 1, buffer: 5 },
        ]
    );
    let calls = render(&mut backend, &[Commands::BindBuffer { id: buffer }], None);
    assert_eq!(
        calls,
        vec![
            GlCall::BindBuffer { target: gl::UNIFORM_BUFFER, buffer: 5 },
            GlCall::BindBufferBase { target: gl::UNIFORM_BUFFER, index: 1, buffer: 5 },
        ]
    );
    assert_eq!(pipeline, 1);
}

#[test]
fn uniform_block_waits_for_a_pipeline() {
    let mut backend = backend();
    let mut native = Native::new();
    let first = backend.create_uniform_buffer(0, "Locals");
    let buffer = match native.drive(&mut backend, first) {
        Step::Created(Ok(id)) => id,
        other => panic!("{other:?}"),
    };
    let calls = render(&mut backend, &[Commands::BindBuffer { id: buffer }], None);
    assert_eq!(calls.len(), 2);
    create_pipeline(&mut backend, &mut native);
    let calls = render(&mut backend, &[Commands::BindBuffer { id: buffer }], None);
    assert_eq!(calls.len(), 3);
    assert_eq!(
        calls[0],
        GlCall::BindUniformBlock { program: 4, name: "Locals".to_string(), slot: 0 }
    );
}

#[test]
fn block_index_decides_the_binding() {
    assert_eq!(
        uniform_block_binding(3, 2, 1),
        Some(GlCall::UniformBlockBinding { program: 3, index: 2, binding: 1 })
    );
    assert_eq!(
        uniform_block_binding(3, 0, 0),
        Some(GlCall::UniformBlockBinding { program: 3, index: 0, binding: 0 })
    );
    assert_eq!(uniform_block_binding(3, gl::INVALID_INDEX, 1), None);
}

#[test]
fn texture_binding_goes_through_the_uniforms_of_the_current_pipeline() {
    let mut backend = backend();
    let mut native = Native::new();
    native.locations = vec![-1, 5, 9];
    create_pipeline(&mut backend, &mut native);
    let texture = create_texture(&mut backend, &mut native, &TextureInfo::default());
    let calls =
        render(&mut backend, &[Commands::BindTexture { id: texture, slot: 2, location: 1 }], None);
    assert_eq!(
        calls,
        vec![
            GlCall::ActiveTexture { unit: gl::TEXTURE2 },
            GlCall::BindTexture { target: gl::TEXTURE_2D, texture: 5 },
            GlCall::Uniform1i { location: 9, value: 2 },
        ]
    );
}

#[test]
fn commands_that_miss_their_target_are_skipped_and_the_rest_runs() {
    let mut backend = backend();
    let mut native = Native::new();
    create_pipeline(&mut backend, &mut native);
    let texture = create_texture(&mut backend, &mut native, &TextureInfo::default());
    let calls = render(
        &mut backend,
        &[
            Commands::Pipeline { id: 40, options: PipelineOptions::default() },
            Commands::BindBuffer { id: 41 },
            Commands::BindTexture { id: 42, slot: 0, location: 0 },
            Commands::BindTexture { id: texture, slot: 8, location: 0 },
            Commands::BindTexture { id: texture, slot: 0, location: 7 },
            Commands::Draw { primitive: DrawPrimitive::Triangles, offset: 0, count: 3 },
        ],
        None,
    );
    assert_eq!(calls, vec![GlCall::DrawArrays { mode: gl::TRIANGLES, first: 0, count: 3 }]);
}

#[test]
fn pipeline_command_applies_its_own_options() {
    let mut backend = backend();
    let mut native = Native::new();
    let pipeline = create_pipeline(&mut backend, &mut native);
    let mut options = PipelineOptions::default();
    options.color_blend = Some(BlendMode::normal());
    options.depth_stencil = DepthStencil { write: false, compare: CompareMode::Less };
    let calls = render(&mut backend, &[Commands::Pipeline { id: pipeline, options }], None);
    assert_eq!(
        calls,
        vec![
            GlCall::BindVertexArray { array: 4 },
            GlCall::UseProgram { program: 3 },
            GlCall::Disable { cap: gl::STENCIL_TEST },
            GlCall::Enable { cap: gl::DEPTH_TEST },
            GlCall::DepthFunc { func: gl::LESS },
            GlCall::DepthMask { flag: false },
            GlCall::ColorMask { r: true, g: true, b: true, a: true },
            GlCall::Disable { cap: gl::CULL_FACE },
            GlCall::Enable { cap: gl::BLEND },
            GlCall::BlendFunc { sfactor: gl::SRC_ALPHA, dfactor: gl::ONE_MINUS_SRC_ALPHA },
            GlCall::BlendEquation { mode: gl::FUNC_ADD },
        ]
    );
}

#[test]
fn a_triangle_pass_executes_in_recorded_order_and_replays_identically() {
    let mut backend = backend();
    let mut native = Native::new();
    let pipeline = create_pipeline(&mut backend, &mut native);
    let buffer = create_vertex_buffer(&mut backend, &mut native);
    backend.set_size(640, 480);
    let commands = [
        Commands::Begin { color: Some(Color::blue()), depth: None, stencil: None },
        Commands::Pipeline { id: pipeline, options: PipelineOptions::default() },
        Commands::BindBuffer { id: buffer },
        Commands::Draw { primitive: DrawPrimitive::Triangles, offset: 0, count: 3 },
        Commands::End,
    ];
    let calls = render(&mut backend, &commands, None);
    let mut expected = vec![
        GlCall::BindFramebuffer { target: gl::FRAMEBUFFER, framebuffer: 0 },
        GlCall::Viewport { x: 0, y: 0, width: 640, height: 480 },
        GlCall::ClearColor { r: 0, g: 0, b: 0x3F80_0000, a: 0x3F80_0000 },
        GlCall::Clear { mask: gl::COLOR_BUFFER_BIT },
    ];
    expected.extend(default_bind_calls(4, 3));
    expected.push(GlCall::BindBuffer { target: gl::ARRAY_BUFFER, buffer: 5 });
    expected.push(GlCall::DrawArrays { mode: gl::TRIANGLES, first: 0, count: 3 });
    expected.extend(end_calls());
    assert_eq!(calls, expected);
    let replay = render(&mut backend, &commands, None);
    assert_eq!(replay, expected);
}

#[test]
fn rendering_a_list_is_rendering_its_parts_in_turn() {
    let commands = [
        Commands::Size { width: 300, height: 200 },
        Commands::Begin { color: Some(Color::black()), depth: None, stencil: None },
        Commands::Scissors { x: 1, y: 2, width: 3, height: 4 },
        Commands::Draw { primitive: DrawPrimitive::Triangles, offset: 0, count: 3 },
        Commands::End,
    ];
    let mut whole = backend();
    let all = render(&mut whole, &commands, None);
    for split in 0..=commands.len() {
        let mut parts = backend();
        let mut calls = render(&mut parts, &commands[..split], None);
        calls.extend(render(&mut parts, &commands[split..], None));
        assert_eq!(calls, all);
    }
}

#[test]
fn cleaning_deletes_each_resource_from_its_own_table() {
    let mut backend = backend();
    let mut native = Native::new();
    let pipeline = create_pipeline(&mut backend, &mut native);
    let buffer = create_vertex_buffer(&mut backend, &mut native);
    let texture = create_texture(&mut backend, &mut native, &TextureInfo::default());
    let mut calls = Vec::new();
    backend.clean(
        &[ResourceId::Buffer(buffer), ResourceId::Texture(texture), ResourceId::Pipeline(pipeline)],
        &mut calls,
    );
    assert_eq!(
        calls,
        vec![
            GlCall::DeleteBuffer { buffer: 5 },
            GlCall::DeleteTexture { texture: 6 },
            GlCall::DeleteShader { shader: 1 },
            GlCall::DeleteShader { shader: 2 },
            GlCall::DeleteProgram { program: 3 },
            GlCall::DeleteVertexArray { array: 4 },
        ]
    );
    let calls = render(
        &mut backend,
        &[
            Commands::Pipeline { id: pipeline, options: PipelineOptions::default() },
            Commands::BindBuffer { id: buffer },
            Commands::BindTexture { id: texture, slot: 0, location: 0 },
        ],
        None,
    );
    assert!(calls.is_empty());
    let mut calls = Vec::new();
    backend.clean(
        &[ResourceId::Buffer(buffer), ResourceId::Texture(texture), ResourceId::Pipeline(pipeline)],
        &mut calls,
    );
    assert!(calls.is_empty());
}

#[test]
fn cleaning_goes_by_kind_not_by_number() {
    let mut backend = backend();
    let mut native = Native::new();
    let buffer = create_vertex_buffer(&mut backend, &mut native);
    let texture = create_texture(&mut backend, &mut native, &TextureInfo::default());
    assert_eq!(buffer, texture);
    let mut calls = Vec::new();
    backend.clean(&[ResourceId::Texture(texture), ResourceId::Pipeline(buffer)], &mut calls);
    assert_eq!(calls, vec![GlCall::DeleteTexture { texture: 2 }]);
    let calls = render(&mut backend, &[Commands::BindBuffer { id: buffer }], None);
    assert_eq!(calls.len(), 1);
}

#[test]
fn ids_are_not_reused_after_cleaning() {
    let mut backend = backend();
    let mut native = Native::new();
    let first = create_vertex_buffer(&mut backend, &mut native);
    let second = create_vertex_buffer(&mut backend, &mut native);
    let mut calls = Vec::new();
    backend.clean(&[ResourceId::Buffer(first), ResourceId::Buffer(second)], &mut calls);
    let third = create_vertex_buffer(&mut backend, &mut native);
    assert_eq!((first, second, third), (1, 2, 3));
}

#[test]
fn single_cleanups_free_the_native_objects() {
    let mut backend = backend();
    let mut native = Native::new();
    let buffer = create_vertex_buffer(&mut backend, &mut native);
    let mut calls = Vec::new();
    backend.clean_buffer(buffer, &mut calls);
    backend.clean_buffer(buffer, &mut calls);
    backend.clean_texture(1, &mut calls);
    backend.clean_pipeline(1, &mut calls);
    backend.clean_render_target(1, &mut calls);
    assert_eq!(calls, vec![GlCall::DeleteBuffer { buffer: 1 }]);
    let target = InnerRenderTexture { fbo: 3, depth_texture: None, size: (1, 1) };
    let mut calls = Vec::new();
    target.clean(&mut calls);
    target.bind(&mut calls);
    assert_eq!(
        calls,
        vec![
            GlCall::DeleteFramebuffer { framebuffer: 3 },
            GlCall::BindFramebuffer { target: gl::FRAMEBUFFER, framebuffer: 3 }
        ]
    );
}
