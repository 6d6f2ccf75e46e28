//! Pipelines on the native side: building one step by step from what the
//! native API reports, and turning pipeline options into state changes.

use crate::gfx::buffer::{
    lemma_offset_bounds, lemma_offset_monotone, lemma_offsets_increase, offset_of, stride_of,
    VertexAttr, VertexStepMode,
};
use crate::gfx::error::GfxError;
use crate::gfx::pipeline::{
    BlendMode, CompareMode, PipelineOptions, ShaderStage, StencilAction, StencilOptions,
};
use crate::gfx_backend::gl;
use crate::gfx_backend::gl::{GlCall, GlQuery, GlReply};
use crate::gfx_backend::to_gl::{ToGl, ToOptionalGl};
use vstd::prelude::*;

verus! {

/// The native objects behind one pipeline.
#[derive(Debug, PartialEq, Eq)]
pub struct InnerPipeline {
    pub vertex: u32,
    pub fragment: u32,
    pub program: u32,
    pub vao: u32,
    /// The location of each active uniform that has one, in index order.
    pub uniform_locations: Vec<u32>,
}

/// One vertex attribute as the native API wants it specified.
#[derive(Clone, Copy, Debug, PartialEq, Eq, Structural)]
pub struct InnerAttr {
    pub location: u32,
    pub size: i32,
    pub data_type: u32,
    pub normalized: bool,
    pub offset: i32,
}

/// The attribute of the native layout that stands for `attr` placed `offset`
/// bytes into the vertex.
pub open spec fn inner_attr(attr: VertexAttr, offset: int) -> InnerAttr {
    InnerAttr {
        location: attr.location,
        size: attr.format.spec_size(),
        data_type: attr.format.gl_value(),
        normalized: attr.format.spec_normalized(),
        offset: offset as i32,
    }
}

/// The three calls that specify one attribute.
pub open spec fn attr_calls(attr: InnerAttr, stride: i32, divisor: u32) -> Seq<GlCall> {
    seq![
        GlCall::EnableVertexAttribArray { index: attr.location },
        GlCall::VertexAttribPointer {
            index: attr.location,
            size: attr.size,
            data_type: attr.data_type,
            normalized: attr.normalized,
            stride,
            offset: attr.offset,
        },
        GlCall::VertexAttribDivisor { index: attr.location, divisor },
    ]
}

/// The calls that specify the first `n` attributes of `attrs`, in order.
pub open spec fn layout_calls(attrs: Seq<InnerAttr>, stride: i32, divisor: u32, n: int) -> Seq<
    GlCall,
>
    decreases n,
{
    if n <= 0 {
        Seq::empty()
    } else {
        layout_calls(attrs, stride, divisor, n - 1) + attr_calls(attrs[n - 1], stride, divisor)
    }
}

impl InnerAttr {
    /// The native form of `attr` placed `offset` bytes into the vertex.
    pub fn from(attr: &VertexAttr, offset: i32) -> (inner: InnerAttr)
        ensures
            inner == inner_attr(*attr, offset as int),
    {
        InnerAttr {
            location: attr.location,
            size: attr.format.size(),
            data_type: attr.format.to_gl(),
            normalized: attr.format.normalized(),
            offset,
        }
    }

    /// Asks for this attribute to be enabled and pointed into a vertex of
    /// `stride` bytes.
    pub fn enable(&self, stride: i32, vertex_step_mode: u32, calls: &mut Vec<GlCall>)
        ensures
            final(calls)@ == old(calls)@ + attr_calls(*self, stride, vertex_step_mode),
    {
        calls.push(GlCall::EnableVertexAttribArray { index: self.location });
        calls.push(
            GlCall::VertexAttribPointer {
                index: self.location,
                size: self.size,
                data_type: self.data_type,
                normalized: self.normalized,
                stride,
                offset: self.offset,
            },
        );
        calls.push(GlCall::VertexAttribDivisor { index: self.location, divisor: vertex_step_mode });
        assert(calls@ =~= old(calls)@ + attr_calls(*self, stride, vertex_step_mode));
    }
}

/// Lays the attributes out one after the other: each starts where the one
/// before it ends, and the stride is where the last one ends.
pub fn get_inner_attrs(attrs: &[VertexAttr]) -> (layout: (i32, Vec<InnerAttr>))
    requires
        stride_of(attrs@) <= i32::MAX,
    ensures
        layout.0 == stride_of(attrs@),
        layout.1@.len() == attrs@.len(),
        forall|i: int|
            0 <= i < attrs@.len() ==> #[trigger] layout.1@[i] == inner_attr(
                attrs@[i],
                offset_of(attrs@, i),
            ),
        forall|i: int, j: int|
            0 <= i < j < attrs@.len() ==> #[trigger] layout.1@[i].offset < #[trigger] layout.1@[j].offset,
{
    let mut stride: i32 = 0;
    let mut inner: Vec<InnerAttr> = Vec::new();
    let mut i: usize = 0;
    while i < attrs.len()
        invariant
            0 <= i <= attrs@.len(),
            stride_of(attrs@) <= i32::MAX,
            stride == offset_of(attrs@, i as int),
            inner@.len() == i,
            forall|k: int|
                0 <= k < i ==> #[trigger] inner@[k] == inner_attr(attrs@[k], offset_of(attrs@, k)),
        decreases attrs@.len() - i,
    {
        proof {
            lemma_offset_monotone(attrs@, i as int + 1, attrs@.len() as int);
        }
        inner.push(InnerAttr::from(&attrs[i], stride));
        stride = stride + attrs[i].format.bytes();
        i = i + 1;
    }
    proof {
        assert forall|a: int, b: int| 0 <= a < b < attrs@.len() implies #[trigger] inner@[a].offset
            < #[trigger] inner@[b].offset by {
            lemma_offsets_increase(attrs@, a, b);
            lemma_offset_bounds(attrs@, a);
        }
    }
    (stride, inner)
}

/// The native layout of a vertex buffer.
#[derive(Debug, PartialEq, Eq)]
pub struct VertexAttributes {
    pub stride: i32,
    pub attrs: Vec<InnerAttr>,
    pub vertex_step_mode: VertexStepMode,
}

/// How often an attribute advances, as the native divisor.
pub open spec fn divisor_of(mode: VertexStepMode) -> u32 {
    match mode {
        VertexStepMode::Vertex => 0,
        VertexStepMode::Instance => 1,
    }
}

impl VertexAttributes {
    /// A layout of `attrs` in vertices of `stride` bytes.
    pub fn new(stride: i32, attrs: Vec<InnerAttr>, vertex_step_mode: VertexStepMode) -> (layout:
        VertexAttributes)
        ensures
            layout.stride == stride,
            layout.attrs == attrs,
            layout.vertex_step_mode == vertex_step_mode,
    {
        VertexAttributes { stride, attrs, vertex_step_mode }
    }

    /// The calls that specify the whole layout.
    pub open spec fn enable_calls(&self) -> Seq<GlCall> {
        layout_calls(
            self.attrs@,
            self.stride,
            divisor_of(self.vertex_step_mode),
            self.attrs@.len() as int,
        )
    }

    /// Asks for every attribute to be specified, in declaration order.
    pub fn enable(&self, calls: &mut Vec<GlCall>)
        ensures
            final(calls)@ == old(calls)@ + self.enable_calls(),
    {
        let step_mode: u32 = match self.vertex_step_mode {
            VertexStepMode::Vertex => 0,
            VertexStepMode::Instance => 1,
        };
        let mut i: usize = 0;
        while i < self.attrs.len()
            invariant
                0 <= i <= self.attrs@.len(),
                step_mode == divisor_of(self.vertex_step_mode),
                calls@ == old(calls)@ + layout_calls(
                    self.attrs@,
                    self.stride,
                    step_mode,
                    i as int,
                ),
            decreases self.attrs@.len() - i,
        {
            self.attrs[i].enable(self.stride, step_mode, calls);
            assert(calls@ =~= old(calls)@ + layout_calls(
                self.attrs@,
                self.stride,
                step_mode,
                i as int + 1,
            ));
            i = i + 1;
        }
    }
}

/// A stencil configuration that can never change a fragment's fate nor the
/// stencil buffer: it always passes and keeps the stored value whatever
/// happens. No configuration at all counts as one.
pub open spec fn stencil_is_idle(stencil: Option<StencilOptions>) -> bool {
    match stencil {
        Some(stencil) => {
            &&& stencil.compare == CompareMode::Always
            &&& stencil.stencil_fail == StencilAction::Keep
            &&& stencil.depth_fail == StencilAction::Keep
            &&& stencil.pass == StencilAction::Keep
        },
        None => true,
    }
}

/// Whether the stencil test is to be switched off for this
/// configuration.
pub fn should_disable_stencil(stencil: &Option<StencilOptions>) -> (disable: bool)
    ensures
        disable == stencil_is_idle(*stencil),
{
    match stencil {
        Some(stencil) => {
            stencil.compare == CompareMode::Always && stencil.stencil_fail == StencilAction::Keep
                && stencil.depth_fail == StencilAction::Keep && stencil.pass
                == StencilAction::Keep
        },
        None => true,
    }
}

/// The stencil state changes for `options`: an idle configuration switches
/// the test off and touches nothing else; any other switches it on and sets
/// write mask, operations, function, reference and read mask.
pub open spec fn stencil_calls(options: PipelineOptions) -> Seq<GlCall> {
    if stencil_is_idle(options.stencil) {
        seq![GlCall::Disable { cap: gl::STENCIL_TEST }]
    } else {
        let stencil = options.stencil->0;
        seq![
            GlCall::Enable { cap: gl::STENCIL_TEST },
            GlCall::StencilMask { mask: stencil.write_mask },
            GlCall::StencilOp {
                fail: stencil.stencil_fail.gl_value(),
                zfail: stencil.depth_fail.gl_value(),
                zpass: stencil.pass.gl_value(),
            },
            GlCall::StencilFunc {
                func: match stencil.compare.gl_value() {
                    Some(func) => func,
                    None => gl::ALWAYS,
                },
                reference: stencil.reference as i32,
                mask: stencil.read_mask,
            },
        ]
    }
}

/// Asks for the stencil state of `options`.
pub fn set_stencil(options: &PipelineOptions, calls: &mut Vec<GlCall>)
    ensures
        final(calls)@ == old(calls)@ + stencil_calls(*options),
{
    if should_disable_stencil(&options.stencil) {
        calls.push(GlCall::Disable { cap: gl::STENCIL_TEST });
    } else if let Some(opts) = options.stencil {
        calls.push(GlCall::Enable { cap: gl::STENCIL_TEST });
        calls.push(GlCall::StencilMask { mask: opts.write_mask });
        calls.push(
            GlCall::StencilOp {
                fail: opts.stencil_fail.to_gl(),
                zfail: opts.depth_fail.to_gl(),
                zpass: opts.pass.to_gl(),
            },
        );
        let func = match opts.compare.to_gl() {
            Some(func) => func,
            None => gl::ALWAYS,
        };
        calls.push(
            GlCall::StencilFunc { func, reference: opts.reference as i32, mask: opts.read_mask },
        );
    }
    assert(calls@ =~= old(calls)@ + stencil_calls(*options));
}

/// The depth state changes for `options`: the test is on with the configured
/// function or off without one; the write mask is set either way.
pub open spec fn depth_calls(options: PipelineOptions) -> Seq<GlCall> {
    let test = match options.depth_stencil.compare.gl_value() {
        Some(func) => seq![GlCall::Enable { cap: gl::DEPTH_TEST }, GlCall::DepthFunc { func }],
        None => seq![GlCall::Disable { cap: gl::DEPTH_TEST }],
    };
    test.push(GlCall::DepthMask { flag: options.depth_stencil.write })
}

/// Asks for the depth state of `options`.
pub fn set_depth_stencil(options: &PipelineOptions, calls: &mut Vec<GlCall>)
    ensures
        final(calls)@ == old(calls)@ + depth_calls(*options),
{
    match options.depth_stencil.compare.to_gl() {
        Some(func) => {
            calls.push(GlCall::Enable { cap: gl::DEPTH_TEST });
            calls.push(GlCall::DepthFunc { func });
        },
        None => {
            calls.push(GlCall::Disable { cap: gl::DEPTH_TEST });
        },
    }
    calls.push(GlCall::DepthMask { flag: options.depth_stencil.write });
    assert(calls@ =~= old(calls)@ + depth_calls(*options));
}

/// The color mask is set whatever it is.
pub open spec fn color_mask_calls(options: PipelineOptions) -> Seq<GlCall> {
    seq![
        GlCall::ColorMask {
            r: options.color_mask.r,
            g: options.color_mask.g,
            b: options.color_mask.b,
            a: options.color_mask.a,
        },
    ]
}

/// Asks for the color mask of `options`.
pub fn set_color_mask(options: &PipelineOptions, calls: &mut Vec<GlCall>)
    ensures
        final(calls)@ == old(calls)@ + color_mask_calls(*options),
{
    calls.push(
        GlCall::ColorMask {
            r: options.color_mask.r,
            g: options.color_mask.g,
            b: options.color_mask.b,
            a: options.color_mask.a,
        },
    );
    assert(calls@ =~= old(calls)@ + color_mask_calls(*options));
}

/// Culling is on for the configured face, or off.
pub open spec fn cull_calls(options: PipelineOptions) -> Seq<GlCall> {
    match options.cull_mode.gl_value() {
        Some(mode) => seq![GlCall::Enable { cap: gl::CULL_FACE }, GlCall::CullFace { mode }],
        None => seq![GlCall::Disable { cap: gl::CULL_FACE }],
    }
}

/// Asks for the culling state of `options`.
pub fn set_culling(options: &PipelineOptions, calls: &mut Vec<GlCall>)
    ensures
        final(calls)@ == old(calls)@ + cull_calls(*options),
{
    match options.cull_mode.to_gl() {
        Some(mode) => {
            calls.push(GlCall::Enable { cap: gl::CULL_FACE });
            calls.push(GlCall::CullFace { mode });
        },
        None => {
            calls.push(GlCall::Disable { cap: gl::CULL_FACE });
        },
    }
    assert(calls@ =~= old(calls)@ + cull_calls(*options));
}

/// The two separate-channel calls that blend color by `color` and alpha by
/// `alpha`.
pub open spec fn separate_blend_calls(color: BlendMode, alpha: BlendMode) -> Seq<GlCall> {
    seq![
        GlCall::Enable { cap: gl::BLEND },
        GlCall::BlendFuncSeparate {
            src_rgb: color.src.gl_value(),
            dst_rgb: color.dst.gl_value(),
            src_alpha: alpha.src.gl_value(),
            dst_alpha: alpha.dst.gl_value(),
        },
        GlCall::BlendEquationSeparate { mode_rgb: color.op.gl_value(), mode_alpha: alpha.op.gl_value() },
    ]
}

/// The blend state changes for `options`. A color mode alone goes through
/// the calls that set both channels at once; a color and an alpha mode go
/// through the separate-channel calls; an alpha mode alone is paired with
/// normal color blending; neither switches blending off.
pub open spec fn blend_calls(options: PipelineOptions) -> Seq<GlCall> {
    match (options.color_blend, options.alpha_blend) {
        (Some(color), None) => seq![
            GlCall::Enable { cap: gl::BLEND },
            GlCall::BlendFunc { sfactor: color.src.gl_value(), dfactor: color.dst.gl_value() },
            GlCall::BlendEquation { mode: color.op.gl_value() },
        ],
        (Some(color), Some(alpha)) => separate_blend_calls(color, alpha),
        (None, Some(alpha)) => separate_blend_calls(BlendMode::spec_normal(), alpha),
        (None, None) => seq![GlCall::Disable { cap: gl::BLEND }],
    }
}

/// Asks for the blend state of `options`.
pub fn set_blend_mode(options: &PipelineOptions, calls: &mut Vec<GlCall>)
    ensures
        final(calls)@ == old(calls)@ + blend_calls(*options),
{
    match (options.color_blend, options.alpha_blend) {
        (Some(cbm), None) => {
            calls.push(GlCall::Enable { cap: gl::BLEND });
            calls.push(GlCall::BlendFunc { sfactor: cbm.src.to_gl(), dfactor: cbm.dst.to_gl() });
            calls.push(GlCall::BlendEquation { mode: cbm.op.to_gl() });
        },
        (Some(cbm), Some(abm)) => {
            calls.push(GlCall::Enable { cap: gl::BLEND });
            calls.push(
                GlCall::BlendFuncSeparate {
                    src_rgb: cbm.src.to_gl(),
                    dst_rgb: cbm.dst.to_gl(),
                    src_alpha: abm.src.to_gl(),
                    dst_alpha: abm.dst.to_gl(),
                },
            );
            calls.push(
                GlCall::BlendEquationSeparate { mode_rgb: cbm.op.to_gl(), mode_alpha: abm.op.to_gl() },
            );
        },
        (None, Some(abm)) => {
            let cbm = BlendMode::normal();
            calls.push(GlCall::Enable { cap: gl::BLEND });
            calls.push(
                GlCall::BlendFuncSeparate {
                    src_rgb: cbm.src.to_gl(),
                    dst_rgb: cbm.dst.to_gl(),
                    src_alpha: abm.src.to_gl(),
                    dst_alpha: abm.dst.to_gl(),
                },
            );
            calls.push(
                GlCall::BlendEquationSeparate { mode_rgb: cbm.op.to_gl(), mode_alpha: abm.op.to_gl() },
            );
        },
        (None, None) => {
            calls.push(GlCall::Disable { cap: gl::BLEND });
        },
    }
    assert(calls@ =~= old(calls)@ + blend_calls(*options));
}

/// Everything binding a pipeline asks for: its vertex array and program,
/// then the whole state block in the order stencil, depth, color mask,
/// culling, blending.
pub open spec fn bind_calls(vao: u32, program: u32, options: PipelineOptions) -> Seq<GlCall> {
    seq![GlCall::BindVertexArray { array: vao }, GlCall::UseProgram { program }] + stencil_calls(
        options,
    ) + depth_calls(options) + color_mask_calls(options) + cull_calls(options) + blend_calls(
        options,
    )
}

/// The calls that free the native objects of a pipeline.
pub open spec fn clean_calls(vertex: u32, fragment: u32, program: u32, vao: u32) -> Seq<GlCall> {
    seq![
        GlCall::DeleteShader { shader: vertex },
        GlCall::DeleteShader { shader: fragment },
        GlCall::DeleteProgram { program },
        GlCall::DeleteVertexArray { array: vao },
    ]
}

/// Asks for the native objects of `pip` to be freed.
pub fn clean_pipeline(pip: InnerPipeline, calls: &mut Vec<GlCall>)
    ensures
        final(calls)@ == old(calls)@ + clean_calls(pip.vertex, pip.fragment, pip.program, pip.vao),
{
    let InnerPipeline { vertex, fragment, program, vao, .. } = pip;
    calls.push(GlCall::DeleteShader { shader: vertex });
    calls.push(GlCall::DeleteShader { shader: fragment });
    calls.push(GlCall::DeleteProgram { program });
    calls.push(GlCall::DeleteVertexArray { array: vao });
    assert(calls@ =~= old(calls)@ + clean_calls(vertex, fragment, program, vao));
}

/// What becomes of a shader once the native API has compiled it: a status of
/// 1 keeps it, any other deletes it and reports the compiler's log.
pub fn create_shader(
    stage: ShaderStage,
    shader: u32,
    status: i32,
    log: String,
    calls: &mut Vec<GlCall>,
) -> (result: Result<u32, GfxError>)
    ensures
        status == 1 ==> result == Ok::<u32, GfxError>(shader) && final(calls)@ == old(calls)@,
        status != 1 ==> result == Err::<u32, GfxError>(GfxError::Shader { stage, log })
            && final(calls)@ == old(calls)@.push(GlCall::DeleteShader { shader }),
{
    if status == 1 {
        return Ok(shader);
    }
    calls.push(GlCall::DeleteShader { shader });
    Err(GfxError::Shader { stage, log })
}

/// What becomes of a program once the native API has linked it: a status of
/// 1 keeps it, any other deletes it and reports the linker's log.
pub fn create_program(program: u32, status: i32, log: String, calls: &mut Vec<GlCall>) -> (result:
    Result<u32, GfxError>)
    ensures
        status == 1 ==> result == Ok::<u32, GfxError>(program) && final(calls)@ == old(calls)@,
        status != 1 ==> result == Err::<u32, GfxError>(GfxError::Link { log }) && final(calls)@
            == old(calls)@.push(GlCall::DeleteProgram { program }),
{
    if status == 1 {
        return Ok(program);
    }
    calls.push(GlCall::DeleteProgram { program });
    Err(GfxError::Link { log })
}

/// The locations among the first `n` of `resolved` that were found, in
/// order. A uniform that lives in a named block has no location of its own
/// and resolves to a negative value: it is left out.
pub open spec fn found_locations(resolved: Seq<i32>, n: int) -> Seq<u32>
    decreases n,
{
    if n <= 0 {
        Seq::empty()
    } else if resolved[n - 1] >= 0 {
        found_locations(resolved, n - 1).push(resolved[n - 1] as u32)
    } else {
        found_locations(resolved, n - 1)
    }
}

/// The locations among `resolved` that were found, in order.
pub fn uniform_locations(resolved: &Vec<i32>) -> (locations: Vec<u32>)
    ensures
        locations@ == found_locations(resolved@, resolved@.len() as int),
{
    let mut locations: Vec<u32> = Vec::new();
    let mut i: usize = 0;
    while i < resolved.len()
        invariant
            0 <= i <= resolved@.len(),
            locations@ == found_locations(resolved@, i as int),
        decreases resolved@.len() - i,
    {
        let location: i32 = resolved[i];
        if location >= 0 {
            locations.push(location as u32);
        }
        i = i + 1;
    }
    locations
}

/// How far the construction of a pipeline has come: which native objects
/// exist, and so which reply it waits for.
#[derive(Debug, PartialEq, Eq)]
pub enum PipelineSetup {
    /// The vertex shader is being compiled.
    Vertex { fragment_source: String },
    /// The fragment shader is being compiled.
    Fragment { vertex: u32 },
    /// The program is being linked.
    Link { vertex: u32, fragment: u32 },
    /// The uniforms of the linked program are being resolved.
    Uniforms { vertex: u32, fragment: u32, program: u32 },
    /// The vertex array is being generated.
    VertexArray { vertex: u32, fragment: u32, program: u32, uniform_locations: Vec<u32> },
}

/// The outcome of one step of pipeline construction.
#[derive(Debug, PartialEq, Eq)]
pub enum PipelineStep {
    /// Put `query` to the native API and continue from `setup` with its
    /// reply.
    Ask { query: GlQuery, setup: PipelineSetup },
    /// Construction is over.
    Done(Result<InnerPipeline, GfxError>),
}

impl InnerPipeline {
    /// Starts the construction of a pipeline: the vertex shader is compiled
    /// first.
    pub fn new(vertex_source: &str, fragment_source: &str) -> (step: PipelineStep)
        ensures
            ({
                &&& step matches PipelineStep::Ask { query, setup }
                &&& query matches GlQuery::CompileShader { stage, source }
                &&& stage == gl::VERTEX_SHADER
                &&& source@ == vertex_source@
                &&& setup matches PipelineSetup::Vertex { fragment_source: kept }
                &&& kept@ == fragment_source@
            }),
    {
        PipelineStep::Ask {
            query: GlQuery::CompileShader {
                stage: ShaderStage::Vertex.to_gl(),
                source: vertex_source.to_owned(),
            },
            setup: PipelineSetup::Vertex { fragment_source: fragment_source.to_owned() },
        }
    }

    /// Asks for the native objects of the pipeline to be freed.
    pub fn clean(self, calls: &mut Vec<GlCall>)
        ensures
            final(calls)@ == old(calls)@ + clean_calls(
                self.vertex,
                self.fragment,
                self.program,
                self.vao,
            ),
    {
        clean_pipeline(self, calls);
    }

    /// Asks for the pipeline to be bound and the state of `options` to be
    /// applied.
    pub fn bind(&self, options: &PipelineOptions, calls: &mut Vec<GlCall>)
        ensures
            final(calls)@ == old(calls)@ + bind_calls(self.vao, self.program, *options),
    {
        calls.push(GlCall::BindVertexArray { array: self.vao });
        calls.push(GlCall::UseProgram { program: self.program });
        set_stencil(options, calls);
        set_depth_stencil(options, calls);
        set_color_mask(options, calls);
        set_culling(options, calls);
        set_blend_mode(options, calls);
        assert(calls@ =~= old(calls)@ + bind_calls(self.vao, self.program, *options));
    }
}

/// What one step of pipeline construction asks for and yields: `after` is
/// the call list `before` with the calls of the step appended, and `step` is
/// where construction stands then.
///
/// Shaders are compiled vertex first; a stage that fails to compile or a
/// program that fails to link ends construction with its log, after the
/// failed object is deleted. After linking, the uniforms are resolved and
/// those that were found are kept; last, the vertex array is generated and
/// bound. A reply of the wrong kind ends construction with
/// `UnexpectedReply` and asks for nothing.
pub open spec fn pipeline_step(
    setup: PipelineSetup,
    reply: GlReply,
    before: Seq<GlCall>,
    after: Seq<GlCall>,
    step: PipelineStep,
) -> bool {
    match (setup, reply) {
        (PipelineSetup::Vertex { fragment_source }, GlReply::Built { name, status, log }) => {
            if status == 1 {
                &&& after == before
                &&& step == PipelineStep::Ask {
                    query: GlQuery::CompileShader {
                        stage: gl::FRAGMENT_SHADER,
                        source: fragment_source,
                    },
                    setup: PipelineSetup::Fragment { vertex: name },
                }
            } else {
                &&& after == before.push(GlCall::DeleteShader { shader: name })
                &&& step == PipelineStep::Done(
                    Err(GfxError::Shader { stage: ShaderStage::Vertex, log }),
                )
            }
        },
        (PipelineSetup::Fragment { vertex }, GlReply::Built { name, status, log }) => {
            if status == 1 {
                &&& after == before
                &&& step == PipelineStep::Ask {
                    query: GlQuery::LinkProgram { vertex, fragment: name },
                    setup: PipelineSetup::Link { vertex, fragment: name },
                }
            } else {
                &&& after == before.push(GlCall::DeleteShader { shader: name })
                &&& step == PipelineStep::Done(
                    Err(GfxError::Shader { stage: ShaderStage::Fragment, log }),
                )
            }
        },
        (PipelineSetup::Link { vertex, fragment }, GlReply::Built { name, status, log }) => {
            if status == 1 {
                &&& after == before
                &&& step == PipelineStep::Ask {
                    query: GlQuery::UniformLocations { program: name },
                    setup: PipelineSetup::Uniforms { vertex, fragment, program: name },
                }
            } else {
                &&& after == before.push(GlCall::DeleteProgram { program: name })
                &&& step == PipelineStep::Done(Err(GfxError::Link { log }))
            }
        },
        (PipelineSetup::Uniforms { vertex, fragment, program }, GlReply::Locations(resolved)) => {
            &&& after == before
            &&& step matches PipelineStep::Ask { query, setup: next }
            &&& query == GlQuery::GenVertexArray
            &&& next matches PipelineSetup::VertexArray {
                vertex: v,
                fragment: f,
                program: p,
                uniform_locations,
            }
            &&& v == vertex
            &&& f == fragment
            &&& p == program
            &&& uniform_locations@ == found_locations(resolved@, resolved@.len() as int)
        },
        (
            PipelineSetup::VertexArray { vertex, fragment, program, uniform_locations },
            GlReply::Name(vao),
        ) => {
            &&& after == before.push(GlCall::BindVertexArray { array: vao })
            &&& step == PipelineStep::Done(
                Ok(InnerPipeline { vertex, fragment, program, vao, uniform_locations }),
            )
        },
        _ => {
            &&& after == before
            &&& step == PipelineStep::Done(Err(GfxError::UnexpectedReply))
        },
    }
}

/// Takes pipeline construction one step on with the native reply to the
/// query of the step before.
pub fn create_pipeline(setup: PipelineSetup, reply: GlReply, calls: &mut Vec<GlCall>) -> (step:
    PipelineStep)
    ensures
        pipeline_step(setup, reply, old(calls)@, final(calls)@, step),
{
    match (setup, reply) {
        (PipelineSetup::Vertex { fragment_source }, GlReply::Built { name, status, log }) => {
            match create_shader(ShaderStage::Vertex, name, status, log, calls) {
                Ok(vertex) => PipelineStep::Ask {
                    query: GlQuery::CompileShader {
                        stage: ShaderStage::Fragment.to_gl(),
                        source: fragment_source,
                    },
                    setup: PipelineSetup::Fragment { vertex },
                },
                Err(error) => PipelineStep::Done(Err(error)),
            }
        },
        (PipelineSetup::Fragment { vertex }, GlReply::Built { name, status, log }) => {
            match create_shader(ShaderStage::Fragment, name, status, log, calls) {
                Ok(fragment) => PipelineStep::Ask {
                    query: GlQuery::LinkProgram { vertex, fragment },
                    setup: PipelineSetup::Link { vertex, fragment },
                },
                Err(error) => PipelineStep::Done(Err(error)),
            }
        },
        (PipelineSetup::Link { vertex, fragment }, GlReply::Built { name, status, log }) => {
            match create_program(name, status, log, calls) {
                Ok(program) => PipelineStep::Ask {
                    query: GlQuery::UniformLocations { program },
                    setup: PipelineSetup::Uniforms { vertex, fragment, program },
                },
                Err(error) => PipelineStep::Done(Err(error)),
            }
        },
        (PipelineSetup::Uniforms { vertex, fragment, program }, GlReply::Locations(resolved)) => {
            let uniform_locations = uniform_locations(&resolved);
            PipelineStep::Ask {
                query: GlQuery::GenVertexArray,
                setup: PipelineSetup::VertexArray { vertex, fragment, program, uniform_locations },
            }
        },
        (
            PipelineSetup::VertexArray { vertex, fragment, program, uniform_locations },
            GlReply::Name(vao),
        ) => {
            calls.push(GlCall::BindVertexArray { array: vao });
            PipelineStep::Done(Ok(InnerPipeline { vertex, fragment, program, vao, uniform_locations }))
        },
        _ => PipelineStep::Done(Err(GfxError::UnexpectedReply)),
    }
}

/// A stencil configuration that always passes and keeps the stored value
/// switches the stencil test off outright, whatever its masks and reference
/// value: it is not merely set up to do nothing. Any other configuration
/// switches the test on.
pub proof fn lemma_idle_stencil_is_off(options: PipelineOptions)
    ensures
        stencil_is_idle(options.stencil) ==> stencil_calls(options) == seq![
            GlCall::Disable { cap: gl::STENCIL_TEST },
        ],
        !stencil_is_idle(options.stencil) ==> stencil_calls(options).len() == 4 && stencil_calls(
            options,
        )[0] == (GlCall::Enable { cap: gl::STENCIL_TEST }),
{
}

/// What the native API holds about blending: whether it is on, and the
/// factors and the operation of the color and of the alpha channel.
pub struct BlendState {
    pub enabled: bool,
    pub color: (u32, u32, u32),
    pub alpha: (u32, u32, u32),
}

/// What one call does to the blend state. The calls that name one pair of
/// factors or one operation set it for both channels; the separate-channel
/// calls set each channel by itself; calls that are not about blending leave
/// the state alone.
pub open spec fn blend_effect(state: BlendState, call: GlCall) -> BlendState {
    match call {
        GlCall::Enable { cap } => if cap == gl::BLEND {
            BlendState { enabled: true, ..state }
        } else {
            state
        },
        GlCall::Disable { cap } => if cap == gl::BLEND {
            BlendState { enabled: false, ..state }
        } else {
            state
        },
        GlCall::BlendFunc { sfactor, dfactor } => BlendState {
            color: (sfactor, dfactor, state.color.2),
            alpha: (sfactor, dfactor, state.alpha.2),
            ..state
        },
        GlCall::BlendEquation { mode } => BlendState {
            color: (state.color.0, state.color.1, mode),
            alpha: (state.alpha.0, state.alpha.1, mode),
            ..state
        },
        GlCall::BlendFuncSeparate { src_rgb, dst_rgb, src_alpha, dst_alpha } => BlendState {
            color: (src_rgb, dst_rgb, state.color.2),
            alpha: (src_alpha, dst_alpha, state.alpha.2),
            ..state
        },
        GlCall::BlendEquationSeparate { mode_rgb, mode_alpha } => BlendState {
            color: (state.color.0, state.color.1, mode_rgb),
            alpha: (state.alpha.0, state.alpha.1, mode_alpha),
            ..state
        },
        _ => state,
    }
}

/// The blend state after the first `n` of `calls`.
pub open spec fn blend_after(state: BlendState, calls: Seq<GlCall>, n: int) -> BlendState
    decreases n,
{
    if n <= 0 {
        state
    } else {
        blend_effect(blend_after(state, calls, n - 1), calls[n - 1])
    }
}

/// Factors and operation of a blend mode as native constants.
pub open spec fn blend_triple(mode: BlendMode) -> (u32, u32, u32) {
    (mode.src.gl_value(), mode.dst.gl_value(), mode.op.gl_value())
}

/// Blend resolution. Whatever the blend state was, after the blend calls of
/// a pipeline: with a color mode alone, blending is on and the alpha
/// channel has the factors and the operation of the color channel, those of
/// the color mode; with both modes, each channel has its own; with an alpha
/// mode alone, the color channel blends normally; with neither, blending is
/// off.
pub proof fn lemma_blend_resolution(options: PipelineOptions, start: BlendState)
    ensures
        ({
            let calls = blend_calls(options);
            let end = blend_after(start, calls, calls.len() as int);
            match (options.color_blend, options.alpha_blend) {
                (Some(color), None) => end.enabled && end.color == blend_triple(color) && end.alpha
                    == end.color,
                (Some(color), Some(alpha)) => end.enabled && end.color == blend_triple(color)
                    && end.alpha == blend_triple(alpha),
                (None, Some(alpha)) => end.enabled && end.color == blend_triple(
                    BlendMode::spec_normal(),
                ) && end.alpha == blend_triple(alpha),
                (None, None) => !end.enabled,
            }
        }),
{
    let calls = blend_calls(options);
    reveal_with_fuel(blend_after, 4);
    assert(blend_after(start, calls, 0) == start);
}

} // verus!
