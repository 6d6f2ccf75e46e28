//! Fixed-function pipeline state: blending, depth, stencil, culling and the
//! color write mask.

use crate::gfx::color::Color;
use crate::gfx::device::ResourceId;
use crate::gfx::error::GfxError;
use crate::gfx::buffer::{stride_of, VertexAttr, VertexInfo};
use crate::gfx::device::{pipeline_answer, Device, DeviceBackend};
use vstd::string::StringSliceAdditionalSpecFns;
use vstd::prelude::*;

verus! {

/// What happens to the stored stencil value.
#[derive(Clone, Copy, Debug, PartialEq, Eq, Structural)]
pub enum StencilAction {
    Keep,
    Zero,
    Replace,
    Increment,
    IncrementWrap,
    Decrement,
    DecrementWrap,
    Invert,
}

/// How the weighted source and destination are combined.
#[derive(Clone, Copy, Debug, PartialEq, Eq, Structural)]
pub enum BlendOperation {
    Add,
    Subtract,
    ReverseSubtract,
    Max,
    Min,
}

/// What the source or the destination is weighted with.
#[derive(Clone, Copy, Debug, PartialEq, Eq, Structural)]
pub enum BlendFactor {
    Zero,
    One,
    SourceAlpha,
    SourceColor,
    InverseSourceAlpha,
    InverseSourceColor,
    DestinationAlpha,
    DestinationColor,
    InverseDestinationAlpha,
    InverseDestinationColor,
}

/// The comparison a depth or stencil test makes.
#[derive(Clone, Copy, Debug, PartialEq, Eq, Structural)]
pub enum CompareMode {
    /// The test is switched off.
    Disabled,
    Less,
    Equal,
    LEqual,
    Greater,
    NotEqual,
    GEqual,
    Always,
}

/// Which faces are culled.
#[derive(Clone, Copy, Debug, PartialEq, Eq, Structural)]
pub enum CullMode {
    /// No face is culled.
    Disabled,
    Front,
    Back,
}

/// The programmable stages of a pipeline.
#[derive(Clone, Copy, Debug, PartialEq, Eq, Structural)]
pub enum ShaderStage {
    Vertex,
    Fragment,
}

/// How often the contents of a buffer change.
#[derive(Clone, Copy, Debug, PartialEq, Eq, Structural)]
pub enum DrawType {
    Static,
    Dynamic,
}

/// What the vertices of a draw make up.
#[derive(Clone, Copy, Debug, PartialEq, Eq, Structural)]
pub enum DrawPrimitive {
    Triangles,
    TriangleStrip,
    Lines,
    LineStrip,
}

/// How an incoming fragment is combined with what the target already holds.
#[derive(Clone, Copy, Debug, PartialEq, Eq, Structural)]
pub struct BlendMode {
    pub src: BlendFactor,
    pub dst: BlendFactor,
    pub op: BlendOperation,
}

impl BlendMode {
    pub open spec fn spec_new(src: BlendFactor, dst: BlendFactor, op: BlendOperation) -> BlendMode {
        BlendMode { src, dst, op }
    }

    #[verifier::when_used_as_spec(spec_new)]
    pub fn new(src: BlendFactor, dst: BlendFactor, op: BlendOperation) -> (mode: BlendMode)
        ensures
            mode == (BlendMode { src, dst, op }),
    {
        BlendMode { src, dst, op }
    }

    /// The incoming fragment replaces the target.
    pub open spec fn spec_none() -> BlendMode {
        BlendMode { src: BlendFactor::One, dst: BlendFactor::Zero, op: BlendOperation::Add }
    }

    #[verifier::when_used_as_spec(spec_none)]
    pub fn none() -> (mode: BlendMode)
        ensures
            mode == Self::spec_none(),
    {
        BlendMode { src: BlendFactor::One, dst: BlendFactor::Zero, op: BlendOperation::Add }
    }

    /// Ordinary alpha blending.
    pub open spec fn spec_normal() -> BlendMode {
        BlendMode {
            src: BlendFactor::SourceAlpha,
            dst: BlendFactor::InverseSourceAlpha,
            op: BlendOperation::Add,
        }
    }

    #[verifier::when_used_as_spec(spec_normal)]
    pub fn normal() -> (mode: BlendMode)
        ensures
            mode == Self::spec_normal(),
    {
        BlendMode {
            src: BlendFactor::SourceAlpha,
            dst: BlendFactor::InverseSourceAlpha,
            op: BlendOperation::Add,
        }
    }

    /// Additive blending.
    pub fn add() -> (mode: BlendMode)
        ensures
            mode == (BlendMode {
                src: BlendFactor::One,
                dst: BlendFactor::One,
                op: BlendOperation::Add,
            }),
    {
        BlendMode { src: BlendFactor::One, dst: BlendFactor::One, op: BlendOperation::Add }
    }

    /// Multiplies the fragment with the target.
    pub fn multiply() -> (mode: BlendMode)
        ensures
            mode == (BlendMode {
                src: BlendFactor::DestinationColor,
                dst: BlendFactor::InverseSourceAlpha,
                op: BlendOperation::Add,
            }),
    {
        BlendMode {
            src: BlendFactor::DestinationColor,
            dst: BlendFactor::InverseSourceAlpha,
            op: BlendOperation::Add,
        }
    }

    /// Blending for premultiplied alpha.
    pub fn over() -> (mode: BlendMode)
        ensures
            mode == (BlendMode {
                src: BlendFactor::One,
                dst: BlendFactor::InverseSourceAlpha,
                op: BlendOperation::Add,
            }),
    {
        BlendMode {
            src: BlendFactor::One,
            dst: BlendFactor::InverseSourceAlpha,
            op: BlendOperation::Add,
        }
    }
}

/// Which channels of the target a draw may write.
#[derive(Clone, Copy, Debug, PartialEq, Eq, Structural)]
pub struct ColorMask {
    pub r: bool,
    pub g: bool,
    pub b: bool,
    pub a: bool,
}

impl ColorMask {
    pub fn all() -> (mask: ColorMask)
        ensures
            mask == (ColorMask { r: true, g: true, b: true, a: true }),
    {
        ColorMask { r: true, g: true, b: true, a: true }
    }

    pub fn none() -> (mask: ColorMask)
        ensures
            mask == (ColorMask { r: false, g: false, b: false, a: false }),
    {
        ColorMask { r: false, g: false, b: false, a: false }
    }
}

impl Default for ColorMask {
    fn default() -> (mask: ColorMask)
        ensures
            mask == (ColorMask { r: true, g: true, b: true, a: true }),
    {
        ColorMask { r: true, g: true, b: true, a: true }
    }
}

/// The depth test and whether a passing fragment writes its depth.
#[derive(Clone, Copy, Debug, PartialEq, Eq, Structural)]
pub struct DepthStencil {
    pub write: bool,
    pub compare: CompareMode,
}

impl Default for DepthStencil {
    fn default() -> (depth: DepthStencil)
        ensures
            depth == (DepthStencil { write: true, compare: CompareMode::Always }),
    {
        DepthStencil { write: true, compare: CompareMode::Always }
    }
}

/// The stencil test and what it does to the stencil buffer.
#[derive(Clone, Copy, Debug, PartialEq, Eq, Structural)]
pub struct StencilOptions {
    pub stencil_fail: StencilAction,
    pub depth_fail: StencilAction,
    pub pass: StencilAction,
    pub compare: CompareMode,
    pub read_mask: u32,
    pub write_mask: u32,
    pub reference: u8,
}

impl Default for StencilOptions {
    fn default() -> (stencil: StencilOptions)
        ensures
            stencil == (StencilOptions {
                stencil_fail: StencilAction::Keep,
                depth_fail: StencilAction::Keep,
                pass: StencilAction::Keep,
                compare: CompareMode::Always,
                read_mask: 0xff,
                write_mask: 0,
                reference: 0,
            }),
    {
        StencilOptions {
            stencil_fail: StencilAction::Keep,
            depth_fail: StencilAction::Keep,
            pass: StencilAction::Keep,
            compare: CompareMode::Always,
            read_mask: 0xff,
            write_mask: 0,
            reference: 0,
        }
    }
}

/// The whole fixed-function state of a pipeline.
#[derive(Clone, Copy, Debug, PartialEq, Eq)]
pub struct PipelineOptions {
    pub color_blend: Option<BlendMode>,
    pub alpha_blend: Option<BlendMode>,
    pub cull_mode: CullMode,
    pub depth_stencil: DepthStencil,
    pub color_mask: ColorMask,
    pub stencil: Option<StencilOptions>,
}

impl PipelineOptions {
    /// The state of a pipeline that sets nothing: no blending, no culling,
    /// no stencil test, a depth test that always passes and writes, and
    /// every color channel written.
    pub open spec fn spec_default() -> PipelineOptions {
        PipelineOptions {
            color_blend: None,
            alpha_blend: None,
            cull_mode: CullMode::Disabled,
            depth_stencil: DepthStencil { write: true, compare: CompareMode::Always },
            color_mask: ColorMask { r: true, g: true, b: true, a: true },
            stencil: None,
        }
    }
}

impl Default for PipelineOptions {
    fn default() -> (options: PipelineOptions)
        ensures
            options == PipelineOptions::spec_default(),
    {
        PipelineOptions {
            color_blend: None,
            alpha_blend: None,
            cull_mode: CullMode::Disabled,
            depth_stencil: DepthStencil { write: true, compare: CompareMode::Always },
            color_mask: ColorMask { r: true, g: true, b: true, a: true },
            stencil: None,
        }
    }
}

/// What the start of a pass clears. `depth` is the IEEE-754
/// single-precision bit pattern of the depth to clear to.
#[derive(Clone, Copy, Debug, PartialEq, Eq)]
pub struct ClearOptions {
    pub color: Option<Color>,
    pub depth: Option<u32>,
    pub stencil: Option<i32>,
}

impl ClearOptions {
    /// Clears the color buffer alone.
    pub fn new(color: Color) -> (options: ClearOptions)
        ensures
            options == (ClearOptions { color: Some(color), depth: None, stencil: None }),
    {
        ClearOptions { color: Some(color), depth: None, stencil: None }
    }

    /// Clears the color buffer alone.
    pub fn color(color: Color) -> (options: ClearOptions)
        ensures
            options == (ClearOptions { color: Some(color), depth: None, stencil: None }),
    {
        ClearOptions { color: Some(color), depth: None, stencil: None }
    }

    /// Clears nothing.
    pub fn none() -> (options: ClearOptions)
        ensures
            options == (ClearOptions { color: None, depth: None, stencil: None }),
    {
        ClearOptions { color: None, depth: None, stencil: None }
    }
}

/// The handle of a pipeline: the id the backend gave it, the byte length of
/// one vertex of its layout, and its fixed-function state.
#[derive(Debug, PartialEq, Eq)]
pub struct Pipeline {
    id: u64,
    stride: usize,
    options: PipelineOptions,
}

impl Pipeline {
    pub(crate) fn new(id: u64, stride: usize, options: PipelineOptions) -> (pipeline: Pipeline)
        ensures
            pipeline.spec_id() == id,
            pipeline.spec_stride() == stride,
            pipeline.spec_options() == options,
    {
        Pipeline { id, stride, options }
    }

    pub closed spec fn spec_id(&self) -> u64 {
        self.id
    }

    #[verifier::when_used_as_spec(spec_id)]
    pub fn id(&self) -> (id: u64)
        ensures
            id == self.spec_id(),
    {
        self.id
    }

    pub closed spec fn spec_stride(&self) -> usize {
        self.stride
    }

    #[verifier::when_used_as_spec(spec_stride)]
    pub fn stride(&self) -> (stride: usize)
        ensures
            stride == self.spec_stride(),
    {
        self.stride
    }

    pub closed spec fn spec_options(&self) -> PipelineOptions {
        self.options
    }

    #[verifier::when_used_as_spec(spec_options)]
    pub fn options(&self) -> (options: PipelineOptions)
        ensures
            options == self.spec_options(),
    {
        self.options
    }

    /// The entry that deleting this pipeline puts into the cleanup tracker.
    pub open spec fn resource_id(&self) -> ResourceId {
        ResourceId::Pipeline(self.spec_id())
    }
}

/// The handle a backend's answer to a pipeline creation gives: one for the
/// new id, or the backend's error.
pub fn pipeline_from(created: Result<u64, GfxError>, stride: usize, options: PipelineOptions) -> (result:
    Result<Pipeline, GfxError>)
    ensures
        match created {
            Ok(id) => result matches Ok(pipeline) && pipeline.spec_id() == id
                && pipeline.spec_stride() == stride && pipeline.spec_options() == options,
            Err(error) => result == Err::<Pipeline, GfxError>(error),
        },
{
    match created {
        Ok(id) => Ok(Pipeline::new(id, stride, options)),
        Err(error) => Err(error),
    }
}

/// A pipeline in the making: the sources and the layout it needs, and the
/// state it gets, each with its default until set.
pub struct PipelineBuilder<'a, B: DeviceBackend> {
    pub device: &'a mut Device<B>,
    pub attrs: Vec<VertexAttr>,
    pub options: PipelineOptions,
    /// The vertex and the fragment source.
    pub shaders: Option<(&'a [u8], &'a [u8])>,
}

impl<'a, B: DeviceBackend> PipelineBuilder<'a, B> {
    pub fn new(device: &'a mut Device<B>) -> (builder: Self)
        ensures
            *final(builder.device) == *final(device),
            builder.attrs@ == Seq::<VertexAttr>::empty(),
            builder.options == PipelineOptions::spec_default(),
            builder.shaders is None,
            *builder.device == *old(device),
    {
        PipelineBuilder {
            device,
            attrs: Vec::new(),
            options: PipelineOptions::default(),
            shaders: None,
        }
    }

    /// Sets the shader sources from text.
    pub fn from(self, vertex: &'a str, fragment: &'a str) -> (builder: Self)
        ensures
            builder.device == self.device,
            builder.shaders matches Some(sources) && sources.0@ == vertex.spec_bytes()
                && sources.1@ == fragment.spec_bytes(),
            builder.attrs == self.attrs,
            builder.options == self.options,
    {
        let mut builder = self;
        builder.shaders = Some((vertex.as_bytes(), fragment.as_bytes()));
        builder
    }

    /// Sets the shader sources from bytes.
    pub fn from_raw(self, vertex: &'a [u8], fragment: &'a [u8]) -> (builder: Self)
        ensures
            builder.device == self.device,
            builder.shaders == Some((vertex, fragment)),
            builder.attrs == self.attrs,
            builder.options == self.options,
    {
        let mut builder = self;
        builder.shaders = Some((vertex, fragment));
        builder
    }

    /// Appends the attributes of `info` to the layout.
    pub fn with_vertex_info(self, info: &VertexInfo) -> (builder: Self)
        ensures
            builder.device == self.device,
            builder.attrs@ == self.attrs@ + info.attrs@,
            builder.options == self.options,
            builder.shaders == self.shaders,
    {
        let mut builder = self;
        let mut i: usize = 0;
        while i < info.attrs.len()
            invariant
                0 <= i <= info.attrs@.len(),
                builder.attrs@ == self.attrs@ + info.attrs@.take(i as int),
                builder.device == self.device,
                builder.options == self.options,
                builder.shaders == self.shaders,
            decreases info.attrs@.len() - i,
        {
            builder.attrs.push(info.attrs[i]);
            assert(info.attrs@.take(i as int + 1) =~= info.attrs@.take(i as int).push(
                info.attrs@[i as int],
            ));
            assert(builder.attrs@ =~= self.attrs@ + info.attrs@.take(i as int + 1));
            i = i + 1;
        }
        assert(info.attrs@.take(info.attrs@.len() as int) =~= info.attrs@);
        builder
    }

    pub fn with_color_blend(self, color_blend: BlendMode) -> (builder: Self)
        ensures
            builder.device == self.device,
            builder.options == (PipelineOptions { color_blend: Some(color_blend), ..self.options }),
            builder.attrs == self.attrs,
            builder.shaders == self.shaders,
    {
        let mut builder = self;
        builder.options.color_blend = Some(color_blend);
        builder
    }

    pub fn with_alpha_blend(self, alpha_blend: BlendMode) -> (builder: Self)
        ensures
            builder.device == self.device,
            builder.options == (PipelineOptions { alpha_blend: Some(alpha_blend), ..self.options }),
            builder.attrs == self.attrs,
            builder.shaders == self.shaders,
    {
        let mut builder = self;
        builder.options.alpha_blend = Some(alpha_blend);
        builder
    }

    pub fn with_cull_mode(self, cull_mode: CullMode) -> (builder: Self)
        ensures
            builder.device == self.device,
            builder.options == (PipelineOptions { cull_mode, ..self.options }),
            builder.attrs == self.attrs,
            builder.shaders == self.shaders,
    {
        let mut builder = self;
        builder.options.cull_mode = cull_mode;
        builder
    }

    pub fn with_depth_stencil(self, depth_stencil: DepthStencil) -> (builder: Self)
        ensures
            builder.device == self.device,
            builder.options == (PipelineOptions { depth_stencil, ..self.options }),
            builder.attrs == self.attrs,
            builder.shaders == self.shaders,
    {
        let mut builder = self;
        builder.options.depth_stencil = depth_stencil;
        builder
    }

    pub fn with_color_mask(self, color_mask: ColorMask) -> (builder: Self)
        ensures
            builder.device == self.device,
            builder.options == (PipelineOptions { color_mask, ..self.options }),
            builder.attrs == self.attrs,
            builder.shaders == self.shaders,
    {
        let mut builder = self;
        builder.options.color_mask = color_mask;
        builder
    }

    pub fn with_stencil(self, stencil: StencilOptions) -> (builder: Self)
        ensures
            builder.device == self.device,
            builder.options == (PipelineOptions { stencil: Some(stencil), ..self.options }),
            builder.attrs == self.attrs,
            builder.shaders == self.shaders,
    {
        let mut builder = self;
        builder.options.stencil = Some(stencil);
        builder
    }

    /// Creates the pipeline. Without shader sources there is nothing to
    /// create, and a layout whose byte length does not fit the native
    /// integer is refused: either way the backend is not asked. Otherwise
    /// the backend is asked once, with the sources, the layout and the
    /// options. For a new id the result is a handle of that id, with the
    /// sum of the byte sizes of the attributes as its stride and with the
    /// options; an error of the backend is passed on.
    pub fn build(self) -> (result: Result<Pipeline, GfxError>)
        ensures
            result matches Ok(pipeline) ==> pipeline.spec_stride() == stride_of(self.attrs@)
                && pipeline.spec_options() == self.options,
            final(self.device).same_surface(old(self.device)),
            match self.shaders {
                None => result == Err::<Pipeline, GfxError>(GfxError::MissingShaders) && final(
                    self.device).backend() == old(self.device).backend(),
                Some(sources) => if stride_of(self.attrs@) > i32::MAX {
                    result == Err::<Pipeline, GfxError>(GfxError::LayoutTooLarge) && final(
                        self.device).backend() == old(self.device).backend()
                } else {
                    exists|backend: &mut B, attrs: &[VertexAttr]|
                        mut_ref_current(backend) == old(self.device).backend()
                        && mut_ref_future(backend) == final(self.device).backend()
                        && attrs@ == self.attrs@
                        && #[trigger] call_ensures(B::create_pipeline, (backend, sources.0, sources.1, attrs, self.options), pipeline_answer(result))
                },
            },
    {
        let PipelineBuilder { device, attrs, options, shaders } = self;
        match shaders {
            Some((vertex, fragment)) => device.inner_create_pipeline_from_raw(
                vertex,
                fragment,
                attrs.as_slice(),
                options,
            ),
            None => Err(GfxError::MissingShaders),
        }
    }
}

} // verus!
