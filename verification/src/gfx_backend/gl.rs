//! The native graphics API as data: the numeric constants of the API and one
//! value per call that the backend can ask for.

use vstd::prelude::*;

verus! {

pub const ZERO: u32 = 0;
pub const ONE: u32 = 1;
pub const LINES: u32 = 0x0001;
pub const LINE_STRIP: u32 = 0x0003;
pub const TRIANGLES: u32 = 0x0004;
pub const TRIANGLE_STRIP: u32 = 0x0005;
pub const DEPTH_BUFFER_BIT: u32 = 0x0100;
pub const STENCIL_BUFFER_BIT: u32 = 0x0400;
pub const COLOR_BUFFER_BIT: u32 = 0x4000;
pub const LESS: u32 = 0x0201;
pub const EQUAL: u32 = 0x0202;
pub const LEQUAL: u32 = 0x0203;
pub const GREATER: u32 = 0x0204;
pub const NOTEQUAL: u32 = 0x0205;
pub const GEQUAL: u32 = 0x0206;
pub const ALWAYS: u32 = 0x0207;
pub const SRC_COLOR: u32 = 0x0300;
pub const ONE_MINUS_SRC_COLOR: u32 = 0x0301;
pub const SRC_ALPHA: u32 = 0x0302;
pub const ONE_MINUS_SRC_ALPHA: u32 = 0x0303;
pub const DST_ALPHA: u32 = 0x0304;
pub const ONE_MINUS_DST_ALPHA: u32 = 0x0305;
pub const DST_COLOR: u32 = 0x0306;
pub const ONE_MINUS_DST_COLOR: u32 = 0x0307;
pub const FRONT: u32 = 0x0404;
pub const BACK: u32 = 0x0405;
pub const CULL_FACE: u32 = 0x0B44;
pub const DEPTH_TEST: u32 = 0x0B71;
pub const STENCIL_TEST: u32 = 0x0B90;
pub const BLEND: u32 = 0x0BE2;
pub const SCISSOR_TEST: u32 = 0x0C11;
pub const UNPACK_ALIGNMENT: u32 = 0x0CF5;
pub const MAX_TEXTURE_SIZE: u32 = 0x0D33;
pub const TEXTURE_2D: u32 = 0x0DE1;
pub const UNSIGNED_BYTE: u32 = 0x1401;
pub const UNSIGNED_SHORT: u32 = 0x1403;
pub const UNSIGNED_INT: u32 = 0x1405;
pub const FLOAT: u32 = 0x1406;
pub const INVERT: u32 = 0x150A;
pub const DEPTH_COMPONENT: u32 = 0x1902;
pub const RED: u32 = 0x1903;
pub const RGBA: u32 = 0x1908;
pub const KEEP: u32 = 0x1E00;
pub const REPLACE: u32 = 0x1E01;
pub const INCR: u32 = 0x1E02;
pub const DECR: u32 = 0x1E03;
pub const NEAREST: u32 = 0x2600;
pub const LINEAR: u32 = 0x2601;
pub const TEXTURE_MAG_FILTER: u32 = 0x2800;
pub const TEXTURE_MIN_FILTER: u32 = 0x2801;
pub const TEXTURE_WRAP_S: u32 = 0x2802;
pub const TEXTURE_WRAP_T: u32 = 0x2803;
pub const FUNC_ADD: u32 = 0x8006;
pub const MIN: u32 = 0x8007;
pub const MAX: u32 = 0x8008;
pub const FUNC_SUBTRACT: u32 = 0x800A;
pub const FUNC_REVERSE_SUBTRACT: u32 = 0x800B;
pub const CLAMP_TO_EDGE: u32 = 0x812F;
pub const DEPTH_COMPONENT16: u32 = 0x81A5;
pub const R8: u32 = 0x8229;
pub const TEXTURE0: u32 = 0x84C0;
pub const TEXTURE1: u32 = 0x84C1;
pub const TEXTURE2: u32 = 0x84C2;
pub const TEXTURE3: u32 = 0x84C3;
pub const TEXTURE4: u32 = 0x84C4;
pub const TEXTURE5: u32 = 0x84C5;
pub const TEXTURE6: u32 = 0x84C6;
pub const TEXTURE7: u32 = 0x84C7;
pub const INCR_WRAP: u32 = 0x8507;
pub const DECR_WRAP: u32 = 0x8508;
pub const ARRAY_BUFFER: u32 = 0x8892;
pub const ELEMENT_ARRAY_BUFFER: u32 = 0x8893;
pub const STATIC_DRAW: u32 = 0x88E4;
pub const DYNAMIC_DRAW: u32 = 0x88E8;
pub const UNIFORM_BUFFER: u32 = 0x8A11;
pub const MAX_UNIFORM_BLOCK_SIZE: u32 = 0x8A30;
pub const FRAGMENT_SHADER: u32 = 0x8B30;
pub const VERTEX_SHADER: u32 = 0x8B31;
pub const SRGB8_ALPHA8: u32 = 0x8C43;
pub const FRAMEBUFFER_COMPLETE: u32 = 0x8CD5;
pub const COLOR_ATTACHMENT0: u32 = 0x8CE0;
pub const DEPTH_ATTACHMENT: u32 = 0x8D00;
pub const FRAMEBUFFER: u32 = 0x8D40;
pub const INVALID_INDEX: u32 = 0xFFFF_FFFF;

/// One call into the native API that returns nothing the backend needs.
///
/// Calls that move bulk data (`BufferData`, `BufferSubData`, `TexImage2D`,
/// `TexSubImage2D`, `ReadPixels`) name everything but the bytes: the bytes are
/// those of the operation that produced the call, which the executor holds.
#[allow(inconsistent_fields)]
#[derive(Debug, PartialEq, Eq)]
pub enum GlCall {
    Enable { cap: u32 },
    Disable { cap: u32 },
    Viewport { x: i32, y: i32, width: i32, height: i32 },
    Scissor { x: i32, y: i32, width: i32, height: i32 },
    /// Channels are IEEE-754 single-precision bit patterns.
    ClearColor { r: u32, g: u32, b: u32, a: u32 },
    /// `depth` is an IEEE-754 single-precision bit pattern.
    ClearDepthf { depth: u32 },
    ClearStencil { stencil: i32 },
    Clear { mask: u32 },
    DepthFunc { func: u32 },
    DepthMask { flag: bool },
    StencilMask { mask: u32 },
    StencilOp { fail: u32, zfail: u32, zpass: u32 },
    StencilFunc { func: u32, reference: i32, mask: u32 },
    ColorMask { r: bool, g: bool, b: bool, a: bool },
    CullFace { mode: u32 },
    BlendFunc { sfactor: u32, dfactor: u32 },
    BlendEquation { mode: u32 },
    BlendFuncSeparate { src_rgb: u32, dst_rgb: u32, src_alpha: u32, dst_alpha: u32 },
    BlendEquationSeparate { mode_rgb: u32, mode_alpha: u32 },
    UseProgram { program: u32 },
    BindVertexArray { array: u32 },
    BindFramebuffer { target: u32, framebuffer: u32 },
    BindBuffer { target: u32, buffer: u32 },
    BindBufferBase { target: u32, index: u32, buffer: u32 },
    /// Allocate the store of the buffer bound to `target` and fill it with the
    /// `size` bytes of the upload in progress.
    BufferData { target: u32, size: usize, usage: u32 },
    /// Overwrite `size` bytes at `offset` with the bytes of the upload in
    /// progress.
    BufferSubData { target: u32, offset: usize, size: usize },
    EnableVertexAttribArray { index: u32 },
    VertexAttribPointer {
        index: u32,
        size: i32,
        data_type: u32,
        normalized: bool,
        stride: i32,
        offset: i32,
    },
    VertexAttribDivisor { index: u32, divisor: u32 },
    /// Look up the index of the uniform block called `name` in `program`,
    /// then issue what [`uniform_block_binding`] returns for that index.
    BindUniformBlock { program: u32, name: String, slot: u32 },
    UniformBlockBinding { program: u32, index: u32, binding: u32 },
    DrawArrays { mode: u32, first: i32, count: i32 },
    /// `offset` is the byte offset into the bound index buffer.
    DrawElements { mode: u32, count: i32, index_type: u32, offset: i64 },
    DrawArraysInstanced { mode: u32, first: i32, count: i32, instances: i32 },
    /// `offset` is the byte offset into the bound index buffer.
    DrawElementsInstanced { mode: u32, count: i32, index_type: u32, offset: i64, instances: i32 },
    ActiveTexture { unit: u32 },
    BindTexture { target: u32, texture: u32 },
    Uniform1i { location: u32, value: i32 },
    TexParameteri { target: u32, pname: u32, param: u32 },
    PixelStorei { pname: u32, param: i32 },
    FramebufferTexture2D { target: u32, attachment: u32, textarget: u32, texture: u32, level: i32 },
    /// `with_pixels` says whether the descriptor's initial bytes are uploaded
    /// or the store is left undefined.
    TexImage2D {
        target: u32,
        level: i32,
        internal_format: u32,
        width: i32,
        height: i32,
        border: i32,
        format: u32,
        data_type: u32,
        with_pixels: bool,
    },
    TexSubImage2D {
        target: u32,
        level: i32,
        x_offset: i32,
        y_offset: i32,
        width: i32,
        height: i32,
        format: u32,
        data_type: u32,
    },
    ReadPixels { x: i32, y: i32, width: i32, height: i32, format: u32, data_type: u32 },
    DeleteShader { shader: u32 },
    DeleteProgram { program: u32 },
    DeleteVertexArray { array: u32 },
    DeleteBuffer { buffer: u32 },
    DeleteTexture { texture: u32 },
    DeleteFramebuffer { framebuffer: u32 },
}

/// A call into the native API whose result decides what the backend does next.
#[derive(Debug, PartialEq, Eq)]
pub enum GlQuery {
    /// Generate one buffer name. Answered by [`GlReply::Name`].
    GenBuffer,
    /// Generate one texture name. Answered by [`GlReply::Name`].
    GenTexture,
    /// Generate one framebuffer name. Answered by [`GlReply::Name`].
    GenFramebuffer,
    /// Generate one vertex array name. Answered by [`GlReply::Name`].
    GenVertexArray,
    /// Create a shader of the native kind `stage`, give it `source` and
    /// compile it. Answered by [`GlReply::Built`] with the shader's name, its
    /// compile status and, where that is not 1, its info log.
    CompileShader { stage: u32, source: String },
    /// Create a program, attach both shaders and link it. Answered by
    /// [`GlReply::Built`] with the program's name, its link status and, where
    /// that is not 1, its info log.
    LinkProgram { vertex: u32, fragment: u32 },
    /// Resolve every active uniform of `program` to its location, in index
    /// order. Answered by [`GlReply::Locations`].
    UniformLocations { program: u32 },
    /// The completeness status of the framebuffer bound to `target`.
    /// Answered by [`GlReply::Status`].
    FramebufferStatus { target: u32 },
}

/// What the native API answered to a [`GlQuery`].
#[derive(Debug, PartialEq, Eq)]
pub enum GlReply {
    Name(u32),
    Built { name: u32, status: i32, log: String },
    /// One location per active uniform; a negative one stands for "not
    /// found".
    Locations(Vec<i32>),
    Status(u32),
}

/// What to do with the block index that the native API reported for a
/// [`GlCall::BindUniformBlock`]: bind the block to `slot` unless the program
/// has no such block.
pub fn uniform_block_binding(program: u32, index: u32, slot: u32) -> (call: Option<GlCall>)
    ensures
        index == INVALID_INDEX ==> call is None,
        index != INVALID_INDEX ==> call == Some(
            (GlCall::UniformBlockBinding { program, index, binding: slot }),
        ),
{
    if index != INVALID_INDEX {
        Some(GlCall::UniformBlockBinding { program, index, binding: slot })
    } else {
        None
    }
}

} // verus!
