//! The native constant that stands for each value of the declarative enums.

use crate::gfx::buffer::{BufferUsage, VertexFormat};
use crate::gfx::pipeline::{
    BlendFactor, BlendOperation, CompareMode, CullMode, DrawPrimitive, DrawType, ShaderStage,
    StencilAction,
};
use crate::gfx::texture::TextureFilter;
use crate::gfx_backend::gl;
use vstd::prelude::*;

verus! {

/// A value that always has a native constant.
pub trait ToGl {
    /// The native constant for `self`.
    spec fn gl_value(&self) -> u32;

    fn to_gl(&self) -> (value: u32)
        ensures
            value == self.gl_value(),
    ;
}

/// A value that may stand for "feature off", which has no native constant.
pub trait ToOptionalGl {
    /// The native constant for `self`, or `None` where `self` switches the
    /// feature off.
    spec fn gl_value(&self) -> Option<u32>;

    fn to_gl(&self) -> (value: Option<u32>)
        ensures
            value == self.gl_value(),
    ;
}

impl ToGl for StencilAction {
    open spec fn gl_value(&self) -> u32 {
        match self {
            StencilAction::Keep => gl::KEEP,
            StencilAction::Zero => gl::ZERO,
            StencilAction::Replace => gl::REPLACE,
            StencilAction::Increment => gl::INCR,
            StencilAction::IncrementWrap => gl::INCR_WRAP,
            StencilAction::Decrement => gl::DECR,
            StencilAction::DecrementWrap => gl::DECR_WRAP,
            StencilAction::Invert => gl::INVERT,
        }
    }

    fn to_gl(&self) -> u32 {
        match self {
            StencilAction::Keep => gl::KEEP,
            StencilAction::Zero => gl::ZERO,
            StencilAction::Replace => gl::REPLACE,
            StencilAction::Increment => gl::INCR,
            StencilAction::IncrementWrap => gl::INCR_WRAP,
            StencilAction::Decrement => gl::DECR,
            StencilAction::DecrementWrap => gl::DECR_WRAP,
            StencilAction::Invert => gl::INVERT,
        }
    }
}

impl ToGl for BlendOperation {
    open spec fn gl_value(&self) -> u32 {
        match self {
            BlendOperation::Add => gl::FUNC_ADD,
            BlendOperation::Subtract => gl::FUNC_SUBTRACT,
            BlendOperation::ReverseSubtract => gl::FUNC_REVERSE_SUBTRACT,
            BlendOperation::Max => gl::MAX,
            BlendOperation::Min => gl::MIN,
        }
    }

    fn to_gl(&self) -> u32 {
        match self {
            BlendOperation::Add => gl::FUNC_ADD,
            BlendOperation::Subtract => gl::FUNC_SUBTRACT,
            BlendOperation::ReverseSubtract => gl::FUNC_REVERSE_SUBTRACT,
            BlendOperation::Max => gl::MAX,
            BlendOperation::Min => gl::MIN,
        }
    }
}

impl ToGl for BlendFactor {
    open spec fn gl_value(&self) -> u32 {
        match self {
            BlendFactor::Zero => gl::ZERO,
            BlendFactor::One => gl::ONE,
            BlendFactor::SourceAlpha => gl::SRC_ALPHA,
            BlendFactor::SourceColor => gl::SRC_COLOR,
            BlendFactor::InverseSourceAlpha => gl::ONE_MINUS_SRC_ALPHA,
            BlendFactor::InverseSourceColor => gl::ONE_MINUS_SRC_COLOR,
            BlendFactor::DestinationAlpha => gl::DST_ALPHA,
            BlendFactor::DestinationColor => gl::DST_COLOR,
            BlendFactor::InverseDestinationAlpha => gl::ONE_MINUS_DST_ALPHA,
            BlendFactor::InverseDestinationColor => gl::ONE_MINUS_DST_COLOR,
        }
    }

    fn to_gl(&self) -> u32 {
        match self {
            BlendFactor::Zero => gl::ZERO,
            BlendFactor::One => gl::ONE,
            BlendFactor::SourceAlpha => gl::SRC_ALPHA,
            BlendFactor::SourceColor => gl::SRC_COLOR,
            BlendFactor::InverseSourceAlpha => gl::ONE_MINUS_SRC_ALPHA,
            BlendFactor::InverseSourceColor => gl::ONE_MINUS_SRC_COLOR,
            BlendFactor::DestinationAlpha => gl::DST_ALPHA,
            BlendFactor::DestinationColor => gl::DST_COLOR,
            BlendFactor::InverseDestinationAlpha => gl::ONE_MINUS_DST_ALPHA,
            BlendFactor::InverseDestinationColor => gl::ONE_MINUS_DST_COLOR,
        }
    }
}

impl ToOptionalGl for CompareMode {
    open spec fn gl_value(&self) -> Option<u32> {
        match self {
            CompareMode::Disabled => None,
            CompareMode::Less => Some(gl::LESS),
            CompareMode::Equal => Some(gl::EQUAL),
            CompareMode::LEqual => Some(gl::LEQUAL),
            CompareMode::Greater => Some(gl::GREATER),
            CompareMode::NotEqual => Some(gl::NOTEQUAL),
            CompareMode::GEqual => Some(gl::GEQUAL),
            CompareMode::Always => Some(gl::ALWAYS),
        }
    }

    fn to_gl(&self) -> Option<u32> {
        match self {
            CompareMode::Disabled => None,
            CompareMode::Less => Some(gl::LESS),
            CompareMode::Equal => Some(gl::EQUAL),
            CompareMode::LEqual => Some(gl::LEQUAL),
            CompareMode::Greater => Some(gl::GREATER),
            CompareMode::NotEqual => Some(gl::NOTEQUAL),
            CompareMode::GEqual => Some(gl::GEQUAL),
            CompareMode::Always => Some(gl::ALWAYS),
        }
    }
}

impl ToOptionalGl for CullMode {
    open spec fn gl_value(&self) -> Option<u32> {
        match self {
            CullMode::Disabled => None,
            CullMode::Front => Some(gl::FRONT),
            CullMode::Back => Some(gl::BACK),
        }
    }

    fn to_gl(&self) -> Option<u32> {
        match self {
            CullMode::Disabled => None,
            CullMode::Front => Some(gl::FRONT),
            CullMode::Back => Some(gl::BACK),
        }
    }
}

impl ToGl for DrawType {
    open spec fn gl_value(&self) -> u32 {
        match self {
            DrawType::Static => gl::STATIC_DRAW,
            DrawType::Dynamic => gl::DYNAMIC_DRAW,
        }
    }

    fn to_gl(&self) -> u32 {
        match self {
            DrawType::Static => gl::STATIC_DRAW,
            DrawType::Dynamic => gl::DYNAMIC_DRAW,
        }
    }
}

impl ToGl for BufferUsage {
    open spec fn gl_value(&self) -> u32 {
        match self {
            BufferUsage::Vertex => gl::ARRAY_BUFFER,
            BufferUsage::Index => gl::ELEMENT_ARRAY_BUFFER,
            BufferUsage::Uniform(_) => gl::UNIFORM_BUFFER,
        }
    }

    fn to_gl(&self) -> u32 {
        match self {
            BufferUsage::Vertex => gl::ARRAY_BUFFER,
            BufferUsage::Index => gl::ELEMENT_ARRAY_BUFFER,
            BufferUsage::Uniform(_) => gl::UNIFORM_BUFFER,
        }
    }
}

impl ToGl for VertexFormat {
    open spec fn gl_value(&self) -> u32 {
        match self {
            VertexFormat::UInt8 => gl::UNSIGNED_BYTE,
            VertexFormat::UInt8x2 => gl::UNSIGNED_BYTE,
            VertexFormat::UInt8x3 => gl::UNSIGNED_BYTE,
            VertexFormat::UInt8x4 => gl::UNSIGNED_BYTE,
            VertexFormat::Float32 => gl::FLOAT,
            VertexFormat::Float32x2 => gl::FLOAT,
            VertexFormat::Float32x3 => gl::FLOAT,
            VertexFormat::Float32x4 => gl::FLOAT,
        }
    }

    fn to_gl(&self) -> u32 {
        match self {
            VertexFormat::UInt8 => gl::UNSIGNED_BYTE,
            VertexFormat::UInt8x2 => gl::UNSIGNED_BYTE,
            VertexFormat::UInt8x3 => gl::UNSIGNED_BYTE,
            VertexFormat::UInt8x4 => gl::UNSIGNED_BYTE,
            VertexFormat::Float32 => gl::FLOAT,
            VertexFormat::Float32x2 => gl::FLOAT,
            VertexFormat::Float32x3 => gl::FLOAT,
            VertexFormat::Float32x4 => gl::FLOAT,
        }
    }
}

impl ToGl for TextureFilter {
    open spec fn gl_value(&self) -> u32 {
        match self {
            TextureFilter::Linear => gl::LINEAR,
            TextureFilter::Nearest => gl::NEAREST,
        }
    }

    fn to_gl(&self) -> u32 {
        match self {
            TextureFilter::Linear => gl::LINEAR,
            TextureFilter::Nearest => gl::NEAREST,
        }
    }
}

impl ToGl for DrawPrimitive {
    open spec fn gl_value(&self) -> u32 {
        match self {
            DrawPrimitive::Triangles => gl::TRIANGLES,
            DrawPrimitive::TriangleStrip => gl::TRIANGLE_STRIP,
            DrawPrimitive::Lines => gl::LINES,
            DrawPrimitive::LineStrip => gl::LINE_STRIP,
        }
    }

    fn to_gl(&self) -> u32 {
        match self {
            DrawPrimitive::Triangles => gl::TRIANGLES,
            DrawPrimitive::TriangleStrip => gl::TRIANGLE_STRIP,
            DrawPrimitive::Lines => gl::LINES,
            DrawPrimitive::LineStrip => gl::LINE_STRIP,
        }
    }
}

impl ToGl for ShaderStage {
    open spec fn gl_value(&self) -> u32 {
        match self {
            ShaderStage::Vertex => gl::VERTEX_SHADER,
            ShaderStage::Fragment => gl::FRAGMENT_SHADER,
        }
    }

    fn to_gl(&self) -> u32 {
        match self {
            ShaderStage::Vertex => gl::VERTEX_SHADER,
            ShaderStage::Fragment => gl::FRAGMENT_SHADER,
        }
    }
}

/// No two blend factors share a native constant: the factor that is
/// configured is the one that is applied.
pub proof fn lemma_blend_factors_differ(first: BlendFactor, second: BlendFactor)
    ensures
        first.gl_value() == second.gl_value() ==> first == second,
{
}

/// No two blend operations share a native constant.
pub proof fn lemma_blend_operations_differ(first: BlendOperation, second: BlendOperation)
    ensures
        first.gl_value() == second.gl_value() ==> first == second,
{
}

/// No two stencil actions share a native constant.
pub proof fn lemma_stencil_actions_differ(first: StencilAction, second: StencilAction)
    ensures
        first.gl_value() == second.gl_value() ==> first == second,
{
}

/// No two compare modes share a native constant, and only the mode that
/// switches the test off has none.
pub proof fn lemma_compare_modes_differ(first: CompareMode, second: CompareMode)
    ensures
        first.gl_value() == second.gl_value() ==> first == second,
        first.gl_value() is None <==> first == CompareMode::Disabled,
{
}

} // verus!
