//! Textures on the native side.

use crate::gfx::error::GfxError;
use crate::gfx::texture::{TextureFilter, TextureFormat, TextureLayout};
use crate::gfx_backend::gl;
use crate::gfx_backend::gl::GlCall;
use crate::gfx_backend::to_gl::ToGl;
use vstd::prelude::*;

verus! {

/// The native object behind one texture.
#[derive(Clone, Copy, Debug, PartialEq, Eq)]
pub struct InnerTexture {
    pub texture: u32,
    pub size: (i32, i32),
    pub is_srgba: bool,
}

/// The pixel format constant of uploads and read-backs in format `format`.
pub open spec fn spec_texture_format(format: TextureFormat) -> u32 {
    match format {
        TextureFormat::Rgba32 => gl::RGBA,
        TextureFormat::R8 => gl::RED,
        TextureFormat::Depth16 => gl::DEPTH_COMPONENT16,
        TextureFormat::SRgba8 => gl::RGBA,
    }
}

/// The pixel format constant of uploads and read-backs in format `tf`.
pub fn texture_format(tf: &TextureFormat) -> (format: u32)
    ensures
        format == spec_texture_format(*tf),
{
    match tf {
        TextureFormat::Rgba32 => gl::RGBA,
        TextureFormat::R8 => gl::RED,
        TextureFormat::Depth16 => gl::DEPTH_COMPONENT16,
        TextureFormat::SRgba8 => gl::RGBA,
    }
}

/// The storage format constant of a texture in format `format`.
pub open spec fn spec_texture_internal_format(format: TextureFormat) -> u32 {
    match format {
        TextureFormat::R8 => gl::R8,
        TextureFormat::SRgba8 => gl::SRGB8_ALPHA8,
        _ => spec_texture_format(format),
    }
}

/// The storage format constant of a texture in format `tf`.
pub fn texture_internal_format(tf: &TextureFormat) -> (format: u32)
    ensures
        format == spec_texture_internal_format(*tf),
{
    match tf {
        TextureFormat::R8 => gl::R8,
        TextureFormat::SRgba8 => gl::SRGB8_ALPHA8,
        _ => texture_format(tf),
    }
}

/// The texture units the backend drives: slots 0 to 7.
pub open spec fn slot_is_supported(slot: u32) -> bool {
    slot <= 7
}

/// The native constant of texture unit `slot`.
pub fn gl_slot(slot: u32) -> (unit: Result<u32, GfxError>)
    ensures
        slot_is_supported(slot) ==> unit == Ok::<u32, GfxError>((gl::TEXTURE0 + slot) as u32),
        !slot_is_supported(slot) ==> unit == Err::<u32, GfxError>(
            GfxError::UnsupportedTextureSlot { slot },
        ),
{
    Ok(
        match slot {
            0 => gl::TEXTURE0,
            1 => gl::TEXTURE1,
            2 => gl::TEXTURE2,
            3 => gl::TEXTURE3,
            4 => gl::TEXTURE4,
            5 => gl::TEXTURE5,
            6 => gl::TEXTURE6,
            7 => gl::TEXTURE7,
            _ => return Err(GfxError::UnsupportedTextureSlot { slot }),
        },
    )
}

/// Whether textures of this layout hold depth values.
pub open spec fn is_depth(layout: TextureLayout) -> bool {
    layout.format == TextureFormat::Depth16
}

/// The filter a texture of this layout really gets for a requested one:
/// depth textures are always sampled nearest.
pub open spec fn effective_filter(layout: TextureLayout, requested: TextureFilter) -> u32 {
    if is_depth(layout) {
        gl::NEAREST
    } else {
        requested.gl_value()
    }
}

/// The call that allocates the store of a texture of this layout. A depth
/// texture is allocated as 16-bit depth data without initial pixels; any
/// other takes the format of the layout and the initial pixels, where the
/// descriptor has any.
pub open spec fn image_call(layout: TextureLayout) -> GlCall {
    GlCall::TexImage2D {
        target: gl::TEXTURE_2D,
        level: 0,
        internal_format: spec_texture_internal_format(layout.format),
        width: layout.width,
        height: layout.height,
        border: 0,
        format: if is_depth(layout) {
            gl::DEPTH_COMPONENT
        } else {
            spec_texture_format(layout.format)
        },
        data_type: if is_depth(layout) {
            gl::UNSIGNED_SHORT
        } else {
            gl::UNSIGNED_BYTE
        },
        with_pixels: layout.with_pixels && !is_depth(layout),
    }
}

/// The calls that set up the wrap mode and the filters of the bound texture.
pub open spec fn sampling_calls(layout: TextureLayout) -> Seq<GlCall> {
    seq![
        GlCall::TexParameteri {
            target: gl::TEXTURE_2D,
            pname: gl::TEXTURE_WRAP_S,
            param: gl::CLAMP_TO_EDGE,
        },
        GlCall::TexParameteri {
            target: gl::TEXTURE_2D,
            pname: gl::TEXTURE_WRAP_T,
            param: gl::CLAMP_TO_EDGE,
        },
        GlCall::TexParameteri {
            target: gl::TEXTURE_2D,
            pname: gl::TEXTURE_MAG_FILTER,
            param: effective_filter(layout, layout.mag_filter),
        },
        GlCall::TexParameteri {
            target: gl::TEXTURE_2D,
            pname: gl::TEXTURE_MIN_FILTER,
            param: effective_filter(layout, layout.min_filter),
        },
    ]
}

/// The call that attaches `texture` as the depth attachment of the bound
/// framebuffer.
pub open spec fn depth_attachment_call(texture: u32) -> GlCall {
    GlCall::FramebufferTexture2D {
        target: gl::FRAMEBUFFER,
        attachment: gl::DEPTH_ATTACHMENT,
        textarget: gl::TEXTURE_2D,
        texture,
        level: 0,
    }
}

/// Everything creating a texture asks for once its name exists: the unpack
/// alignment where a pixel is not four bytes, then, with the texture bound,
/// wrap mode and filters, for a depth texture the attachment to the bound
/// framebuffer, and the allocation of the store.
pub open spec fn texture_calls(texture: u32, layout: TextureLayout) -> Seq<GlCall> {
    (if layout.spec_bytes_per_pixel() != 4 {
        seq![
            GlCall::PixelStorei {
                pname: gl::UNPACK_ALIGNMENT,
                param: layout.spec_bytes_per_pixel() as i32,
            },
        ]
    } else {
        Seq::<GlCall>::empty()
    }) + seq![GlCall::BindTexture { target: gl::TEXTURE_2D, texture }] + sampling_calls(layout) + (
    if is_depth(layout) {
        seq![depth_attachment_call(texture)]
    } else {
        Seq::<GlCall>::empty()
    }) + seq![image_call(layout), GlCall::BindTexture { target: gl::TEXTURE_2D, texture: 0 }]
}

/// Sets up the texture named `texture` for `layout`.
pub fn create_texture(texture: u32, layout: &TextureLayout, calls: &mut Vec<GlCall>) -> (key: u32)
    ensures
        key == texture,
        final(calls)@ == old(calls)@ + texture_calls(texture, *layout),
{
    let bytes_per_pixel = layout.bytes_per_pixel();
    if bytes_per_pixel != 4 {
        calls.push(GlCall::PixelStorei { pname: gl::UNPACK_ALIGNMENT, param: bytes_per_pixel as i32 });
    }
    calls.push(GlCall::BindTexture { target: gl::TEXTURE_2D, texture });
    calls.push(
        GlCall::TexParameteri {
            target: gl::TEXTURE_2D,
            pname: gl::TEXTURE_WRAP_S,
            param: gl::CLAMP_TO_EDGE,
        },
    );
    calls.push(
        GlCall::TexParameteri {
            target: gl::TEXTURE_2D,
            pname: gl::TEXTURE_WRAP_T,
            param: gl::CLAMP_TO_EDGE,
        },
    );

    let depth = match layout.format {
        TextureFormat::Depth16 => true,
        _ => false,
    };
    let mut with_pixels = layout.with_pixels;
    let mut typ = gl::UNSIGNED_BYTE;
    let mut format = texture_format(&layout.format);
    let mut mag_filter = layout.mag_filter.to_gl();
    let mut min_filter = layout.min_filter.to_gl();
    if depth {
        format = gl::DEPTH_COMPONENT;
        typ = gl::UNSIGNED_SHORT;
        with_pixels = false;
        mag_filter = gl::NEAREST;
        min_filter = gl::NEAREST;
    }
    calls.push(
        GlCall::TexParameteri {
            target: gl::TEXTURE_2D,
            pname: gl::TEXTURE_MAG_FILTER,
            param: mag_filter,
        },
    );
    calls.push(
        GlCall::TexParameteri {
            target: gl::TEXTURE_2D,
            pname: gl::TEXTURE_MIN_FILTER,
            param: min_filter,
        },
    );
    if depth {
        calls.push(
            GlCall::FramebufferTexture2D {
                target: gl::FRAMEBUFFER,
                attachment: gl::DEPTH_ATTACHMENT,
                textarget: gl::TEXTURE_2D,
                texture,
                level: 0,
            },
        );
    }
    calls.push(
        GlCall::TexImage2D {
            target: gl::TEXTURE_2D,
            level: 0,
            internal_format: texture_internal_format(&layout.format),
            width: layout.width,
            height: layout.height,
            border: 0,
            format,
            data_type: typ,
            with_pixels,
        },
    );
    calls.push(GlCall::BindTexture { target: gl::TEXTURE_2D, texture: 0 });
    assert(calls@ =~= old(calls)@ + texture_calls(texture, *layout));
    texture
}

/// The calls that make a texture the one sampled through `location`: its
/// unit is selected, the texture bound, and the unit's number written to the
/// uniform.
pub open spec fn texture_bind_calls(texture: u32, slot: u32, location: u32) -> Seq<GlCall> {
    seq![
        GlCall::ActiveTexture { unit: (gl::TEXTURE0 + slot) as u32 },
        GlCall::BindTexture { target: gl::TEXTURE_2D, texture },
        GlCall::Uniform1i { location, value: slot as i32 },
    ]
}

impl InnerTexture {
    /// Sets up the texture named `texture` for `layout` and records its size.
    pub fn new(texture: u32, layout: &TextureLayout, calls: &mut Vec<GlCall>) -> (result: Result<
        InnerTexture,
        GfxError,
    >)
        ensures
            result == Ok::<InnerTexture, GfxError>(
                (InnerTexture {
                    texture,
                    size: (layout.width, layout.height),
                    is_srgba: layout.format == TextureFormat::SRgba8,
                }),
            ),
            final(calls)@ == old(calls)@ + texture_calls(texture, *layout),
    {
        let texture = create_texture(texture, layout, calls);
        let size = (layout.width, layout.height);
        let is_srgba = match layout.format {
            TextureFormat::SRgba8 => true,
            _ => false,
        };
        Ok(InnerTexture { texture, size, is_srgba })
    }

    /// Binds the texture to unit `slot` for the uniform at `location`. A
    /// slot the backend does not drive is refused and asks for nothing.
    pub fn bind(&self, slot: u32, location: u32, calls: &mut Vec<GlCall>) -> (result: Result<
        (),
        GfxError,
    >)
        ensures
            slot_is_supported(slot) ==> result is Ok && final(calls)@ == old(calls)@
                + texture_bind_calls(self.texture, slot, location),
            !slot_is_supported(slot) ==> result == Err::<(), GfxError>(
                GfxError::UnsupportedTextureSlot { slot },
            ) && final(calls)@ == old(calls)@,
    {
        match gl_slot(slot) {
            Ok(unit) => {
                calls.push(GlCall::ActiveTexture { unit });
                calls.push(GlCall::BindTexture { target: gl::TEXTURE_2D, texture: self.texture });
                calls.push(GlCall::Uniform1i { location, value: slot as i32 });
                assert(calls@ =~= old(calls)@ + texture_bind_calls(self.texture, slot, location));
                Ok(())
            },
            Err(error) => Err(error),
        }
    }

    /// Asks for the texture to be deleted.
    pub fn clean(self, calls: &mut Vec<GlCall>)
        ensures
            final(calls)@ == old(calls)@.push(GlCall::DeleteTexture { texture: self.texture }),
    {
        calls.push(GlCall::DeleteTexture { texture: self.texture });
    }
}

/// A depth texture is sampled nearest and attached as the depth
/// attachment, whatever filters its layout asks for: every filter set while
/// creating it is nearest, the attachment call is among the calls, and no
/// pixels are uploaded.
pub proof fn lemma_depth_texture(texture: u32, layout: TextureLayout)
    requires
        is_depth(layout),
    ensures
        texture_calls(texture, layout).contains(depth_attachment_call(texture)),
        texture_calls(texture, layout).contains(
            GlCall::TexParameteri {
                target: gl::TEXTURE_2D,
                pname: gl::TEXTURE_MAG_FILTER,
                param: gl::NEAREST,
            },
        ),
        texture_calls(texture, layout).contains(
            GlCall::TexParameteri {
                target: gl::TEXTURE_2D,
                pname: gl::TEXTURE_MIN_FILTER,
                param: gl::NEAREST,
            },
        ),
        forall|i: int|
            0 <= i < texture_calls(texture, layout).len() ==> (#[trigger] texture_calls(
                texture,
                layout,
            )[i] matches GlCall::TexParameteri { pname, param, .. } ==> (pname
                == gl::TEXTURE_MAG_FILTER || pname == gl::TEXTURE_MIN_FILTER) ==> param
                == gl::NEAREST),
        image_call(layout) matches GlCall::TexImage2D { with_pixels, .. } && !with_pixels,
{
    let calls = texture_calls(texture, layout);
    assert(calls.len() == 8);
    assert(calls[3] == GlCall::TexParameteri {
        target: gl::TEXTURE_2D,
        pname: gl::TEXTURE_MAG_FILTER,
        param: gl::NEAREST,
    });
    assert(calls[4] == GlCall::TexParameteri {
        target: gl::TEXTURE_2D,
        pname: gl::TEXTURE_MIN_FILTER,
        param: gl::NEAREST,
    });
    assert(calls[5] == depth_attachment_call(texture));
}

/// A texture that holds no depth values is sampled as its layout asks and
/// is attached to nothing.
pub proof fn lemma_color_texture(texture: u32, layout: TextureLayout)
    requires
        !is_depth(layout),
    ensures
        effective_filter(layout, layout.mag_filter) == layout.mag_filter.gl_value(),
        effective_filter(layout, layout.min_filter) == layout.min_filter.gl_value(),
        !texture_calls(texture, layout).contains(depth_attachment_call(texture)),
{
    let calls = texture_calls(texture, layout);
    assert forall|i: int| 0 <= i < calls.len() implies calls[i] != depth_attachment_call(
        texture,
    ) by {
        if layout.spec_bytes_per_pixel() != 4 {
            assert(calls.len() == 8);
        } else {
            assert(calls.len() == 7);
        }
    }
}

} // verus!
