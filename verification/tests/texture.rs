use gfx_device::gfx::error::GfxError;
use gfx_device::gfx::texture::{TextureFilter, TextureFormat, TextureInfo, TextureLayout};
use gfx_device::gfx_backend::gl;
use gfx_device::gfx_backend::gl::GlCall;
use gfx_device::gfx_backend::texture::{
    create_texture, gl_slot, texture_format, texture_internal_format, InnerTexture,
};
use gfx_device::gfx_backend::to_gl::ToGl;

fn layout(format: TextureFormat, filter: TextureFilter, with_pixels: bool) -> TextureLayout {
    TextureLayout {
        width: 64,
        height: 32,
        format,
        min_filter: filter,
        mag_filter: filter,
        with_pixels,
        depth: false,
    }
}

fn parameter(pname: u32, param: u32) -> GlCall {
    GlCall::TexParameteri { target: gl::TEXTURE_2D, pname, param }
}

#[test]
fn texture_units_zero_to_seven_are_supported() {
    assert_eq!(gl_slot(0), Ok(0x84C0));
    assert_eq!(gl_slot(1), Ok(0x84C1));
    assert_eq!(gl_slot(2), Ok(0x84C2));
    assert_eq!(gl_slot(3), Ok(0x84C3));
    assert_eq!(gl_slot(4), Ok(0x84C4));
    assert_eq!(gl_slot(5), Ok(0x84C5));
    assert_eq!(gl_slot(6), Ok(0x84C6));
    assert_eq!(gl_slot(7), Ok(0x84C7));
}

#[test]
fn texture_units_beyond_seven_are_refused() {
    assert_eq!(gl_slot(8), Err(GfxError::UnsupportedTextureSlot { slot: 8 }));
    assert_eq!(gl_slot(u32::MAX), Err(GfxError::UnsupportedTextureSlot { slot: u32::MAX }));
}

#[test]
fn pixel_formats() {
    assert_eq!(texture_format(&TextureFormat::Rgba32), 0x1908);
    assert_eq!(texture_format(&TextureFormat::R8), 0x1903);
    assert_eq!(texture_format(&TextureFormat::Depth16), 0x81A5);
    assert_eq!(texture_format(&TextureFormat::SRgba8), 0x1908);
}

#[test]
fn storage_formats() {
    assert_eq!(texture_internal_format(&TextureFormat::Rgba32), 0x1908);
    assert_eq!(texture_internal_format(&TextureFormat::R8), 0x8229);
    assert_eq!(texture_internal_format(&TextureFormat::Depth16), 0x81A5);
    assert_eq!(texture_internal_format(&TextureFormat::SRgba8), 0x8C43);
}

#[test]
fn filters_have_their_native_constants() {
    assert_eq!(TextureFilter::Linear.to_gl(), 0x2601);
    assert_eq!(TextureFilter::Nearest.to_gl(), 0x2600);
}

#[test]
fn color_texture_uses_the_requested_filter_and_pixels() {
    let mut calls = Vec::new();
    let key = create_texture(5, &layout(TextureFormat::Rgba32, TextureFilter::Linear, true), &mut calls);
    assert_eq!(key, 5);
    assert_eq!(
        calls,
        vec![
            GlCall::BindTexture { target: gl::TEXTURE_2D, texture: 5 },
            parameter(gl::TEXTURE_WRAP_S, gl::CLAMP_TO_EDGE),
            parameter(gl::TEXTURE_WRAP_T, gl::CLAMP_TO_EDGE),
            parameter(gl::TEXTURE_MAG_FILTER, gl::LINEAR),
            parameter(gl::TEXTURE_MIN_FILTER, gl::LINEAR),
            GlCall::TexImage2D {
                target: gl::TEXTURE_2D,
                level: 0,
                internal_format: gl::RGBA,
                width: 64,
                height: 32,
                border: 0,
                format: gl::RGBA,
                data_type: gl::UNSIGNED_BYTE,
                with_pixels: true
            },
            GlCall::BindTexture { target: gl::TEXTURE_2D, texture: 0 },
        ]
    );
}

#[test]
fn depth_texture_is_nearest_and_attached_whatever_was_requested() {
    for filter in [TextureFilter::Linear, TextureFilter::Nearest] {
        let mut calls = Vec::new();
        create_texture(9, &layout(TextureFormat::Depth16, filter, true), &mut calls);
        assert_eq!(
            calls,
            vec![
                GlCall::BindTexture { target: gl::TEXTURE_2D, texture: 9 },
                parameter(gl::TEXTURE_WRAP_S, gl::CLAMP_TO_EDGE),
                parameter(gl::TEXTURE_WRAP_T, gl::CLAMP_TO_EDGE),
                parameter(gl::TEXTURE_MAG_FILTER, gl::NEAREST),
                parameter(gl::TEXTURE_MIN_FILTER, gl::NEAREST),
                GlCall::FramebufferTexture2D {
                    target: gl::FRAMEBUFFER,
                    attachment: gl::DEPTH_ATTACHMENT,
                    textarget: gl::TEXTURE_2D,
                    texture: 9,
                    level: 0
                },
                GlCall::TexImage2D {
                    target: gl::TEXTURE_2D,
                    level: 0,
                    internal_format: gl::DEPTH_COMPONENT16,
                    width: 64,
                    height: 32,
                    border: 0,
                    format: gl::DEPTH_COMPONENT,
                    data_type: gl::UNSIGNED_SHORT,
                    with_pixels: false
                },
                GlCall::BindTexture { target: gl::TEXTURE_2D, texture: 0 },
            ]
        );
    }
}

#[test]
fn single_byte_pixels_adjust_the_unpack_alignment() {
    let mut calls = Vec::new();
    create_texture(2, &layout(TextureFormat::R8, TextureFilter::Nearest, false), &mut calls);
    assert_eq!(calls.len(), 8);
    assert_eq!(calls[0], GlCall::PixelStorei { pname: gl::UNPACK_ALIGNMENT, param: 1 });
    assert_eq!(
        calls[6],
        GlCall::TexImage2D {
            target: gl::TEXTURE_2D,
            level: 0,
            internal_format: gl::R8,
            width: 64,
            height: 32,
            border: 0,
            format: gl::RED,
            data_type: gl::UNSIGNED_BYTE,
            with_pixels: false
        }
    );
}

#[test]
fn srgb_texture_is_stored_as_srgb() {
    let mut calls = Vec::new();
    let texture =
        InnerTexture::new(4, &layout(TextureFormat::SRgba8, TextureFilter::Linear, false), &mut calls);
    assert_eq!(texture, Ok(InnerTexture { texture: 4, size: (64, 32), is_srgba: true }));
    assert!(calls.contains(&GlCall::TexImage2D {
        target: gl::TEXTURE_2D,
        level: 0,
        internal_format: gl::SRGB8_ALPHA8,
        width: 64,
        height: 32,
        border: 0,
        format: gl::RGBA,
        data_type: gl::UNSIGNED_BYTE,
        with_pixels: false
    }));
}

#[test]
fn binding_a_texture_selects_unit_binds_and_sets_the_uniform() {
    let texture = InnerTexture { texture: 11, size: (1, 1), is_srgba: false };
    let mut calls = Vec::new();
    assert_eq!(texture.bind(3, 42, &mut calls), Ok(()));
    assert_eq!(
        calls,
        vec![
            GlCall::ActiveTexture { unit: gl::TEXTURE3 },
            GlCall::BindTexture { target: gl::TEXTURE_2D, texture: 11 },
            GlCall::Uniform1i { location: 42, value: 3 },
        ]
    );
}

#[test]
fn binding_to_an_unsupported_unit_asks_for_nothing() {
    let texture = InnerTexture { texture: 11, size: (1, 1), is_srgba: false };
    let mut calls = Vec::new();
    assert_eq!(texture.bind(8, 0, &mut calls), Err(GfxError::UnsupportedTextureSlot { slot: 8 }));
    assert!(calls.is_empty());
}

#[test]
fn cleaning_a_texture_deletes_it() {
    let texture = InnerTexture { texture: 11, size: (1, 1), is_srgba: false };
    let mut calls = Vec::new();
    texture.clean(&mut calls);
    assert_eq!(calls, vec![GlCall::DeleteTexture { texture: 11 }]);
}

#[test]
fn descriptor_layout_drops_the_pixels_but_remembers_them() {
    let mut info = TextureInfo::default();
    assert_eq!(
        info.layout(),
        TextureLayout {
            width: 1,
            height: 1,
            format: TextureFormat::Rgba32,
            min_filter: TextureFilter::Nearest,
            mag_filter: TextureFilter::Nearest,
            with_pixels: false,
            depth: false
        }
    );
    info.bytes = Some(vec![1, 2, 3, 4]);
    info.depth = true;
    assert!(info.layout().with_pixels);
    assert!(info.layout().depth);
    assert_eq!(info.bytes_per_pixel(), 4);
    info.format = TextureFormat::R8;
    assert_eq!(info.bytes_per_pixel(), 1);
    assert_eq!(info.layout().bytes_per_pixel(), 1);
}
