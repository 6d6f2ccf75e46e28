//! Render targets as the caller sees them.

use crate::gfx::device::ResourceId;
use crate::gfx::error::GfxError;
use crate::gfx::texture::Texture;
use crate::gfx::device::{Device, DeviceBackend};
use crate::gfx::texture::{TextureFilter, TextureFormat, TextureInfo, TextureLayout};
use vstd::prelude::*;

verus! {

/// The handle of a render target: the id of its framebuffer and the one
/// texture it draws into.
#[derive(Debug)]
pub struct RenderTexture {
    id: u64,
    texture: Texture,
}

impl RenderTexture {
    pub(crate) fn new(id: u64, texture: Texture) -> (target: RenderTexture)
        ensures
            target.spec_id() == id,
            target.spec_texture() == texture,
    {
        RenderTexture { id, texture }
    }

    pub closed spec fn spec_id(&self) -> u64 {
        self.id
    }

    #[verifier::when_used_as_spec(spec_id)]
    pub fn id(&self) -> (id: u64)
        ensures
            id == self.spec_id(),
    {
        self.id
    }

    pub closed spec fn spec_texture(&self) -> Texture {
        self.texture
    }

    /// The color texture of the target.
    pub fn texture(&self) -> (texture: &Texture)
        ensures
            *texture == self.spec_texture(),
    {
        &self.texture
    }

    /// Takes the handle apart into the id of the framebuffer and the handle
    /// of the color texture.
    pub fn into_parts(self) -> (parts: (u64, Texture))
        ensures
            parts.0 == self.spec_id(),
            parts.1 == self.spec_texture(),
    {
        (self.id, self.texture)
    }

    /// The entry that deleting this target puts into the cleanup tracker;
    /// its texture adds one of its own.
    pub open spec fn resource_id(&self) -> ResourceId {
        ResourceId::RenderTexture(self.spec_id())
    }
}

/// A render target in the making: a texture of the given size and, where
/// asked for, a depth attachment.
pub struct RenderTextureBuilder<'a, B: DeviceBackend> {
    pub device: &'a mut Device<B>,
    pub info: TextureInfo,
}

impl<'a, B: DeviceBackend> RenderTextureBuilder<'a, B> {
    pub fn new(device: &'a mut Device<B>, width: i32, height: i32) -> (builder: Self)
        ensures
            *final(builder.device) == *final(device),
            builder.info.spec_layout() == (TextureLayout {
                width,
                height,
                ..TextureInfo::spec_default_layout()
            }),
            *builder.device == *old(device),
    {
        let mut info = TextureInfo::default();
        info.width = width;
        info.height = height;
        RenderTextureBuilder { device, info }
    }

    pub fn with_format(self, format: TextureFormat) -> (builder: Self)
        ensures
            builder.device == self.device,
            builder.info == (TextureInfo { format, ..self.info }),
    {
        let mut builder = self;
        builder.info.format = format;
        builder
    }

    pub fn with_filter(self, min: TextureFilter, mag: TextureFilter) -> (builder: Self)
        ensures
            builder.device == self.device,
            builder.info == (TextureInfo { min_filter: min, mag_filter: mag, ..self.info }),
    {
        let mut builder = self;
        builder.info.min_filter = min;
        builder.info.mag_filter = mag;
        builder
    }

    /// Asks for a depth attachment.
    pub fn with_depth(self) -> (builder: Self)
        ensures
            builder.device == self.device,
            builder.info == (TextureInfo { depth: true, ..self.info }),
    {
        let mut builder = self;
        builder.info.depth = true;
        builder
    }

    /// Creates the texture and the render target over it, as
    /// [`Device::inner_create_render_texture`] does.
    pub fn build(self) -> (result: Result<RenderTexture, GfxError>)
        ensures
            final(self.device).spec_size() == old(self.device).spec_size(),
            final(self.device).spec_dpi() == old(self.device).spec_dpi(),
            match result {
                Ok(target) => {
                    &&& target.spec_texture().spec_info() == self.info
                    &&& final(self.device).pending() == old(self.device).pending()
                    &&& exists|first: &mut B, second: &mut B|
                        mut_ref_current(first) == old(self.device).backend()
                        && mut_ref_current(second) == mut_ref_future(first)
                        && mut_ref_future(second) == final(self.device).backend()
                        && #[trigger] call_ensures(
                            B::create_texture,
                            (first, &self.info),
                            Ok::<u64, GfxError>(target.spec_texture().spec_id()),
                        )
                        && #[trigger] call_ensures(
                            B::create_render_texture,
                            (second, target.spec_texture().spec_id(), &self.info),
                            Ok::<u64, GfxError>(target.spec_id()),
                        )
                },
                Err(error) => {
                    ||| {
                        &&& final(self.device).pending() == old(self.device).pending()
                        &&& exists|first: &mut B|
                            mut_ref_current(first) == old(self.device).backend()
                            && mut_ref_future(first) == final(self.device).backend()
                            && #[trigger] call_ensures(
                                B::create_texture,
                                (first, &self.info),
                                Err::<u64, GfxError>(error),
                            )
                    }
                    ||| exists|first: &mut B, second: &mut B, texture: u64|
                        mut_ref_current(first) == old(self.device).backend()
                        && mut_ref_current(second) == mut_ref_future(first)
                        && mut_ref_future(second) == final(self.device).backend()
                        && final(self.device).pending() == old(self.device).pending().push(ResourceId::Texture(texture))
                        && #[trigger] call_ensures(
                            B::create_texture,
                            (first, &self.info),
                            Ok::<u64, GfxError>(texture),
                        )
                        && #[trigger] call_ensures(
                            B::create_render_texture,
                            (second, texture, &self.info),
                            Err::<u64, GfxError>(error),
                        )
                },
            },
    {
        let RenderTextureBuilder { device, info } = self;
        device.inner_create_render_texture(info)
    }
}

} // verus!
