//! Texture descriptors.

use crate::gfx::device::ResourceId;
use crate::gfx::error::GfxError;
use crate::gfx::device::{texture_answer, Device, DeviceBackend};
use vstd::prelude::*;

verus! {

/// The pixel format of a texture.
#[derive(Clone, Copy, Debug, PartialEq, Eq, Structural)]
pub enum TextureFormat {
    SRgba8,
    Rgba32,
    R8,
    Depth16,
}

/// How a texture is sampled between its pixels.
#[derive(Clone, Copy, Debug, PartialEq, Eq, Structural)]
pub enum TextureFilter {
    Linear,
    Nearest,
}

/// Everything about a texture but its pixels: what a backend needs to know
/// to allocate it.
#[derive(Clone, Copy, Debug, PartialEq, Eq, Structural)]
pub struct TextureLayout {
    pub width: i32,
    pub height: i32,
    pub format: TextureFormat,
    pub min_filter: TextureFilter,
    pub mag_filter: TextureFilter,
    /// Whether initial pixel bytes come with the descriptor.
    pub with_pixels: bool,
    /// Whether a render target over this texture gets a depth attachment.
    pub depth: bool,
}

impl TextureLayout {
    /// The bytes one pixel takes in an upload.
    pub open spec fn spec_bytes_per_pixel(&self) -> u8 {
        match self.format {
            TextureFormat::R8 => 1,
            _ => 4,
        }
    }

    #[verifier::when_used_as_spec(spec_bytes_per_pixel)]
    pub fn bytes_per_pixel(&self) -> (bytes: u8)
        ensures
            bytes == self.spec_bytes_per_pixel(),
    {
        match self.format {
            TextureFormat::R8 => 1,
            _ => 4,
        }
    }
}

/// A texture descriptor.
#[derive(Debug)]
pub struct TextureInfo {
    pub width: i32,
    pub height: i32,
    pub format: TextureFormat,
    pub min_filter: TextureFilter,
    pub mag_filter: TextureFilter,
    /// Initial pixel bytes, if any.
    pub bytes: Option<Vec<u8>>,
    /// Whether a render target over this texture gets a depth attachment.
    pub depth: bool,
}

impl TextureInfo {
    pub open spec fn spec_layout(&self) -> TextureLayout {
        TextureLayout {
            width: self.width,
            height: self.height,
            format: self.format,
            min_filter: self.min_filter,
            mag_filter: self.mag_filter,
            with_pixels: self.bytes is Some,
            depth: self.depth,
        }
    }

    /// The descriptor without its pixels.
    #[verifier::when_used_as_spec(spec_layout)]
    pub fn layout(&self) -> (layout: TextureLayout)
        ensures
            layout == self.spec_layout(),
    {
        TextureLayout {
            width: self.width,
            height: self.height,
            format: self.format,
            min_filter: self.min_filter,
            mag_filter: self.mag_filter,
            with_pixels: self.bytes.is_some(),
            depth: self.depth,
        }
    }

    pub fn bytes_per_pixel(&self) -> (bytes: u8)
        ensures
            bytes == self.spec_layout().spec_bytes_per_pixel(),
    {
        match self.format {
            TextureFormat::R8 => 1,
            _ => 4,
        }
    }
}

impl TextureInfo {
    /// The layout of the descriptor that sets nothing: one pixel of RGBA,
    /// sampled nearest, without initial pixels or depth.
    pub open spec fn spec_default_layout() -> TextureLayout {
        TextureLayout {
            width: 1,
            height: 1,
            format: TextureFormat::Rgba32,
            min_filter: TextureFilter::Nearest,
            mag_filter: TextureFilter::Nearest,
            with_pixels: false,
            depth: false,
        }
    }
}

impl Default for TextureInfo {
    fn default() -> (info: TextureInfo)
        ensures
            info.spec_layout() == TextureInfo::spec_default_layout(),
    {
        TextureInfo {
            width: 1,
            height: 1,
            format: TextureFormat::Rgba32,
            min_filter: TextureFilter::Nearest,
            mag_filter: TextureFilter::Nearest,
            bytes: None,
            depth: false,
        }
    }
}

/// A sub-rectangle of a texture and the bytes to write into it.
#[derive(Clone, Copy, Debug, PartialEq, Eq)]
pub struct TextureUpdate<'a> {
    pub x_offset: i32,
    pub y_offset: i32,
    pub width: i32,
    pub height: i32,
    pub format: TextureFormat,
    pub bytes: &'a [u8],
}

/// A sub-rectangle of a texture to read back.
#[derive(Clone, Copy, Debug, PartialEq, Eq, Structural)]
pub struct TextureRead {
    pub x_offset: i32,
    pub y_offset: i32,
    pub width: i32,
    pub height: i32,
    pub format: TextureFormat,
}

/// The handle of a texture: the id the backend gave it and its descriptor.
#[derive(Debug)]
pub struct Texture {
    id: u64,
    info: TextureInfo,
}

impl Texture {
    pub(crate) fn new(id: u64, info: TextureInfo) -> (texture: Texture)
        ensures
            texture.spec_id() == id,
            texture.spec_info() == info,
    {
        Texture { id, info }
    }

    pub closed spec fn spec_id(&self) -> u64 {
        self.id
    }

    #[verifier::when_used_as_spec(spec_id)]
    pub fn id(&self) -> (id: u64)
        ensures
            id == self.spec_id(),
    {
        self.id
    }

    pub closed spec fn spec_info(&self) -> TextureInfo {
        self.info
    }

    pub fn info(&self) -> (info: &TextureInfo)
        ensures
            *info == self.spec_info(),
    {
        &self.info
    }

    pub fn width(&self) -> (width: i32)
        ensures
            width == self.spec_info().width,
    {
        self.info.width
    }

    pub fn height(&self) -> (height: i32)
        ensures
            height == self.spec_info().height,
    {
        self.info.height
    }

    pub fn format(&self) -> (format: TextureFormat)
        ensures
            format == self.spec_info().format,
    {
        self.info.format
    }

    /// The entry that deleting this texture puts into the cleanup tracker.
    pub open spec fn resource_id(&self) -> ResourceId {
        ResourceId::Texture(self.spec_id())
    }
}

/// The handle a backend's answer to a texture creation gives: one for the
/// new id, or the backend's error.
pub fn texture_from(created: Result<u64, GfxError>, info: TextureInfo) -> (result: Result<
    Texture,
    GfxError,
>)
    ensures
        match created {
            Ok(id) => result matches Ok(texture) && texture.spec_id() == id && texture.spec_info()
                == info,
            Err(error) => result == Err::<Texture, GfxError>(error),
        },
{
    match created {
        Ok(id) => Ok(Texture::new(id, info)),
        Err(error) => Err(error),
    }
}

/// A texture in the making.
pub struct TextureBuilder<'a, B: DeviceBackend> {
    pub device: &'a mut Device<B>,
    pub info: TextureInfo,
}

impl<'a, B: DeviceBackend> TextureBuilder<'a, B> {
    pub fn new(device: &'a mut Device<B>) -> (builder: Self)
        ensures
            *final(builder.device) == *final(device),
            builder.info.spec_layout() == TextureInfo::spec_default_layout(),
            *builder.device == *old(device),
    {
        TextureBuilder { device, info: TextureInfo::default() }
    }

    /// Sets the initial pixels and the size they fill.
    pub fn from_bytes(self, bytes: Vec<u8>, width: i32, height: i32) -> (builder: Self)
        ensures
            builder.device == self.device,
            builder.info == (TextureInfo { bytes: Some(bytes), width, height, ..self.info }),
    {
        let mut builder = self;
        builder.info.bytes = Some(bytes);
        builder.info.width = width;
        builder.info.height = height;
        builder
    }

    pub fn with_size(self, width: i32, height: i32) -> (builder: Self)
        ensures
            builder.device == self.device,
            builder.info == (TextureInfo { width, height, ..self.info }),
    {
        let mut builder = self;
        builder.info.width = width;
        builder.info.height = height;
        builder
    }

    pub fn with_format(self, format: TextureFormat) -> (builder: Self)
        ensures
            builder.device == self.device,
            builder.info == (TextureInfo { format, ..self.info }),
    {
        let mut builder = self;
        builder.info.format = format;
        builder
    }

    pub fn with_filter(self, min: TextureFilter, mag: TextureFilter) -> (builder: Self)
        ensures
            builder.device == self.device,
            builder.info == (TextureInfo { min_filter: min, mag_filter: mag, ..self.info }),
    {
        let mut builder = self;
        builder.info.min_filter = min;
        builder.info.mag_filter = mag;
        builder
    }

    /// Creates the texture: the backend is asked once, with the
    /// descriptor. For a new id the result is a handle of that id that
    /// keeps the descriptor; an error of the backend is passed on.
    pub fn build(self) -> (result: Result<Texture, GfxError>)
        ensures
            result matches Ok(texture) ==> texture.spec_info() == self.info,
            final(self.device).same_surface(old(self.device)),
            exists|backend: &mut B|
                mut_ref_current(backend) == old(self.device).backend()
                && mut_ref_future(backend) == final(self.device).backend()
                && #[trigger] call_ensures(B::create_texture, (backend, &self.info), texture_answer(result)),
    {
        let TextureBuilder { device, info } = self;
        device.inner_create_texture(info)
    }
}

/// An update of a texture in the making: the rectangle defaults to the
/// whole texture in its own format.
pub struct TextureUpdater<'a, B: DeviceBackend> {
    pub device: &'a mut Device<B>,
    pub texture: &'a mut Texture,
    pub x_offset: i32,
    pub y_offset: i32,
    pub width: i32,
    pub height: i32,
    pub format: TextureFormat,
    pub bytes: Option<&'a [u8]>,
}

impl<'a, B: DeviceBackend> TextureUpdater<'a, B> {
    pub fn new(device: &'a mut Device<B>, texture: &'a mut Texture) -> (updater: Self)
        ensures
            *final(updater.device) == *final(device),
            *final(updater.texture) == *final(texture),
            updater.x_offset == 0,
            updater.y_offset == 0,
            updater.width == old(texture).spec_info().width,
            updater.height == old(texture).spec_info().height,
            updater.format == old(texture).spec_info().format,
            updater.bytes is None,
            *updater.device == *old(device),
            *updater.texture == *old(texture),
    {
        let width = texture.width();
        let height = texture.height();
        let format = texture.format();
        TextureUpdater {
            device,
            texture,
            x_offset: 0,
            y_offset: 0,
            width,
            height,
            format,
            bytes: None,
        }
    }

    pub fn with_x_offset(self, x_offset: i32) -> (updater: Self)
        ensures
            updater.device == self.device,
            updater.texture == self.texture,
            updater.x_offset == x_offset,
            updater.y_offset == self.y_offset,
            updater.width == self.width,
            updater.height == self.height,
            updater.format == self.format,
            updater.bytes == self.bytes,
    {
        let mut updater = self;
        updater.x_offset = x_offset;
        updater
    }

    pub fn with_y_offset(self, y_offset: i32) -> (updater: Self)
        ensures
            updater.device == self.device,
            updater.texture == self.texture,
            updater.x_offset == self.x_offset,
            updater.y_offset == y_offset,
            updater.width == self.width,
            updater.height == self.height,
            updater.format == self.format,
            updater.bytes == self.bytes,
    {
        let mut updater = self;
        updater.y_offset = y_offset;
        updater
    }

    pub fn with_width(self, width: i32) -> (updater: Self)
        ensures
            updater.device == self.device,
            updater.texture == self.texture,
            updater.x_offset == self.x_offset,
            updater.y_offset == self.y_offset,
            updater.width == width,
            updater.height == self.height,
            updater.format == self.format,
            updater.bytes == self.bytes,
    {
        let mut updater = self;
        updater.width = width;
        updater
    }

    pub fn with_height(self, height: i32) -> (updater: Self)
        ensures
            updater.device == self.device,
            updater.texture == self.texture,
            updater.x_offset == self.x_offset,
            updater.y_offset == self.y_offset,
            updater.width == self.width,
            updater.height == height,
            updater.format == self.format,
            updater.bytes == self.bytes,
    {
        let mut updater = self;
        updater.height = height;
        updater
    }

    pub fn with_data(self, bytes: &'a [u8]) -> (updater: Self)
        ensures
            updater.device == self.device,
            updater.texture == self.texture,
            updater.x_offset == self.x_offset,
            updater.y_offset == self.y_offset,
            updater.width == self.width,
            updater.height == self.height,
            updater.format == self.format,
            updater.bytes == Some(bytes),
    {
        let mut updater = self;
        updater.bytes = Some(bytes);
        updater
    }

    /// Writes the bytes into the rectangle: the backend is asked once, for
    /// the texture, the rectangle and the bytes, and its answer passed on.
    /// Without bytes there is nothing to write and the backend is not
    /// asked.
    pub fn update(self) -> (result: Result<(), GfxError>)
        ensures
            *final(self.texture) == *old(self.texture),
            final(self.device).same_surface(old(self.device)),
            match self.bytes {
                None => result == Err::<(), GfxError>(GfxError::MissingBytes) && final(
                    self.device).backend() == old(self.device).backend(),
                Some(bytes) => (
                    exists|backend: &mut B, opts: &TextureUpdate|
                        mut_ref_current(backend) == old(self.device).backend()
                        && mut_ref_future(backend) == final(self.device).backend()
                        && *opts == (TextureUpdate {
                            x_offset: self.x_offset,
                            y_offset: self.y_offset,
                            width: self.width,
                            height: self.height,
                            format: self.format,
                            bytes,
                        })
                        && #[trigger] call_ensures(B::update_texture, (backend, old(self.texture).spec_id(), opts), result)),
            },
    {
        let TextureUpdater { device, texture, x_offset, y_offset, width, height, format, bytes } =
            self;
        match bytes {
            Some(bytes) => {
                let opts = TextureUpdate { x_offset, y_offset, width, height, format, bytes };
                device.inner_update_texture(texture, &opts)
            },
            None => Err(GfxError::MissingBytes),
        }
    }
}

/// A read-back of a texture in the making: the rectangle defaults to the
/// whole texture in its own format.
pub struct TextureReader<'a, B: DeviceBackend> {
    pub device: &'a mut Device<B>,
    pub texture: &'a Texture,
    pub x_offset: i32,
    pub y_offset: i32,
    pub width: i32,
    pub height: i32,
    pub format: TextureFormat,
}

impl<'a, B: DeviceBackend> TextureReader<'a, B> {
    pub fn new(device: &'a mut Device<B>, texture: &'a Texture) -> (reader: Self)
        ensures
            *final(reader.device) == *final(device),
            reader.x_offset == 0,
            reader.y_offset == 0,
            reader.width == texture.spec_info().width,
            reader.height == texture.spec_info().height,
            reader.format == texture.spec_info().format,
            *reader.device == *old(device),
            reader.texture == texture,
    {
        let width = texture.width();
        let height = texture.height();
        let format = texture.format();
        TextureReader { device, texture, x_offset: 0, y_offset: 0, width, height, format }
    }

    pub fn with_x_offset(self, x_offset: i32) -> (reader: Self)
        ensures
            reader.device == self.device,
            reader.texture == self.texture,
            reader.x_offset == x_offset,
            reader.y_offset == self.y_offset,
            reader.width == self.width,
            reader.height == self.height,
            reader.format == self.format,
    {
        let mut reader = self;
        reader.x_offset = x_offset;
        reader
    }

    pub fn with_y_offset(self, y_offset: i32) -> (reader: Self)
        ensures
            reader.device == self.device,
            reader.texture == self.texture,
            reader.x_offset == self.x_offset,
            reader.y_offset == y_offset,
            reader.width == self.width,
            reader.height == self.height,
            reader.format == self.format,
    {
        let mut reader = self;
        reader.y_offset = y_offset;
        reader
    }

    pub fn with_width(self, width: i32) -> (reader: Self)
        ensures
            reader.device == self.device,
            reader.texture == self.texture,
            reader.x_offset == self.x_offset,
            reader.y_offset == self.y_offset,
            reader.width == width,
            reader.height == self.height,
            reader.format == self.format,
    {
        let mut reader = self;
        reader.width = width;
        reader
    }

    pub fn with_height(self, height: i32) -> (reader: Self)
        ensures
            reader.device == self.device,
            reader.texture == self.texture,
            reader.x_offset == self.x_offset,
            reader.y_offset == self.y_offset,
            reader.width == self.width,
            reader.height == height,
            reader.format == self.format,
    {
        let mut reader = self;
        reader.height = height;
        reader
    }

    /// Reads the rectangle into `bytes`: the backend is asked once, for
    /// the texture and the rectangle, and its answer passed on.
    pub fn read_to(self, bytes: &mut [u8]) -> (result: Result<(), GfxError>)
        ensures
            final(self.device).same_surface(old(self.device)),
            exists|backend: &mut B, into: &mut [u8], opts: &TextureRead|
                mut_ref_current(backend) == old(self.device).backend()
                && mut_ref_future(backend) == final(self.device).backend()
                && into@ == old(bytes)@ && final(into)@ == final(bytes)@
                && *opts == (TextureRead {
                    x_offset: self.x_offset,
                    y_offset: self.y_offset,
                    width: self.width,
                    height: self.height,
                    format: self.format,
                })
                && #[trigger] call_ensures(B::read_pixels, (backend, self.texture.spec_id(), into, opts), result),
    {
        let TextureReader { device, texture, x_offset, y_offset, width, height, format } = self;
        let opts = TextureRead { x_offset, y_offset, width, height, format };
        device.inner_read_pixels(texture, bytes, &opts)
    }
}

} // verus!
