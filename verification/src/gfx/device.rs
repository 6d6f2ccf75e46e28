//! The device: resource ids, the capability set of a backend, the cleanup
//! tracker and the facade that ties them together.

use crate::gfx::buffer::{
    buffer_from, lemma_offset_bounds, lemma_offset_monotone, offset_of, stride_of, Buffer,
    BufferUsage, IndexBufferBuilder, UniformBufferBuilder, VertexAttr, VertexBufferBuilder,
    VertexStepMode,
};
use crate::gfx::commands::Commands;
use crate::gfx::dpi::DpiScale;
use crate::gfx::error::GfxError;
use crate::gfx::limits::Limits;
use crate::gfx::encoder::CommandEncoder;
use crate::gfx::pipeline::{
    pipeline_from, DrawPrimitive, Pipeline, PipelineBuilder, PipelineOptions,
};
use crate::gfx::render_texture::{RenderTexture, RenderTextureBuilder};
use crate::gfx::texture::{
    texture_from, Texture, TextureBuilder, TextureInfo, TextureLayout, TextureRead, TextureReader,
    TextureUpdate, TextureUpdater,
};
use vstd::prelude::*;
use vstd::string::StringSliceAdditionalSpecFns;

verus! {

/// The id of a resource together with its kind, which says in which table
/// of the backend the resource lives.
#[derive(Clone, Copy, Debug, PartialEq, Eq, Structural)]
pub enum ResourceId {
    Buffer(u64),
    Texture(u64),
    Pipeline(u64),
    RenderTexture(u64),
}

/// What any rasterizer must offer to sit behind a [`Device`]. Ids are the
/// backend's own: it may hand them out by any scheme, as long as an id keeps
/// naming the same resource for as long as the backend lives.
pub trait DeviceBackend {
    /// The limits of the device. A backend that reports none has the
    /// limits every device can be taken to have.
    fn limits(&self) -> Limits {
        Limits::default()
    }

    /// Creates a pipeline and returns its id.
    fn create_pipeline(
        &mut self,
        vertex_source: &[u8],
        fragment_source: &[u8],
        vertex_attrs: &[VertexAttr],
        options: PipelineOptions,
    ) -> Result<u64, GfxError>;

    /// Creates a vertex buffer and returns its id.
    fn create_vertex_buffer(&mut self, attrs: &[VertexAttr], step_mode: VertexStepMode) -> Result<
        u64,
        GfxError,
    >;

    /// Creates an index buffer and returns its id.
    fn create_index_buffer(&mut self) -> Result<u64, GfxError>;

    /// Creates a uniform buffer and returns its id.
    fn create_uniform_buffer(&mut self, slot: u32, name: &str) -> Result<u64, GfxError>;

    /// Uploads `data` to the buffer.
    fn set_buffer_data(&mut self, buffer: u64, data: &[u8]);

    /// Executes a command list, over a render target where one is named.
    fn render(&mut self, commands: &[Commands], target: Option<u64>);

    /// Deletes the resources of a batch.
    fn clean(&mut self, to_clean: &[ResourceId]);

    /// Sets the size of the surface.
    fn set_size(&mut self, width: i32, height: i32);

    /// Sets the DPI scale of the surface.
    fn set_dpi(&mut self, scale_factor: DpiScale);

    /// Creates a texture and returns its id.
    fn create_texture(&mut self, info: &TextureInfo) -> Result<u64, GfxError>;

    /// Creates a render target over a texture and returns its id.
    fn create_render_texture(&mut self, texture_id: u64, info: &TextureInfo) -> Result<
        u64,
        GfxError,
    >;

    /// Overwrites a rectangle of a texture.
    fn update_texture(&mut self, texture: u64, opts: &TextureUpdate) -> Result<(), GfxError>;

    /// Reads a rectangle of a texture into `bytes`.
    fn read_pixels(&mut self, texture: u64, bytes: &mut [u8], opts: &TextureRead) -> Result<
        (),
        GfxError,
    >;

    /// Presents what was drawn.
    fn swap_buffers(&mut self);
}

/// Whether `limits` is what the backend can report as its limits. Nothing
/// is claimed of any backend by this, nor by any clause of this module that
/// speaks of a call of a backend: what a call does is for the backend to
/// say. The clauses say which calls a device makes, on which state of the
/// backend, with which arguments, and what it makes of the answers.
pub open spec fn limits_reported<B: DeviceBackend>(backend: B, limits: Limits) -> bool {
    call_ensures(B::limits, (&backend,), limits)
}

/// The id, or the error, that the creation of a pipeline ended with.
pub open spec fn pipeline_answer(result: Result<Pipeline, GfxError>) -> Result<u64, GfxError> {
    match result {
        Ok(pipeline) => Ok(pipeline.spec_id()),
        Err(error) => Err(error),
    }
}

/// The id, or the error, that the creation of a buffer ended with.
pub open spec fn buffer_answer(result: Result<Buffer, GfxError>) -> Result<u64, GfxError> {
    match result {
        Ok(buffer) => Ok(buffer.spec_id()),
        Err(error) => Err(error),
    }
}

/// The id, or the error, that the creation of a texture ended with.
pub open spec fn texture_answer(result: Result<Texture, GfxError>) -> Result<u64, GfxError> {
    match result {
        Ok(texture) => Ok(texture.spec_id()),
        Err(error) => Err(error),
    }
}

/// A handle of a buffer that was just created for `usage`.
pub open spec fn buffer_is(result: Result<Buffer, GfxError>, usage: BufferUsage) -> bool {
    result matches Ok(buffer) ==> buffer.spec_usage() == usage && buffer.spec_draw() is None
}

/// The cleanup tracker: the ids of the resources whose handles are gone, in
/// the order they went, waiting to be deleted on the backend.
#[derive(Debug)]
pub struct DropManager {
    dropped: Vec<ResourceId>,
}

impl View for DropManager {
    type V = Seq<ResourceId>;

    closed spec fn view(&self) -> Seq<ResourceId> {
        self.dropped@
    }
}

impl DropManager {
    /// A tracker with nothing waiting.
    pub fn new() -> (tracker: DropManager)
        ensures
            tracker@ == Seq::<ResourceId>::empty(),
    {
        DropManager { dropped: Vec::new() }
    }

    /// Queues one id behind those already waiting.
    pub fn push(&mut self, id: ResourceId)
        ensures
            final(self)@ == old(self)@.push(id),
    {
        self.dropped.push(id);
    }

    /// Forgets everything that waits.
    pub fn clean(&mut self)
        ensures
            final(self)@ == Seq::<ResourceId>::empty(),
    {
        self.dropped.clear();
    }

    /// Whether nothing waits.
    pub fn is_empty(&self) -> (empty: bool)
        ensures
            empty == (self@.len() == 0),
    {
        self.dropped.len() == 0
    }

    /// The batch that waits, oldest first.
    pub fn dropped(&self) -> (batch: &[ResourceId])
        ensures
            batch@ == self@,
    {
        self.dropped.as_slice()
    }
}

impl Default for DropManager {
    fn default() -> (tracker: DropManager)
        ensures
            tracker@ == Seq::<ResourceId>::empty(),
    {
        DropManager { dropped: Vec::new() }
    }
}

/// How often `id` waits in a batch.
pub open spec fn occurrences(batch: Seq<ResourceId>, id: ResourceId) -> nat
    decreases batch.len(),
{
    if batch.len() == 0 {
        0
    } else {
        occurrences(batch.drop_last(), id) + if batch.last() == id {
            1nat
        } else {
            0nat
        }
    }
}

/// An id that does not wait yet waits exactly once after it is queued, and
/// queuing it changes the count of no other id.
pub proof fn lemma_queued_once(batch: Seq<ResourceId>, id: ResourceId, other: ResourceId)
    requires
        occurrences(batch, id) == 0,
    ensures
        occurrences(batch.push(id), id) == 1,
        other != id ==> occurrences(batch.push(id), other) == occurrences(batch, other),
{
    assert(batch.push(id).drop_last() =~= batch);
}

/// Byte `k` of `word`, counted from the least significant.
pub open spec fn byte_of(word: u32, k: int) -> u8 {
    if k == 0 {
        (word % 0x100) as u8
    } else if k == 1 {
        ((word / 0x100) % 0x100) as u8
    } else if k == 2 {
        ((word / 0x1_0000) % 0x100) as u8
    } else {
        ((word / 0x100_0000) % 0x100) as u8
    }
}

/// The bytes of `words`, each word least significant byte first.
pub open spec fn little_endian(words: Seq<u32>) -> Seq<u8> {
    Seq::new(4 * words.len(), |i: int| byte_of(words[i / 4], i % 4))
}

/// The bytes of `words`, each word most significant byte first.
pub open spec fn big_endian(words: Seq<u32>) -> Seq<u8> {
    Seq::new(4 * words.len(), |i: int| byte_of(words[i / 4], 3 - i % 4))
}

/// The bytes of `words` as they lie in memory.
///
/// Wraps `bytemuck::cast_slice` from `u32` to `u8`, which hands back the
/// memory of the slice as it is: four bytes per word, in the byte order of
/// the machine. The cast to bytes cannot fail, a byte having no alignment to
/// miss and every length in bytes being whole.
#[verifier::external_body]
fn cast_words(words: &[u32]) -> (bytes: &[u8])
    ensures
        bytes@ == little_endian(words@) || bytes@ == big_endian(words@),
{
    bytemuck::cast_slice(words)
}

/// A type whose values are uploaded to buffers as they lie in memory.
pub trait BufferDataType: Sized {
    /// The bytes of `data` as they lie in memory.
    fn bytes(data: &[Self]) -> &[u8];
}

impl BufferDataType for u32 {
    /// Four bytes per word, every word in the byte order of the machine.
    fn bytes(data: &[u32]) -> (bytes: &[u8])
        ensures
            bytes@ == little_endian(data@) || bytes@ == big_endian(data@),
    {
        cast_words(data)
    }
}

/// The facade over a backend: it hands out handles for what the backend
/// creates, keeps the size and DPI of the surface, passes command lists on,
/// and holds the ids of released handles until [`Device::clean`] has the
/// backend delete them.
pub struct Device<B: DeviceBackend> {
    size: (i32, i32),
    dpi: DpiScale,
    backend: B,
    drop_manager: DropManager,
}

impl<B: DeviceBackend> Device<B> {
    /// The size of the surface in logical pixels.
    pub closed spec fn spec_size(&self) -> (i32, i32) {
        self.size
    }

    /// The DPI scale of the surface.
    pub closed spec fn spec_dpi(&self) -> DpiScale {
        self.dpi
    }

    /// The ids that wait to be deleted, oldest first.
    pub closed spec fn pending(&self) -> Seq<ResourceId> {
        self.drop_manager@
    }

    /// The backend in its present state.
    pub closed spec fn backend(&self) -> B {
        self.backend
    }

    /// Size, DPI and tracker are those of `before`.
    pub open spec fn same_surface(&self, before: &Self) -> bool {
        &&& self.spec_size() == before.spec_size()
        &&& self.spec_dpi() == before.spec_dpi()
        &&& self.pending() == before.pending()
    }

    /// A device on a surface of one pixel at a scale of one, with nothing
    /// to clean.
    pub fn new(backend: B) -> (device: Device<B>)
        ensures
            device.spec_size() == (1i32, 1i32),
            device.spec_dpi() == DpiScale::spec_one(),
            device.pending() == Seq::<ResourceId>::empty(),
            device.backend() == backend,
    {
        Device { backend, size: (1, 1), dpi: DpiScale::one(), drop_manager: DropManager::new() }
    }

    /// The limits the backend reports: the backend is asked, and its
    /// answer passed on.
    pub fn limits(&self) -> (limits: Limits)
        ensures
            limits_reported(self.backend(), limits),
    {
        self.backend.limits()
    }

    #[verifier::when_used_as_spec(spec_size)]
    pub fn size(&self) -> (size: (i32, i32))
        ensures
            size == self.spec_size(),
    {
        self.size
    }

    /// Keeps the new size and tells the backend.
    pub fn set_size(&mut self, width: i32, height: i32)
        ensures
            final(self).spec_size() == (width, height),
            final(self).spec_dpi() == old(self).spec_dpi(),
            final(self).pending() == old(self).pending(),
            exists|backend: &mut B|
                mut_ref_current(backend) == old(self).backend()
                && mut_ref_future(backend) == final(self).backend()
                && #[trigger] call_ensures(B::set_size, (backend, width, height), ()),
    {
        self.size = (width, height);
        self.backend.set_size(width, height);
    }

    #[verifier::when_used_as_spec(spec_dpi)]
    pub fn dpi(&self) -> (dpi: DpiScale)
        ensures
            dpi == self.spec_dpi(),
    {
        self.dpi
    }

    /// Keeps the new scale and tells the backend.
    pub fn set_dpi(&mut self, scale_factor: DpiScale)
        ensures
            final(self).spec_dpi() == scale_factor,
            final(self).spec_size() == old(self).spec_size(),
            final(self).pending() == old(self).pending(),
            exists|backend: &mut B|
                mut_ref_current(backend) == old(self).backend()
                && mut_ref_future(backend) == final(self).backend()
                && #[trigger] call_ensures(B::set_dpi, (backend, scale_factor), ()),
    {
        self.dpi = scale_factor;
        self.backend.set_dpi(scale_factor);
    }

    /// An encoder for the surface at its present size.
    pub fn create_command_encoder(&self) -> (encoder: CommandEncoder)
        ensures
            encoder@ == Seq::<Commands>::empty(),
            encoder.spec_size() == self.spec_size(),
            encoder.spec_primitive() == DrawPrimitive::Triangles,
    {
        CommandEncoder::new(self.size.0, self.size.1)
    }

    /// Starts the making of a pipeline.
    pub fn create_pipeline(&mut self) -> (builder: PipelineBuilder<'_, B>)
        ensures
            builder.attrs@ == Seq::<VertexAttr>::empty(),
            builder.options == PipelineOptions::spec_default(),
            builder.shaders is None,
            *builder.device == *old(self),
            *final(builder.device) == *final(self),
    {
        PipelineBuilder::new(self)
    }

    /// Starts the making of a texture.
    pub fn create_texture(&mut self) -> (builder: TextureBuilder<'_, B>)
        ensures
            builder.info.spec_layout() == TextureInfo::spec_default_layout(),
            *builder.device == *old(self),
            *final(builder.device) == *final(self),
    {
        TextureBuilder::new(self)
    }

    /// Starts the making of a render target of the given size.
    pub fn create_render_texture(&mut self, width: i32, height: i32) -> (builder:
        RenderTextureBuilder<'_, B>)
        ensures
            builder.info.spec_layout() == (TextureLayout {
                width,
                height,
                ..TextureInfo::spec_default_layout()
            }),
            *builder.device == *old(self),
            *final(builder.device) == *final(self),
    {
        RenderTextureBuilder::new(self, width, height)
    }

    /// Starts the making of a vertex buffer.
    pub fn create_vertex_buffer(&mut self) -> (builder: VertexBufferBuilder<'_, B>)
        ensures
            builder.data is None,
            builder.attrs@ == Seq::<VertexAttr>::empty(),
            builder.step_mode == VertexStepMode::Vertex,
            *builder.device == *old(self),
            *final(builder.device) == *final(self),
    {
        VertexBufferBuilder::new(self)
    }

    /// Starts the making of an index buffer.
    pub fn create_index_buffer(&mut self) -> (builder: IndexBufferBuilder<'_, B>)
        ensures
            builder.data is None,
            *builder.device == *old(self),
            *final(builder.device) == *final(self),
    {
        IndexBufferBuilder::new(self)
    }

    /// Starts the making of a buffer for the uniform block `name` at
    /// `slot`.
    pub fn create_uniform_buffer(&mut self, slot: u32, name: &str) -> (builder:
        UniformBufferBuilder<'_, B>)
        ensures
            builder.slot == slot,
            builder.name@ == name@,
            builder.data is None,
            *builder.device == *old(self),
            *final(builder.device) == *final(self),
    {
        UniformBufferBuilder::new(self, slot, name)
    }

    /// Starts an update of `texture`.
    pub fn update_texture<'a>(&'a mut self, texture: &'a mut Texture) -> (updater: TextureUpdater<
        'a,
        B,
    >)
        ensures
            updater.x_offset == 0,
            updater.y_offset == 0,
            updater.width == old(texture).spec_info().width,
            updater.height == old(texture).spec_info().height,
            updater.format == old(texture).spec_info().format,
            updater.bytes is None,
            *updater.device == *old(self),
            *final(updater.device) == *final(self),
            *updater.texture == *old(texture),
            *final(updater.texture) == *final(texture),
    {
        TextureUpdater::new(self, texture)
    }

    /// Starts a read-back of `texture`.
    pub fn read_pixels<'a>(&'a mut self, texture: &'a Texture) -> (reader: TextureReader<'a, B>)
        ensures
            reader.x_offset == 0,
            reader.y_offset == 0,
            reader.width == texture.spec_info().width,
            reader.height == texture.spec_info().height,
            reader.format == texture.spec_info().format,
            reader.texture == texture,
            *reader.device == *old(self),
            *final(reader.device) == *final(self),
    {
        TextureReader::new(self, texture)
    }

    /// Has the backend present what was drawn: the backend is asked once.
    pub fn swap_buffers(&mut self)
        ensures
            final(self).same_surface(old(self)),
            exists|backend: &mut B|
                mut_ref_current(backend) == old(self).backend()
                && mut_ref_future(backend) == final(self).backend()
                && #[trigger] call_ensures(B::swap_buffers, (backend,), ()),
    {
        self.backend.swap_buffers();
    }

    /// Creates a pipeline from shader sources given as bytes. A layout
    /// whose byte length does not fit the native integer is refused and the
    /// backend is not asked. For any other the backend is asked once, with
    /// the sources, the layout and the options as they are. For a new id
    /// the result is a handle of that id, with the sum of the byte sizes of
    /// `vertex_attrs` as its stride and with the options; an error of the
    /// backend is passed on.
    pub fn inner_create_pipeline_from_raw(
        &mut self,
        vertex_source: &[u8],
        fragment_source: &[u8],
        vertex_attrs: &[VertexAttr],
        options: PipelineOptions,
    ) -> (result: Result<Pipeline, GfxError>)
        ensures
            final(self).same_surface(old(self)),
            result matches Ok(pipeline) ==> pipeline.spec_stride() == stride_of(vertex_attrs@)
                && pipeline.spec_options() == options,
            stride_of(vertex_attrs@) > i32::MAX ==> result == Err::<Pipeline, GfxError>(
                GfxError::LayoutTooLarge,
            ) && final(self).backend() == old(self).backend(),
            stride_of(vertex_attrs@) <= i32::MAX ==> (
                exists|backend: &mut B|
                    mut_ref_current(backend) == old(self).backend()
                    && mut_ref_future(backend) == final(self).backend()
                    && #[trigger] call_ensures(B::create_pipeline, (backend, vertex_source, fragment_source, vertex_attrs, options), pipeline_answer(result))),
    {
        let stride = match stride(vertex_attrs) {
            Some(stride) => stride,
            None => {
                return Err(GfxError::LayoutTooLarge);
            },
        };
        proof {
            lemma_offset_bounds(vertex_attrs@, vertex_attrs@.len() as int);
        }
        let created = self.backend.create_pipeline(
            vertex_source,
            fragment_source,
            vertex_attrs,
            options,
        );
        pipeline_from(created, stride as usize, options)
    }

    /// Creates a pipeline from shader sources given as text: as
    /// [`Device::inner_create_pipeline_from_raw`], with the bytes of the
    /// texts for sources.
    pub fn inner_create_pipeline(
        &mut self,
        vertex_source: &str,
        fragment_source: &str,
        vertex_attrs: &[VertexAttr],
        options: PipelineOptions,
    ) -> (result: Result<Pipeline, GfxError>)
        ensures
            final(self).same_surface(old(self)),
            result matches Ok(pipeline) ==> pipeline.spec_stride() == stride_of(vertex_attrs@)
                && pipeline.spec_options() == options,
            stride_of(vertex_attrs@) > i32::MAX ==> result == Err::<Pipeline, GfxError>(
                GfxError::LayoutTooLarge,
            ) && final(self).backend() == old(self).backend(),
            stride_of(vertex_attrs@) <= i32::MAX ==> (
                exists|backend: &mut B, vertex: &[u8], fragment: &[u8]|
                    mut_ref_current(backend) == old(self).backend()
                    && mut_ref_future(backend) == final(self).backend()
                    && vertex@ == vertex_source.spec_bytes()
                    && fragment@ == fragment_source.spec_bytes()
                    && #[trigger] call_ensures(B::create_pipeline, (backend, vertex, fragment, vertex_attrs, options), pipeline_answer(result))),
    {
        let vertex = vertex_source.as_bytes();
        let fragment = fragment_source.as_bytes();
        self.inner_create_pipeline_from_raw(vertex, fragment, vertex_attrs, options)
    }

    /// Creates a vertex buffer and uploads `data` to it, where there is
    /// any. The backend is asked for the buffer and then, where it gave
    /// one and there is data, for the upload of the data as it lies in
    /// memory. For a new id the result is a handle of that id; an error of
    /// the backend is passed on.
    pub fn inner_create_vertex_buffer(
        &mut self,
        data: Option<&[u32]>,
        attrs: &[VertexAttr],
        step_mode: VertexStepMode,
    ) -> (result: Result<Buffer, GfxError>)
        ensures
            final(self).same_surface(old(self)),
            buffer_is(result, BufferUsage::Vertex),
            exists|first: &mut B|
                mut_ref_current(first) == old(self).backend()
                && #[trigger] call_ensures(B::create_vertex_buffer, (first, attrs, step_mode), buffer_answer(result))
                && match (result, data) {
                    (Ok(buffer), Some(words)) => exists|second: &mut B, bytes: &[u8]|
                        mut_ref_current(second) == mut_ref_future(first)
                        && mut_ref_future(second) == final(self).backend()
                        && (bytes@ == little_endian(words@) || bytes@ == big_endian(words@))
                        && #[trigger] call_ensures(
                            B::set_buffer_data,
                            (second, buffer.spec_id(), bytes),
                            (),
                        ),
                    _ => mut_ref_future(first) == final(self).backend(),
                },
    {
        let created = self.backend.create_vertex_buffer(attrs, step_mode);
        let buffer = match buffer_from(created, BufferUsage::Vertex) {
            Ok(buffer) => buffer,
            Err(error) => {
                return Err(error);
            },
        };
        if let Some(d) = data {
            self.set_buffer_data(&buffer, d);
        }
        Ok(buffer)
    }

    /// Creates an index buffer and uploads `data` to it, where there is
    /// any, as [`Device::inner_create_vertex_buffer`] does for a vertex
    /// buffer.
    pub fn inner_create_index_buffer(&mut self, data: Option<&[u32]>) -> (result: Result<Buffer, GfxError>)
        ensures
            final(self).same_surface(old(self)),
            buffer_is(result, BufferUsage::Index),
            exists|first: &mut B|
                mut_ref_current(first) == old(self).backend()
                && #[trigger] call_ensures(B::create_index_buffer, (first,), buffer_answer(result))
                && match (result, data) {
                    (Ok(buffer), Some(words)) => exists|second: &mut B, bytes: &[u8]|
                        mut_ref_current(second) == mut_ref_future(first)
                        && mut_ref_future(second) == final(self).backend()
                        && (bytes@ == little_endian(words@) || bytes@ == big_endian(words@))
                        && #[trigger] call_ensures(
                            B::set_buffer_data,
                            (second, buffer.spec_id(), bytes),
                            (),
                        ),
                    _ => mut_ref_future(first) == final(self).backend(),
                },
    {
        let created = self.backend.create_index_buffer();
        let buffer = match buffer_from(created, BufferUsage::Index) {
            Ok(buffer) => buffer,
            Err(error) => {
                return Err(error);
            },
        };
        if let Some(d) = data {
            self.set_buffer_data(&buffer, d);
        }
        Ok(buffer)
    }

    /// Creates a buffer for the uniform block `name` at `slot` and uploads
    /// `data` to it, where there is any, as
    /// [`Device::inner_create_vertex_buffer`] does for a vertex buffer.
    pub fn inner_create_uniform_buffer(&mut self, slot: u32, name: &str, data: Option<&[u32]>) -> (result: Result<Buffer, GfxError>)
        ensures
            final(self).same_surface(old(self)),
            buffer_is(result, BufferUsage::Uniform(slot)),
            exists|first: &mut B|
                mut_ref_current(first) == old(self).backend()
                && #[trigger] call_ensures(B::create_uniform_buffer, (first, slot, name), buffer_answer(result))
                && match (result, data) {
                    (Ok(buffer), Some(words)) => exists|second: &mut B, bytes: &[u8]|
                        mut_ref_current(second) == mut_ref_future(first)
                        && mut_ref_future(second) == final(self).backend()
                        && (bytes@ == little_endian(words@) || bytes@ == big_endian(words@))
                        && #[trigger] call_ensures(
                            B::set_buffer_data,
                            (second, buffer.spec_id(), bytes),
                            (),
                        ),
                    _ => mut_ref_future(first) == final(self).backend(),
                },
    {
        let created = self.backend.create_uniform_buffer(slot, name);
        let buffer = match buffer_from(created, BufferUsage::Uniform(slot)) {
            Ok(buffer) => buffer,
            Err(error) => {
                return Err(error);
            },
        };
        if let Some(d) = data {
            self.set_buffer_data(&buffer, d);
        }
        Ok(buffer)
    }

    /// Creates a texture with the descriptor `info`. The backend is asked
    /// once, with the descriptor. For a new id the result is a handle of
    /// that id that keeps the descriptor; an error of the backend is passed
    /// on.
    pub fn inner_create_texture(&mut self, info: TextureInfo) -> (result: Result<Texture, GfxError>)
        ensures
            final(self).same_surface(old(self)),
            result matches Ok(texture) ==> texture.spec_info() == info,
            exists|backend: &mut B|
                mut_ref_current(backend) == old(self).backend()
                && mut_ref_future(backend) == final(self).backend()
                && #[trigger] call_ensures(B::create_texture, (backend, &info), texture_answer(result)),
    {
        let created = self.backend.create_texture(&info);
        texture_from(created, info)
    }

    /// Creates a texture with the descriptor `info` and a render target
    /// over it. The backend is asked for the texture and, where it gave
    /// one, for a target over it. Where it gives both, the result is a
    /// handle of target and texture that keeps the descriptor, and the
    /// tracker is left alone. Where it gives no texture, its error is
    /// passed on and nothing else happens. Where it gives the texture and
    /// not the target, its error is passed on and the id of the texture is
    /// queued for cleanup, so that nothing half made stays behind.
    pub fn inner_create_render_texture(&mut self, info: TextureInfo) -> (result: Result<
        RenderTexture,
        GfxError,
    >)
        ensures
            final(self).spec_size() == old(self).spec_size(),
            final(self).spec_dpi() == old(self).spec_dpi(),
            match result {
                Ok(target) => {
                    &&& target.spec_texture().spec_info() == info
                    &&& final(self).pending() == old(self).pending()
                    &&& exists|first: &mut B, second: &mut B|
                        mut_ref_current(first) == old(self).backend()
                        && mut_ref_current(second) == mut_ref_future(first)
                        && mut_ref_future(second) == final(self).backend()
                        && #[trigger] call_ensures(
                            B::create_texture,
                            (first, &info),
                            Ok::<u64, GfxError>(target.spec_texture().spec_id()),
                        )
                        && #[trigger] call_ensures(
                            B::create_render_texture,
                            (second, target.spec_texture().spec_id(), &info),
                            Ok::<u64, GfxError>(target.spec_id()),
                        )
                },
                Err(error) => {
                    ||| {
                        &&& final(self).pending() == old(self).pending()
                        &&& exists|first: &mut B|
                            mut_ref_current(first) == old(self).backend()
                            && mut_ref_future(first) == final(self).backend()
                            && #[trigger] call_ensures(
                                B::create_texture,
                                (first, &info),
                                Err::<u64, GfxError>(error),
                            )
                    }
                    ||| exists|first: &mut B, second: &mut B, texture: u64|
                        mut_ref_current(first) == old(self).backend()
                        && mut_ref_current(second) == mut_ref_future(first)
                        && mut_ref_future(second) == final(self).backend()
                        && final(self).pending() == old(self).pending().push(ResourceId::Texture(texture))
                        && #[trigger] call_ensures(
                            B::create_texture,
                            (first, &info),
                            Ok::<u64, GfxError>(texture),
                        )
                        && #[trigger] call_ensures(
                            B::create_render_texture,
                            (second, texture, &info),
                            Err::<u64, GfxError>(error),
                        )
                },
            },
    {
        let tex_id = match self.backend.create_texture(&info) {
            Ok(id) => id,
            Err(error) => {
                return Err(error);
            },
        };
        let made = self.backend.create_render_texture(tex_id, &info);
        self.finish_render_texture(tex_id, info, made)
    }

    /// Makes of the backend's answer to the creation of a render target
    /// over the fresh texture `texture` what
    /// [`Device::inner_create_render_texture`] returns: the handle of
    /// target and texture for a new id; for an error, the error, with the
    /// texture queued for cleanup. The backend is not asked.
    pub fn finish_render_texture(
        &mut self,
        texture: u64,
        info: TextureInfo,
        made: Result<u64, GfxError>,
    ) -> (result: Result<RenderTexture, GfxError>)
        ensures
            final(self).spec_size() == old(self).spec_size(),
            final(self).spec_dpi() == old(self).spec_dpi(),
            final(self).backend() == old(self).backend(),
            match made {
                Ok(id) => {
                    &&& result matches Ok(target)
                    &&& target.spec_id() == id
                    &&& target.spec_texture().spec_id() == texture
                    &&& target.spec_texture().spec_info() == info
                    &&& final(self).pending() == old(self).pending()
                },
                Err(error) => {
                    &&& result == Err::<RenderTexture, GfxError>(error)
                    &&& final(self).pending() == old(self).pending().push(
                        ResourceId::Texture(texture),
                    )
                },
            },
    {
        match made {
            Ok(id) => Ok(RenderTexture::new(id, Texture::new(texture, info))),
            Err(error) => {
                self.drop_manager.push(ResourceId::Texture(texture));
                Err(error)
            },
        }
    }

    /// Hands a command list to the backend for the surface: the backend is
    /// asked once to render the list, as it is, over no target.
    pub fn render(&mut self, commands: &[Commands])
        ensures
            final(self).same_surface(old(self)),
            exists|backend: &mut B|
                mut_ref_current(backend) == old(self).backend()
                && mut_ref_future(backend) == final(self).backend()
                && #[trigger] call_ensures(B::render, (backend, commands, None::<u64>), ()),
    {
        self.backend.render(commands, None);
    }

    /// Hands a command list to the backend for a render target: the
    /// backend is asked once to render the list, as it is, over the id of
    /// the target.
    pub fn render_to(&mut self, target: &RenderTexture, commands: &[Commands])
        ensures
            final(self).same_surface(old(self)),
            exists|backend: &mut B|
                mut_ref_current(backend) == old(self).backend()
                && mut_ref_future(backend) == final(self).backend()
                && #[trigger] call_ensures(B::render, (backend, commands, Some(target.spec_id())), ()),
    {
        self.backend.render(commands, Some(target.id()));
    }

    /// Has the backend overwrite a rectangle of the texture and passes its
    /// answer on.
    pub fn inner_update_texture(&mut self, texture: &mut Texture, opts: &TextureUpdate) -> (result:
        Result<(), GfxError>)
        ensures
            *final(texture) == *old(texture),
            final(self).same_surface(old(self)),
            exists|backend: &mut B|
                mut_ref_current(backend) == old(self).backend()
                && mut_ref_future(backend) == final(self).backend()
                && #[trigger] call_ensures(B::update_texture, (backend, old(texture).spec_id(), opts), result),
    {
        self.backend.update_texture(texture.id(), opts)
    }

    /// Has the backend read a rectangle of the texture into `bytes` and
    /// passes its answer on.
    pub fn inner_read_pixels(&mut self, texture: &Texture, bytes: &mut [u8], opts: &TextureRead) -> (result:
        Result<(), GfxError>)
        ensures
            final(self).same_surface(old(self)),
            exists|backend: &mut B, into: &mut [u8]|
                mut_ref_current(backend) == old(self).backend()
                && mut_ref_future(backend) == final(self).backend()
                && into@ == old(bytes)@ && final(into)@ == final(bytes)@
                && #[trigger] call_ensures(B::read_pixels, (backend, texture.spec_id(), into, opts), result),
    {
        self.backend.read_pixels(texture.id(), bytes, opts)
    }

    /// Has the backend delete everything that waits in the tracker, as one
    /// batch and in the order it was queued, and empties the tracker. With
    /// nothing waiting, the backend is not asked.
    pub fn clean(&mut self)
        ensures
            final(self).pending() == Seq::<ResourceId>::empty(),
            final(self).spec_size() == old(self).spec_size(),
            final(self).spec_dpi() == old(self).spec_dpi(),
            old(self).pending().len() == 0 ==> final(self).backend() == old(self).backend(),
            old(self).pending().len() > 0 ==> (
                exists|backend: &mut B, to_clean: &[ResourceId]|
                    mut_ref_current(backend) == old(self).backend()
                    && mut_ref_future(backend) == final(self).backend()
                    && to_clean@ == old(self).pending()
                    && #[trigger] call_ensures(B::clean, (backend, to_clean), ())),
    {
        if self.drop_manager.is_empty() {
            return ;
        }
        self.backend.clean(self.drop_manager.dropped());
        self.drop_manager.clean();
    }

    /// Has the backend upload `data` to the buffer, as it lies in memory:
    /// the backend is asked once, for this buffer, with the bytes that the
    /// type of the data gives for it.
    pub fn set_buffer_data<T: BufferDataType>(&mut self, buffer: &Buffer, data: &[T])
        ensures
            final(self).same_surface(old(self)),
            exists|backend: &mut B, bytes: &[u8]|
                mut_ref_current(backend) == old(self).backend()
                && mut_ref_future(backend) == final(self).backend()
                && call_ensures(T::bytes, (data,), bytes)
                && #[trigger] call_ensures(B::set_buffer_data, (backend, buffer.spec_id(), bytes), ()),
    {
        self.backend.set_buffer_data(buffer.id(), T::bytes(data));
    }

    /// Gives up a buffer: its id waits in the tracker from now on.
    pub fn drop_buffer(&mut self, buffer: Buffer)
        ensures
            final(self).pending() == old(self).pending().push(buffer.resource_id()),
            final(self).spec_size() == old(self).spec_size(),
            final(self).spec_dpi() == old(self).spec_dpi(),
            final(self).backend() == old(self).backend(),
    {
        self.drop_manager.push(ResourceId::Buffer(buffer.id()));
    }

    /// Gives up a texture: its id waits in the tracker from now on.
    pub fn drop_texture(&mut self, texture: Texture)
        ensures
            final(self).pending() == old(self).pending().push(texture.resource_id()),
            final(self).spec_size() == old(self).spec_size(),
            final(self).spec_dpi() == old(self).spec_dpi(),
            final(self).backend() == old(self).backend(),
    {
        self.drop_manager.push(ResourceId::Texture(texture.id()));
    }

    /// Gives up a pipeline: its id waits in the tracker from now on.
    pub fn drop_pipeline(&mut self, pipeline: Pipeline)
        ensures
            final(self).pending() == old(self).pending().push(pipeline.resource_id()),
            final(self).spec_size() == old(self).spec_size(),
            final(self).spec_dpi() == old(self).spec_dpi(),
            final(self).backend() == old(self).backend(),
    {
        self.drop_manager.push(ResourceId::Pipeline(pipeline.id()));
    }

    /// Gives up a render target: its id waits in the tracker from now on,
    /// and behind it that of its texture.
    pub fn drop_render_texture(&mut self, target: RenderTexture)
        ensures
            final(self).pending() == old(self).pending().push(target.resource_id()).push(
                target.spec_texture().resource_id(),
            ),
            final(self).spec_size() == old(self).spec_size(),
            final(self).spec_dpi() == old(self).spec_dpi(),
            final(self).backend() == old(self).backend(),
    {
        let (id, texture) = target.into_parts();
        self.drop_manager.push(ResourceId::RenderTexture(id));
        self.drop_manager.push(ResourceId::Texture(texture.id()));
    }
}

/// The byte length of one vertex with the attributes `attrs`, where it
/// fits the integer the native API counts strides in.
pub fn stride(attrs: &[VertexAttr]) -> (stride: Option<i32>)
    ensures
        stride_of(attrs@) <= i32::MAX ==> stride == Some(stride_of(attrs@) as i32),
        stride_of(attrs@) > i32::MAX ==> stride is None,
{
    let mut stride: i32 = 0;
    let mut i: usize = 0;
    while i < attrs.len()
        invariant
            0 <= i <= attrs@.len(),
            stride == offset_of(attrs@, i as int),
            stride >= 0,
        decreases attrs@.len() - i,
    {
        let bytes = attrs[i].format.bytes();
        proof {
            lemma_offset_monotone(attrs@, i as int + 1, attrs@.len() as int);
        }
        if stride > i32::MAX - bytes {
            return None;
        }
        stride = stride + bytes;
        i = i + 1;
    }
    Some(stride)
}

} // verus!
