//! Vertex layouts and buffer usage kinds.

use crate::gfx::device::ResourceId;
use crate::gfx::error::GfxError;
use crate::gfx::pipeline::DrawType;
use crate::gfx::device::{
    big_endian, buffer_answer, buffer_is, little_endian, Device, DeviceBackend,
};
use vstd::prelude::*;

verus! {

/// The type and component count of one vertex attribute.
#[derive(Clone, Copy, Debug, PartialEq, Eq, Structural)]
pub enum VertexFormat {
    Float32,
    Float32x2,
    Float32x3,
    Float32x4,
    UInt8,
    UInt8x2,
    UInt8x3,
    UInt8x4,
}

impl VertexFormat {
    /// The number of components, 1 to 4.
    pub open spec fn spec_size(&self) -> i32 {
        match self {
            VertexFormat::Float32 | VertexFormat::UInt8 => 1,
            VertexFormat::Float32x2 | VertexFormat::UInt8x2 => 2,
            VertexFormat::Float32x3 | VertexFormat::UInt8x3 => 3,
            VertexFormat::Float32x4 | VertexFormat::UInt8x4 => 4,
        }
    }

    #[verifier::when_used_as_spec(spec_size)]
    pub fn size(&self) -> (size: i32)
        ensures
            size == self.spec_size(),
    {
        match self {
            VertexFormat::Float32 | VertexFormat::UInt8 => 1,
            VertexFormat::Float32x2 | VertexFormat::UInt8x2 => 2,
            VertexFormat::Float32x3 | VertexFormat::UInt8x3 => 3,
            VertexFormat::Float32x4 | VertexFormat::UInt8x4 => 4,
        }
    }

    /// True for the formats whose components are bytes.
    pub open spec fn is_byte_format(&self) -> bool {
        match self {
            VertexFormat::UInt8
            | VertexFormat::UInt8x2
            | VertexFormat::UInt8x3
            | VertexFormat::UInt8x4 => true,
            _ => false,
        }
    }

    /// The bytes one attribute of this format takes in a vertex: one per
    /// component for the byte formats, four per component for the others.
    pub open spec fn spec_bytes(&self) -> i32 {
        if self.is_byte_format() {
            self.spec_size()
        } else {
            (self.spec_size() * 4) as i32
        }
    }

    #[verifier::when_used_as_spec(spec_bytes)]
    pub fn bytes(&self) -> (bytes: i32)
        ensures
            bytes == self.spec_bytes(),
            1 <= bytes <= 16,
    {
        match self {
            VertexFormat::UInt8
            | VertexFormat::UInt8x2
            | VertexFormat::UInt8x3
            | VertexFormat::UInt8x4 => self.size(),
            _ => self.size() * 4,
        }
    }

    /// Byte components are normalized to the unit range when fetched.
    pub open spec fn spec_normalized(&self) -> bool {
        self.is_byte_format()
    }

    #[verifier::when_used_as_spec(spec_normalized)]
    pub fn normalized(&self) -> (normalized: bool)
        ensures
            normalized == self.spec_normalized(),
    {
        match self {
            VertexFormat::UInt8
            | VertexFormat::UInt8x2
            | VertexFormat::UInt8x3
            | VertexFormat::UInt8x4 => true,
            _ => false,
        }
    }
}

/// One attribute of a vertex layout: the shader location it feeds and its
/// format.
#[derive(Clone, Copy, Debug, PartialEq, Eq, Structural)]
pub struct VertexAttr {
    pub location: u32,
    pub format: VertexFormat,
}

impl VertexAttr {
    pub fn new(location: u32, format: VertexFormat) -> (attr: VertexAttr)
        ensures
            attr == (VertexAttr { location, format }),
    {
        VertexAttr { location, format }
    }
}

/// Whether a vertex buffer advances once per vertex or once per instance.
#[derive(Clone, Copy, Debug, PartialEq, Eq, Structural)]
pub enum VertexStepMode {
    Vertex,
    Instance,
}

/// What a buffer is bound as.
#[derive(Clone, Copy, Debug, PartialEq, Eq, Structural)]
pub enum BufferUsage {
    Vertex,
    Index,
    /// A uniform block bound to the given slot.
    Uniform(u32),
}

/// The byte length of the first `n` attributes of `attrs`, laid out one after
/// the other.
pub open spec fn offset_of(attrs: Seq<VertexAttr>, n: int) -> int
    decreases n,
{
    if n <= 0 {
        0
    } else {
        offset_of(attrs, n - 1) + attrs[n - 1].format.spec_bytes()
    }
}

/// The byte length of one whole vertex: the sum of the byte sizes of its
/// attributes.
pub open spec fn stride_of(attrs: Seq<VertexAttr>) -> int {
    offset_of(attrs, attrs.len() as int)
}

/// Every attribute takes at least one byte and at most sixteen, so the offset
/// of attribute `n` lies between `n` and `16 * n`.
pub proof fn lemma_offset_bounds(attrs: Seq<VertexAttr>, n: int)
    requires
        0 <= n <= attrs.len(),
    ensures
        n <= offset_of(attrs, n) <= 16 * n,
    decreases n,
{
    if n > 0 {
        lemma_offset_bounds(attrs, n - 1);
    }
}

/// In any attribute list the byte offsets strictly increase in declaration
/// order, and the last attribute ends where the stride says the vertex ends.
pub proof fn lemma_offsets_increase(attrs: Seq<VertexAttr>, i: int, j: int)
    requires
        0 <= i < j <= attrs.len(),
    ensures
        offset_of(attrs, i) < offset_of(attrs, j) <= stride_of(attrs),
    decreases attrs.len() - i,
{
    lemma_offset_monotone(attrs, i + 1, j);
    lemma_offset_monotone(attrs, j, attrs.len() as int);
}

/// Offsets never decrease along the list.
pub proof fn lemma_offset_monotone(attrs: Seq<VertexAttr>, i: int, j: int)
    requires
        0 <= i <= j <= attrs.len(),
    ensures
        offset_of(attrs, i) <= offset_of(attrs, j),
    decreases j - i,
{
    if i < j {
        lemma_offset_monotone(attrs, i, j - 1);
    }
}

/// A vertex layout under construction: its attributes in declaration order
/// and the step mode of the buffer that will hold them.
#[derive(Debug)]
pub struct VertexInfo {
    pub attrs: Vec<VertexAttr>,
    pub step_mode: VertexStepMode,
}

impl VertexInfo {
    pub fn new() -> (info: VertexInfo)
        ensures
            info.attrs@ == Seq::<VertexAttr>::empty(),
            info.step_mode == VertexStepMode::Vertex,
    {
        VertexInfo { attrs: Vec::new(), step_mode: VertexStepMode::Vertex }
    }

    /// Appends an attribute at `location`.
    pub fn attr(self, location: u32, format: VertexFormat) -> (info: VertexInfo)
        ensures
            info.attrs@ == self.attrs@.push(VertexAttr { location, format }),
            info.step_mode == self.step_mode,
    {
        let mut info = self;
        info.attrs.push(VertexAttr { location, format });
        info
    }

    pub fn step_mode(self, mode: VertexStepMode) -> (info: VertexInfo)
        ensures
            info.attrs@ == self.attrs@,
            info.step_mode == mode,
    {
        let mut info = self;
        info.step_mode = mode;
        info
    }
}

/// The handle of a buffer: the id the backend gave it and what it is used
/// as.
#[derive(Debug, PartialEq, Eq)]
pub struct Buffer {
    id: u64,
    usage: BufferUsage,
    draw: Option<DrawType>,
}

impl Buffer {
    pub(crate) fn new(id: u64, usage: BufferUsage, draw: Option<DrawType>) -> (buffer: Buffer)
        ensures
            buffer.spec_id() == id,
            buffer.spec_usage() == usage,
            buffer.spec_draw() == draw,
    {
        Buffer { id, usage, draw }
    }

    pub closed spec fn spec_id(&self) -> u64 {
        self.id
    }

    #[verifier::when_used_as_spec(spec_id)]
    pub fn id(&self) -> (id: u64)
        ensures
            id == self.spec_id(),
    {
        self.id
    }

    pub closed spec fn spec_usage(&self) -> BufferUsage {
        self.usage
    }

    #[verifier::when_used_as_spec(spec_usage)]
    pub fn usage(&self) -> (usage: BufferUsage)
        ensures
            usage == self.spec_usage(),
    {
        self.usage
    }

    pub closed spec fn spec_draw(&self) -> Option<DrawType> {
        self.draw
    }

    #[verifier::when_used_as_spec(spec_draw)]
    pub fn draw(&self) -> (draw: Option<DrawType>)
        ensures
            draw == self.spec_draw(),
    {
        self.draw
    }

    /// The entry that deleting this buffer puts into the cleanup tracker.
    pub open spec fn resource_id(&self) -> ResourceId {
        ResourceId::Buffer(self.spec_id())
    }
}

/// The handle a backend's answer to a buffer creation gives: one for the
/// new id, or the backend's error.
pub fn buffer_from(created: Result<u64, GfxError>, usage: BufferUsage) -> (result: Result<
    Buffer,
    GfxError,
>)
    ensures
        match created {
            Ok(id) => result matches Ok(buffer) && buffer.spec_id() == id && buffer.spec_usage()
                == usage && buffer.spec_draw() is None,
            Err(error) => result == Err::<Buffer, GfxError>(error),
        },
{
    match created {
        Ok(id) => Ok(Buffer::new(id, usage, None)),
        Err(error) => Err(error),
    }
}

/// A vertex buffer in the making.
pub struct VertexBufferBuilder<'a, B: DeviceBackend> {
    pub device: &'a mut Device<B>,
    pub data: Option<&'a [u32]>,
    pub attrs: Vec<VertexAttr>,
    pub step_mode: VertexStepMode,
}

impl<'a, B: DeviceBackend> VertexBufferBuilder<'a, B> {
    pub fn new(device: &'a mut Device<B>) -> (builder: Self)
        ensures
            *final(builder.device) == *final(device),
            builder.data is None,
            builder.attrs@ == Seq::<VertexAttr>::empty(),
            builder.step_mode == VertexStepMode::Vertex,
            *builder.device == *old(device),
    {
        VertexBufferBuilder {
            device,
            data: None,
            attrs: Vec::new(),
            step_mode: VertexStepMode::Vertex,
        }
    }

    /// Takes the layout and the step mode of `info`.
    pub fn with_info(self, info: &VertexInfo) -> (builder: Self)
        ensures
            builder.device == self.device,
            builder.attrs@ == info.attrs@,
            builder.step_mode == info.step_mode,
            builder.data == self.data,
    {
        let mut builder = self;
        builder.attrs = Vec::new();
        builder.step_mode = info.step_mode;
        let mut i: usize = 0;
        while i < info.attrs.len()
            invariant
                0 <= i <= info.attrs@.len(),
                builder.attrs@ == info.attrs@.take(i as int),
                builder.device == self.device,
                builder.step_mode == info.step_mode,
                builder.data == self.data,
            decreases info.attrs@.len() - i,
        {
            builder.attrs.push(info.attrs[i]);
            assert(builder.attrs@ =~= info.attrs@.take(i as int + 1));
            i = i + 1;
        }
        assert(info.attrs@.take(info.attrs@.len() as int) =~= info.attrs@);
        builder
    }

    /// Sets the words to upload once the buffer exists. Floating point
    /// values are given by their bit patterns.
    pub fn with_data(self, data: &'a [u32]) -> (builder: Self)
        ensures
            builder.device == self.device,
            builder.data == Some(data),
            builder.attrs == self.attrs,
            builder.step_mode == self.step_mode,
    {
        let mut builder = self;
        builder.data = Some(data);
        builder
    }

    /// Creates the buffer: the backend is asked for it and then, where it
    /// gave one and there is data, for the upload of the data as it lies in
    /// memory. For a new id the result is a handle of that id; an error of
    /// the backend is passed on.
    pub fn build(self) -> (result: Result<Buffer, GfxError>)
        ensures
            final(self.device).same_surface(old(self.device)),
            buffer_is(result, BufferUsage::Vertex),
            exists|first: &mut B, attrs: &[VertexAttr]|
                mut_ref_current(first) == old(self.device).backend()
                && attrs@ == self.attrs@
                && #[trigger] call_ensures(B::create_vertex_buffer, (first, attrs, self.step_mode), buffer_answer(result))
                && match (result, self.data) {
                    (Ok(buffer), Some(words)) => exists|second: &mut B, bytes: &[u8]|
                        mut_ref_current(second) == mut_ref_future(first)
                        && mut_ref_future(second) == final(self.device).backend()
                        && (bytes@ == little_endian(words@) || bytes@ == big_endian(words@))
                        && #[trigger] call_ensures(
                            B::set_buffer_data,
                            (second, buffer.spec_id(), bytes),
                            (),
                        ),
                    _ => mut_ref_future(first) == final(self.device).backend(),
                },
    {
        let VertexBufferBuilder { device, data, attrs, step_mode } = self;
        device.inner_create_vertex_buffer(data, attrs.as_slice(), step_mode)
    }
}

/// An index buffer in the making.
pub struct IndexBufferBuilder<'a, B: DeviceBackend> {
    pub device: &'a mut Device<B>,
    pub data: Option<&'a [u32]>,
}

impl<'a, B: DeviceBackend> IndexBufferBuilder<'a, B> {
    pub fn new(device: &'a mut Device<B>) -> (builder: Self)
        ensures
            *final(builder.device) == *final(device),
            builder.data is None,
            *builder.device == *old(device),
    {
        IndexBufferBuilder { device, data: None }
    }

    /// Sets the indices to upload once the buffer exists.
    pub fn with_data(self, data: &'a [u32]) -> (builder: Self)
        ensures
            builder.device == self.device,
            builder.data == Some(data),
    {
        let mut builder = self;
        builder.data = Some(data);
        builder
    }

    /// Creates the buffer: the backend is asked for it and then, where it
    /// gave one and there is data, for the upload of the data as it lies in
    /// memory. For a new id the result is a handle of that id; an error of
    /// the backend is passed on.
    pub fn build(self) -> (result: Result<Buffer, GfxError>)
        ensures
            final(self.device).same_surface(old(self.device)),
            buffer_is(result, BufferUsage::Index),
            exists|first: &mut B|
                mut_ref_current(first) == old(self.device).backend()
                && #[trigger] call_ensures(B::create_index_buffer, (first,), buffer_answer(result))
                && match (result, self.data) {
                    (Ok(buffer), Some(words)) => exists|second: &mut B, bytes: &[u8]|
                        mut_ref_current(second) == mut_ref_future(first)
                        && mut_ref_future(second) == final(self.device).backend()
                        && (bytes@ == little_endian(words@) || bytes@ == big_endian(words@))
                        && #[trigger] call_ensures(
                            B::set_buffer_data,
                            (second, buffer.spec_id(), bytes),
                            (),
                        ),
                    _ => mut_ref_future(first) == final(self.device).backend(),
                },
    {
        let IndexBufferBuilder { device, data } = self;
        device.inner_create_index_buffer(data)
    }
}

/// A uniform buffer in the making.
pub struct UniformBufferBuilder<'a, B: DeviceBackend> {
    pub device: &'a mut Device<B>,
    pub slot: u32,
    pub name: String,
    pub data: Option<&'a [u32]>,
}

impl<'a, B: DeviceBackend> UniformBufferBuilder<'a, B> {
    pub fn new(device: &'a mut Device<B>, slot: u32, name: &str) -> (builder: Self)
        ensures
            *final(builder.device) == *final(device),
            builder.slot == slot,
            builder.name@ == name@,
            builder.data is None,
            *builder.device == *old(device),
    {
        UniformBufferBuilder { device, slot, name: name.to_owned(), data: None }
    }

    /// Sets the words to upload once the buffer exists. Floating point
    /// values are given by their bit patterns.
    pub fn with_data(self, data: &'a [u32]) -> (builder: Self)
        ensures
            builder.device == self.device,
            builder.data == Some(data),
            builder.slot == self.slot,
            builder.name == self.name,
    {
        let mut builder = self;
        builder.data = Some(data);
        builder
    }

    /// Creates the buffer: the backend is asked for it and then, where it
    /// gave one and there is data, for the upload of the data as it lies in
    /// memory. For a new id the result is a handle of that id; an error of
    /// the backend is passed on.
    pub fn build(self) -> (result: Result<Buffer, GfxError>)
        ensures
            final(self.device).same_surface(old(self.device)),
            buffer_is(result, BufferUsage::Uniform(self.slot)),
            exists|first: &mut B, name: &str|
                mut_ref_current(first) == old(self.device).backend()
                && name@ == self.name@
                && #[trigger] call_ensures(B::create_uniform_buffer, (first, self.slot, name), buffer_answer(result))
                && match (result, self.data) {
                    (Ok(buffer), Some(words)) => exists|second: &mut B, bytes: &[u8]|
                        mut_ref_current(second) == mut_ref_future(first)
                        && mut_ref_future(second) == final(self.device).backend()
                        && (bytes@ == little_endian(words@) || bytes@ == big_endian(words@))
                        && #[trigger] call_ensures(
                            B::set_buffer_data,
                            (second, buffer.spec_id(), bytes),
                            (),
                        ),
                    _ => mut_ref_future(first) == final(self.device).backend(),
                },
    {
        let UniformBufferBuilder { device, slot, name, data } = self;
        device.inner_create_uniform_buffer(slot, name.as_str(), data)
    }
}

} // verus!
