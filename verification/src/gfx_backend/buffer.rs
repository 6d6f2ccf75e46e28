//! Buffers on the native side.

use crate::gfx::error::GfxError;
use crate::gfx_backend::gl;
use crate::gfx_backend::gl::GlCall;
use crate::gfx_backend::pipeline::{InnerPipeline, VertexAttributes};
use vstd::prelude::*;

verus! {

/// What a buffer holds, with what binding it takes.
#[derive(Debug, PartialEq, Eq)]
pub enum Kind {
    Vertex(VertexAttributes),
    Index,
    /// A uniform block: its slot and the name it has in shaders.
    Uniform(u32, String),
}

/// The native object behind one buffer.
#[derive(Debug, PartialEq, Eq)]
pub struct InnerBuffer {
    pub buffer: u32,
    /// Whether the uniform block of this buffer has been bound to its slot.
    pub block_binded: bool,
    pub gpu_buff_size: usize,
    pub draw_usage: u32,
    pub draw_target: u32,
    pub kind: Kind,
    /// The pipeline under which the vertex layout was last specified.
    pub last_pipeline: Option<u64>,
}

/// The binding target of a buffer of this kind.
pub open spec fn target_of(kind: Kind) -> u32 {
    match kind {
        Kind::Vertex(_) => gl::ARRAY_BUFFER,
        Kind::Index => gl::ELEMENT_ARRAY_BUFFER,
        Kind::Uniform(_, _) => gl::UNIFORM_BUFFER,
    }
}

/// Whether binding under `pipeline_id` is a change from the pipeline the
/// buffer remembers.
pub open spec fn pipeline_changes(last: Option<u64>, pipeline_id: Option<u64>) -> bool {
    pipeline_id is Some && pipeline_id != last
}

impl InnerBuffer {
    /// The record of a fresh buffer named `buffer`: nothing uploaded, no
    /// block bound, no pipeline seen.
    pub fn new(buffer: u32, kind: Kind, dynamic: bool) -> (result: Result<InnerBuffer, GfxError>)
        ensures
            result == Ok::<InnerBuffer, GfxError>(
                (InnerBuffer {
                    buffer,
                    block_binded: false,
                    gpu_buff_size: 0,
                    draw_usage: if dynamic {
                        gl::DYNAMIC_DRAW
                    } else {
                        gl::STATIC_DRAW
                    },
                    draw_target: target_of(kind),
                    kind,
                    last_pipeline: None,
                }),
            ),
    {
        let draw_usage = if dynamic {
            gl::DYNAMIC_DRAW
        } else {
            gl::STATIC_DRAW
        };
        let draw_target = match &kind {
            Kind::Vertex(_) => gl::ARRAY_BUFFER,
            Kind::Index => gl::ELEMENT_ARRAY_BUFFER,
            Kind::Uniform(_, _) => gl::UNIFORM_BUFFER,
        };
        Ok(
            InnerBuffer {
                buffer,
                block_binded: false,
                gpu_buff_size: 0,
                draw_usage,
                draw_target,
                kind,
                last_pipeline: None,
            },
        )
    }

    /// The calls of a bind under `pipeline_id`: the buffer is bound to its
    /// target; a vertex buffer has its layout specified again only where the
    /// pipeline changes; a uniform buffer is attached to its slot.
    pub open spec fn bind_calls(&self, pipeline_id: Option<u64>) -> Seq<GlCall> {
        seq![GlCall::BindBuffer { target: self.draw_target, buffer: self.buffer }] + match self.kind {
            Kind::Vertex(attrs) => if pipeline_changes(self.last_pipeline, pipeline_id) {
                attrs.enable_calls()
            } else {
                Seq::<GlCall>::empty()
            },
            Kind::Index => Seq::<GlCall>::empty(),
            Kind::Uniform(slot, _) => seq![
                GlCall::BindBufferBase {
                    target: gl::UNIFORM_BUFFER,
                    index: slot,
                    buffer: self.buffer,
                },
            ],
        }
    }

    /// The buffer after a bind under `pipeline_id`: it remembers the
    /// pipeline where one is given.
    pub open spec fn bound(self, pipeline_id: Option<u64>) -> InnerBuffer {
        InnerBuffer {
            last_pipeline: if pipeline_changes(self.last_pipeline, pipeline_id) {
                pipeline_id
            } else {
                self.last_pipeline
            },
            ..self
        }
    }

    /// Asks for the buffer to be bound under `pipeline_id`, or outside any
    /// pipeline.
    pub fn bind(&mut self, pipeline_id: Option<u64>, calls: &mut Vec<GlCall>)
        ensures
            *final(self) == old(self).bound(pipeline_id),
            final(calls)@ == old(calls)@ + old(self).bind_calls(pipeline_id),
    {
        let pipeline_changed = match (pipeline_id, self.last_pipeline) {
            (Some(id), Some(last)) => id != last,
            (Some(_), None) => true,
            (None, _) => false,
        };
        if pipeline_changed {
            self.last_pipeline = pipeline_id;
        }
        calls.push(GlCall::BindBuffer { target: self.draw_target, buffer: self.buffer });
        match &self.kind {
            Kind::Vertex(attrs) => {
                if pipeline_changed {
                    attrs.enable(calls);
                }
            },
            Kind::Uniform(slot, _) => {
                calls.push(
                    GlCall::BindBufferBase {
                        target: gl::UNIFORM_BUFFER,
                        index: *slot,
                        buffer: self.buffer,
                    },
                );
            },
            _ => {},
        }
        assert(calls@ =~= old(calls)@ + old(self).bind_calls(pipeline_id));
    }

    /// The call that uploads `size` bytes: the store is allocated anew
    /// unless it is recorded to have exactly that size, in which case it is
    /// overwritten in place.
    pub open spec fn update_call(&self, size: usize) -> GlCall {
        if self.gpu_buff_size != size {
            GlCall::BufferData { target: self.draw_target, size, usage: self.draw_usage }
        } else {
            GlCall::BufferSubData { target: self.draw_target, offset: 0, size }
        }
    }

    /// Asks for `data` to be uploaded to the bound buffer.
    pub fn update(&self, data: &[u8], calls: &mut Vec<GlCall>)
        ensures
            final(calls)@ == old(calls)@.push(self.update_call(data@.len() as usize)),
    {
        let needs_alloc = self.gpu_buff_size != data.len();
        if needs_alloc {
            calls.push(
                GlCall::BufferData {
                    target: self.draw_target,
                    size: data.len(),
                    usage: self.draw_usage,
                },
            );
        } else {
            calls.push(
                GlCall::BufferSubData { target: self.draw_target, offset: 0, size: data.len() },
            );
        }
    }

    /// The calls that bind the uniform block of this buffer in the program
    /// of a pipeline: one lookup-and-bind for a uniform buffer, nothing for
    /// any other.
    pub open spec fn block_calls(&self, program: u32) -> Seq<GlCall> {
        match self.kind {
            Kind::Uniform(slot, name) => seq![GlCall::BindUniformBlock { program, name, slot }],
            _ => Seq::<GlCall>::empty(),
        }
    }

    /// Asks for the uniform block of the buffer to be bound in the program
    /// of `pipeline`, and remembers that it was.
    pub fn bind_ubo_block(&mut self, pipeline: &InnerPipeline, calls: &mut Vec<GlCall>)
        ensures
            *final(self) == (InnerBuffer { block_binded: true, ..*old(self) }),
            final(calls)@ == old(calls)@ + old(self).block_calls(pipeline.program),
    {
        self.block_binded = true;
        if let Kind::Uniform(slot, name) = &self.kind {
            calls.push(
                GlCall::BindUniformBlock {
                    program: pipeline.program,
                    name: name.clone(),
                    slot: *slot,
                },
            );
        }
        assert(calls@ =~= old(calls)@ + old(self).block_calls(pipeline.program));
    }

    /// Asks for the buffer to be deleted.
    pub fn clean(self, calls: &mut Vec<GlCall>)
        ensures
            final(calls)@ == old(calls)@.push(GlCall::DeleteBuffer { buffer: self.buffer }),
    {
        calls.push(GlCall::DeleteBuffer { buffer: self.buffer });
    }
}

} // verus!
