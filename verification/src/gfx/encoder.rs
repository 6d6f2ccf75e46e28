//! The command encoder: it records drawing operations, in order, into a list
//! a backend can execute.

use crate::gfx::buffer::Buffer;
use crate::gfx::commands::Commands;
use crate::gfx::pipeline::{ClearOptions, DrawPrimitive, Pipeline};
use crate::gfx::texture::Texture;
use vstd::prelude::*;

verus! {

/// A command list under construction. The encoder checks nothing: what is
/// recorded is what will be executed, in the order it was recorded.
#[derive(Debug)]
pub struct CommandEncoder {
    commands: Vec<Commands>,
    size: (i32, i32),
    primitive: DrawPrimitive,
}

impl View for CommandEncoder {
    type V = Seq<Commands>;

    closed spec fn view(&self) -> Seq<Commands> {
        self.commands@
    }
}

impl CommandEncoder {
    /// The primitive that draws are recorded with.
    pub closed spec fn spec_primitive(&self) -> DrawPrimitive {
        self.primitive
    }

    /// The size last set, in logical pixels.
    pub closed spec fn spec_size(&self) -> (i32, i32) {
        self.size
    }

    /// An empty list for a surface of the given size, drawing triangles.
    pub fn new(width: i32, height: i32) -> (encoder: CommandEncoder)
        ensures
            encoder@ == Seq::<Commands>::empty(),
            encoder.spec_size() == (width, height),
            encoder.spec_primitive() == DrawPrimitive::Triangles,
    {
        CommandEncoder {
            commands: Vec::new(),
            size: (width, height),
            primitive: DrawPrimitive::Triangles,
        }
    }

    /// Records the start of a pass that clears what `options` names, or
    /// nothing without options.
    pub fn begin(&mut self, options: Option<&ClearOptions>)
        ensures
            final(self)@ == old(self)@.push(
                match options {
                    Some(options) => Commands::Begin {
                        color: options.color,
                        depth: options.depth,
                        stencil: options.stencil,
                    },
                    None => Commands::Begin { color: None, depth: None, stencil: None },
                },
            ),
            final(self).spec_size() == old(self).spec_size(),
            final(self).spec_primitive() == old(self).spec_primitive(),
    {
        let (color, depth, stencil) = match options {
            Some(options) => (options.color, options.depth, options.stencil),
            None => (None, None, None),
        };
        self.commands.push(Commands::Begin { color, depth, stencil });
    }

    /// Records the end of the pass.
    pub fn end(&mut self)
        ensures
            final(self)@ == old(self)@.push(Commands::End),
            final(self).spec_size() == old(self).spec_size(),
            final(self).spec_primitive() == old(self).spec_primitive(),
    {
        self.commands.push(Commands::End);
    }

    /// Records a new size of the surface.
    pub fn set_size(&mut self, width: i32, height: i32)
        ensures
            final(self)@ == old(self)@.push(Commands::Size { width, height }),
            final(self).spec_size() == (width, height),
            final(self).spec_primitive() == old(self).spec_primitive(),
    {
        self.size = (width, height);
        self.commands.push(Commands::Size { width, height });
    }

    /// Sets the primitive of the draws recorded from now on. Nothing is
    /// recorded for it.
    pub fn set_primitive(&mut self, primitive: DrawPrimitive)
        ensures
            final(self)@ == old(self)@,
            final(self).spec_size() == old(self).spec_size(),
            final(self).spec_primitive() == primitive,
    {
        self.primitive = primitive;
    }

    /// Records the switch to `pipeline`, with its options.
    pub fn set_pipeline(&mut self, pipeline: &Pipeline)
        ensures
            final(self)@ == old(self)@.push(
                Commands::Pipeline { id: pipeline.spec_id(), options: pipeline.spec_options() },
            ),
            final(self).spec_size() == old(self).spec_size(),
            final(self).spec_primitive() == old(self).spec_primitive(),
    {
        self.commands.push(Commands::Pipeline { id: pipeline.id(), options: pipeline.options() });
    }

    /// Records that drawing is restricted to the rectangle.
    pub fn set_scissors(&mut self, x: i32, y: i32, width: i32, height: i32)
        ensures
            final(self)@ == old(self)@.push(Commands::Scissors { x, y, width, height }),
            final(self).spec_size() == old(self).spec_size(),
            final(self).spec_primitive() == old(self).spec_primitive(),
    {
        self.commands.push(Commands::Scissors { x, y, width, height });
    }

    /// Records that the viewport becomes the rectangle.
    pub fn set_viewport(&mut self, x: i32, y: i32, width: i32, height: i32)
        ensures
            final(self)@ == old(self)@.push(Commands::Viewport { x, y, width, height }),
            final(self).spec_size() == old(self).spec_size(),
            final(self).spec_primitive() == old(self).spec_primitive(),
    {
        self.commands.push(Commands::Viewport { x, y, width, height });
    }

    /// Records the binding of `buffer`.
    pub fn bind_buffer(&mut self, buffer: &Buffer)
        ensures
            final(self)@ == old(self)@.push(Commands::BindBuffer { id: buffer.spec_id() }),
            final(self).spec_size() == old(self).spec_size(),
            final(self).spec_primitive() == old(self).spec_primitive(),
    {
        self.commands.push(Commands::BindBuffer { id: buffer.id() });
    }

    /// Records the binding of a texture to unit 0 for the `location`-th
    /// uniform of the pipeline.
    pub fn bind_texture(&mut self, location: u32, texture: &Texture)
        ensures
            final(self)@ == old(self)@.push(
                Commands::BindTexture { id: texture.spec_id(), slot: 0, location },
            ),
            final(self).spec_size() == old(self).spec_size(),
            final(self).spec_primitive() == old(self).spec_primitive(),
    {
        self.bind_texture_slot(0, location, texture);
    }

    /// Records the binding of a texture to unit `slot` for the
    /// `location`-th uniform of the pipeline.
    pub fn bind_texture_slot(&mut self, slot: u32, location: u32, texture: &Texture)
        ensures
            final(self)@ == old(self)@.push(
                Commands::BindTexture { id: texture.spec_id(), slot, location },
            ),
            final(self).spec_size() == old(self).spec_size(),
            final(self).spec_primitive() == old(self).spec_primitive(),
    {
        self.commands.push(Commands::BindTexture { id: texture.id(), slot, location });
    }

    /// Records a draw of `count` vertices from `offset`.
    pub fn draw(&mut self, offset: i32, count: i32)
        ensures
            final(self)@ == old(self)@.push(
                Commands::Draw { primitive: old(self).spec_primitive(), offset, count },
            ),
            final(self).spec_size() == old(self).spec_size(),
            final(self).spec_primitive() == old(self).spec_primitive(),
    {
        self.commands.push(Commands::Draw { primitive: self.primitive, offset, count });
    }

    /// Records a draw of `length` instances of `count` vertices from
    /// `offset`.
    pub fn draw_instanced(&mut self, offset: i32, count: i32, length: i32)
        ensures
            final(self)@ == old(self)@.push(
                Commands::DrawInstanced {
                    primitive: old(self).spec_primitive(),
                    offset,
                    count,
                    length,
                },
            ),
            final(self).spec_size() == old(self).spec_size(),
            final(self).spec_primitive() == old(self).spec_primitive(),
    {
        self.commands.push(
            Commands::DrawInstanced { primitive: self.primitive, offset, count, length },
        );
    }

    /// What was recorded, first command first.
    pub fn commands(&self) -> (commands: &[Commands])
        ensures
            commands@ == self@,
    {
        self.commands.as_slice()
    }

    /// Forgets what was recorded.
    pub fn clear(&mut self)
        ensures
            final(self)@ == Seq::<Commands>::empty(),
            final(self).spec_size() == old(self).spec_size(),
            final(self).spec_primitive() == old(self).spec_primitive(),
    {
        self.commands.clear();
    }
}

} // verus!
