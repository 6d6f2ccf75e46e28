//! Render targets on the native side: a framebuffer over a color texture,
//! with a depth texture where one is asked for.

use crate::gfx::color::Color;
use crate::gfx::error::GfxError;
use crate::gfx::texture::{TextureFilter, TextureFormat, TextureLayout};
use crate::gfx_backend::clear;
use crate::gfx_backend::state::clear_calls;
use crate::gfx_backend::gl;
use crate::gfx_backend::gl::{GlCall, GlQuery, GlReply};
use crate::gfx_backend::texture::{create_texture, texture_calls};
use vstd::prelude::*;

verus! {

/// The native objects behind one render target.
#[derive(Clone, Copy, Debug, PartialEq, Eq)]
pub struct InnerRenderTexture {
    pub fbo: u32,
    pub depth_texture: Option<u32>,
    pub size: (i32, i32),
}

/// The size of the depth texture a render target gets.
#[derive(Clone, Copy, Debug, PartialEq, Eq, Structural)]
pub struct DepthInfo {
    pub width: i32,
    pub height: i32,
}

/// The layout of the depth texture that goes with a render target.
pub open spec fn depth_layout(info: DepthInfo) -> TextureLayout {
    TextureLayout {
        width: info.width,
        height: info.height,
        format: TextureFormat::Depth16,
        min_filter: TextureFilter::Linear,
        mag_filter: TextureFilter::Linear,
        with_pixels: false,
        depth: false,
    }
}

/// The calls that bind framebuffer `fbo` and attach `texture` as its color
/// attachment.
pub open spec fn color_attachment_calls(fbo: u32, texture: u32) -> Seq<GlCall> {
    seq![
        GlCall::BindFramebuffer { target: gl::FRAMEBUFFER, framebuffer: fbo },
        GlCall::FramebufferTexture2D {
            target: gl::FRAMEBUFFER,
            attachment: gl::COLOR_ATTACHMENT0,
            textarget: gl::TEXTURE_2D,
            texture,
            level: 0,
        },
    ]
}

/// The calls that finish a complete framebuffer: one fully transparent
/// clear, so that no uninitialized memory shows on first use, then the
/// default framebuffer is bound again.
pub open spec fn first_clear_calls() -> Seq<GlCall> {
    clear_calls(Some(Color::spec_transparent()), None, None).push(
        GlCall::BindFramebuffer { target: gl::FRAMEBUFFER, framebuffer: 0 },
    )
}

/// How far the construction of a framebuffer has come.
#[allow(inconsistent_fields)]
#[derive(Clone, Copy, Debug, PartialEq, Eq)]
pub enum FboSetup {
    /// The framebuffer name is being generated.
    Framebuffer { texture: u32, depth_info: Option<DepthInfo> },
    /// The name of the depth texture is being generated.
    DepthTexture { fbo: u32, depth_info: DepthInfo },
    /// The completeness of the framebuffer is being checked.
    Status { fbo: u32, depth_texture: Option<u32> },
}

/// The outcome of one step of framebuffer construction.
#[derive(Debug, PartialEq, Eq)]
pub enum FboStep {
    /// Put `query` to the native API and continue from `setup` with its
    /// reply.
    Ask { query: GlQuery, setup: FboSetup },
    /// Construction is over: the framebuffer and its depth texture, or why
    /// there is none.
    Done(Result<(u32, Option<u32>), GfxError>),
}

/// What one step of framebuffer construction asks for and yields, given the
/// native reply to the query of the step before.
///
/// The fresh framebuffer is bound and gets the color texture; where a depth
/// texture is wanted, it is created and attached next; then completeness is
/// checked. An incomplete framebuffer ends construction with
/// `FramebufferIncomplete`; a complete one is cleared once and unbound. A
/// reply of the wrong kind ends construction with `UnexpectedReply`.
pub open spec fn fbo_step(setup: FboSetup, reply: GlReply) -> (Seq<GlCall>, FboStep) {
    match (setup, reply) {
        (FboSetup::Framebuffer { texture, depth_info }, GlReply::Name(fbo)) => (
            color_attachment_calls(fbo, texture),
            match depth_info {
                Some(depth_info) => FboStep::Ask {
                    query: GlQuery::GenTexture,
                    setup: FboSetup::DepthTexture { fbo, depth_info },
                },
                None => FboStep::Ask {
                    query: GlQuery::FramebufferStatus { target: gl::FRAMEBUFFER },
                    setup: FboSetup::Status { fbo, depth_texture: None },
                },
            },
        ),
        (FboSetup::DepthTexture { fbo, depth_info }, GlReply::Name(texture)) => (
            texture_calls(texture, depth_layout(depth_info)),
            FboStep::Ask {
                query: GlQuery::FramebufferStatus { target: gl::FRAMEBUFFER },
                setup: FboSetup::Status { fbo, depth_texture: Some(texture) },
            },
        ),
        (FboSetup::Status { fbo, depth_texture }, GlReply::Status(status)) => {
            if status == gl::FRAMEBUFFER_COMPLETE {
                (first_clear_calls(), FboStep::Done(Ok((fbo, depth_texture))))
            } else {
                (Seq::empty(), FboStep::Done(Err(GfxError::FramebufferIncomplete)))
            }
        },
        _ => (Seq::empty(), FboStep::Done(Err(GfxError::UnexpectedReply))),
    }
}

/// Takes framebuffer construction one step on.
pub fn create_fbo(setup: FboSetup, reply: GlReply, calls: &mut Vec<GlCall>) -> (step: FboStep)
    ensures
        final(calls)@ == old(calls)@ + fbo_step(setup, reply).0,
        step == fbo_step(setup, reply).1,
{
    match (setup, reply) {
        (FboSetup::Framebuffer { texture, depth_info }, GlReply::Name(fbo)) => {
            calls.push(GlCall::BindFramebuffer { target: gl::FRAMEBUFFER, framebuffer: fbo });
            calls.push(
                GlCall::FramebufferTexture2D {
                    target: gl::FRAMEBUFFER,
                    attachment: gl::COLOR_ATTACHMENT0,
                    textarget: gl::TEXTURE_2D,
                    texture,
                    level: 0,
                },
            );
            assert(calls@ =~= old(calls)@ + color_attachment_calls(fbo, texture));
            match depth_info {
                Some(depth_info) => FboStep::Ask {
                    query: GlQuery::GenTexture,
                    setup: FboSetup::DepthTexture { fbo, depth_info },
                },
                None => FboStep::Ask {
                    query: GlQuery::FramebufferStatus { target: gl::FRAMEBUFFER },
                    setup: FboSetup::Status { fbo, depth_texture: None },
                },
            }
        },
        (FboSetup::DepthTexture { fbo, depth_info }, GlReply::Name(texture)) => {
            let layout = TextureLayout {
                width: depth_info.width,
                height: depth_info.height,
                format: TextureFormat::Depth16,
                min_filter: TextureFilter::Linear,
                mag_filter: TextureFilter::Linear,
                with_pixels: false,
                depth: false,
            };
            let texture = create_texture(texture, &layout, calls);
            FboStep::Ask {
                query: GlQuery::FramebufferStatus { target: gl::FRAMEBUFFER },
                setup: FboSetup::Status { fbo, depth_texture: Some(texture) },
            }
        },
        (FboSetup::Status { fbo, depth_texture }, GlReply::Status(status)) => {
            if status != gl::FRAMEBUFFER_COMPLETE {
                assert(calls@ =~= old(calls)@ + Seq::<GlCall>::empty());
                return FboStep::Done(Err(GfxError::FramebufferIncomplete));
            }
            clear(&Some(Color::transparent()), &None, &None, calls);
            calls.push(GlCall::BindFramebuffer { target: gl::FRAMEBUFFER, framebuffer: 0 });
            assert(calls@ =~= old(calls)@ + first_clear_calls());
            FboStep::Done(Ok((fbo, depth_texture)))
        },
        _ => {
            assert(calls@ =~= old(calls)@ + Seq::<GlCall>::empty());
            FboStep::Done(Err(GfxError::UnexpectedReply))
        },
    }
}

impl InnerRenderTexture {
    /// Starts the construction of a render target over the color texture
    /// named `texture`: the framebuffer name is generated first.
    pub fn new(texture: u32, layout: &TextureLayout) -> (step: FboStep)
        ensures
            step == (FboStep::Ask {
                query: GlQuery::GenFramebuffer,
                setup: FboSetup::Framebuffer {
                    texture,
                    depth_info: if layout.depth {
                        Some(DepthInfo { width: layout.width, height: layout.height })
                    } else {
                        None
                    },
                },
            }),
    {
        let depth_info = if layout.depth {
            Some(DepthInfo { width: layout.width, height: layout.height })
        } else {
            None
        };
        FboStep::Ask {
            query: GlQuery::GenFramebuffer,
            setup: FboSetup::Framebuffer { texture, depth_info },
        }
    }

    /// The calls that free the framebuffer and, where there is one, the
    /// depth texture.
    pub open spec fn clean_calls(&self) -> Seq<GlCall> {
        seq![GlCall::DeleteFramebuffer { framebuffer: self.fbo }] + match self.depth_texture {
            Some(texture) => seq![GlCall::DeleteTexture { texture }],
            None => Seq::<GlCall>::empty(),
        }
    }

    /// Asks for the native objects of the target to be freed.
    pub fn clean(&self, calls: &mut Vec<GlCall>)
        ensures
            final(calls)@ == old(calls)@ + self.clean_calls(),
    {
        calls.push(GlCall::DeleteFramebuffer { framebuffer: self.fbo });
        if let Some(texture) = self.depth_texture {
            calls.push(GlCall::DeleteTexture { texture });
        }
        assert(calls@ =~= old(calls)@ + self.clean_calls());
    }

    /// Asks for the framebuffer of the target to be bound.
    pub fn bind(&self, calls: &mut Vec<GlCall>)
        ensures
            final(calls)@ == old(calls)@.push(
                GlCall::BindFramebuffer { target: gl::FRAMEBUFFER, framebuffer: self.fbo },
            ),
    {
        calls.push(GlCall::BindFramebuffer { target: gl::FRAMEBUFFER, framebuffer: self.fbo });
    }
}

} // verus!
