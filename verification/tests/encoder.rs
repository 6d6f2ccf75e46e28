use gfx_device::gfx::color::Color;
use gfx_device::gfx::commands::Commands;
use gfx_device::gfx::encoder::CommandEncoder;
use gfx_device::gfx::error::{ErrorKind, GfxError};
use gfx_device::gfx::pipeline::{ClearOptions, DrawPrimitive, ShaderStage};

#[test]
fn a_new_encoder_is_empty() {
    let encoder = CommandEncoder::new(800, 600);
    assert!(encoder.commands().is_empty());
}

#[test]
fn begin_records_what_to_clear() {
    let mut encoder = CommandEncoder::new(1, 1);
    encoder.begin(None);
    encoder.begin(Some(&ClearOptions::none()));
    encoder.begin(Some(&ClearOptions::new(Color::white())));
    encoder.begin(Some(&ClearOptions {
        color: Some(Color::transparent()),
        depth: Some(1f32.to_bits()),
        stencil: Some(-1),
    }));
    assert_eq!(
        encoder.commands(),
        &[
            Commands::Begin { color: None, depth: None, stencil: None },
            Commands::Begin { color: None, depth: None, stencil: None },
            Commands::Begin { color: Some(Color::white()), depth: None, stencil: None },
            Commands::Begin {
                color: Some(Color { r: 0, g: 0, b: 0, a: 0 }),
                depth: Some(0x3F80_0000),
                stencil: Some(-1)
            },
        ]
    );
}

#[test]
fn commands_are_recorded_in_call_order_without_validation() {
    let mut encoder = CommandEncoder::new(1, 1);
    encoder.end();
    encoder.draw(5, 6);
    encoder.set_viewport(1, 2, 3, 4);
    encoder.set_scissors(-1, -2, 30, 40);
    encoder.set_size(9, 8);
    encoder.draw_instanced(0, 3, 100);
    encoder.end();
    assert_eq!(
        encoder.commands(),
        &[
            Commands::End,
            Commands::Draw { primitive: DrawPrimitive::Triangles, offset: 5, count: 6 },
            Commands::Viewport { x: 1, y: 2, width: 3, height: 4 },
            Commands::Scissors { x: -1, y: -2, width: 30, height: 40 },
            Commands::Size { width: 9, height: 8 },
            Commands::DrawInstanced {
                primitive: DrawPrimitive::Triangles,
                offset: 0,
                count: 3,
                length: 100
            },
            Commands::End,
        ]
    );
}

#[test]
fn the_primitive_applies_to_later_draws_only() {
    let mut encoder = CommandEncoder::new(1, 1);
    encoder.draw(0, 3);
    encoder.set_primitive(DrawPrimitive::LineStrip);
    encoder.draw(0, 4);
    encoder.draw_instanced(1, 2, 3);
    assert_eq!(
        encoder.commands(),
        &[
            Commands::Draw { primitive: DrawPrimitive::Triangles, offset: 0, count: 3 },
            Commands::Draw { primitive: DrawPrimitive::LineStrip, offset: 0, count: 4 },
            Commands::DrawInstanced {
                primitive: DrawPrimitive::LineStrip,
                offset: 1,
                count: 2,
                length: 3
            },
        ]
    );
}

#[test]
fn clear_forgets_the_recording() {
    let mut encoder = CommandEncoder::new(1, 1);
    encoder.begin(None);
    encoder.end();
    assert_eq!(encoder.commands().len(), 2);
    encoder.clear();
    assert!(encoder.commands().is_empty());
    encoder.end();
    assert_eq!(encoder.commands(), &[Commands::End]);
}

#[test]
fn every_error_falls_into_one_class() {
    let creation = [
        GfxError::MissingShaders,
        GfxError::MissingBytes,
        GfxError::LayoutTooLarge,
        GfxError::InvalidSource { stage: ShaderStage::Vertex },
        GfxError::Shader { stage: ShaderStage::Fragment, log: "log".to_string() },
        GfxError::Link { log: "log".to_string() },
        GfxError::UnsupportedTextureSlot { slot: 8 },
        GfxError::TextureNotFound { id: 1 },
        GfxError::IdsExhausted,
        GfxError::UnexpectedReply,
    ];
    for error in creation {
        assert_eq!(error.kind(), ErrorKind::ResourceCreation);
    }
    assert_eq!(GfxError::FramebufferIncomplete.kind(), ErrorKind::FramebufferIncomplete);
    assert_eq!(GfxError::InvalidTexture { id: 3 }.kind(), ErrorKind::InvalidHandleLookup);
}

#[test]
fn messages_of_the_errors() {
    assert_eq!(
        GfxError::MissingShaders.message(),
        "Vertex and Fragment shaders should be present"
    );
    assert_eq!(
        GfxError::MissingBytes.message(),
        "You need to provide bytes to update a texture"
    );
    assert_eq!(
        GfxError::InvalidSource { stage: ShaderStage::Fragment }.message(),
        "Invalid UTF-8 in the source of the fragment shader"
    );
    assert_eq!(
        GfxError::Shader { stage: ShaderStage::Vertex, log: "0:1: syntax error\n".to_string() }
            .message(),
        "vertex shader: 0:1: syntax error\n"
    );
    assert_eq!(
        GfxError::Shader { stage: ShaderStage::Fragment, log: String::new() }.message(),
        "fragment shader: "
    );
    assert_eq!(
        GfxError::Link { log: "unresolved symbol".to_string() }.message(),
        "program: unresolved symbol"
    );
    assert_eq!(GfxError::LayoutTooLarge.message(), "The vertex layout is too large");
    assert_eq!(GfxError::IdsExhausted.message(), "Every id of the resource kind is taken");
    assert_eq!(GfxError::UnexpectedReply.message(), "The native reply does not answer the query");
    assert_eq!(GfxError::FramebufferIncomplete.message(), "Framebuffer incomplete...");
    assert_eq!(GfxError::InvalidTexture { id: 12 }.message(), "Invalid texture id");
}

#[test]
fn messages_spell_numbers_in_decimal() {
    assert_eq!(
        GfxError::UnsupportedTextureSlot { slot: 8 }.message(),
        "Unsupported texture slot '8'"
    );
    assert_eq!(
        GfxError::UnsupportedTextureSlot { slot: 0 }.message(),
        "Unsupported texture slot '0'"
    );
    assert_eq!(
        GfxError::UnsupportedTextureSlot { slot: u32::MAX }.message(),
        "Unsupported texture slot '4294967295'"
    );
    assert_eq!(
        GfxError::TextureNotFound { id: 1070 }.message(),
        "Error creating render target: texture id '1070' not found."
    );
    assert_eq!(
        GfxError::TextureNotFound { id: u64::MAX }.message(),
        "Error creating render target: texture id '18446744073709551615' not found."
    );
    let mut text = String::from("id ");
    gfx_device::gfx::error::append_decimal(900, &mut text);
    assert_eq!(text, "id 900");
}
