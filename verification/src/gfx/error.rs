//! What can go wrong, and into which class of failure each error falls.

use crate::gfx::pipeline::ShaderStage;
use vstd::prelude::*;
use vstd::string::StringExecFns;

verus! {

/// The classes of failure.
#[derive(Clone, Copy, Debug, PartialEq, Eq, Structural)]
pub enum ErrorKind {
    /// A resource could not be created.
    ResourceCreation,
    /// A framebuffer failed its completeness check.
    FramebufferIncomplete,
    /// An id names no live resource.
    InvalidHandleLookup,
}

/// Why an operation failed.
#[derive(Debug, PartialEq, Eq)]
pub enum GfxError {
    /// A pipeline was asked for without shader sources.
    MissingShaders,
    /// A texture update was asked for without bytes to write.
    MissingBytes,
    /// A vertex layout whose byte length does not fit the integer the
    /// native API counts strides in.
    LayoutTooLarge,
    /// The source of a shader stage is not valid UTF-8.
    InvalidSource { stage: ShaderStage },
    /// A shader stage failed to compile; `log` is the compiler's own text.
    Shader { stage: ShaderStage, log: String },
    /// The program failed to link; `log` is the linker's own text.
    Link { log: String },
    /// A texture unit beyond those the backend drives.
    UnsupportedTextureSlot { slot: u32 },
    /// A render target was asked for over a texture that does not exist.
    TextureNotFound { id: u64 },
    /// Every id of the resource kind has been handed out.
    IdsExhausted,
    /// The native reply does not answer the question that was asked.
    UnexpectedReply,
    /// The framebuffer set up for the operation is not complete.
    FramebufferIncomplete,
    /// A texture operation named a texture that does not exist.
    InvalidTexture { id: u64 },
}

impl GfxError {
    pub open spec fn spec_kind(&self) -> ErrorKind {
        match self {
            GfxError::FramebufferIncomplete => ErrorKind::FramebufferIncomplete,
            GfxError::InvalidTexture { .. } => ErrorKind::InvalidHandleLookup,
            _ => ErrorKind::ResourceCreation,
        }
    }

    /// The class of failure this error belongs to.
    #[verifier::when_used_as_spec(spec_kind)]
    pub fn kind(&self) -> (kind: ErrorKind)
        ensures
            kind == self.spec_kind(),
    {
        match self {
            GfxError::FramebufferIncomplete => ErrorKind::FramebufferIncomplete,
            GfxError::InvalidTexture { .. } => ErrorKind::InvalidHandleLookup,
            _ => ErrorKind::ResourceCreation,
        }
    }
}

/// The character of the decimal digit `d`.
pub open spec fn digit(d: nat) -> char {
    (48 + d) as char
}

/// The decimal digits of `n`, most significant first, without leading
/// zeros.
pub open spec fn decimal(n: nat) -> Seq<char>
    decreases n,
{
    if n < 10 {
        seq![digit(n)]
    } else {
        decimal(n / 10).push(digit(n % 10))
    }
}

fn digit_text(d: u64) -> (text: &'static str)
    requires
        d < 10,
    ensures
        text@ == seq![digit(d as nat)],
{
    proof {
        reveal_strlit("0");
        reveal_strlit("1");
        reveal_strlit("2");
        reveal_strlit("3");
        reveal_strlit("4");
        reveal_strlit("5");
        reveal_strlit("6");
        reveal_strlit("7");
        reveal_strlit("8");
        reveal_strlit("9");
    }
    let text = match d {
        0 => "0",
        1 => "1",
        2 => "2",
        3 => "3",
        4 => "4",
        5 => "5",
        6 => "6",
        7 => "7",
        8 => "8",
        _ => "9",
    };
    assert(text@ =~= seq![digit(d as nat)]);
    text
}

/// Appends `n` in decimal to `text`.
pub fn append_decimal(n: u64, text: &mut String)
    ensures
        final(text)@ == old(text)@ + decimal(n as nat),
    decreases n,
{
    if n >= 10 {
        append_decimal(n / 10, text);
    }
    text.append(digit_text(n % 10));
    assert(text@ =~= old(text)@ + decimal(n as nat));
}

/// The name of a shader stage in messages.
pub open spec fn stage_name(stage: ShaderStage) -> Seq<char> {
    match stage {
        ShaderStage::Vertex => "vertex"@,
        ShaderStage::Fragment => "fragment"@,
    }
}

impl GfxError {
    /// The message of the error. A compiler's or linker's log is given
    /// word for word behind the tag of the stage that failed.
    pub open spec fn spec_message(&self) -> Seq<char> {
        match self {
            GfxError::MissingShaders => "Vertex and Fragment shaders should be present"@,
            GfxError::MissingBytes => "You need to provide bytes to update a texture"@,
            GfxError::LayoutTooLarge => "The vertex layout is too large"@,
            GfxError::InvalidSource { stage } => "Invalid UTF-8 in the source of the "@
                + stage_name(*stage) + " shader"@,
            GfxError::Shader { stage, log } => stage_name(*stage) + " shader: "@ + log@,
            GfxError::Link { log } => "program: "@ + log@,
            GfxError::UnsupportedTextureSlot { slot } => "Unsupported texture slot '"@ + decimal(
                *slot as nat,
            ) + "'"@,
            GfxError::TextureNotFound { id } => "Error creating render target: texture id '"@
                + decimal(*id as nat) + "' not found."@,
            GfxError::IdsExhausted => "Every id of the resource kind is taken"@,
            GfxError::UnexpectedReply => "The native reply does not answer the query"@,
            GfxError::FramebufferIncomplete => "Framebuffer incomplete..."@,
            GfxError::InvalidTexture { .. } => "Invalid texture id"@,
        }
    }

    /// The message of the error as text.
    pub fn message(&self) -> (text: String)
        ensures
            text@ == self.spec_message(),
    {
        match self {
            GfxError::MissingShaders => String::from_str(
                "Vertex and Fragment shaders should be present",
            ),
            GfxError::MissingBytes => String::from_str(
                "You need to provide bytes to update a texture",
            ),
            GfxError::LayoutTooLarge => String::from_str("The vertex layout is too large"),
            GfxError::InvalidSource { stage } => {
                let mut text = String::from_str("Invalid UTF-8 in the source of the ");
                text.append(stage_text(*stage));
                text.append(" shader");
                text
            },
            GfxError::Shader { stage, log } => {
                let mut text = String::from_str(stage_text(*stage));
                text.append(" shader: ");
                text.append(log.as_str());
                text
            },
            GfxError::Link { log } => {
                let mut text = String::from_str("program: ");
                text.append(log.as_str());
                text
            },
            GfxError::UnsupportedTextureSlot { slot } => {
                let mut text = String::from_str("Unsupported texture slot '");
                append_decimal(*slot as u64, &mut text);
                text.append("'");
                text
            },
            GfxError::TextureNotFound { id } => {
                let mut text = String::from_str("Error creating render target: texture id '");
                append_decimal(*id, &mut text);
                text.append("' not found.");
                text
            },
            GfxError::IdsExhausted => String::from_str("Every id of the resource kind is taken"),
            GfxError::UnexpectedReply => String::from_str(
                "The native reply does not answer the query",
            ),
            GfxError::FramebufferIncomplete => String::from_str("Framebuffer incomplete..."),
            GfxError::InvalidTexture { .. } => String::from_str("Invalid texture id"),
        }
    }
}

fn stage_text(stage: ShaderStage) -> (text: &'static str)
    ensures
        text@ == stage_name(stage),
{
    match stage {
        ShaderStage::Vertex => "vertex",
        ShaderStage::Fragment => "fragment",
    }
}

} // verus!
