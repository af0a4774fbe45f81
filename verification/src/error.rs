//! Structured errors reported by the rendering abstraction.

use vstd::prelude::*;

verus! {

/// An error surfaced by frame-buffer construction, shader reflection or draw
/// dispatch. Resource and logical errors are returned to the immediate
/// caller; nothing in the library panics.
#[derive(Clone, Copy, Debug, PartialEq, Eq, Structural)]
pub enum FrameworkError {
    /// A named shader uniform was not found among the program's reflected
    /// sampler locations.
    ShaderUniformNotFound,
    /// A named uniform block was not found among the program's reflected
    /// block indices.
    ShaderBlockNotFound,
    /// No program with the requested name is known to the graphics server.
    ProgramNotFound,
    /// The requested texture dimensions cannot be allocated.
    InvalidTextureSize,
    /// An attachment list carried more than one depth or depth-stencil
    /// attachment, or an attachment stood in the wrong slot.
    InvalidAttachmentLayout,
    /// An attachment index was out of range.
    InvalidAttachmentIndex,
    /// The destination of a pixel transfer does not match the attachment's
    /// pixel count.
    PixelTransferSizeMismatch,
    /// A draw call referenced a destroyed texture or buffer.
    InvalidResource,
    /// A resource binding's slot is not among the program's reflected
    /// locations.
    InvalidBindingSlot,
    /// A buffer binding segment lies outside the buffer.
    InvalidBufferSegment,
    /// The requested element range exceeds the geometry buffer's index count.
    InvalidElementRange,
    /// A depth or stencil test was requested with no suitable depth
    /// attachment bound.
    NoDepthAttachment,
}

/// The diagnostic text of each error.
pub open spec fn spec_error_description(e: FrameworkError) -> Seq<char> {
    match e {
        FrameworkError::ShaderUniformNotFound => "shader uniform not found"@,
        FrameworkError::ShaderBlockNotFound => "shader uniform block not found"@,
        FrameworkError::ProgramNotFound => "program not found"@,
        FrameworkError::InvalidTextureSize => "invalid texture size"@,
        FrameworkError::InvalidAttachmentLayout => "invalid attachment layout"@,
        FrameworkError::InvalidAttachmentIndex => "invalid attachment index"@,
        FrameworkError::PixelTransferSizeMismatch => "pixel transfer size mismatch"@,
        FrameworkError::InvalidResource => "invalid resource"@,
        FrameworkError::InvalidBindingSlot => "invalid binding slot"@,
        FrameworkError::InvalidBufferSegment => "invalid buffer segment"@,
        FrameworkError::InvalidElementRange => "invalid element range"@,
        FrameworkError::NoDepthAttachment => "no depth attachment"@,
    }
}

impl FrameworkError {
    /// A short diagnostic name for the error.
    pub fn description(&self) -> (r: &'static str)
        ensures
            r@ == spec_error_description(*self),
            r@.len() > 0,
    {
        let r = match self {
            FrameworkError::ShaderUniformNotFound => "shader uniform not found",
            FrameworkError::ShaderBlockNotFound => "shader uniform block not found",
            FrameworkError::ProgramNotFound => "program not found",
            FrameworkError::InvalidTextureSize => "invalid texture size",
            FrameworkError::InvalidAttachmentLayout => "invalid attachment layout",
            FrameworkError::InvalidAttachmentIndex => "invalid attachment index",
            FrameworkError::PixelTransferSizeMismatch => "pixel transfer size mismatch",
            FrameworkError::InvalidResource => "invalid resource",
            FrameworkError::InvalidBindingSlot => "invalid binding slot",
            FrameworkError::InvalidBufferSegment => "invalid buffer segment",
            FrameworkError::InvalidElementRange => "invalid element range",
            FrameworkError::NoDepthAttachment => "no depth attachment",
        };
        proof {
            reveal_strlit("shader uniform not found");
            reveal_strlit("shader uniform block not found");
            reveal_strlit("program not found");
            reveal_strlit("invalid texture size");
            reveal_strlit("invalid attachment layout");
            reveal_strlit("invalid attachment index");
            reveal_strlit("pixel transfer size mismatch");
            reveal_strlit("invalid resource");
            reveal_strlit("invalid binding slot");
            reveal_strlit("invalid buffer segment");
            reveal_strlit("invalid element range");
            reveal_strlit("no depth attachment");
        }
        r
    }
}

} // verus!
