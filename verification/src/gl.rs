//! Readback-layer capabilities and error classification.
//!
//! The readback layer's entry points are resolved at construction time
//! from the platform loader; each is optionally absent, and absence is a
//! capability outcome, never a crash.  After any readback-layer call the
//! error state is checked and classified.

use vstd::prelude::*;

verus! {

/// No error is pending.
pub const GL_NO_ERROR: u32 = 0;

/// An enumeration argument was out of range.
pub const GL_INVALID_ENUM: u32 = 0x0500;

/// A numeric argument was out of range.
pub const GL_INVALID_VALUE: u32 = 0x0501;

/// The operation is not allowed in the current state.
pub const GL_INVALID_OPERATION: u32 = 0x0502;

/// An operation would overflow an internal stack.
pub const GL_STACK_OVERFLOW: u32 = 0x0503;

/// An operation would underflow an internal stack.
pub const GL_STACK_UNDERFLOW: u32 = 0x0504;

/// Not enough memory to execute the operation.
pub const GL_OUT_OF_MEMORY: u32 = 0x0505;

/// The framebuffer is incomplete for the operation.
pub const GL_INVALID_FRAMEBUFFER_OPERATION: u32 = 0x0506;

/// A non-zero readback-layer error code.
#[derive(Clone, Copy, Debug, PartialEq, Eq, Structural)]
pub struct GlError(pub u32);

pub open spec fn gl_error_message_spec(code: u32) -> Seq<char> {
    if code == GL_NO_ERROR {
        "Ok"@
    } else if code == GL_INVALID_ENUM {
        "Invalid enum"@
    } else if code == GL_INVALID_VALUE {
        "Invalid value"@
    } else if code == GL_INVALID_OPERATION {
        "Invalid operation"@
    } else if code == GL_STACK_OVERFLOW {
        "Stack overflow"@
    } else if code == GL_STACK_UNDERFLOW {
        "Stack underflow"@
    } else if code == GL_OUT_OF_MEMORY {
        "Out of memory"@
    } else if code == GL_INVALID_FRAMEBUFFER_OPERATION {
        "Invalid framebuffer operation"@
    } else {
        "Unrecognized"@
    }
}

impl GlError {
    /// A plain description of the error code.
    pub fn message(&self) -> (r: &'static str)
        ensures
            r@ == gl_error_message_spec(self.0),
    {
        if self.0 == GL_NO_ERROR {
            "Ok"
        } else if self.0 == GL_INVALID_ENUM {
            "Invalid enum"
        } else if self.0 == GL_INVALID_VALUE {
            "Invalid value"
        } else if self.0 == GL_INVALID_OPERATION {
            "Invalid operation"
        } else if self.0 == GL_STACK_OVERFLOW {
            "Stack overflow"
        } else if self.0 == GL_STACK_UNDERFLOW {
            "Stack underflow"
        } else if self.0 == GL_OUT_OF_MEMORY {
            "Out of memory"
        } else if self.0 == GL_INVALID_FRAMEBUFFER_OPERATION {
            "Invalid framebuffer operation"
        } else {
            "Unrecognized"
        }
    }
}

/// Classify a readback-layer error code: zero is success, anything else is
/// the error itself.
pub fn check_error(code: u32) -> (r: Result<(), GlError>)
    ensures
        code == GL_NO_ERROR <==> r is Ok,
        r matches Err(e) ==> e == GlError(code),
{
    if code == GL_NO_ERROR {
        Ok(())
    } else {
        Err(GlError(code))
    }
}

/// The readback-layer interop operations that resolved at construction
/// time.  Each operation is optionally absent; callers treat absence as a
/// capability-negotiation outcome.
#[derive(Clone, Copy, Debug, PartialEq, Eq, Structural)]
pub struct GlExt {
    image_target_texture_resolved: bool,
}

impl GlExt {
    /// Whether the call binding an imported image to a 2D texture is
    /// available.
    pub closed spec fn can_bind_imported_texture_spec(self) -> bool {
        self.image_target_texture_resolved
    }

    /// Record which interop entry points the platform loader resolved.
    pub fn load(image_target_texture_resolved: bool) -> (r: GlExt)
        ensures
            r.can_bind_imported_texture_spec() == image_target_texture_resolved,
    {
        GlExt { image_target_texture_resolved }
    }

    /// Whether the call binding an imported image to a 2D texture is
    /// available.
    pub fn can_bind_imported_texture(&self) -> (r: bool)
        ensures
            r == self.can_bind_imported_texture_spec(),
    {
        self.image_target_texture_resolved
    }
}

} // verus!
