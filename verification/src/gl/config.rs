//! How an OpenGL context is asked for.

use vstd::prelude::*;

verus! {

/// The OpenGL profile of a context.
#[derive(Clone, Copy, Debug, PartialEq, Eq, Structural)]
pub enum Profile {
    Compatibility,
    Core,
}

/// The OpenGL context that a window asks for.
#[derive(Clone, Copy, Debug, PartialEq, Eq)]
pub struct GlConfig {
    /// Major and minor version.
    pub version: (u8, u8),
    pub profile: Profile,
    pub red_bits: u8,
    pub blue_bits: u8,
    pub green_bits: u8,
    pub alpha_bits: u8,
    pub depth_bits: u8,
    pub stencil_bits: u8,
    /// Samples per pixel for multisampling, if any.
    pub samples: Option<u8>,
    pub srgb: bool,
    pub double_buffer: bool,
    pub vsync: bool,
}

/// Why no OpenGL context could be made.
#[derive(Clone, Copy, Debug, PartialEq, Eq)]
pub enum GlError {
    /// The parent is not a window of this platform.
    InvalidWindowHandle,
    /// The platform has no context of the version and profile asked for.
    VersionNotSupported,
    /// The platform refused to make the context.
    CreationFailed(()),
}

} // verus!
