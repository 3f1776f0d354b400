//! Colour palette for console text, as 0xRRGGBB values.
use vstd::prelude::*;

verus! {

pub const SUCCESS_GREEN: u32 = 0x00ff00;

pub const INFO_GREEN: u32 = 0x41bd08;

pub const FAIL_RED: u32 = 0xaa0000;

pub const ERROR_RED: u32 = 0xdd0000;

pub const PANIC_RED: u32 = 0xff0000;

pub const DBG_YELLOW: u32 = 0xdbc323;

pub const WARNING_ORANGE: u32 = 0xf29f0f;

pub const GENERIC_WHITE: u32 = 0xffffff;

/// A colour scheme for console messages. Each colour has a default from
/// the palette above; a scheme overrides the ones it wants.
pub trait MVulkanColorScheme {
    /// Colour for operation success.
    fn success(&self) -> u32 {
        SUCCESS_GREEN
    }

    /// Colour for general information.
    fn info(&self) -> u32 {
        INFO_GREEN
    }

    /// Colour for a failed, non-critical operation.
    fn fail(&self) -> u32 {
        FAIL_RED
    }

    /// Colour for a critical but recoverable error.
    fn error(&self) -> u32 {
        ERROR_RED
    }

    /// Colour for fatal errors.
    fn panic_red(&self) -> u32 {
        PANIC_RED
    }

    /// Colour for debug output.
    fn debug(&self) -> u32 {
        DBG_YELLOW
    }

    /// Colour for warnings.
    fn warning(&self) -> u32 {
        WARNING_ORANGE
    }

    /// White.
    fn white(&self) -> u32 {
        GENERIC_WHITE
    }
}

/// The scheme that keeps every default colour.
#[derive(Debug, Clone, Copy, PartialEq, Eq, Structural)]
pub struct DefaultColorScheme;

impl MVulkanColorScheme for DefaultColorScheme {}

impl DefaultColorScheme {
    pub fn new() -> (r: DefaultColorScheme)
        ensures
            r == DefaultColorScheme,
    {
        DefaultColorScheme
    }
}

/// Red, green and blue components of a 0xRRGGBB colour.
pub open spec fn rgb_spec(color: u32) -> (u8, u8, u8) {
    (((color >> 16u32) & 0xff) as u8, ((color >> 8u32) & 0xff) as u8, (color & 0xff) as u8)
}

/// Split a 0xRRGGBB colour into its red, green and blue components.
pub fn rgb(color: u32) -> (r: (u8, u8, u8))
    ensures
        r == rgb_spec(color),
{
    (((color >> 16) & 0xff) as u8, ((color >> 8) & 0xff) as u8, (color & 0xff) as u8)
}

} // verus!
