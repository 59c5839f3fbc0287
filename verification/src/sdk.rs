//! What the SDK's binding crate defines: the device classes, the button
//! groups and the panel sizes.  Each value is read from `logitech_lcd_sys`
//! itself, so that what is sent to the SDK is what its binding declares.

use vstd::prelude::*;

verus! {

/// The capability bit of monochrome devices.
pub const TYPE_MONO: u32 = 0x0000_0001;

/// The capability bit of color devices.
pub const TYPE_COLOR: u32 = 0x0000_0002;

/// The buttons of a monochrome device.
pub const MONO_BUTTONS: u32 = 0x0000_000F;

/// The buttons of a color device.
pub const COLOR_BUTTONS: u32 = 0x0000_7F00;

/// Width of the monochrome panel in pixels.
pub const MONO_WIDTH: usize = 160;

/// Height of the monochrome panel in pixels.
pub const MONO_HEIGHT: usize = 43;

/// Bytes that one pixel of a monochrome background takes.
pub const MONO_BYTES_PER_PIXEL: usize = 1;

/// Width of the color panel in pixels.
pub const COLOR_WIDTH: usize = 320;

/// Height of the color panel in pixels.
pub const COLOR_HEIGHT: usize = 240;

/// Bytes that one pixel of a color background takes.
pub const COLOR_BYTES_PER_PIXEL: usize = 4;

/// `LcdType::MONO.bits()`: trusted to be the bit `0x1`, as the binding
/// declares the flag.
#[verifier::external_body]
pub(crate) fn lcd_type_mono() -> (bits: u32)
    ensures
        bits == TYPE_MONO,
{
    logitech_lcd_sys::LcdType::MONO.bits()
}

/// `LcdType::COLOR.bits()`: trusted to be the bit `0x2`, as the binding
/// declares the flag.
#[verifier::external_body]
pub(crate) fn lcd_type_color() -> (bits: u32)
    ensures
        bits == TYPE_COLOR,
{
    logitech_lcd_sys::LcdType::COLOR.bits()
}

/// `LcdType::EITHER.bits()`: trusted to be both capability bits, as the
/// binding declares the flag as the union of the other two.
#[verifier::external_body]
pub(crate) fn lcd_type_either() -> (bits: u32)
    ensures
        bits == TYPE_MONO | TYPE_COLOR,
{
    logitech_lcd_sys::LcdType::EITHER.bits()
}

/// `LcdButton::MONO_BUTTON.bits()`: trusted to be the four low bits, the
/// union of the four monochrome buttons that the binding declares.
#[verifier::external_body]
pub(crate) fn mono_button_mask() -> (bits: u32)
    ensures
        bits == MONO_BUTTONS,
{
    logitech_lcd_sys::LcdButton::MONO_BUTTON.bits()
}

/// `LcdButton::COLOR_BUTTON.bits()`: trusted to be bits 8 to 14, the union
/// of the seven color buttons that the binding declares.
#[verifier::external_body]
pub(crate) fn color_button_mask() -> (bits: u32)
    ensures
        bits == COLOR_BUTTONS,
{
    logitech_lcd_sys::LcdButton::COLOR_BUTTON.bits()
}

/// The constant `logitech_lcd_sys::MONO_WIDTH`: trusted to be 160.
#[verifier::external_body]
pub(crate) fn mono_width() -> (pixels: usize)
    ensures
        pixels == MONO_WIDTH,
{
    logitech_lcd_sys::MONO_WIDTH
}

/// The constant `logitech_lcd_sys::MONO_HEIGHT`: trusted to be 43.
#[verifier::external_body]
pub(crate) fn mono_height() -> (pixels: usize)
    ensures
        pixels == MONO_HEIGHT,
{
    logitech_lcd_sys::MONO_HEIGHT
}

/// The constant `logitech_lcd_sys::COLOR_WIDTH`: trusted to be 320.
#[verifier::external_body]
pub(crate) fn color_width() -> (pixels: usize)
    ensures
        pixels == COLOR_WIDTH,
{
    logitech_lcd_sys::COLOR_WIDTH
}

/// The constant `logitech_lcd_sys::COLOR_HEIGHT`: trusted to be 240.
#[verifier::external_body]
pub(crate) fn color_height() -> (pixels: usize)
    ensures
        pixels == COLOR_HEIGHT,
{
    logitech_lcd_sys::COLOR_HEIGHT
}

/// The length in bytes of a monochrome background.
pub open spec fn mono_background_bytes() -> nat {
    (MONO_WIDTH * MONO_HEIGHT * MONO_BYTES_PER_PIXEL) as nat
}

/// The length in bytes of a color background.
pub open spec fn color_background_bytes() -> nat {
    (COLOR_WIDTH * COLOR_HEIGHT * COLOR_BYTES_PER_PIXEL) as nat
}

/// The length in bytes that a monochrome background must have.
pub fn mono_background_len() -> (len: usize)
    ensures
        len == mono_background_bytes(),
        len == 6880,
{
    mono_width() * mono_height() * MONO_BYTES_PER_PIXEL
}

/// The length in bytes that a color background must have.
pub fn color_background_len() -> (len: usize)
    ensures
        len == color_background_bytes(),
        len == 307200,
{
    color_width() * color_height() * COLOR_BYTES_PER_PIXEL
}

} // verus!
