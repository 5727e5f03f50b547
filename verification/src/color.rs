//! The colour wheel of the backdrop: a colour of fifteen bits walks from red
//! over green and blue back to red, one step of one channel at a time.

use gba::video::Color;
use vstd::prelude::*;

verus! {

/// Pure red.
pub const RED: u16 = 0x001F;

/// The red channel of a colour: bits 0 to 4.
pub open spec fn red_of(color: u16) -> u16 {
    color % 32
}

/// The green channel of a colour: bits 5 to 9.
pub open spec fn green_of(color: u16) -> u16 {
    (color / 32) % 32
}

/// The blue channel of a colour: bits 10 to 14.
pub open spec fn blue_of(color: u16) -> u16 {
    (color / 1024) % 32
}

/// The colour that follows `color` on the wheel. A colour that is not on
/// the wheel is followed by pure red.
pub open spec fn rotated(color: u16) -> u16 {
    let r = red_of(color);
    let g = green_of(color);
    let b = blue_of(color);
    if g == 31 && b == 0 && r > 0 {
        (color - 1) as u16
    } else if r == 0 && b == 31 && g > 0 {
        (color - 32) as u16
    } else if r == 31 && g == 0 && b > 0 {
        (color - 1024) as u16
    } else if r == 31 && b == 0 {
        (color + 32) as u16
    } else if r == 0 && g == 31 {
        (color + 1024) as u16
    } else if g == 0 && b == 31 {
        (color + 1) as u16
    } else {
        0x001F
    }
}

/// `Color::red`, `Color::green` and `Color::blue` of the gba crate: the
/// three fields of five bits, from bit 0, 5 and 10.
#[verifier::external_body]
fn channels(color: u16) -> (rgb: (u16, u16, u16))
    ensures
        rgb == (color & 0x1F, (color >> 5) & 0x1F, (color >> 10) & 0x1F),
{
    let color = Color(color);
    (color.red(), color.green(), color.blue())
}

/// `Color::with_red` of the gba crate: bits 0 to 4 become the low five bits
/// of `value`, the other bits stay.
#[verifier::external_body]
fn with_red(color: u16, value: u16) -> (changed: u16)
    ensures
        changed == (color & !0x001Fu16) | (value & 0x001F),
{
    Color(color).with_red(value).0
}

/// `Color::with_green` of the gba crate: bits 5 to 9 become the low five
/// bits of `value`, the other bits stay.
#[verifier::external_body]
fn with_green(color: u16, value: u16) -> (changed: u16)
    ensures
        changed == (color & !0x03E0u16) | ((value << 5) & 0x03E0),
{
    Color(color).with_green(value).0
}

/// `Color::with_blue` of the gba crate: bits 10 to 14 become the low five
/// bits of `value`, the other bits stay.
#[verifier::external_body]
fn with_blue(color: u16, value: u16) -> (changed: u16)
    ensures
        changed == (color & !0x7C00u16) | ((value << 10) & 0x7C00),
{
    Color(color).with_blue(value).0
}

/// `Color::RED` of the gba crate: the red channel full, the others empty.
#[verifier::external_body]
fn pure_red() -> (color: u16)
    ensures
        color == 0x001Fu16,
{
    Color::RED.0
}

/// The colour that follows `color` on the wheel.
pub fn rotate_rgb_color(color: u16) -> (next: u16)
    ensures
        next == rotated(color),
{
    let (r, g, b) = channels(color);
    assert(color & 0x1F == color % 32 && (color >> 5) & 0x1F == (color / 32) % 32 && (color >> 10)
        & 0x1F == (color / 1024) % 32) by (bit_vector);
    if g == 0x1F && b == 0x00 && r > 0 {
        let value: u16 = r - 1;
        assert((color & !0x001Fu16) | (value & 0x001F) == (color - 1) as u16) by (bit_vector)
            requires
                value == (color & 0x1F) - 1,
                color & 0x1F > 0,
        ;
        with_red(color, value)
    } else if r == 0x00 && b == 0x1F && g > 0 {
        let value: u16 = g - 1;
        assert((color & !0x03E0u16) | ((value << 5) & 0x03E0) == (color - 32) as u16)
            by (bit_vector)
            requires
                value == ((color >> 5) & 0x1F) - 1,
                (color >> 5) & 0x1F > 0,
        ;
        with_green(color, value)
    } else if r == 0x1F && g == 0x00 && b > 0 {
        let value: u16 = b - 1;
        assert((color & !0x7C00u16) | ((value << 10) & 0x7C00) == (color - 1024) as u16)
            by (bit_vector)
            requires
                value == ((color >> 10) & 0x1F) - 1,
                (color >> 10) & 0x1F > 0,
        ;
        with_blue(color, value)
    } else if r == 0x1F && b == 0x00 {
        let value: u16 = g + 1;
        assert((color & !0x03E0u16) | ((value << 5) & 0x03E0) == (color + 32) as u16)
            by (bit_vector)
            requires
                value == ((color >> 5) & 0x1F) + 1,
                (color >> 5) & 0x1F < 31,
        ;
        with_green(color, value)
    } else if r == 0x00 && g == 0x1F {
        let value: u16 = b + 1;
        assert((color & !0x7C00u16) | ((value << 10) & 0x7C00) == (color + 1024) as u16)
            by (bit_vector)
            requires
                value == ((color >> 10) & 0x1F) + 1,
                (color >> 10) & 0x1F < 31,
        ;
        with_blue(color, value)
    } else if g == 0x00 && b == 0x1F {
        let value: u16 = r + 1;
        assert((color & !0x001Fu16) | (value & 0x001F) == (color + 1) as u16) by (bit_vector)
            requires
                value == (color & 0x1F) + 1,
                color & 0x1F < 31,
        ;
        with_red(color, value)
    } else {
        pure_red()
    }
}

} // verus!
