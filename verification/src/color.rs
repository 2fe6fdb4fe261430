//! Colours as the devices store them: packed into 32 bits by the `palette` crate.

use crate::rgb::RGB;
use palette::rgb::channels::Argb;
use palette::{Srgb, WithAlpha};
use vstd::prelude::*;

verus! {

/// The number that holds a colour as `0xAARRGGBB` under the given alpha.
pub open spec fn argb(alpha: int, color: RGB<u8>) -> int {
    alpha * 0x100_0000 + color.r as int * 0x1_0000 + color.g as int * 0x100 + color.b as int
}

/// The red part of a packed colour.
pub open spec fn red_of(packed: u32) -> u8 {
    (packed as int / 0x1_0000 % 0x100) as u8
}

/// The green part of a packed colour.
pub open spec fn green_of(packed: u32) -> u8 {
    (packed as int / 0x100 % 0x100) as u8
}

/// The blue part of a packed colour.
pub open spec fn blue_of(packed: u32) -> u8 {
    (packed as int % 0x100) as u8
}

/// Calls `palette::Srgb::from_u32::<Argb>`, which reads the number as the
/// four bytes alpha, red, green, blue, high byte first, and drops the alpha.
#[verifier::external_body]
pub(crate) fn unpack_argb(packed: u32) -> (color: RGB<u8>)
    ensures
        color.r == red_of(packed),
        color.g == green_of(packed),
        color.b == blue_of(packed),
{
    let c = Srgb::<u8>::from_u32::<Argb>(packed);
    RGB { r: c.red, g: c.green, b: c.blue }
}

/// Calls `palette::Srgb::into_u32::<Argb>`, which packs an opaque colour:
/// the bytes `0xFF`, red, green, blue, high byte first.
#[verifier::external_body]
pub(crate) fn pack_argb(color: RGB<u8>) -> (packed: u32)
    ensures
        packed as int == argb(0xFF, color),
{
    Srgb::new(color.r, color.g, color.b).into_u32::<Argb>()
}

/// Calls `palette::Srgba::into_u32::<Argb>` on the colour with alpha 0,
/// which packs the bytes 0, red, green, blue, high byte first.
#[verifier::external_body]
pub(crate) fn pack_rgb(color: RGB<u8>) -> (packed: u32)
    ensures
        packed as int == argb(0, color),
{
    Srgb::new(color.r, color.g, color.b).with_alpha(0u8).into_u32::<Argb>()
}

/// A packed colour unpacks to the colour that was packed, whatever the alpha.
pub proof fn lemma_pack_round_trip(alpha: int, color: RGB<u8>)
    requires
        0 <= alpha < 0x100,
    ensures
        0 <= argb(alpha, color) <= u32::MAX,
        red_of(argb(alpha, color) as u32) == color.r,
        green_of(argb(alpha, color) as u32) == color.g,
        blue_of(argb(alpha, color) as u32) == color.b,
{
}

} // verus!
