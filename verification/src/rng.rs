//! Pseudo-random draws for point placement and first-request colors.
//!
//! All randomness enters through `rand::random`; everything derived from a
//! draw (range reduction, channel packing) is verified code, so the
//! contracts here promise only what holds of every possible draw.

use vstd::prelude::*;

use crate::units::Rgba;

verus! {

/// Relies on rand::random: a pseudo-random value drawn from the thread-local
/// generator. Nothing is promised of the value.
pub assume_specification<T>[ rand::random::<T> ]() -> (r: T)
    where
        rand::distributions::Standard: rand::distributions::Distribution<T>,
;

/// A pseudo-random color, drawn per channel, fully opaque.
pub fn random_color() -> (c: Rgba)
    ensures
        c.a == 255,
{
    Rgba { r: rand::random::<u8>(), g: rand::random::<u8>(), b: rand::random::<u8>(), a: 255 }
}

/// A pseudo-random coordinate in the symmetric range `[-half, half]`.
pub fn sample_symmetric(half: i64) -> (r: i64)
    requires
        0 <= half <= 0x3fff_ffff_ffff_ffff,
    ensures
        -half <= r <= half,
{
    let span: u64 = (2 * half + 1) as u64;
    let raw: u64 = rand::random::<u64>();
    let offset: u64 = raw % span;
    (offset as i64) - half
}

} // verus!
