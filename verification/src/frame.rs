//! The size of the buffer that holds one frame.
//!
//! In raw capture a frame is one sample per pixel, of one byte, or of two
//! when the RGB48 option is on. Otherwise it is made of rows of pixels of 8,
//! 24, 32 or 48 bits; rows of 8, 24 and 48 bit pixels are padded to a
//! multiple of 32 bits.

use vstd::prelude::*;
use crate::camera::Toupcam;
use crate::result::Error;

verus! {

/// The least multiple of 32 that is not below `x`.
pub open spec fn align32(x: int) -> int {
    (x + 31) / 32 * 32
}

/// The bytes of a padded row that holds `bits` bits.
pub open spec fn row_bytes(bits: int) -> int {
    align32(bits) / 8
}

/// The number of bytes in a frame, where it is defined.
pub open spec fn frame_bytes(
    raw_capture: bool,
    rgb48: bool,
    bits: u32,
    width: u32,
    height: u32,
) -> Option<int> {
    if raw_capture {
        if rgb48 {
            Some(width * height * 2)
        } else {
            Some(width * height)
        }
    } else if bits == 24 {
        Some(row_bytes(24 * width) * height)
    } else if bits == 32 {
        Some(width * height * 4)
    } else if bits == 48 {
        Some(row_bytes(48 * width) * height)
    } else if bits == 8 {
        Some(row_bytes(8 * width) * height)
    } else {
        None
    }
}

/// What `Toupcam::buffer_size` returns.
pub open spec fn buffer_size_spec(
    raw_capture: bool,
    rgb48: bool,
    bits: u32,
    width: u32,
    height: u32,
) -> Result<usize, Error> {
    match frame_bytes(raw_capture, rgb48, bits, width, height) {
        None => Err(Error::UnsupportedBits(bits)),
        Some(bytes) => if bytes <= usize::MAX {
            Ok(bytes as usize)
        } else {
            Err(Error::FrameTooLarge)
        },
    }
}

/// Rounding up to a multiple of 32 is adding 31 and clearing the low five bits.
pub proof fn lemma_align32_mask(x: u64)
    requires
        x <= 0xffff_ffff_ffff_ffe0,
    ensures
        align32(x as int) == ((x + 31) as u64) & !31u64,
        align32(x as int) % 32 == 0,
        x <= align32(x as int) < x + 32,
{
    let y: u64 = (x + 31) as u64;
    assert(y & !31u64 == y / 32 * 32) by (bit_vector);
}

/// A padded row is a whole number of 32-bit words, holds all its bits, and
/// has less than one word of padding.
pub proof fn lemma_row_padding(bits: int)
    requires
        0 <= bits,
    ensures
        row_bytes(bits) % 4 == 0,
        bits <= 8 * row_bytes(bits) < bits + 32,
{
}

/// The bytes of a padded row of `width` pixels of `depth` bits each.
fn padded_row(depth: u64, width: u32) -> (bytes: u64)
    requires
        depth <= 48,
    ensures
        bytes == row_bytes(depth * width),
        bytes <= 0x6_0000_0000,
{
    assert(depth * width <= 48 * 0xffff_ffff) by (nonlinear_arith)
        requires
            depth <= 48,
            width <= 0xffff_ffff,
    ;
    let bits: u64 = depth * (width as u64);
    proof {
        lemma_align32_mask(bits);
    }
    ((bits + 31) & !31u64) / 8
}

/// The product of the factors of a frame size, or an error if this machine
/// cannot address that many bytes.
fn checked_bytes(row: u64, height: u32, samples: u64) -> (r: Result<usize, Error>)
    requires
        row <= 0x6_0000_0000,
        samples <= 4,
    ensures
        row * height * samples <= usize::MAX ==> r == Ok::<usize, Error>(
            (row * height * samples) as usize,
        ),
        row * height * samples > usize::MAX ==> r == Err::<usize, Error>(Error::FrameTooLarge),
{
    assert(row * height <= 0x6_0000_0000 * 0xffff_ffff) by (nonlinear_arith)
        requires
            row <= 0x6_0000_0000,
            height <= 0xffff_ffff,
    ;
    assert(row * height * samples <= 0x6_0000_0000 * 0xffff_ffff * 4) by (nonlinear_arith)
        requires
            row * height <= 0x6_0000_0000 * 0xffff_ffff,
            0 <= row * height,
            samples <= 4,
    ;
    let bytes: u128 = (row as u128) * (height as u128) * (samples as u128);
    if bytes <= usize::MAX as u128 {
        Ok(bytes as usize)
    } else {
        Err(Error::FrameTooLarge)
    }
}

impl Toupcam {
    /// The number of bytes of the buffer that the driver fills with one frame
    /// of `width` by `height` pixels, asked for at `bits` bits per pixel, when
    /// the raw-capture and RGB48 options stand as given.
    ///
    /// Outside raw capture only 8, 24, 32 and 48 bits have a size: for any
    /// other depth this fails with `Error::UnsupportedBits`. It fails with
    /// `Error::FrameTooLarge` when the size does not fit a `usize`.
    pub fn buffer_size(
        raw_capture: bool,
        rgb48: bool,
        bits: u32,
        width: u32,
        height: u32,
    ) -> (r: Result<usize, Error>)
        ensures
            r == buffer_size_spec(raw_capture, rgb48, bits, width, height),
    {
        if raw_capture {
            if rgb48 {
                checked_bytes(width as u64, height, 2)
            } else {
                checked_bytes(width as u64, height, 1)
            }
        } else if bits == 24 {
            checked_bytes(padded_row(24, width), height, 1)
        } else if bits == 32 {
            checked_bytes(width as u64, height, 4)
        } else if bits == 48 {
            checked_bytes(padded_row(48, width), height, 1)
        } else if bits == 8 {
            checked_bytes(padded_row(8, width), height, 1)
        } else {
            Err(Error::UnsupportedBits(bits))
        }
    }
}

} // verus!
