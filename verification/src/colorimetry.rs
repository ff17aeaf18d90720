//! Mapping of FFmpeg colour descriptions to Vivid colour codes, with the conventional SD/HD
//! defaults used when a stream leaves a value unspecified.

use vstd::prelude::*;
use crate::error::MediaError;

verus! {

/// FFmpeg's code for unspecified colour primaries.
pub const PRIMARIES_UNSPECIFIED: i32 = 2;

/// FFmpeg's code for an unspecified transfer characteristic.
pub const TRANSFER_UNSPECIFIED: i32 = 2;

/// FFmpeg's code for unspecified matrix coefficients.
pub const MATRIX_UNSPECIFIED: i32 = 2;

/// FFmpeg's code for an unspecified signal range.
pub const RANGE_UNSPECIFIED: i32 = 0;

/// The Vivid colour primaries for FFmpeg code `value` in a video `height` lines tall:
/// BT.709, BT.601 625-line, BT.601 525-line and BT.2020 map to 1 to 4; unspecified primaries
/// become BT.709 above 576 lines, 625-line BT.601 above 480 lines, and 525-line BT.601 below.
pub open spec fn spec_map_primaries(value: i32, height: u32) -> Result<u64, MediaError> {
    if value == 1 {
        Ok(1)
    } else if value == 5 {
        Ok(2)
    } else if value == 6 {
        Ok(3)
    } else if value == 9 {
        Ok(4)
    } else if value == PRIMARIES_UNSPECIFIED {
        Ok(if height > 576 { 1 } else if height > 480 { 2 } else { 3 })
    } else {
        Err(MediaError::PrimariesUnsupported)
    }
}

/// The Vivid transfer characteristic for FFmpeg code `value`: BT.709 is 1, sRGB is 2 and an
/// unspecified characteristic is taken as BT.709.
pub open spec fn spec_map_transfer(value: i32) -> Result<u64, MediaError> {
    if value == 1 {
        Ok(1)
    } else if value == 13 {
        Ok(2)
    } else if value == TRANSFER_UNSPECIFIED {
        Ok(1)
    } else {
        Err(MediaError::TransferUnsupported)
    }
}

/// The Vivid matrix coefficients for FFmpeg code `value` in a video `height` lines tall:
/// identity 0, BT.709 1, BT.601 (either code) 2, BT.2020 non-constant 3; unspecified
/// coefficients become BT.709 above 576 lines and BT.601 otherwise.
pub open spec fn spec_map_matrix(value: i32, height: u32) -> Result<u64, MediaError> {
    if value == 0 {
        Ok(0)
    } else if value == 1 {
        Ok(1)
    } else if value == 5 || value == 6 {
        Ok(2)
    } else if value == 9 {
        Ok(3)
    } else if value == MATRIX_UNSPECIFIED {
        Ok(if height > 576 { 1 } else { 2 })
    } else {
        Err(MediaError::MatrixUnsupported)
    }
}

/// The Vivid signal range for FFmpeg code `value`: limited 1, full 2, and an unspecified range
/// taken as limited.
pub open spec fn spec_map_range(value: i32) -> Result<u64, MediaError> {
    if value == 1 {
        Ok(1)
    } else if value == 2 {
        Ok(2)
    } else if value == RANGE_UNSPECIFIED {
        Ok(1)
    } else {
        Err(MediaError::RangeUnsupported)
    }
}

/// Maps FFmpeg colour primaries to Vivid's code.
pub fn map_primaries(value: i32, height: u32) -> (result: Result<u64, MediaError>)
    ensures
        result == spec_map_primaries(value, height),
{
    match value {
        1 => Ok(1),
        5 => Ok(2),
        6 => Ok(3),
        9 => Ok(4),
        PRIMARIES_UNSPECIFIED => Ok(if height > 576 {
            1
        } else if height > 480 {
            2
        } else {
            3
        }),
        _ => Err(MediaError::PrimariesUnsupported),
    }
}

/// Maps an FFmpeg transfer characteristic to Vivid's code.
pub fn map_transfer(value: i32) -> (result: Result<u64, MediaError>)
    ensures
        result == spec_map_transfer(value),
{
    match value {
        1 => Ok(1),
        13 => Ok(2),
        TRANSFER_UNSPECIFIED => Ok(1),
        _ => Err(MediaError::TransferUnsupported),
    }
}

/// Maps FFmpeg matrix coefficients to Vivid's code.
pub fn map_matrix(value: i32, height: u32) -> (result: Result<u64, MediaError>)
    ensures
        result == spec_map_matrix(value, height),
{
    match value {
        0 => Ok(0),
        1 => Ok(1),
        5 | 6 => Ok(2),
        9 => Ok(3),
        MATRIX_UNSPECIFIED => Ok(if height > 576 { 1 } else { 2 }),
        _ => Err(MediaError::MatrixUnsupported),
    }
}

/// Maps an FFmpeg signal range to Vivid's code.
pub fn map_range(value: i32) -> (result: Result<u64, MediaError>)
    ensures
        result == spec_map_range(value),
{
    match value {
        1 => Ok(1),
        2 => Ok(2),
        RANGE_UNSPECIFIED => Ok(1),
        _ => Err(MediaError::RangeUnsupported),
    }
}

/// A video that leaves its colour description unspecified is treated as if it declared the
/// conventional one for its size: BT.709 primaries and matrix above 576 lines, BT.601
/// (625-line primaries above 480 lines, 525-line below) otherwise, with BT.709 transfer and
/// limited range; none of these defaults fails.
pub proof fn law_unspecified_colorimetry_has_defaults(height: u32)
    ensures
        spec_map_primaries(PRIMARIES_UNSPECIFIED, height) is Ok,
        spec_map_transfer(TRANSFER_UNSPECIFIED) == spec_map_transfer(1),
        spec_map_transfer(TRANSFER_UNSPECIFIED) is Ok,
        spec_map_matrix(MATRIX_UNSPECIFIED, height) is Ok,
        spec_map_range(RANGE_UNSPECIFIED) == spec_map_range(1),
        spec_map_range(RANGE_UNSPECIFIED) is Ok,
        height > 576 ==> spec_map_primaries(PRIMARIES_UNSPECIFIED, height) == spec_map_primaries(1, height)
            && spec_map_matrix(MATRIX_UNSPECIFIED, height) == spec_map_matrix(1, height),
        480 < height <= 576 ==> spec_map_primaries(PRIMARIES_UNSPECIFIED, height) == spec_map_primaries(5, height),
        height <= 480 ==> spec_map_primaries(PRIMARIES_UNSPECIFIED, height) == spec_map_primaries(6, height),
        height <= 576 ==> spec_map_matrix(MATRIX_UNSPECIFIED, height) == spec_map_matrix(5, height),
{
}

} // verus!
