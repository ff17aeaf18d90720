//! Arithmetic of direct local audio output: the output configuration, prebuffer and resampler
//! sizes, and lining decoded audio up with a video's first frame.

use vstd::prelude::*;
use crate::error::{ErrorKind, MediaError};

verus! {

/// Audio queued before local output starts, in milliseconds.
pub const PREBUFFER_MILLIS: u64 = 100;

/// Headroom added to every resampled frame, in samples per channel.
pub const RESAMPLE_HEADROOM: i64 = 256;

/// Reasons local audio output cannot be used.
#[derive(Debug, Clone, Copy, PartialEq, Eq, Structural)]
pub enum AudioOutputError {
    /// Local output exists only on macOS, Linux and Windows.
    UnsupportedPlatform,
}

impl AudioOutputError {
    /// The I/O error kind under which the error is reported.
    pub open spec fn spec_kind(self) -> ErrorKind {
        ErrorKind::Unsupported
    }

    /// The I/O error kind under which the error is reported.
    pub fn kind(&self) -> (kind: ErrorKind)
        ensures
            kind == self.spec_kind(),
    {
        ErrorKind::Unsupported
    }

    /// The text of the error.
    pub open spec fn spec_message(self) -> Seq<char> {
        "audio playback is currently supported only on macOS, Linux, and Windows"@
    }

    /// The text of the error.
    pub fn message(&self) -> (message: String)
        ensures
            message@ == self.spec_message(),
    {
        "audio playback is currently supported only on macOS, Linux, and Windows".to_owned()
    }
}

/// The error reported where local audio output does not exist.
pub fn unsupported_platform_error() -> (error: AudioOutputError)
    ensures
        error == AudioOutputError::UnsupportedPlatform,
{
    AudioOutputError::UnsupportedPlatform
}

/// Seconds of interleaved samples the ring between decoder and output device holds.
pub const RING_BUFFER_SECONDS: usize = 2;

/// The ring capacity for the output configuration: two seconds of interleaved samples, and
/// at least one sample.
pub open spec fn spec_ring_buffer_capacity(sample_rate: u32, channels: u16) -> int {
    let samples = sample_rate * channels * RING_BUFFER_SECONDS;
    if samples < 1 { 1 } else { samples }
}

/// Sizes the ring between decoder and output device.
pub fn ring_buffer_capacity(sample_rate: u32, channels: u16) -> (capacity: usize)
    requires
        sample_rate * channels * RING_BUFFER_SECONDS <= usize::MAX,
    ensures
        capacity == spec_ring_buffer_capacity(sample_rate, channels),
{
    let rate = sample_rate as usize;
    let count = channels as usize;
    assert(rate * count <= rate * count * RING_BUFFER_SECONDS) by (nonlinear_arith)
        requires
            rate >= 0,
            count >= 0,
    ;
    let samples = rate * count * RING_BUFFER_SECONDS;
    if samples < 1 { 1 } else { samples }
}

/// The sample rate of the decoded stream, which must be declared (positive).
pub fn check_input_sample_rate(sample_rate: i32) -> (rate: Result<i32, MediaError>)
    ensures
        rate == if sample_rate > 0 { Ok(sample_rate) } else { Err::<i32, MediaError>(MediaError::MissingSampleRate) },
{
    if sample_rate <= 0 {
        return Err(MediaError::MissingSampleRate);
    }
    Ok(sample_rate)
}

/// Interleaved samples that make up the local output prebuffer.
pub open spec fn spec_prebuffer_samples(sample_rate: u32, channels: u16) -> int {
    sample_rate * channels * PREBUFFER_MILLIS / 1000
}

/// Interleaved samples that make up the local output prebuffer.
pub fn prebuffer_samples(sample_rate: u32, channels: u16) -> (samples: u64)
    ensures
        samples == spec_prebuffer_samples(sample_rate, channels),
{
    let rate = sample_rate as u64;
    let count = channels as u64;
    assert(rate * count <= 4294967295 * 65535) by (nonlinear_arith)
        requires
            rate <= 4294967295,
            count <= 65535,
    ;
    let per_second = rate * count;
    per_second * PREBUFFER_MILLIS / 1000
}

/// The output sample rate and channel count in the decoder's integer type: the rate must fit
/// it, and both must be positive.
pub open spec fn spec_check_output_config(sample_rate: u32, channels: u16) -> Result<(i32, i32), MediaError> {
    if sample_rate > i32::MAX {
        Err(MediaError::OutputSampleRateTooLarge)
    } else if sample_rate == 0 || channels == 0 {
        Err(MediaError::InvalidOutputConfig)
    } else {
        Ok((sample_rate as i32, channels as i32))
    }
}

/// Checks the output configuration the decoder resamples to.
pub fn check_output_config(sample_rate: u32, channels: u16) -> (config: Result<(i32, i32), MediaError>)
    ensures
        config == spec_check_output_config(sample_rate, channels),
{
    if sample_rate > i32::MAX as u32 {
        return Err(MediaError::OutputSampleRateTooLarge);
    }
    if sample_rate == 0 || channels == 0 {
        return Err(MediaError::InvalidOutputConfig);
    }
    Ok((sample_rate as i32, channels as i32))
}

/// The per-channel sample capacity for resampling `input_samples` samples from `input_rate` to
/// `output_rate`, with headroom, at least one and at most `i32::MAX`, and the interleaved
/// sample count it needs for `channels` channels (taken as a `usize`), which must fit in memory.
pub open spec fn spec_resample_capacity(input_samples: i32, output_rate: i32, input_rate: i32, channels: i32) -> Result<(i32, usize), MediaError> {
    let estimate = crate::timing::div_toward_zero(input_samples * output_rate, input_rate as int) + RESAMPLE_HEADROOM;
    let capacity = if estimate < 1 { 1 } else if estimate > i32::MAX { i32::MAX as int } else { estimate };
    let lanes = channels as usize;
    if capacity * lanes > usize::MAX {
        Err(MediaError::ResampledFrameTooLarge)
    } else {
        Ok((capacity as i32, (capacity * lanes) as usize))
    }
}

/// Sizes the buffer for one resampled frame.
pub fn resample_capacity(input_samples: i32, output_rate: i32, input_rate: i32, channels: i32) -> (capacity: Result<(i32, usize), MediaError>)
    requires
        input_samples > 0,
        input_rate > 0,
    ensures
        capacity == spec_resample_capacity(input_samples, output_rate, input_rate, channels),
{
    let samples = input_samples as i128;
    let rate = output_rate as i128;
    assert(-2147483648 * 2147483647 <= samples * rate <= 2147483647 * 2147483647) by (nonlinear_arith)
        requires
            0 < samples <= 2147483647,
            -2147483648 <= rate <= 2147483647,
    ;
    let scaled = samples * rate;
    let quotient = crate::timing::divide_i128(scaled, input_rate as i128);
    assert(-2147483648 * 2147483647 <= quotient <= 2147483647 * 2147483647) by (nonlinear_arith)
        requires
            -2147483648 * 2147483647 <= scaled <= 2147483647 * 2147483647,
            input_rate >= 1,
            quotient == crate::timing::div_toward_zero(scaled as int, input_rate as int),
    ;
    let estimate = quotient + RESAMPLE_HEADROOM as i128;
    let capacity: i32 = if estimate < 1 { 1 } else if estimate > i32::MAX as i128 { i32::MAX } else { estimate as i32 };
    let count = capacity as usize;
    let lanes = channels as usize;
    match count.checked_mul(lanes) {
        Some(total) => Ok((capacity, total)),
        None => Err(MediaError::ResampledFrameTooLarge),
    }
}

/// Lines decoded audio up with a video: silence before late audio, dropped samples for early
/// audio.
#[derive(Debug, Clone, Copy)]
pub struct SampleAligner {
    pub aligned: bool,
    pub trim_samples: u64,
}

impl SampleAligner {
    /// Nothing aligned yet.
    pub fn new() -> (aligner: Self)
        ensures
            !aligner.aligned,
            aligner.trim_samples == 0,
    {
        SampleAligner { aligned: false, trim_samples: 0 }
    }

    /// Applies the offset measured at the first decoded frame: a positive offset is returned
    /// as the count of silent samples to queue first; a negative one is remembered as samples
    /// to drop.
    pub fn align(&mut self, offset: i64) -> (silence: u64)
        requires
            !old(self).aligned,
        ensures
            final(self).aligned,
            silence == if offset > 0 { offset as int } else { 0 },
            final(self).trim_samples == if offset < 0 { -offset } else { old(self).trim_samples as int },
    {
        self.aligned = true;
        if offset > 0 {
            offset as u64
        } else if offset < 0 {
            self.trim_samples = if offset == i64::MIN { 9223372036854775808u64 } else { (-offset) as u64 };
            0
        } else {
            0
        }
    }

    /// The number of leading samples to drop from a frame of `frame_len` samples: as many of
    /// the remaining samples to drop as the frame holds.
    pub fn trim_frame(&mut self, frame_len: usize) -> (dropped: usize)
        ensures
            dropped == if old(self).trim_samples < frame_len { old(self).trim_samples as int } else { frame_len as int },
            final(self).trim_samples == old(self).trim_samples - dropped,
            final(self).aligned == old(self).aligned,
    {
        let dropped: usize = if self.trim_samples < frame_len as u64 { self.trim_samples as usize } else { frame_len };
        self.trim_samples = self.trim_samples - dropped as u64;
        dropped
    }
}

/// Trimming never drops more than was asked for, and stops once it has dropped all of it:
/// over two frames the dropped samples total the smaller of the request and the samples seen.
pub proof fn law_trimming_drops_exactly_the_early_samples(trim: u64, first_len: usize, second_len: usize)
    ensures
        ({
            let first = if trim < first_len { trim as int } else { first_len as int };
            let rest = trim - first;
            let second = if rest < second_len { rest } else { second_len as int };
            first + second == if trim < first_len + second_len { trim as int } else { first_len + second_len }
        }),
{
}

} // verus!
