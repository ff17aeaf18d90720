//! Timestamp arithmetic: stream time bases to microseconds, packet trims, and the sample offset
//! that lines decoded audio up with a video's first frame.

use vstd::prelude::*;

verus! {

/// FFmpeg's marker for a missing timestamp.
pub const NO_TIMESTAMP: i64 = i64::MIN;

/// A stream time base `num / den` seconds per tick.
#[derive(Debug, Clone, Copy, PartialEq, Eq, Structural)]
pub struct Rational {
    pub num: i32,
    pub den: i32,
}

/// Integer division rounding toward zero, as Rust's integer division does.
pub open spec fn div_toward_zero(a: int, b: int) -> int {
    if a >= 0 {
        if b > 0 { a / b } else { -(a / (-b)) }
    } else {
        if b > 0 { -((-a) / b) } else { (-a) / (-b) }
    }
}

/// `value` clamped to the range of `i64`.
pub open spec fn clamp_i64(value: int) -> int {
    if value < i64::MIN { i64::MIN as int } else if value > i64::MAX { i64::MAX as int } else { value }
}

/// The microsecond time of `timestamp` ticks of `time_base`, rounded toward zero and clamped to
/// `i64`; a missing timestamp stays missing.
pub open spec fn spec_timestamp_us(timestamp: i64, time_base: Rational) -> i64 {
    if timestamp == NO_TIMESTAMP {
        NO_TIMESTAMP
    } else {
        clamp_i64(div_toward_zero(timestamp * time_base.num * 1_000_000, time_base.den as int)) as i64
    }
}

/// The microsecond length of a `duration` of ticks: zero when the duration is not positive,
/// `u64::MAX` when its microsecond time is negative.
pub open spec fn spec_timestamp_duration_us(duration: i64, time_base: Rational) -> u64 {
    if duration <= 0 {
        0
    } else {
        let us = spec_timestamp_us(duration, time_base);
        if us < 0 { u64::MAX } else { us as u64 }
    }
}

/// `a / b` on `i128`, rounding toward zero.
pub(crate) fn divide_i128(a: i128, b: i128) -> (quotient: i128)
    requires
        b != 0,
        a > i128::MIN,
        b > i128::MIN,
    ensures
        quotient == div_toward_zero(a as int, b as int),
{
    if b > 0 {
        a / b
    } else {
        let divisor = -b;
        let quotient = a / divisor;
        proof {
            if a >= 0 {
                assert(quotient == (a as int) / (divisor as int));
            } else {
                assert(quotient == -((-a) as int / (divisor as int)));
            }
        }
        -quotient
    }
}

/// `value` clamped to the range of `i64`.
fn clamp_to_i64(value: i128) -> (clamped: i64)
    ensures
        clamped == clamp_i64(value as int),
{
    if value < i64::MIN as i128 {
        i64::MIN
    } else if value > i64::MAX as i128 {
        i64::MAX
    } else {
        value as i64
    }
}

/// Converts `timestamp` ticks of `time_base` to microseconds.
pub fn timestamp_us(timestamp: i64, time_base: Rational) -> (us: i64)
    requires
        timestamp == NO_TIMESTAMP || time_base.den != 0,
    ensures
        us == spec_timestamp_us(timestamp, time_base),
{
    if timestamp == NO_TIMESTAMP {
        return NO_TIMESTAMP;
    }
    let ticks = timestamp as i128;
    let num = time_base.num as i128;
    assert(-9223372036854775808 * 2147483648 <= ticks * num <= 9223372036854775808 * 2147483648) by (nonlinear_arith)
        requires
            -9223372036854775808 <= ticks <= 9223372036854775807,
            -2147483648 <= num <= 2147483647,
    ;
    let scaled = ticks * num * 1_000_000;
    clamp_to_i64(divide_i128(scaled, time_base.den as i128))
}

/// Converts a duration of `duration` ticks of `time_base` to microseconds.
pub fn timestamp_duration_us(duration: i64, time_base: Rational) -> (us: u64)
    requires
        duration <= 0 || time_base.den != 0,
    ensures
        us == spec_timestamp_duration_us(duration, time_base),
{
    if duration <= 0 {
        return 0;
    }
    let us = timestamp_us(duration, time_base);
    if us < 0 { u64::MAX } else { us as u64 }
}


/// The little-endian 32-bit value at `offset`.
pub open spec fn le32_at(data: Seq<u8>, offset: int) -> u32 {
    (data[offset] as int + data[offset + 1] as int * 256 + data[offset + 2] as int * 65536
        + data[offset + 3] as int * 16777216) as u32
}

/// The samples to drop at the start and end of an audio packet, read from FFmpeg's skip-samples
/// side data: two little-endian 32-bit counts, or none when the data is absent or shorter
/// than eight bytes.
pub open spec fn spec_skip_samples(side_data: Option<Seq<u8>>) -> (u32, u32) {
    match side_data {
        Some(data) => if data.len() >= 8 { (le32_at(data, 0), le32_at(data, 4)) } else { (0, 0) },
        None => (0, 0),
    }
}

/// Reads the little-endian 32-bit value at `offset`.
fn read_le32(data: &[u8], offset: usize) -> (value: u32)
    requires
        offset + 4 <= data@.len(),
    ensures
        value == le32_at(data@, offset as int),
{
    data[offset] as u32 + data[offset + 1] as u32 * 256 + data[offset + 2] as u32 * 65536 + data[offset
        + 3] as u32 * 16777216
}

/// The start and end trims of an audio packet, from its skip-samples side data.
pub fn skip_samples(side_data: Option<&[u8]>) -> (trim: (u32, u32))
    ensures
        trim == spec_skip_samples(
            match side_data {
                Some(data) => Some(data@),
                None => None,
            },
        ),
{
    match side_data {
        Some(data) => if data.len() >= 8 {
            (read_le32(data, 0), read_le32(data, 4))
        } else {
            (0, 0)
        },
        None => (0, 0),
    }
}

/// The interleaved-sample offset that starts audio whose first timestamp is `audio_origin_us`
/// together with video whose first timestamp is `video_origin_us`: positive when audio starts
/// later (that many samples of silence lead it), negative when it starts earlier (that many
/// samples are dropped), and zero unless both timestamps are known.
pub open spec fn spec_alignment_samples(
    video_origin_us: Option<i64>,
    audio_origin_us: Option<i64>,
    sample_rate: u32,
    channels: u16,
) -> i64 {
    match (video_origin_us, audio_origin_us) {
        (Some(video), Some(audio)) => clamp_i64(
            div_toward_zero(clamp_i64(audio - video) * sample_rate * channels, 1_000_000),
        ) as i64,
        _ => 0,
    }
}

/// The interleaved-sample offset between the first audio and first video timestamps.
pub fn alignment_samples(
    video_origin_us: Option<i64>,
    audio_origin_us: Option<i64>,
    sample_rate: u32,
    channels: u16,
) -> (samples: i64)
    ensures
        samples == spec_alignment_samples(video_origin_us, audio_origin_us, sample_rate, channels),
{
    let (video, audio) = match (video_origin_us, audio_origin_us) {
        (Some(video), Some(audio)) => (video, audio),
        _ => return 0,
    };
    let difference = clamp_to_i64(audio as i128 - video as i128);
    let delta = difference as i128;
    let rate = sample_rate as i128;
    let count = channels as i128;
    assert(-9223372036854775808 * 4294967295 <= delta * rate <= 9223372036854775808 * 4294967295) by (nonlinear_arith)
        requires
            -9223372036854775808 <= delta <= 9223372036854775807,
            0 <= rate <= 4294967295,
    ;
    let per_second = delta * rate;
    assert(-9223372036854775808 * 4294967295 * 65535 <= per_second * count <= 9223372036854775808 * 4294967295 * 65535) by (nonlinear_arith)
        requires
            -9223372036854775808 * 4294967295 <= per_second <= 9223372036854775808 * 4294967295,
            0 <= count <= 65535,
    ;
    let total = per_second * count;
    clamp_to_i64(divide_i128(total, 1_000_000))
}

/// Swapping the two origins negates the offset, as long as neither the difference of the
/// origins nor the offset needs clamping: audio that starts late by some time is padded by as
/// many samples as audio that starts early by the same time is trimmed.
pub proof fn law_alignment_is_antisymmetric(video: i64, audio: i64, sample_rate: u32, channels: u16)
    requires
        i64::MIN < audio - video <= i64::MAX,
        i64::MIN < div_toward_zero((audio - video) * sample_rate * channels, 1_000_000) <= i64::MAX,
    ensures
        spec_alignment_samples(Some(audio), Some(video), sample_rate, channels)
            == -spec_alignment_samples(Some(video), Some(audio), sample_rate, channels),
{
    let forward = (audio - video) * sample_rate * channels;
    let backward = (video - audio) * sample_rate * channels;
    assert(backward == -forward) by (nonlinear_arith)
        requires
            forward == (audio - video) * sample_rate * channels,
            backward == (video - audio) * sample_rate * channels,
    ;
}

/// The offset has the sign of the time between the origins: late audio is never trimmed and
/// early audio is never padded.
pub proof fn law_alignment_follows_origin_order(video: i64, audio: i64, sample_rate: u32, channels: u16)
    ensures
        audio >= video ==> spec_alignment_samples(Some(video), Some(audio), sample_rate, channels) >= 0,
        audio <= video ==> spec_alignment_samples(Some(video), Some(audio), sample_rate, channels) <= 0,
{
    let difference = clamp_i64(audio - video);
    let product = difference * sample_rate * channels;
    if audio == video {
        assert(product == 0) by (nonlinear_arith)
            requires
                difference == 0,
                product == difference * sample_rate * channels,
        ;
    } else if audio > video {
        assert(product >= 0) by (nonlinear_arith)
            requires
                difference >= 0,
                sample_rate >= 0,
                channels >= 0,
                product == difference * sample_rate * channels,
        ;
    } else {
        assert(product <= 0) by (nonlinear_arith)
            requires
                difference <= 0,
                sample_rate >= 0,
                channels >= 0,
                product == difference * sample_rate * channels,
        ;
    }
}

} // verus!
