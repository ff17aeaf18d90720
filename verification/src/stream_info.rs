//! Stream descriptions and encoded packets: what Vivi learns about a video or audio stream
//! from its codec parameters, and the access units it forwards to the presenter.

use vstd::prelude::*;
use crate::colorimetry::{
    map_matrix, map_primaries, map_range, map_transfer, spec_map_matrix, spec_map_primaries,
    spec_map_range, spec_map_transfer, MATRIX_UNSPECIFIED, PRIMARIES_UNSPECIFIED,
    RANGE_UNSPECIFIED, TRANSFER_UNSPECIFIED,
};
use crate::error::MediaError;
use crate::extradata::{normalize_audio_extradata, normalize_h26x_extradata, spec_normalize_audio, spec_normalize_h26x};
use crate::timing::{skip_samples, spec_skip_samples, spec_timestamp_duration_us, spec_timestamp_us, timestamp_duration_us, timestamp_us, Rational, NO_TIMESTAMP};
use crate::extradata::{bytes_result, length_prefixed_to_annex_b, spec_length_prefixed_to_annex_b};

verus! {

/// The largest codec private data accepted, in bytes.
pub const MAX_EXTRADATA: i32 = 16777216;

/// A video stream as announced to the presenter.
#[derive(Debug, Clone)]
pub struct VideoInfo {
    pub codec: String,
    pub packetization: String,
    pub extradata: Vec<u8>,
    pub width: u32,
    pub height: u32,
    pub profile: i32,
    pub level: i32,
    pub bitrate: i64,
    pub color_primaries: u64,
    pub transfer: u64,
    pub matrix: u64,
    pub range: u64,
    pub colorimetry_inferred: bool,
    pub sar_num: u32,
    pub sar_den: u32,
    pub max_access_unit_bytes: u32,
    pub first_pts_us: Option<i64>,
    pub has_audio: bool,
    pub audio: Option<AudioInfo>,
}

/// How an audio stream's access units are carried.
#[derive(Debug, Clone, Copy, PartialEq, Eq, Structural)]
pub enum AudioPacketization {
    Mp3Frame,
    AacRawAccessUnit,
    AlacFrame,
    OpusPacket,
    VorbisPacket,
    FlacFrame,
    PcmPacket,
    Unsupported,
}

/// An audio stream as announced to the presenter.
#[derive(Debug, Clone)]
pub struct AudioInfo {
    pub codec: String,
    pub packetization: AudioPacketization,
    pub extradata: Vec<u8>,
    pub sample_rate: u32,
    pub channels: u16,
    pub channel_mask: u64,
    pub bitrate: i64,
    pub max_access_unit_bytes: u32,
    pub first_pts_us: Option<i64>,
}

/// One encoded video access unit.
#[derive(Debug)]
pub struct EncodedPacket {
    pub data: Vec<u8>,
    pub pts_us: i64,
    pub dts_us: i64,
    pub key: bool,
}

/// One encoded audio access unit.
#[derive(Debug)]
pub struct EncodedAudioPacket {
    pub data: Vec<u8>,
    pub pts_us: i64,
    pub dts_us: i64,
    pub duration_us: u64,
    pub trim_start_samples: u32,
    pub trim_end_samples: u32,
}

/// An access unit of either stream of a video file, in container order.
#[derive(Debug)]
pub enum EncodedMediaPacket {
    Video(EncodedPacket),
    Audio(EncodedAudioPacket),
}

/// The mathematical content of an [`AudioInfo`].
pub struct AudioInfoView {
    pub codec: Seq<char>,
    pub packetization: AudioPacketization,
    pub extradata: Seq<u8>,
    pub sample_rate: u32,
    pub channels: u16,
    pub channel_mask: u64,
    pub bitrate: i64,
    pub max_access_unit_bytes: u32,
    pub first_pts_us: Option<i64>,
}

/// The mathematical content of a [`VideoInfo`].
pub struct VideoInfoView {
    pub codec: Seq<char>,
    pub packetization: Seq<char>,
    pub extradata: Seq<u8>,
    pub width: u32,
    pub height: u32,
    pub profile: i32,
    pub level: i32,
    pub bitrate: i64,
    pub color_primaries: u64,
    pub transfer: u64,
    pub matrix: u64,
    pub range: u64,
    pub colorimetry_inferred: bool,
    pub sar_num: u32,
    pub sar_den: u32,
    pub max_access_unit_bytes: u32,
    pub first_pts_us: Option<i64>,
    pub has_audio: bool,
    pub audio: Option<AudioInfoView>,
}

impl View for AudioInfo {
    type V = AudioInfoView;

    open spec fn view(&self) -> AudioInfoView {
        AudioInfoView {
            codec: self.codec@,
            packetization: self.packetization,
            extradata: self.extradata@,
            sample_rate: self.sample_rate,
            channels: self.channels,
            channel_mask: self.channel_mask,
            bitrate: self.bitrate,
            max_access_unit_bytes: self.max_access_unit_bytes,
            first_pts_us: self.first_pts_us,
        }
    }
}

impl View for VideoInfo {
    type V = VideoInfoView;

    open spec fn view(&self) -> VideoInfoView {
        VideoInfoView {
            codec: self.codec@,
            packetization: self.packetization@,
            extradata: self.extradata@,
            width: self.width,
            height: self.height,
            profile: self.profile,
            level: self.level,
            bitrate: self.bitrate,
            color_primaries: self.color_primaries,
            transfer: self.transfer,
            matrix: self.matrix,
            range: self.range,
            colorimetry_inferred: self.colorimetry_inferred,
            sar_num: self.sar_num,
            sar_den: self.sar_den,
            max_access_unit_bytes: self.max_access_unit_bytes,
            first_pts_us: self.first_pts_us,
            has_audio: self.has_audio,
            audio: match self.audio {
                Some(audio) => Some(audio@),
                None => None,
            },
        }
    }
}

/// The codec parameters of a video stream, as FFmpeg reports them.
#[derive(Debug, Clone, Copy)]
pub struct VideoParameters {
    pub width: i32,
    pub height: i32,
    pub extradata_size: i32,
    pub profile: i32,
    pub level: i32,
    pub bit_rate: i64,
    pub color_primaries: i32,
    pub color_trc: i32,
    pub color_space: i32,
    pub color_range: i32,
    pub sar_num: i32,
    pub sar_den: i32,
}

/// The codec parameters of an audio stream, as FFmpeg reports them.
#[derive(Debug, Clone, Copy)]
pub struct AudioParameters {
    pub extradata_size: i32,
    pub sample_rate: i32,
    pub channels: i32,
    pub channel_order: i32,
    pub channel_mask: u64,
    pub bit_rate: i64,
}

/// The Vivid packetization of a video codec and the private data it carries, or `None` when
/// the codec has no portable packetization.
pub open spec fn spec_video_packetization(codec: Seq<char>) -> Option<Seq<char>> {
    if codec == "h264"@ {
        Some("h264-annexb-au-v1"@)
    } else if codec == "hevc"@ {
        Some("hevc-annexb-au-v1"@)
    } else if codec == "vp9"@ {
        Some("vp9-frame-v1"@)
    } else if codec == "av1"@ {
        Some("av1-low-overhead-tu-v1"@)
    } else {
        None
    }
}

/// Whether any colour description is left unspecified, so that defaults are used.
pub open spec fn spec_colorimetry_inferred(parameters: VideoParameters) -> bool {
    parameters.color_primaries == PRIMARIES_UNSPECIFIED || parameters.color_trc == TRANSFER_UNSPECIFIED
        || parameters.color_space == MATRIX_UNSPECIFIED || parameters.color_range == RANGE_UNSPECIFIED
}

/// The sample aspect ratio: the declared one when both terms are positive, square otherwise.
pub open spec fn spec_sample_aspect_ratio(num: i32, den: i32) -> (u32, u32) {
    if num > 0 && den > 0 { (num as u32, den as u32) } else { (1, 1) }
}

/// The description of a video stream with codec `codec`, codec parameters `parameters` and
/// private data `extradata` (`None` when the stream declares private data but provides no
/// bytes), together with the NAL length size of its access units when they must be converted
/// to Annex B. Checks run in order: width, height, private-data size, private-data bytes,
/// codec, then the four colour values.
pub open spec fn spec_video_info(parameters: VideoParameters, codec: Seq<char>, extradata: Option<Seq<u8>>) -> Result<(VideoInfoView, Option<usize>), MediaError> {
    if parameters.width <= 0 {
        Err(MediaError::InvalidWidth)
    } else if parameters.height <= 0 {
        Err(MediaError::InvalidHeight)
    } else if parameters.extradata_size < 0 || parameters.extradata_size > MAX_EXTRADATA {
        Err(MediaError::InvalidExtradataSize)
    } else if parameters.extradata_size > 0 && extradata is None {
        Err(MediaError::ExtradataPointerNull)
    } else {
        let data = match extradata {
            Some(bytes) => if parameters.extradata_size == 0 { Seq::empty() } else { bytes },
            None => Seq::empty(),
        };
        let height = parameters.height as u32;
        let converted: Result<(Seq<u8>, Option<usize>), MediaError> = if codec == "h264"@ {
            spec_normalize_h26x(data, false)
        } else if codec == "hevc"@ {
            spec_normalize_h26x(data, true)
        } else if codec == "vp9"@ {
            Ok((Seq::empty(), None))
        } else if codec == "av1"@ {
            Ok((data, None))
        } else {
            Err(MediaError::UnsupportedVideoCodec)
        };
        match converted {
            Err(error) => Err(error),
            Ok((private_data, nal_length_size)) => match (
                spec_map_primaries(parameters.color_primaries, height),
                spec_map_transfer(parameters.color_trc),
                spec_map_matrix(parameters.color_space, height),
                spec_map_range(parameters.color_range),
            ) {
                (Err(error), _, _, _) => Err(error),
                (Ok(_), Err(error), _, _) => Err(error),
                (Ok(_), Ok(_), Err(error), _) => Err(error),
                (Ok(_), Ok(_), Ok(_), Err(error)) => Err(error),
                (Ok(primaries), Ok(transfer), Ok(matrix), Ok(range)) => Ok((
                    VideoInfoView {
                        codec,
                        packetization: spec_video_packetization(codec)->Some_0,
                        extradata: private_data,
                        width: parameters.width as u32,
                        height,
                        profile: parameters.profile,
                        level: parameters.level,
                        bitrate: parameters.bit_rate,
                        color_primaries: primaries,
                        transfer,
                        matrix,
                        range,
                        colorimetry_inferred: spec_colorimetry_inferred(parameters),
                        sar_num: spec_sample_aspect_ratio(parameters.sar_num, parameters.sar_den).0,
                        sar_den: spec_sample_aspect_ratio(parameters.sar_num, parameters.sar_den).1,
                        max_access_unit_bytes: 0,
                        first_pts_us: None,
                        has_audio: false,
                        audio: None,
                    },
                    nal_length_size,
                )),
            },
        }
    }
}

/// H.264 and HEVC streams carry their private data normalized as avcC and hvcC records
/// respectively: a described stream's private data and NAL length size are exactly the
/// normalization of the bytes it declared, and a stream whose private data does not normalize
/// is not described.
pub proof fn law_h26x_streams_carry_normalized_private_data(parameters: VideoParameters, bytes: Seq<u8>, hevc: bool)
    requires
        parameters.extradata_size > 0,
    ensures
        ({
            let codec = if hevc { "hevc"@ } else { "h264"@ };
            &&& spec_video_info(parameters, codec, Some(bytes)) matches Ok((info, nal_length_size)) ==> {
                &&& spec_normalize_h26x(bytes, hevc) == Ok::<(Seq<u8>, Option<usize>), MediaError>((info.extradata, nal_length_size))
                &&& info.packetization == if hevc { "hevc-annexb-au-v1"@ } else { "h264-annexb-au-v1"@ }
            }
            &&& spec_normalize_h26x(bytes, hevc) is Err ==> spec_video_info(parameters, codec, Some(bytes)) is Err
        }),
{
    reveal_strlit("hevc");
    reveal_strlit("h264");
    assert("hevc"@.len() == 4 && "h264"@.len() == 4);
    assert("hevc"@[1] != "h264"@[1]);
}

/// The view of a video-description result.
pub open spec fn video_info_result(result: Result<(VideoInfo, Option<usize>), MediaError>) -> Result<(VideoInfoView, Option<usize>), MediaError> {
    match result {
        Ok((info, nal_length_size)) => Ok((info@, nal_length_size)),
        Err(error) => Err(error),
    }
}

/// Describes a video stream from its codec parameters.
pub fn video_info(parameters: VideoParameters, codec: String, extradata: Option<Vec<u8>>) -> (result: Result<(VideoInfo, Option<usize>), MediaError>)
    ensures
        video_info_result(result) == spec_video_info(
            parameters,
            codec@,
            match extradata {
                Some(bytes) => Some(bytes@),
                None => None,
            },
        ),
{
    if parameters.width <= 0 {
        return Err(MediaError::InvalidWidth);
    }
    if parameters.height <= 0 {
        return Err(MediaError::InvalidHeight);
    }
    if parameters.extradata_size < 0 || parameters.extradata_size > MAX_EXTRADATA {
        return Err(MediaError::InvalidExtradataSize);
    }
    let data: Vec<u8> = match extradata {
        Some(bytes) => if parameters.extradata_size == 0 { Vec::new() } else { bytes },
        None => if parameters.extradata_size == 0 {
            Vec::new()
        } else {
            return Err(MediaError::ExtradataPointerNull);
        },
    };
    let width = parameters.width as u32;
    let height = parameters.height as u32;
    let (packetization, private_data, nal_length_size) = if crate::text::str_equal(codec.as_str(), "h264") {
        let (converted, length) = normalize_h26x_extradata(data.as_slice(), false)?;
        ("h264-annexb-au-v1".to_owned(), converted, length)
    } else if crate::text::str_equal(codec.as_str(), "hevc") {
        let (converted, length) = normalize_h26x_extradata(data.as_slice(), true)?;
        ("hevc-annexb-au-v1".to_owned(), converted, length)
    } else if crate::text::str_equal(codec.as_str(), "vp9") {
        ("vp9-frame-v1".to_owned(), Vec::new(), None)
    } else if crate::text::str_equal(codec.as_str(), "av1") {
        ("av1-low-overhead-tu-v1".to_owned(), data, None)
    } else {
        return Err(MediaError::UnsupportedVideoCodec);
    };
    let colorimetry_inferred = parameters.color_primaries == PRIMARIES_UNSPECIFIED
        || parameters.color_trc == TRANSFER_UNSPECIFIED || parameters.color_space == MATRIX_UNSPECIFIED
        || parameters.color_range == RANGE_UNSPECIFIED;
    let color_primaries = map_primaries(parameters.color_primaries, height)?;
    let transfer = map_transfer(parameters.color_trc)?;
    let matrix = map_matrix(parameters.color_space, height)?;
    let range = map_range(parameters.color_range)?;
    let (sar_num, sar_den) = if parameters.sar_num > 0 && parameters.sar_den > 0 {
        (parameters.sar_num as u32, parameters.sar_den as u32)
    } else {
        (1, 1)
    };
    Ok((
        VideoInfo {
            codec,
            packetization,
            extradata: private_data,
            width,
            height,
            profile: parameters.profile,
            level: parameters.level,
            bitrate: parameters.bit_rate,
            color_primaries,
            transfer,
            matrix,
            range,
            colorimetry_inferred,
            sar_num,
            sar_den,
            max_access_unit_bytes: 0,
            first_pts_us: None,
            has_audio: false,
            audio: None,
        },
        nal_length_size,
    ))
}


/// The packetization of an audio codec named `codec`.
pub open spec fn spec_audio_packetization(codec: Seq<char>) -> AudioPacketization {
    if codec == "mp3"@ {
        AudioPacketization::Mp3Frame
    } else if codec == "aac"@ {
        AudioPacketization::AacRawAccessUnit
    } else if codec == "alac"@ {
        AudioPacketization::AlacFrame
    } else if codec == "opus"@ {
        AudioPacketization::OpusPacket
    } else if codec == "vorbis"@ {
        AudioPacketization::VorbisPacket
    } else if codec == "flac"@ {
        AudioPacketization::FlacFrame
    } else if codec == "pcm_u8"@ || codec == "pcm_s16le"@ || codec == "pcm_s24le"@ || codec == "pcm_s32le"@
        || codec == "pcm_f32le"@ || codec == "pcm_f64le"@ || codec == "pcm_mulaw"@ || codec == "pcm_alaw"@ {
        AudioPacketization::PcmPacket
    } else {
        AudioPacketization::Unsupported
    }
}

/// Each named audio codec has a packetization of its own: MP3, AAC, ALAC, Opus, Vorbis and
/// FLAC are all supported, and no two codec names share a packetization other than PCM's.
pub proof fn law_audio_codecs_have_distinct_packetizations(first: Seq<char>, second: Seq<char>)
    ensures
        spec_audio_packetization(first) == spec_audio_packetization(second)
            && spec_audio_packetization(first) != AudioPacketization::PcmPacket
            && spec_audio_packetization(first) != AudioPacketization::Unsupported ==> first == second,
        spec_audio_packetization("mp3"@) == AudioPacketization::Mp3Frame,
        spec_audio_packetization("aac"@) == AudioPacketization::AacRawAccessUnit,
        spec_audio_packetization("alac"@) == AudioPacketization::AlacFrame,
        spec_audio_packetization("opus"@) == AudioPacketization::OpusPacket,
        spec_audio_packetization("vorbis"@) == AudioPacketization::VorbisPacket,
        spec_audio_packetization("flac"@) == AudioPacketization::FlacFrame,
{
    reveal_strlit("mp3");
    reveal_strlit("aac");
    reveal_strlit("alac");
    reveal_strlit("opus");
    reveal_strlit("vorbis");
    reveal_strlit("flac");
    assert("mp3"@.len() == 3 && "aac"@.len() == 3 && "alac"@.len() == 4 && "opus"@.len() == 4);
    assert("vorbis"@.len() == 6 && "flac"@.len() == 4);
    assert("mp3"@[0] != "aac"@[0]);
    assert("alac"@[0] != "opus"@[0] && "alac"@[0] != "flac"@[0] && "opus"@[0] != "flac"@[0]);
}

/// Chooses the packetization of an audio codec named `codec`.
pub fn audio_packetization(codec: &str) -> (packetization: AudioPacketization)
    ensures
        packetization == spec_audio_packetization(codec@),
{
    if crate::text::str_equal(codec, "mp3") {
        AudioPacketization::Mp3Frame
    } else if crate::text::str_equal(codec, "aac") {
        AudioPacketization::AacRawAccessUnit
    } else if crate::text::str_equal(codec, "alac") {
        AudioPacketization::AlacFrame
    } else if crate::text::str_equal(codec, "opus") {
        AudioPacketization::OpusPacket
    } else if crate::text::str_equal(codec, "vorbis") {
        AudioPacketization::VorbisPacket
    } else if crate::text::str_equal(codec, "flac") {
        AudioPacketization::FlacFrame
    } else if crate::text::str_equal(codec, "pcm_u8") || crate::text::str_equal(codec, "pcm_s16le")
        || crate::text::str_equal(codec, "pcm_s24le") || crate::text::str_equal(codec, "pcm_s32le")
        || crate::text::str_equal(codec, "pcm_f32le") || crate::text::str_equal(codec, "pcm_f64le")
        || crate::text::str_equal(codec, "pcm_mulaw") || crate::text::str_equal(codec, "pcm_alaw") {
        AudioPacketization::PcmPacket
    } else {
        AudioPacketization::Unsupported
    }
}

/// The microsecond time at which a stream starts, when its start time is known and its time
/// base is positive.
pub open spec fn spec_stream_start_us(start_time: i64, time_base: Rational) -> Option<i64> {
    if start_time != NO_TIMESTAMP && time_base.num > 0 && time_base.den > 0 {
        Some(spec_timestamp_us(start_time, time_base))
    } else {
        None
    }
}

/// The microsecond time at which a stream starts, if known.
pub fn stream_start_us(start_time: i64, time_base: Rational) -> (start: Option<i64>)
    ensures
        start == spec_stream_start_us(start_time, time_base),
{
    if start_time != NO_TIMESTAMP && time_base.num > 0 && time_base.den > 0 {
        Some(timestamp_us(start_time, time_base))
    } else {
        None
    }
}

/// The description of an audio stream with codec `codec`, codec parameters `parameters`,
/// private data `extradata` (`None` when the stream declares private data but provides no
/// bytes), stream start time `start_time` and time base `time_base`. Channel masks are kept for
/// native and unspecified channel orders and are all ones otherwise; a sample rate or channel
/// count that does not fit its field becomes zero.
pub open spec fn spec_audio_info(
    parameters: AudioParameters,
    codec: Seq<char>,
    extradata: Option<Seq<u8>>,
    start_time: i64,
    time_base: Rational,
) -> Result<AudioInfoView, MediaError> {
    if parameters.extradata_size < 0 || parameters.extradata_size > MAX_EXTRADATA {
        Err(MediaError::InvalidAudioExtradata)
    } else if parameters.extradata_size > 0 && extradata is None {
        Err(MediaError::AudioExtradataPointerNull)
    } else {
        let data = match extradata {
            Some(bytes) => if parameters.extradata_size == 0 { Seq::empty() } else { bytes },
            None => Seq::empty(),
        };
        match spec_normalize_audio(codec, data) {
            Err(error) => Err(error),
            Ok(private_data) => Ok(AudioInfoView {
                codec,
                packetization: spec_audio_packetization(codec),
                extradata: private_data,
                sample_rate: if parameters.sample_rate < 0 { 0 } else { parameters.sample_rate as u32 },
                channels: if parameters.channels < 0 || parameters.channels > u16::MAX { 0 } else { parameters.channels as u16 },
                channel_mask: if parameters.channel_order == 0 || parameters.channel_order == 1 {
                    parameters.channel_mask
                } else {
                    u64::MAX
                },
                bitrate: parameters.bit_rate,
                max_access_unit_bytes: 0,
                first_pts_us: spec_stream_start_us(start_time, time_base),
            }),
        }
    }
}

/// The view of an audio-description result.
pub open spec fn audio_info_result(result: Result<AudioInfo, MediaError>) -> Result<AudioInfoView, MediaError> {
    match result {
        Ok(info) => Ok(info@),
        Err(error) => Err(error),
    }
}

/// Describes an audio stream from its codec parameters and stream timing.
pub fn audio_info(
    parameters: AudioParameters,
    codec: String,
    extradata: Option<Vec<u8>>,
    start_time: i64,
    time_base: Rational,
) -> (result: Result<AudioInfo, MediaError>)
    ensures
        audio_info_result(result) == spec_audio_info(
            parameters,
            codec@,
            match extradata {
                Some(bytes) => Some(bytes@),
                None => None,
            },
            start_time,
            time_base,
        ),
{
    let packetization = audio_packetization(codec.as_str());
    if parameters.extradata_size < 0 || parameters.extradata_size > MAX_EXTRADATA {
        return Err(MediaError::InvalidAudioExtradata);
    }
    let data: Vec<u8> = match extradata {
        Some(bytes) => if parameters.extradata_size == 0 { Vec::new() } else { bytes },
        None => if parameters.extradata_size == 0 {
            Vec::new()
        } else {
            return Err(MediaError::AudioExtradataPointerNull);
        },
    };
    let sample_rate: u32 = if parameters.sample_rate < 0 { 0 } else { parameters.sample_rate as u32 };
    let channels: u16 = if parameters.channels < 0 || parameters.channels > u16::MAX as i32 {
        0
    } else {
        parameters.channels as u16
    };
    let private_data = normalize_audio_extradata(codec.as_str(), data.as_slice())?;
    let channel_mask = if parameters.channel_order == 0 || parameters.channel_order == 1 {
        parameters.channel_mask
    } else {
        u64::MAX
    };
    let first_pts_us = stream_start_us(start_time, time_base);
    Ok(AudioInfo {
        codec,
        packetization,
        extradata: private_data,
        sample_rate,
        channels,
        channel_mask,
        bitrate: parameters.bit_rate,
        max_access_unit_bytes: 0,
        first_pts_us,
    })
}


/// FFmpeg's media type of a video stream.
pub const MEDIA_TYPE_VIDEO: i32 = 0;

/// FFmpeg's media type of an audio stream.
pub const MEDIA_TYPE_AUDIO: i32 = 1;

/// The index of the first stream of media type `wanted` among streams whose media types are
/// `media_types` (`None` for a stream without codec parameters).
pub fn select_stream(media_types: &[Option<i32>], wanted: i32) -> (index: Option<usize>)
    ensures
        match index {
            Some(i) => i < media_types@.len() && media_types@[i as int] == Some(wanted) && forall|j: int|
                0 <= j < i ==> media_types@[j] != Some(wanted),
            None => forall|j: int| 0 <= j < media_types@.len() ==> media_types@[j] != Some(wanted),
        },
{
    let mut index: usize = 0;
    while index < media_types.len()
        invariant
            index <= media_types@.len(),
            forall|j: int| 0 <= j < index ==> media_types@[j] != Some(wanted),
        decreases media_types@.len() - index,
    {
        if let Some(media_type) = media_types[index] {
            if media_type == wanted {
                return Some(index);
            }
        }
        index = index + 1;
    }
    None
}

/// A time base counts forward: both of its terms are positive.
pub open spec fn time_base_is_positive(time_base: Rational) -> bool {
    time_base.num > 0 && time_base.den > 0
}

/// Accepts the time base of the selected video stream only when it is positive.
pub fn check_video_time_base(time_base: Rational) -> (result: Result<Rational, MediaError>)
    ensures
        result == if time_base_is_positive(time_base) {
            Ok(time_base)
        } else {
            Err::<Rational, MediaError>(MediaError::InvalidVideoTimeBase)
        },
{
    if time_base.num <= 0 || time_base.den <= 0 {
        return Err(MediaError::InvalidVideoTimeBase);
    }
    Ok(time_base)
}

/// Accepts the time base of the selected audio stream only when it is positive.
pub fn check_audio_time_base(time_base: Rational) -> (result: Result<Rational, MediaError>)
    ensures
        result == if time_base_is_positive(time_base) {
            Ok(time_base)
        } else {
            Err::<Rational, MediaError>(MediaError::InvalidAudioTimeBase)
        },
{
    if time_base.num <= 0 || time_base.den <= 0 {
        return Err(MediaError::InvalidAudioTimeBase);
    }
    Ok(time_base)
}

/// Where a demuxed packet goes.
#[derive(Debug, Clone, Copy, PartialEq, Eq, Structural)]
pub enum PacketRoute {
    Video,
    Audio,
    Skip,
}

/// The route of a packet of stream `stream_index` with `size` bytes (`has_data` when its data
/// pointer is set): packets of other streams are skipped; a packet of a selected stream with
/// a negative size, or a positive size and no data, is invalid.
pub open spec fn spec_route_packet(
    stream_index: i32,
    video_stream: Option<i32>,
    audio_stream: Option<i32>,
    size: i32,
    has_data: bool,
) -> Result<PacketRoute, MediaError> {
    if video_stream != Some(stream_index) && audio_stream != Some(stream_index) {
        Ok(PacketRoute::Skip)
    } else if size < 0 || (size > 0 && !has_data) {
        Err(MediaError::InvalidPacket)
    } else if video_stream == Some(stream_index) {
        Ok(PacketRoute::Video)
    } else {
        Ok(PacketRoute::Audio)
    }
}

/// Decides where a demuxed packet goes.
pub fn route_packet(
    stream_index: i32,
    video_stream: Option<i32>,
    audio_stream: Option<i32>,
    size: i32,
    has_data: bool,
) -> (route: Result<PacketRoute, MediaError>)
    ensures
        route == spec_route_packet(stream_index, video_stream, audio_stream, size, has_data),
{
    let is_video = match video_stream {
        Some(index) => index == stream_index,
        None => false,
    };
    let is_audio = match audio_stream {
        Some(index) => index == stream_index,
        None => false,
    };
    if !is_video && !is_audio {
        Ok(PacketRoute::Skip)
    } else if size < 0 || (size > 0 && !has_data) {
        Err(MediaError::InvalidPacket)
    } else if is_video {
        Ok(PacketRoute::Video)
    } else {
        Ok(PacketRoute::Audio)
    }
}

/// The payload of a video access unit as sent to the presenter: converted to Annex B when the
/// stream stores NAL units with length fields of `nal_length_size` bytes, unchanged otherwise.
pub open spec fn spec_video_payload(data: Seq<u8>, nal_length_size: Option<usize>) -> Result<Seq<u8>, MediaError> {
    match nal_length_size {
        Some(size) => spec_length_prefixed_to_annex_b(data, size as int),
        None => Ok(data),
    }
}

/// Converts a demuxed video access unit to the payload sent to the presenter.
pub fn video_payload(data: Vec<u8>, nal_length_size: Option<usize>) -> (payload: Result<Vec<u8>, MediaError>)
    ensures
        bytes_result(payload) == spec_video_payload(data@, nal_length_size),
{
    match nal_length_size {
        Some(size) => length_prefixed_to_annex_b(data.as_slice(), size),
        None => Ok(data),
    }
}

/// A video access unit with its timestamps converted to microseconds.
pub fn encoded_video_packet(data: Vec<u8>, key: bool, pts: i64, dts: i64, time_base: Rational) -> (packet: EncodedPacket)
    requires
        pts == NO_TIMESTAMP || time_base.den != 0,
        dts == NO_TIMESTAMP || time_base.den != 0,
    ensures
        packet.data@ == data@,
        packet.key == key,
        packet.pts_us == spec_timestamp_us(pts, time_base),
        packet.dts_us == spec_timestamp_us(dts, time_base),
{
    EncodedPacket { data, pts_us: timestamp_us(pts, time_base), dts_us: timestamp_us(dts, time_base), key }
}

/// An audio access unit with its timestamps converted to microseconds and its trims read from
/// its skip-samples side data. Opus packets carry no start trim: the presenter's decoder already
/// applies the OpusHead pre-skip, and applying FFmpeg's copy of it too would trim twice.
pub fn encoded_audio_packet(
    data: Vec<u8>,
    pts: i64,
    dts: i64,
    duration: i64,
    time_base: Option<Rational>,
    side_data: Option<&[u8]>,
    codec: &str,
) -> (packet: Result<EncodedAudioPacket, MediaError>)
    requires
        time_base matches Some(base) ==> (pts == NO_TIMESTAMP || base.den != 0) && (dts == NO_TIMESTAMP
            || base.den != 0) && (duration <= 0 || base.den != 0),
    ensures
        match time_base {
            None => packet == Err::<EncodedAudioPacket, MediaError>(MediaError::AudioTimeBaseMissing),
            Some(base) => packet matches Ok(audio) && {
                let trim = spec_skip_samples(
                    match side_data {
                        Some(bytes) => Some(bytes@),
                        None => None,
                    },
                );
                &&& audio.data@ == data@
                &&& audio.pts_us == spec_timestamp_us(pts, base)
                &&& audio.dts_us == spec_timestamp_us(dts, base)
                &&& audio.duration_us == spec_timestamp_duration_us(duration, base)
                &&& audio.trim_start_samples == if codec@ == "opus"@ { 0 } else { trim.0 }
                &&& audio.trim_end_samples == trim.1
            },
        },
{
    let base = match time_base {
        Some(base) => base,
        None => return Err(MediaError::AudioTimeBaseMissing),
    };
    let (mut trim_start_samples, trim_end_samples) = skip_samples(side_data);
    if crate::text::str_equal(codec, "opus") {
        trim_start_samples = 0;
    }
    Ok(EncodedAudioPacket {
        data,
        pts_us: timestamp_us(pts, base),
        dts_us: timestamp_us(dts, base),
        duration_us: timestamp_duration_us(duration, base),
        trim_start_samples,
        trim_end_samples,
    })
}

/// Accumulates what a first pass over a video file learns: the largest access unit of each
/// stream and the first known timestamps.
pub struct VideoInspection {
    pub info: VideoInfo,
    pub largest_video: usize,
    pub largest_audio: usize,
}

/// `first` when it is already known, otherwise `pts` when `pts` is a timestamp.
pub open spec fn first_known(first: Option<i64>, pts: i64) -> Option<i64> {
    if first is Some || pts == NO_TIMESTAMP { first } else { Some(pts) }
}

/// The larger of two sizes.
pub open spec fn larger(a: usize, b: int) -> int {
    if a >= b { a as int } else { b }
}

impl VideoInspection {
    /// Starts a pass over a file whose streams `info` describes.
    pub fn new(info: VideoInfo) -> (inspection: Self)
        ensures
            inspection.info@ == info@,
            inspection.largest_video == 0,
            inspection.largest_audio == 0,
    {
        VideoInspection { info, largest_video: 0, largest_audio: 0 }
    }

    /// Records one demuxed access unit.
    pub fn observe(&mut self, packet: &EncodedMediaPacket)
        ensures
            match packet {
                EncodedMediaPacket::Video(video) => {
                    &&& final(self).largest_video == larger(old(self).largest_video, video.data@.len() as int)
                    &&& final(self).largest_audio == old(self).largest_audio
                    &&& final(self).info@ == (VideoInfoView {
                        first_pts_us: first_known(old(self).info.first_pts_us, video.pts_us),
                        ..old(self).info@
                    })
                },
                EncodedMediaPacket::Audio(audio) => {
                    &&& final(self).largest_video == old(self).largest_video
                    &&& final(self).largest_audio == larger(old(self).largest_audio, audio.data@.len() as int)
                    &&& final(self).info@ == (VideoInfoView {
                        audio: match old(self).info.audio {
                            Some(stream) => Some(AudioInfoView {
                                first_pts_us: first_known(stream.first_pts_us, audio.pts_us),
                                ..stream@
                            }),
                            None => None,
                        },
                        ..old(self).info@
                    })
                },
            },
    {
        match packet {
            EncodedMediaPacket::Video(video) => {
                if video.data.len() > self.largest_video {
                    self.largest_video = video.data.len();
                }
                if video.pts_us != NO_TIMESTAMP && self.info.first_pts_us.is_none() {
                    self.info.first_pts_us = Some(video.pts_us);
                }
            },
            EncodedMediaPacket::Audio(audio) => {
                if audio.data.len() > self.largest_audio {
                    self.largest_audio = audio.data.len();
                }
                let stream = self.info.audio.take();
                self.info.audio = match stream {
                    Some(mut stream) => {
                        if audio.pts_us != NO_TIMESTAMP && stream.first_pts_us.is_none() {
                            stream.first_pts_us = Some(audio.pts_us);
                        }
                        Some(stream)
                    },
                    None => None,
                };
            },
        }
    }

    /// Finishes the pass: the description with the largest access-unit sizes filled in. A
    /// file without video access units is rejected; an audio stream whose access units are all
    /// empty is dropped from the description.
    pub fn finish(self) -> (result: Result<VideoInfo, MediaError>)
        ensures
            self.largest_video == 0 ==> result == Err::<VideoInfo, MediaError>(MediaError::NoVideoAccessUnits),
            self.largest_video > u32::MAX ==> result == Err::<VideoInfo, MediaError>(MediaError::AccessUnitTooLarge),
            0 < self.largest_video <= u32::MAX ==> match self.info.audio {
                Some(_) if self.largest_audio > u32::MAX => result == Err::<VideoInfo, MediaError>(MediaError::AudioAccessUnitTooLarge),
                _ => (result matches Ok(info) && info@ == (VideoInfoView {
                    max_access_unit_bytes: self.largest_video as u32,
                    audio: match self.info.audio {
                        Some(stream) => if self.largest_audio == 0 {
                            None
                        } else {
                            Some(AudioInfoView { max_access_unit_bytes: self.largest_audio as u32, ..stream@ })
                        },
                        None => None,
                    },
                    ..self.info@
                })),
            },
    {
        if self.largest_video == 0 {
            return Err(MediaError::NoVideoAccessUnits);
        }
        if self.largest_video > u32::MAX as usize {
            return Err(MediaError::AccessUnitTooLarge);
        }
        let mut info = self.info;
        info.max_access_unit_bytes = self.largest_video as u32;
        let stream = info.audio.take();
        info.audio = match stream {
            Some(mut stream) => {
                if self.largest_audio > u32::MAX as usize {
                    return Err(MediaError::AudioAccessUnitTooLarge);
                }
                stream.max_access_unit_bytes = self.largest_audio as u32;
                if stream.max_access_unit_bytes == 0 {
                    None
                } else {
                    Some(stream)
                }
            },
            None => None,
        };
        Ok(info)
    }
}

/// Accumulates what a first pass over an audio file learns: its largest access unit and its
/// first known timestamp.
pub struct AudioInspection {
    pub info: AudioInfo,
    pub largest: usize,
}

impl AudioInspection {
    /// Starts a pass over a file whose audio stream `info` describes.
    pub fn new(info: AudioInfo) -> (inspection: Self)
        ensures
            inspection.info@ == info@,
            inspection.largest == 0,
    {
        AudioInspection { info, largest: 0 }
    }

    /// Records one demuxed access unit.
    pub fn observe(&mut self, packet: &EncodedAudioPacket)
        ensures
            final(self).largest == larger(old(self).largest, packet.data@.len() as int),
            final(self).info@ == (AudioInfoView {
                first_pts_us: first_known(old(self).info.first_pts_us, packet.pts_us),
                ..old(self).info@
            }),
    {
        if packet.data.len() > self.largest {
            self.largest = packet.data.len();
        }
        if packet.pts_us != NO_TIMESTAMP && self.info.first_pts_us.is_none() {
            self.info.first_pts_us = Some(packet.pts_us);
        }
    }

    /// Finishes the pass: the description with the largest access-unit size filled in. A file
    /// whose access units are all empty is rejected.
    pub fn finish(self) -> (result: Result<AudioInfo, MediaError>)
        ensures
            self.largest == 0 ==> result == Err::<AudioInfo, MediaError>(MediaError::EmptyAudioAccessUnits),
            self.largest > u32::MAX ==> result == Err::<AudioInfo, MediaError>(MediaError::AudioAccessUnitTooLarge),
            0 < self.largest <= u32::MAX ==> (result matches Ok(info) && info@ == (AudioInfoView {
                max_access_unit_bytes: self.largest as u32,
                ..self.info@
            })),
    {
        if self.largest == 0 {
            return Err(MediaError::EmptyAudioAccessUnits);
        }
        if self.largest > u32::MAX as usize {
            return Err(MediaError::AudioAccessUnitTooLarge);
        }
        let mut info = self.info;
        info.max_access_unit_bytes = self.largest as u32;
        Ok(info)
    }
}

} // verus!
