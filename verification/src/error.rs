//! The library's error values and the I/O error kind each one is reported as.

use vstd::prelude::*;

verus! {

/// The category under which an error is reported to the user.
#[derive(Debug, Clone, Copy, PartialEq, Eq, Structural)]
pub enum ErrorKind {
    InvalidInput,
    InvalidData,
    NotFound,
    PermissionDenied,
    Unsupported,
    UnexpectedEof,
    Other,
}

/// Everything that the verified media logic can reject.
#[derive(Debug, Clone, Copy, PartialEq, Eq, Structural)]
pub enum MediaError {
    /// Opus private data does not start with `OpusHead`.
    OpusHeadMissing,
    /// Vorbis private data is shorter than its three length fields.
    VorbisTruncated,
    /// Vorbis private data is not three non-empty length-prefixed headers.
    VorbisPacking,
    /// FLAC private data has no 34-byte STREAMINFO payload.
    FlacNoStreamInfo,
    /// FLAC private data starts with a block that is not STREAMINFO.
    FlacNotStreamInfo,
    /// H.264/HEVC private data is neither Annex B nor an avcC/hvcC record.
    H26xUnsupported,
    /// hvcC record shorter than its fixed header.
    HvccTruncated,
    /// hvcC parameter-set array header runs past the record.
    HvccArrayTruncated,
    /// hvcC record has bytes after its last array.
    HvccTrailing,
    /// avcC record shorter than its fixed header.
    AvccTruncated,
    /// avcC record ends before its PPS count.
    AvccMissingPpsCount,
    /// A parameter-set length field runs past the record.
    NalLengthTruncated,
    /// A parameter set runs past the record.
    NalExceedsExtradata,
    /// NAL length fields must be one to four bytes.
    InvalidNalLengthSize,
    /// An access unit ends inside a NAL length field.
    AccessUnitLengthTruncated,
    /// A NAL runs past the end of its access unit.
    AccessUnitNalExceedsPacket,
    /// Declared colour primaries have no Vivid equivalent.
    PrimariesUnsupported,
    /// Declared transfer characteristic has no Vivid equivalent.
    TransferUnsupported,
    /// Declared matrix coefficients have no Vivid equivalent.
    MatrixUnsupported,
    /// Declared signal range has no Vivid equivalent.
    RangeUnsupported,
    /// Video width is not a positive value.
    InvalidWidth,
    /// Video height is not a positive value.
    InvalidHeight,
    /// Codec private data is negative or larger than the accepted maximum.
    InvalidExtradataSize,
    /// Codec private data has a size but no bytes.
    ExtradataPointerNull,
    /// Audio private data is negative or larger than the accepted maximum.
    InvalidAudioExtradata,
    /// Audio private data has a size but no bytes.
    AudioExtradataPointerNull,
    /// The video codec has no portable Vivid packetization.
    UnsupportedVideoCodec,
    /// The video stream's time base is not positive.
    InvalidVideoTimeBase,
    /// The audio stream's time base is not positive.
    InvalidAudioTimeBase,
    /// An audio packet arrived for a stream that has no time base.
    AudioTimeBaseMissing,
    /// The demuxer produced a packet with a negative size or no data.
    InvalidPacket,
    /// The video stream has no access units.
    NoVideoAccessUnits,
    /// A video access unit is larger than `u32::MAX` bytes.
    AccessUnitTooLarge,
    /// An audio access unit is larger than `u32::MAX` bytes.
    AudioAccessUnitTooLarge,
    /// Every audio access unit is empty.
    EmptyAudioAccessUnits,
    /// The output sample rate does not fit the decoder's integer type.
    OutputSampleRateTooLarge,
    /// The output sample rate or channel count is zero.
    InvalidOutputConfig,
    /// The decoded audio stream declares no sample rate.
    MissingSampleRate,
    /// A resampled frame does not fit in memory.
    ResampledFrameTooLarge,
}

impl MediaError {
    /// The I/O error kind under which the error is reported.
    pub open spec fn spec_kind(self) -> ErrorKind {
        match self {
            MediaError::PrimariesUnsupported
            | MediaError::TransferUnsupported
            | MediaError::MatrixUnsupported
            | MediaError::RangeUnsupported
            | MediaError::UnsupportedVideoCodec => ErrorKind::Unsupported,
            MediaError::NoVideoAccessUnits => ErrorKind::UnexpectedEof,
            MediaError::OutputSampleRateTooLarge | MediaError::InvalidOutputConfig => ErrorKind::InvalidInput,
            MediaError::ResampledFrameTooLarge => ErrorKind::Other,
            _ => ErrorKind::InvalidData,
        }
    }

    /// The I/O error kind under which the error is reported.
    pub fn kind(&self) -> (kind: ErrorKind)
        ensures
            kind == self.spec_kind(),
    {
        match self {
            MediaError::PrimariesUnsupported
            | MediaError::TransferUnsupported
            | MediaError::MatrixUnsupported
            | MediaError::RangeUnsupported
            | MediaError::UnsupportedVideoCodec => ErrorKind::Unsupported,
            MediaError::NoVideoAccessUnits => ErrorKind::UnexpectedEof,
            MediaError::OutputSampleRateTooLarge | MediaError::InvalidOutputConfig => ErrorKind::InvalidInput,
            MediaError::ResampledFrameTooLarge => ErrorKind::Other,
            _ => ErrorKind::InvalidData,
        }
    }
}


/// Errors of a media session that ends early.
#[derive(Debug, Clone, Copy, PartialEq, Eq, Structural)]
pub enum StreamError {
    /// Every video packet identifier has been used.
    VideoPacketIdsExhausted,
    /// Every audio packet identifier has been used.
    AudioPacketIdsExhausted,
    /// The video file produced no non-empty packet.
    NoVideoPackets,
    /// The audio file produced no non-empty packet.
    NoAudioPackets,
}

impl StreamError {
    /// The I/O error kind under which the error is reported.
    pub open spec fn spec_kind(self) -> ErrorKind {
        match self {
            StreamError::VideoPacketIdsExhausted | StreamError::AudioPacketIdsExhausted => ErrorKind::Other,
            StreamError::NoVideoPackets | StreamError::NoAudioPackets => ErrorKind::UnexpectedEof,
        }
    }

    /// The I/O error kind under which the error is reported.
    pub fn kind(&self) -> (kind: ErrorKind)
        ensures
            kind == self.spec_kind(),
    {
        match self {
            StreamError::VideoPacketIdsExhausted | StreamError::AudioPacketIdsExhausted => ErrorKind::Other,
            StreamError::NoVideoPackets | StreamError::NoAudioPackets => ErrorKind::UnexpectedEof,
        }
    }
}

} // verus!
