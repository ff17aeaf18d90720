use vivi::stream_info::{select_stream, MEDIA_TYPE_AUDIO, MEDIA_TYPE_VIDEO};
use vivi::colorimetry::{
    map_matrix, map_primaries, map_range, map_transfer, MATRIX_UNSPECIFIED, PRIMARIES_UNSPECIFIED,
    RANGE_UNSPECIFIED, TRANSFER_UNSPECIFIED,
};
use vivi::error::{ErrorKind, MediaError};
use vivi::stream_info::{
    audio_info, audio_packetization, check_audio_time_base, check_video_time_base, encoded_audio_packet,
    encoded_video_packet, route_packet, stream_start_us, video_info, video_payload, AudioInspection,
    AudioPacketization, AudioParameters, EncodedAudioPacket, EncodedMediaPacket, EncodedPacket, PacketRoute,
    VideoInspection, VideoParameters,
};
use vivi::timing::{skip_samples, timestamp_duration_us, timestamp_us, Rational, NO_TIMESTAMP};

fn video_parameters() -> VideoParameters {
    VideoParameters {
        width: 1920,
        height: 1080,
        extradata_size: 0,
        profile: 100,
        level: 40,
        bit_rate: 8_000_000,
        color_primaries: 1,
        color_trc: 1,
        color_space: 1,
        color_range: 1,
        sar_num: 0,
        sar_den: 1,
    }
}

fn audio_parameters() -> AudioParameters {
    AudioParameters { extradata_size: 0, sample_rate: 48_000, channels: 2, channel_order: 1, channel_mask: 3, bit_rate: 128_000 }
}

#[test]
fn timestamps_convert_to_microseconds() {
    assert_eq!(timestamp_us(90_000, Rational { num: 1, den: 90_000 }), 1_000_000);
    assert_eq!(timestamp_us(NO_TIMESTAMP, Rational { num: 1, den: 1 }), i64::MIN);
}

#[test]
fn unspecified_colorimetry_uses_sd_and_hd_defaults() {
    assert_eq!(map_primaries(PRIMARIES_UNSPECIFIED, 480).unwrap(), 3);
    assert_eq!(map_primaries(PRIMARIES_UNSPECIFIED, 576).unwrap(), 2);
    assert_eq!(map_primaries(PRIMARIES_UNSPECIFIED, 720).unwrap(), 1);
    assert_eq!(map_transfer(TRANSFER_UNSPECIFIED).unwrap(), 1);
    assert_eq!(map_matrix(MATRIX_UNSPECIFIED, 480).unwrap(), 2);
    assert_eq!(map_matrix(MATRIX_UNSPECIFIED, 720).unwrap(), 1);
    assert_eq!(map_range(RANGE_UNSPECIFIED).unwrap(), 1);
}

#[test]
fn declared_unsupported_colorimetry_still_fails() {
    assert!(map_primaries(22, 1080).is_err());
    assert!(map_transfer(22).is_err());
    assert!(map_matrix(22, 1080).is_err());
    assert!(map_range(22).is_err());
}

#[test]
fn declared_colorimetry_maps_to_vivid_codes() {
    assert_eq!(map_primaries(5, 1080), Ok(2));
    assert_eq!(map_primaries(9, 480), Ok(4));
    assert_eq!(map_transfer(13), Ok(2));
    assert_eq!(map_matrix(0, 1080), Ok(0));
    assert_eq!(map_matrix(6, 1080), Ok(2));
    assert_eq!(map_matrix(9, 1080), Ok(3));
    assert_eq!(map_range(2), Ok(2));
    assert_eq!(map_primaries(22, 1080), Err(MediaError::PrimariesUnsupported));
    assert_eq!(MediaError::PrimariesUnsupported.kind(), ErrorKind::Unsupported);
}

#[test]
fn timestamps_round_toward_zero_and_saturate() {
    assert_eq!(timestamp_us(-3, Rational { num: 1, den: 2_000_000 }), -1);
    assert_eq!(timestamp_us(3, Rational { num: 1, den: 2_000_000 }), 1);
    assert_eq!(timestamp_us(i64::MAX, Rational { num: 1, den: 1 }), i64::MAX);
    assert_eq!(timestamp_us(i64::MIN + 1, Rational { num: 1, den: 1 }), i64::MIN);
    assert_eq!(timestamp_us(1, Rational { num: 1, den: -1 }), -1_000_000);
    assert_eq!(timestamp_duration_us(0, Rational { num: 1, den: 1000 }), 0);
    assert_eq!(timestamp_duration_us(-5, Rational { num: 1, den: 1000 }), 0);
    assert_eq!(timestamp_duration_us(20, Rational { num: 1, den: 1000 }), 20_000);
    assert_eq!(timestamp_duration_us(20, Rational { num: -1, den: 1000 }), u64::MAX);
}

#[test]
fn stream_start_needs_a_time_and_a_positive_base() {
    assert_eq!(stream_start_us(4_500, Rational { num: 1, den: 90_000 }), Some(50_000));
    assert_eq!(stream_start_us(NO_TIMESTAMP, Rational { num: 1, den: 90_000 }), None);
    assert_eq!(stream_start_us(4_500, Rational { num: 0, den: 90_000 }), None);
    assert_eq!(stream_start_us(4_500, Rational { num: 1, den: 0 }), None);
}

#[test]
fn time_bases_must_be_positive() {
    let base = Rational { num: 1, den: 25 };
    assert_eq!(check_video_time_base(base), Ok(base));
    assert_eq!(check_video_time_base(Rational { num: 0, den: 25 }), Err(MediaError::InvalidVideoTimeBase));
    assert_eq!(check_audio_time_base(Rational { num: 1, den: -48_000 }), Err(MediaError::InvalidAudioTimeBase));
    assert_eq!(check_audio_time_base(base), Ok(base));
}

#[test]
fn skip_side_data_gives_both_trims() {
    assert_eq!(skip_samples(Some(&[0x38, 0x01, 0, 0, 0x10, 0, 0, 0, 9, 9])), (312, 16));
    assert_eq!(skip_samples(Some(&[1, 2, 3, 4, 5, 6, 7])), (0, 0));
    assert_eq!(skip_samples(None), (0, 0));
}

#[test]
fn video_streams_are_described_from_their_parameters() {
    let mut avcc = vec![1, 0x64, 0, 0x28, 0xff, 0xe1, 0, 2, 0x67, 0x64, 1, 0, 2, 0x68, 0xee];
    let mut parameters = video_parameters();
    parameters.extradata_size = avcc.len() as i32;
    let (info, nal_length_size) = video_info(parameters, "h264".into(), Some(avcc.clone())).unwrap();
    assert_eq!(nal_length_size, Some(4));
    assert_eq!(info.codec, "h264");
    assert_eq!(info.packetization, "h264-annexb-au-v1");
    assert_eq!(info.extradata, vec![0, 0, 0, 1, 0x67, 0x64, 0, 0, 0, 1, 0x68, 0xee]);
    assert_eq!((info.width, info.height), (1920, 1080));
    assert_eq!((info.sar_num, info.sar_den), (1, 1));
    assert!(!info.colorimetry_inferred);
    assert_eq!(info.first_pts_us, None);
    assert!(!info.has_audio);

    avcc[0] = 2;
    assert_eq!(video_info(parameters, "h264".into(), Some(avcc)).unwrap_err(), MediaError::H26xUnsupported);

    let mut vp9 = video_parameters();
    vp9.extradata_size = 3;
    vp9.color_primaries = PRIMARIES_UNSPECIFIED;
    vp9.sar_num = 4;
    vp9.sar_den = 3;
    let (info, nal_length_size) = video_info(vp9, "vp9".into(), Some(vec![1, 2, 3])).unwrap();
    assert_eq!(nal_length_size, None);
    assert!(info.extradata.is_empty());
    assert_eq!(info.packetization, "vp9-frame-v1");
    assert!(info.colorimetry_inferred);
    assert_eq!(info.color_primaries, 1);
    assert_eq!((info.sar_num, info.sar_den), (4, 3));

    let (info, _) = video_info(vp9, "av1".into(), Some(vec![1, 2, 3])).unwrap();
    assert_eq!(info.extradata, vec![1, 2, 3]);
    assert_eq!(info.packetization, "av1-low-overhead-tu-v1");
}

#[test]
fn video_streams_are_checked_in_order() {
    let mut parameters = video_parameters();
    parameters.width = 0;
    parameters.color_primaries = 22;
    assert_eq!(video_info(parameters, "mpeg4".into(), None).unwrap_err(), MediaError::InvalidWidth);
    parameters.width = 640;
    parameters.height = -1;
    assert_eq!(video_info(parameters, "mpeg4".into(), None).unwrap_err(), MediaError::InvalidHeight);
    parameters.height = 480;
    parameters.extradata_size = -1;
    assert_eq!(video_info(parameters, "mpeg4".into(), None).unwrap_err(), MediaError::InvalidExtradataSize);
    parameters.extradata_size = 4;
    assert_eq!(video_info(parameters, "mpeg4".into(), None).unwrap_err(), MediaError::ExtradataPointerNull);
    parameters.extradata_size = 0;
    assert_eq!(video_info(parameters, "mpeg4".into(), None).unwrap_err(), MediaError::UnsupportedVideoCodec);
    assert_eq!(video_info(parameters, "vp9".into(), None).unwrap_err(), MediaError::PrimariesUnsupported);
    assert_eq!(MediaError::UnsupportedVideoCodec.kind(), ErrorKind::Unsupported);
}

#[test]
fn audio_streams_are_described_from_their_parameters() {
    assert_eq!(audio_packetization("aac"), AudioPacketization::AacRawAccessUnit);
    assert_eq!(audio_packetization("pcm_s16le"), AudioPacketization::PcmPacket);
    assert_eq!(audio_packetization("pcm_s16be"), AudioPacketization::Unsupported);

    let mut opus_head = b"OpusHead".to_vec();
    opus_head.extend_from_slice(&[1, 2, 0x38, 0x01, 0x80, 0xbb, 0, 0, 0, 0, 0]);
    let mut parameters = audio_parameters();
    parameters.extradata_size = opus_head.len() as i32;
    let info = audio_info(parameters, "opus".into(), Some(opus_head.clone()), 0, Rational { num: 1, den: 48_000 }).unwrap();
    assert_eq!(info.codec, "opus");
    assert_eq!(info.packetization, AudioPacketization::OpusPacket);
    assert_eq!(info.extradata, opus_head);
    assert_eq!((info.sample_rate, info.channels, info.channel_mask), (48_000, 2, 3));
    assert_eq!(info.first_pts_us, Some(0));
    assert_eq!(info.max_access_unit_bytes, 0);

    let mut custom = audio_parameters();
    custom.channel_order = 3;
    custom.sample_rate = -1;
    custom.channels = 70_000;
    let info = audio_info(custom, "mp3".into(), None, NO_TIMESTAMP, Rational { num: 1, den: 44_100 }).unwrap();
    assert_eq!((info.sample_rate, info.channels, info.channel_mask), (0, 0, u64::MAX));
    assert_eq!(info.first_pts_us, None);

    assert_eq!(
        audio_info(parameters, "opus".into(), Some(b"OpusTags-truncated-".to_vec()), 0, Rational { num: 1, den: 1 }).unwrap_err(),
        MediaError::OpusHeadMissing
    );
    assert_eq!(
        audio_info(parameters, "opus".into(), None, 0, Rational { num: 1, den: 1 }).unwrap_err(),
        MediaError::AudioExtradataPointerNull
    );
    parameters.extradata_size = 16_777_217;
    assert_eq!(
        audio_info(parameters, "opus".into(), None, 0, Rational { num: 1, den: 1 }).unwrap_err(),
        MediaError::InvalidAudioExtradata
    );
}

#[test]
fn packets_are_routed_by_stream() {
    assert_eq!(route_packet(0, Some(0), Some(1), 10, true), Ok(PacketRoute::Video));
    assert_eq!(route_packet(1, Some(0), Some(1), 0, false), Ok(PacketRoute::Audio));
    assert_eq!(route_packet(2, Some(0), Some(1), -1, false), Ok(PacketRoute::Skip));
    assert_eq!(route_packet(1, Some(0), None, 10, true), Ok(PacketRoute::Skip));
    assert_eq!(route_packet(0, Some(0), None, -1, true), Err(MediaError::InvalidPacket));
    assert_eq!(route_packet(1, Some(0), Some(1), 5, false), Err(MediaError::InvalidPacket));
}

#[test]
fn access_units_are_converted_and_timed() {
    let payload = video_payload(vec![0, 0, 0, 2, 0x65, 0x88], Some(4)).unwrap();
    assert_eq!(payload, vec![0, 0, 0, 1, 0x65, 0x88]);
    assert_eq!(video_payload(vec![9, 9], None).unwrap(), vec![9, 9]);
    assert_eq!(video_payload(vec![0, 0, 0, 9, 1], Some(4)), Err(MediaError::AccessUnitNalExceedsPacket));

    let packet = encoded_video_packet(vec![1, 2], true, 3_000, 1_500, Rational { num: 1, den: 90_000 });
    assert_eq!((packet.pts_us, packet.dts_us, packet.key), (33_333, 16_666, true));

    let side = [0x38, 0x01, 0, 0, 0x10, 0, 0, 0];
    let base = Some(Rational { num: 1, den: 48_000 });
    let opus = encoded_audio_packet(vec![7], 960, 960, 960, base, Some(&side), "opus").unwrap();
    assert_eq!((opus.pts_us, opus.duration_us, opus.trim_start_samples, opus.trim_end_samples), (20_000, 20_000, 0, 16));
    let aac = encoded_audio_packet(vec![7], 960, 960, 960, base, Some(&side), "aac").unwrap();
    assert_eq!((aac.trim_start_samples, aac.trim_end_samples), (312, 16));
    assert_eq!(
        encoded_audio_packet(vec![7], 0, 0, 0, None, None, "aac").unwrap_err(),
        MediaError::AudioTimeBaseMissing
    );
}

#[test]
fn inspection_records_largest_units_and_first_times() {
    let parameters = video_parameters();
    let (mut info, _) = video_info(parameters, "av1".into(), None).unwrap();
    info.audio = Some(audio_info(audio_parameters(), "mp3".into(), None, NO_TIMESTAMP, Rational { num: 1, den: 1 }).unwrap());
    let mut inspection = VideoInspection::new(info);
    let video = |len: usize, pts_us: i64| EncodedMediaPacket::Video(EncodedPacket { data: vec![0; len], pts_us, dts_us: pts_us, key: false });
    let audio = |len: usize, pts_us: i64| {
        EncodedMediaPacket::Audio(EncodedAudioPacket {
            data: vec![0; len],
            pts_us,
            dts_us: pts_us,
            duration_us: 0,
            trim_start_samples: 0,
            trim_end_samples: 0,
        })
    };
    inspection.observe(&video(10, NO_TIMESTAMP));
    inspection.observe(&audio(4, 5_000));
    inspection.observe(&video(30, 40_000));
    inspection.observe(&video(20, 0));
    inspection.observe(&audio(6, 1_000));
    let info = inspection.finish().unwrap();
    assert_eq!(info.max_access_unit_bytes, 30);
    assert_eq!(info.first_pts_us, Some(40_000));
    let stream = info.audio.unwrap();
    assert_eq!(stream.max_access_unit_bytes, 6);
    assert_eq!(stream.first_pts_us, Some(5_000));

    let (info, _) = video_info(parameters, "av1".into(), None).unwrap();
    let mut silent = VideoInspection::new(info);
    silent.observe(&video(0, 0));
    assert_eq!(silent.finish().unwrap_err(), MediaError::NoVideoAccessUnits);
    assert_eq!(MediaError::NoVideoAccessUnits.kind(), ErrorKind::UnexpectedEof);

    let (mut info, _) = video_info(parameters, "av1".into(), None).unwrap();
    info.audio = Some(audio_info(audio_parameters(), "mp3".into(), None, NO_TIMESTAMP, Rational { num: 1, den: 1 }).unwrap());
    let mut empty_audio = VideoInspection::new(info);
    empty_audio.observe(&video(5, 0));
    empty_audio.observe(&audio(0, 0));
    assert!(empty_audio.finish().unwrap().audio.is_none());

    let mut audio_only = AudioInspection::new(audio_info(audio_parameters(), "pcm_s16le".into(), None, NO_TIMESTAMP, Rational { num: 1, den: 1 }).unwrap());
    audio_only.observe(&EncodedAudioPacket { data: vec![], pts_us: NO_TIMESTAMP, dts_us: 0, duration_us: 0, trim_start_samples: 0, trim_end_samples: 0 });
    audio_only.observe(&EncodedAudioPacket { data: vec![1, 2, 3], pts_us: 2_000, dts_us: 0, duration_us: 0, trim_start_samples: 0, trim_end_samples: 0 });
    let info = audio_only.finish().unwrap();
    assert_eq!((info.max_access_unit_bytes, info.first_pts_us), (3, Some(2_000)));
    let empty = AudioInspection::new(audio_info(audio_parameters(), "pcm_s16le".into(), None, NO_TIMESTAMP, Rational { num: 1, den: 1 }).unwrap());
    assert_eq!(empty.finish().unwrap_err(), MediaError::EmptyAudioAccessUnits);
}

#[test]
fn first_stream_of_each_kind_is_selected() {
    let streams = [Some(3), None, Some(MEDIA_TYPE_AUDIO), Some(MEDIA_TYPE_VIDEO), Some(MEDIA_TYPE_AUDIO)];
    assert_eq!(select_stream(&streams, MEDIA_TYPE_VIDEO), Some(3));
    assert_eq!(select_stream(&streams, MEDIA_TYPE_AUDIO), Some(2));
    assert_eq!(select_stream(&streams[..2], MEDIA_TYPE_AUDIO), None);
    assert_eq!(select_stream(&[], MEDIA_TYPE_VIDEO), None);
}
