use vivi::audio_stream::{AudioStep, AudioStreamer};
use vivi::error::{ErrorKind, StreamError};
use vivi::playback::{
    audio_covers_video, playback_timeline_us, KeyframeGate, PacketHeader, PlaybackState, SchedulePhase, VideoAction,
    VideoScheduler, AUDIO_PREBUFFER_US, INITIAL_BUFFER_US,
};
use vivi::stream_info::EncodedPacket;

fn packet(pts_us: i64, dts_us: i64, key: bool) -> EncodedPacket {
    EncodedPacket { data: vec![1], pts_us, dts_us, key }
}

#[test]
fn audio_horizon_gates_video_from_front_loaded_muxes() {
    let mut state = PlaybackState::new();
    for pts_us in [-21_333, 0, 21_333, 42_667, 64_000] {
        state.observe_audio_packet(pts_us, 21_333);
    }
    assert!(state.audio_buffered_us >= AUDIO_PREBUFFER_US);
    assert_eq!(state.audio_horizon_us, Some(85_333));

    let covered = EncodedPacket { data: vec![1], pts_us: 83_333, dts_us: 0, key: true };
    let video_ahead_of_audio = EncodedPacket { data: vec![2], pts_us: 250_000, dts_us: 41_667, key: false };
    assert!(audio_covers_video(&covered, state.audio_horizon_us));
    assert!(!audio_covers_video(&video_ahead_of_audio, state.audio_horizon_us));
    assert!(!audio_covers_video(&covered, None));
}

#[test]
fn untimed_audio_extends_a_known_horizon_only() {
    let mut state = PlaybackState::new();
    state.observe_audio_packet(i64::MIN, 20_000);
    assert_eq!(state.audio_horizon_us, None);
    assert_eq!(state.audio_buffered_us, 20_000);
    state.observe_audio_packet(100_000, 20_000);
    state.observe_audio_packet(i64::MIN, 20_000);
    assert_eq!(state.audio_horizon_us, Some(140_000));
    state.observe_audio_packet(0, 20_000);
    assert_eq!(state.audio_horizon_us, Some(140_000));
    state.observe_audio_packet(i64::MAX - 5, u64::MAX);
    assert_eq!(state.audio_horizon_us, Some(i64::MAX));
}

#[test]
fn untimed_video_is_always_covered_and_dts_stands_in_for_pts() {
    assert!(audio_covers_video(&packet(i64::MIN, i64::MIN, false), None));
    assert!(audio_covers_video(&packet(i64::MIN, 5, false), Some(5)));
    assert!(!audio_covers_video(&packet(i64::MIN, 6, false), Some(5)));
}

#[test]
fn keyframe_requests_advance_the_epoch_and_wait_for_a_keyframe() {
    let mut state = PlaybackState::new();
    assert_eq!(state.gate_packet(None, false), KeyframeGate::Proceed);
    state.playback_started = true;
    state.audio_buffered_us = 50_000;
    state.audio_horizon_us = Some(10);
    assert_eq!(state.gate_packet(Some(1), false), KeyframeGate::Drop);
    assert_eq!(state.epoch, 2);
    assert_eq!(state.gate_packet(None, false), KeyframeGate::Drop);
    assert_eq!(state.gate_packet(Some(7), true), KeyframeGate::Flush(7));
    assert!(!state.awaiting_keyframe);
    assert!(!state.playback_started);
    assert_eq!(state.audio_buffered_us, 0);
    assert_eq!(state.audio_horizon_us, None);
    assert_eq!(state.gate_packet(None, false), KeyframeGate::Proceed);
}

#[test]
fn packets_are_numbered_and_timed() {
    let mut state = PlaybackState::new();
    assert_eq!(state.record_packet(0, 10), Ok(None));
    assert_eq!(state.record_packet(100, 40), Ok(Some(PacketHeader { epoch: 1, packet_id: 1 })));
    assert_eq!(state.record_packet(50, 20), Ok(Some(PacketHeader { epoch: 1, packet_id: 2 })));
    assert_eq!(state.record_packet(5, i64::MIN), Ok(Some(PacketHeader { epoch: 1, packet_id: 3 })));
    assert_eq!(state.encoded_bytes, 155);
    assert_eq!(state.first_pts_us, Some(40));
    assert_eq!(state.last_pts_us, Some(40));
    state.packet_id = u64::MAX;
    assert_eq!(state.record_packet(1, 0), Err(StreamError::VideoPacketIdsExhausted));
    assert_eq!(StreamError::VideoPacketIdsExhausted.kind(), ErrorKind::Other);
}

#[test]
fn playback_start_starts_local_audio_once() {
    let mut state = PlaybackState::new();
    assert!(state.mark_playback_started(true));
    state.mark_audio_started();
    assert!(!state.mark_playback_started(true));
    assert!(!PlaybackState::new().mark_playback_started(false));
}

#[test]
fn held_video_waits_for_a_keyframe_and_enough_audio() {
    let mut scheduler = VideoScheduler::new(true);
    scheduler.accept_video(packet(0, 0, false));
    scheduler.accept_video(packet(40_000, 40_000, true));
    scheduler.accept_video(packet(80_000, 80_000, false));
    assert!(!scheduler.prepare_start());
    assert_eq!(scheduler.pending.len(), 2);
    assert!(scheduler.pending[0].key);
    scheduler.state.observe_audio_packet(0, 60_000);
    scheduler.state.observe_audio_packet(60_000, 60_000);
    assert!(scheduler.prepare_start());
    assert!(scheduler.next_covered_video().is_none());
    scheduler.state.mark_playback_started(false);
    let first = scheduler.next_covered_video().unwrap();
    assert_eq!(first.pts_us, 40_000);
    let second = scheduler.next_covered_video().unwrap();
    assert_eq!(second.pts_us, 80_000);
    assert!(scheduler.next_covered_video().is_none());
}

#[test]
fn unlinked_video_is_submitted_immediately() {
    let mut scheduler = VideoScheduler::new(false);
    scheduler.accept_video(packet(0, 0, true));
    scheduler.begin_round();
    match scheduler.next_action() {
        Ok(VideoAction::Submit { packet, start_after_packet }) => {
            assert!(packet.key);
            assert!(start_after_packet);
        }
        other => panic!("unexpected {other:?}"),
    }
    assert!(matches!(scheduler.next_action(), Ok(VideoAction::Wait)));
    assert_eq!(scheduler.phase, SchedulePhase::Idle);
    let mut linked = VideoScheduler::new(true);
    linked.accept_video(packet(0, 0, true));
    linked.drop_linked_audio();
    assert!(!linked.linked_audio);
    assert_eq!(linked.next_pending_video().unwrap().pts_us, 0);
}

#[test]
fn linked_rounds_start_only_after_the_audio_preroll() {
    let mut scheduler = VideoScheduler::new(true);
    scheduler.accept_video(packet(0, 0, false));
    scheduler.accept_video(packet(40_000, 40_000, true));
    scheduler.begin_round();
    assert!(matches!(scheduler.next_action(), Ok(VideoAction::Wait)));
    assert_eq!(scheduler.pending.len(), 1);
    scheduler.state.observe_audio_packet(0, 120_000);
    scheduler.begin_round();
    assert!(matches!(scheduler.next_action(), Ok(VideoAction::StartPlayback(AUDIO_PREBUFFER_US))));
    assert!(matches!(scheduler.next_action(), Ok(VideoAction::Wait)));
    scheduler.state.mark_playback_started(false);
    scheduler.begin_round();
    match scheduler.next_action() {
        Ok(VideoAction::Submit { packet, start_after_packet }) => {
            assert_eq!(packet.pts_us, 40_000);
            assert!(!start_after_packet);
        }
        other => panic!("unexpected {other:?}"),
    }
    assert!(matches!(scheduler.next_action(), Ok(VideoAction::Wait)));
    assert_eq!(scheduler.state.start_after_submit(false), None);
    assert_eq!(PlaybackState::new().start_after_submit(true), Some(INITIAL_BUFFER_US));
    assert_eq!(PlaybackState::new().start_after_submit(false), None);
}

#[test]
fn end_of_file_drains_then_starts() {
    let mut scheduler = VideoScheduler::new(true);
    scheduler.accept_video(packet(0, 0, true));
    scheduler.state.observe_audio_packet(0, 30_000);
    scheduler.finish_file();
    assert!(matches!(scheduler.next_action(), Ok(VideoAction::StartPlayback(30_000))));
    scheduler.state.mark_playback_started(false);
    assert!(matches!(
        scheduler.next_action(),
        Ok(VideoAction::Submit { start_after_packet: true, .. })
    ));
    scheduler.state.record_packet(1, 0).unwrap();
    assert!(matches!(scheduler.next_action(), Ok(VideoAction::Done)));
    assert!(matches!(scheduler.next_action(), Ok(VideoAction::Done)));

    let mut empty = VideoScheduler::new(false);
    empty.finish_file();
    assert!(matches!(empty.next_action(), Err(StreamError::NoVideoPackets)));
}

#[test]
fn end_of_file_starts_playback_when_needed() {
    let mut scheduler = VideoScheduler::new(true);
    assert_eq!(scheduler.start_before_drain(), None);
    assert_eq!(scheduler.start_after_drain(), Err(StreamError::NoVideoPackets));
    scheduler.accept_video(packet(0, 0, true));
    scheduler.state.observe_audio_packet(0, 30_000);
    assert_eq!(scheduler.start_before_drain(), Some(30_000));
    scheduler.state.record_packet(10, 0).unwrap();
    assert_eq!(scheduler.start_after_drain(), Ok(Some(30_000)));
    scheduler.state.mark_playback_started(false);
    assert_eq!(scheduler.start_after_drain(), Ok(None));
}

#[test]
fn timeline_runs_from_first_to_last_frame() {
    assert_eq!(playback_timeline_us(1_000, 5_000_000), 4_999_000);
    assert_eq!(playback_timeline_us(5, 1), 0);
    assert_eq!(playback_timeline_us(i64::MIN, i64::MAX), i64::MAX as u64);
}

#[test]
fn audio_only_streaming_starts_after_a_tenth_of_a_second() {
    let mut streamer = AudioStreamer::new();
    assert_eq!(streamer.on_packet(0, 50_000), Ok(AudioStep::Skip));
    assert_eq!(streamer.on_packet(10, 60_000), Ok(AudioStep::Send { packet_id: 1, start_playback: None }));
    assert_eq!(streamer.on_packet(10, 60_000), Ok(AudioStep::Send { packet_id: 2, start_playback: Some(100_000) }));
    assert_eq!(streamer.on_packet(10, 60_000), Ok(AudioStep::Send { packet_id: 3, start_playback: None }));
    assert_eq!(streamer.finish(), Ok(None));
    let mut short = AudioStreamer::new();
    short.on_packet(10, 30_000).unwrap();
    assert_eq!(short.finish(), Ok(Some(30_000)));
    assert_eq!(AudioStreamer::new().finish(), Err(StreamError::NoAudioPackets));
    assert_eq!(StreamError::NoAudioPackets.kind(), ErrorKind::UnexpectedEof);
}

#[test]
fn linked_audio_packets_are_numbered_separately() {
    let mut state = PlaybackState::new();
    assert_eq!(state.number_linked_audio(0), Ok(None));
    assert_eq!(state.number_linked_audio(10), Ok(Some(1)));
    assert_eq!(state.number_linked_audio(10), Ok(Some(2)));
    assert_eq!(state.record_packet(3, 0), Ok(Some(PacketHeader { epoch: 1, packet_id: 1 })));
    assert_eq!(state.audio_packet_id, 2);
    state.audio_packet_id = u64::MAX;
    assert_eq!(state.number_linked_audio(1), Err(StreamError::AudioPacketIdsExhausted));
    assert_eq!(state.audio_packet_id, u64::MAX);
}
