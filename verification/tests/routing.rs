use vivi::routing::{playback_attempts, Player};
use vivi::config::Config;
use vivi::error::ErrorKind;
use vivi::routing::{
    direct_audio_permitted, extension_is_audio, extension_is_video, looks_like_audio, looks_like_video, media_hint,
    presenter_audio_failure, validate_audio_mode, video_audio_plan, AudioModeError, MediaHint, PresenterAudioFailure,
};

#[test]
fn recognizes_common_video_extensions_case_insensitively() {
    assert!(looks_like_video("clip.MKV"));
    assert!(looks_like_video("clip.mp4"));
    assert!(!looks_like_video("photo.png"));
}

#[test]
fn recognizes_supported_audio_extensions_case_insensitively() {
    assert!(looks_like_audio("song.MP3"));
    assert!(looks_like_audio("recording.m4a"));
    assert!(looks_like_audio("sample.WAV"));
    assert!(!looks_like_audio("photo.png"));
}

#[test]
fn extension_hints_route_audio_before_generic_decoder_fallback() {
    assert_eq!(media_hint("clip.mp4"), MediaHint::Video);
    assert_eq!(media_hint("song.m4a"), MediaHint::Audio);
    assert_eq!(media_hint("extensionless"), MediaHint::Unknown);
}

#[test]
fn audio_only_rejects_no_wait_but_allows_deterministic_dry_run() {
    let mut config = Config {
        files: vec!["song.mp3".into()],
        zoom_bits: 1.0_f32.to_bits(),
        endpoint: None,
        bulk_endpoint: None,
        token: None,
        dry_run: false,
        trace_dir: None,
        verbose: false,
        no_wait: true,
    };
    assert!(validate_audio_mode(&config).is_err());
    config.no_wait = false;
    config.dry_run = true;
    assert!(validate_audio_mode(&config).is_ok());
}

#[test]
fn extension_lists_are_exact_and_disjoint() {
    for video in ["mp4", "mkv", "avi", "mov", "webm", "flv", "wmv", "m4v", "mpg", "mpeg", "3gp"] {
        assert!(extension_is_video(video));
        assert!(!extension_is_audio(video));
    }
    for audio in ["mp3", "m4a", "wav", "flac", "ogg", "opus"] {
        assert!(extension_is_audio(audio));
        assert!(!extension_is_video(audio));
    }
    assert!(extension_is_video("MP4") && extension_is_audio("WaV"));
    assert!(!extension_is_video(""));
    assert!(!extension_is_audio("mp33"));
}

#[test]
fn extension_is_taken_after_the_last_dot_of_the_file_name() {
    assert!(looks_like_video("/media/archive.tar.mp4"));
    assert!(!looks_like_video("/media/mp4"));
    assert!(!looks_like_video(".mp4"));
    assert_eq!(media_hint("dir.mkv/cover.JPG"), MediaHint::Unknown);
    assert_eq!(media_hint("Track.Opus"), MediaHint::Audio);
}

#[test]
fn audio_fallbacks_follow_the_session_kind() {
    assert_eq!(presenter_audio_failure(true, false), PresenterAudioFailure::FailRemote);
    assert_eq!(presenter_audio_failure(true, true), PresenterAudioFailure::FailRemote);
    assert_eq!(presenter_audio_failure(false, true), PresenterAudioFailure::Fail);
    assert_eq!(presenter_audio_failure(false, false), PresenterAudioFailure::UseDirectOutput);
    assert_eq!(direct_audio_permitted(true, false), Err(AudioModeError::RemoteNeedsPresenterAudio));
    assert_eq!(direct_audio_permitted(true, true), Err(AudioModeError::RemoteNeedsPresenterAudio));
    assert_eq!(direct_audio_permitted(false, true), Err(AudioModeError::DryRunNeedsPresenterAudio));
    assert_eq!(direct_audio_permitted(false, false), Ok(()));
    assert_eq!(AudioModeError::DryRunNeedsPresenterAudio.kind(), ErrorKind::Unsupported);
    assert_eq!(AudioModeError::RemoteNeedsPresenterAudio.kind(), ErrorKind::Unsupported);
    assert_eq!(AudioModeError::NoWaitAudioOnly.kind(), ErrorKind::InvalidInput);
}

#[test]
fn video_sound_goes_one_way() {
    let linked = video_audio_plan(true, true, true, false, false, false);
    assert!(linked.linked && !linked.direct && linked.direct_on_link_failure);
    let local = video_audio_plan(true, false, true, false, false, false);
    assert!(!local.linked && local.direct);
    let remote = video_audio_plan(true, false, false, false, false, true);
    assert!(!remote.linked && !remote.direct && !remote.direct_on_link_failure && remote.warn_no_remote_audio);
    let dry = video_audio_plan(true, true, false, false, true, false);
    assert!(!dry.linked && !dry.direct && !dry.direct_on_link_failure);
    let no_wait = video_audio_plan(true, true, true, true, false, true);
    assert!(!no_wait.linked && !no_wait.direct && !no_wait.warn_no_remote_audio);
    let silent = video_audio_plan(false, false, true, false, false, false);
    assert!(!silent.linked && !silent.direct);
}

#[test]
fn unknown_files_are_tried_as_image_then_video_then_audio() {
    assert_eq!(playback_attempts(MediaHint::Video), vec![Player::Video]);
    assert_eq!(playback_attempts(MediaHint::Audio), vec![Player::Audio]);
    assert_eq!(playback_attempts(MediaHint::Unknown), vec![Player::Image, Player::Video, Player::Audio]);
}
