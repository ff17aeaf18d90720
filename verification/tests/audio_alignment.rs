use vivi::audio_output::{check_input_sample_rate, ring_buffer_capacity};
use vivi::audio_output::{
    check_output_config, prebuffer_samples, resample_capacity, unsupported_platform_error, SampleAligner,
};
use vivi::error::{ErrorKind, MediaError};
use vivi::timing::alignment_samples;

#[test]
fn alignment_inserts_interleaved_silence_for_late_audio() {
    assert_eq!(alignment_samples(Some(0), Some(250_000), 48_000, 2), 24_000);
}

#[test]
fn alignment_trims_interleaved_samples_for_early_audio() {
    assert_eq!(alignment_samples(Some(500_000), Some(0), 48_000, 2), -48_000);
}

#[test]
fn alignment_starts_together_without_both_timestamps() {
    assert_eq!(alignment_samples(None, Some(10), 48_000, 2), 0);
    assert_eq!(alignment_samples(Some(10), None, 48_000, 2), 0);
}

#[test]
fn unsupported_platform_error_is_explicit() {
    let error = unsupported_platform_error();
    assert_eq!(error.kind(), ErrorKind::Unsupported);
    assert!(error.message().contains("macOS, Linux, and Windows"));
}

#[test]
fn alignment_is_antisymmetric_for_ordinary_origins() {
    let late = alignment_samples(Some(1_000), Some(21_833), 44_100, 2);
    let early = alignment_samples(Some(21_833), Some(1_000), 44_100, 2);
    assert_eq!(late, 1_837);
    assert_eq!(early, -1_837);
}

#[test]
fn alignment_truncates_toward_zero() {
    assert_eq!(alignment_samples(Some(0), Some(1), 48_000, 1), 0);
    assert_eq!(alignment_samples(Some(1), Some(0), 48_000, 1), 0);
    assert_eq!(alignment_samples(Some(0), Some(21), 48_000, 1), 1);
    assert_eq!(alignment_samples(Some(21), Some(0), 48_000, 1), -1);
}

#[test]
fn alignment_clamps_extreme_origins() {
    assert_eq!(alignment_samples(Some(i64::MIN), Some(i64::MAX), u32::MAX, u16::MAX), i64::MAX);
    assert_eq!(alignment_samples(Some(i64::MAX), Some(i64::MIN), u32::MAX, u16::MAX), i64::MIN);
}

#[test]
fn prebuffer_is_a_tenth_of_a_second_of_interleaved_samples() {
    assert_eq!(prebuffer_samples(48_000, 2), 9_600);
    assert_eq!(prebuffer_samples(44_100, 1), 4_410);
    assert_eq!(prebuffer_samples(0, 2), 0);
}

#[test]
fn output_configuration_must_fit_the_decoder() {
    assert_eq!(check_output_config(48_000, 2), Ok((48_000, 2)));
    assert_eq!(check_output_config(u32::MAX, 2), Err(MediaError::OutputSampleRateTooLarge));
    assert_eq!(check_output_config(0, 2), Err(MediaError::InvalidOutputConfig));
    assert_eq!(check_output_config(48_000, 0), Err(MediaError::InvalidOutputConfig));
    assert_eq!(MediaError::InvalidOutputConfig.kind(), ErrorKind::InvalidInput);
}

#[test]
fn resample_capacity_scales_with_headroom() {
    assert_eq!(resample_capacity(1_024, 48_000, 44_100, 2), Ok((1_370, 2_740)));
    assert_eq!(resample_capacity(1, 8_000, 48_000, 1), Ok((256, 256)));
    assert_eq!(resample_capacity(i32::MAX, i32::MAX, 1, 1), Ok((i32::MAX, i32::MAX as usize)));
    assert_eq!(resample_capacity(1_024, 0, 44_100, 2), Ok((256, 512)));
    assert_eq!(resample_capacity(1_024, 48_000, 44_100, 0), Ok((1_370, 0)));
    assert_eq!(resample_capacity(1_000, -48_000, 1, 2), Ok((1, 2)));
}

#[test]
fn aligner_pads_late_audio_and_trims_early_audio() {
    let mut late = SampleAligner::new();
    assert_eq!(late.align(24_000), 24_000);
    assert_eq!(late.trim_frame(100), 0);

    let mut early = SampleAligner::new();
    assert_eq!(early.align(-150), 0);
    assert_eq!(early.trim_frame(100), 100);
    assert_eq!(early.trim_frame(100), 50);
    assert_eq!(early.trim_frame(100), 0);
    assert!(early.aligned);
}

#[test]
fn ring_and_input_rate_are_checked() {
    assert_eq!(ring_buffer_capacity(48_000, 2), 192_000);
    assert_eq!(ring_buffer_capacity(0, 2), 1);
    assert_eq!(check_input_sample_rate(44_100), Ok(44_100));
    assert_eq!(check_input_sample_rate(0), Err(MediaError::MissingSampleRate));
    assert_eq!(check_input_sample_rate(-1), Err(MediaError::MissingSampleRate));
}
