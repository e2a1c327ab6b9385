use whisper::recorder::{
    choose_input, find_16khz_config, needs_resampling, resampled_len, tap_at, ConfigRange,
    InputChoice, SampleKind, Tap, TARGET_SAMPLE_RATE,
};

fn range(channels: u16, min: u32, max: u32, kind: SampleKind) -> ConfigRange {
    ConfigRange { channels, min_sample_rate: min, max_sample_rate: max, sample_kind: kind }
}

#[test]
fn finds_first_mono_f32_range_covering_16khz() {
    let ranges = vec![
        range(2, 8_000, 48_000, SampleKind::F32),
        range(1, 8_000, 48_000, SampleKind::Other),
        range(1, 22_050, 48_000, SampleKind::F32),
        range(1, 8_000, 48_000, SampleKind::F32),
        range(1, 16_000, 16_000, SampleKind::F32),
    ];
    assert_eq!(find_16khz_config(&ranges), Some(3));
}

#[test]
fn no_range_covers_16khz() {
    let ranges = vec![range(2, 44_100, 48_000, SampleKind::F32)];
    assert_eq!(find_16khz_config(&ranges), None);
    assert_eq!(find_16khz_config(&Vec::new()), None);
}

#[test]
fn input_choice_prefers_16khz() {
    let ranges = vec![range(1, 16_000, 16_000, SampleKind::F32)];
    let c = choose_input(&ranges, 48_000);
    assert_eq!(c, InputChoice::Target { range_index: 0 });
    assert_eq!(c.native_sample_rate(), TARGET_SAMPLE_RATE);
}

#[test]
fn input_choice_falls_back_to_default_rate() {
    let ranges = vec![range(2, 44_100, 48_000, SampleKind::F32)];
    let c = choose_input(&ranges, 44_100);
    assert_eq!(c, InputChoice::DeviceDefault { sample_rate: 44_100 });
    assert_eq!(c.native_sample_rate(), 44_100);
}

#[test]
fn resampled_len_same_rate_is_identity() {
    assert_eq!(resampled_len(4, 16_000, 16_000), 4);
}

#[test]
fn resampled_len_empty_is_empty() {
    assert_eq!(resampled_len(0, 48_000, 16_000), 0);
}

#[test]
fn resampled_len_downsample() {
    assert_eq!(resampled_len(4800, 48_000, 16_000), 1600);
    assert_eq!(resampled_len(4801, 48_000, 16_000), 1601);
    assert_eq!(resampled_len(441, 44_100, 16_000), 160);
}

#[test]
fn resampled_len_upsample() {
    assert_eq!(resampled_len(800, 8_000, 16_000), 1600);
    assert_eq!(resampled_len(3, 11_025, 16_000), 5);
}

#[test]
fn taps_for_downsampling() {
    // 48 kHz -> 16 kHz: every third input sample.
    assert_eq!(tap_at(0, 4800, 48_000, 16_000), Tap::Blend { index: 0, frac_num: 0, frac_den: 16_000 });
    assert_eq!(tap_at(1, 4800, 48_000, 16_000), Tap::Blend { index: 3, frac_num: 0, frac_den: 16_000 });
    assert_eq!(tap_at(1599, 4800, 48_000, 16_000), Tap::Blend { index: 4797, frac_num: 0, frac_den: 16_000 });
}

#[test]
fn taps_for_upsampling() {
    // 8 kHz -> 16 kHz: halfway points between input samples.
    assert_eq!(tap_at(1, 800, 8_000, 16_000), Tap::Blend { index: 0, frac_num: 8_000, frac_den: 16_000 });
    assert_eq!(tap_at(2, 800, 8_000, 16_000), Tap::Blend { index: 1, frac_num: 0, frac_den: 16_000 });
    // The last output samples read the last input sample.
    assert_eq!(tap_at(1598, 800, 8_000, 16_000), Tap::Hold { index: 799 });
    assert_eq!(tap_at(1599, 800, 8_000, 16_000), Tap::Hold { index: 799 });
}

#[test]
fn resampling_needed_only_for_other_rates() {
    assert!(!needs_resampling(0, 48_000));
    assert!(!needs_resampling(100, 16_000));
    assert!(needs_resampling(100, 48_000));
}

#[test]
fn resampled_len_whole_ratio() {
    // 96 kHz -> 16 kHz keeps every sixth position: ceil(len / 6).
    assert_eq!(resampled_len(600, 96_000, 16_000), 100);
    assert_eq!(resampled_len(601, 96_000, 16_000), 101);
    assert_eq!(resampled_len(5, 96_000, 16_000), 1);
}
