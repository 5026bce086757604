use rustpotter_cli::cli::record::{
    get_config, is_compatible_buffer_size, is_compatible_format, plan_write, remaining_samples,
    try_get_config_with_sample_rate, wav_spec_from_config, ConfigError, SampleFormat,
    SupportedBufferSize, SupportedStreamConfig, SupportedStreamConfigRange, WavSampleFormat,
    WavSpec, WritePlan,
};

fn range(format: SampleFormat, min: u32, max: u32) -> SupportedStreamConfigRange {
    SupportedStreamConfigRange {
        channels: 2,
        min_sample_rate: min,
        max_sample_rate: max,
        buffer_size: SupportedBufferSize::Range { min: 64, max: 4096 },
        sample_format: format,
    }
}

#[test]
fn compatible_formats_are_i8_i16_i32_f32() {
    assert!(is_compatible_format(&SampleFormat::I16));
    assert!(is_compatible_format(&SampleFormat::I32));
    assert!(is_compatible_format(&SampleFormat::F32));
    assert!(is_compatible_format(&SampleFormat::I8));
    assert!(!is_compatible_format(&SampleFormat::U8));
    assert!(!is_compatible_format(&SampleFormat::U16));
    assert!(!is_compatible_format(&SampleFormat::F64));
}

#[test]
fn buffer_size_within_range() {
    let supported = SupportedBufferSize::Range { min: 256, max: 1024 };
    assert!(is_compatible_buffer_size(&supported, 256));
    assert!(is_compatible_buffer_size(&supported, 1024));
    assert!(!is_compatible_buffer_size(&supported, 255));
    assert!(!is_compatible_buffer_size(&supported, 1025));
    assert!(is_compatible_buffer_size(&SupportedBufferSize::Unknown, 7));
}

#[test]
fn preferred_rate_used_when_in_range() {
    let sc = range(SampleFormat::I16, 8000, 48000);
    assert_eq!(try_get_config_with_sample_rate(&sc, 16000).sample_rate, 16000);
    assert_eq!(try_get_config_with_sample_rate(&sc, 48000).sample_rate, 48000);
    assert_eq!(try_get_config_with_sample_rate(&sc, 96000).sample_rate, 8000);
    assert_eq!(try_get_config_with_sample_rate(&sc, 4000).sample_rate, 8000);
    let c = try_get_config_with_sample_rate(&sc, 8000);
    assert_eq!(c.channels, 2);
    assert_eq!(c.sample_format, SampleFormat::I16);
}

#[test]
fn default_config_kept_when_compatible() {
    let default = SupportedStreamConfig {
        channels: 1,
        sample_rate: 44100,
        buffer_size: SupportedBufferSize::Unknown,
        sample_format: SampleFormat::F32,
    };
    let configs = vec![range(SampleFormat::I16, 8000, 48000)];
    assert_eq!(get_config(None, Some(default), &configs, 16000), Ok(default));
}

#[test]
fn first_compatible_config_replaces_incompatible_default() {
    let default = SupportedStreamConfig {
        channels: 1,
        sample_rate: 44100,
        buffer_size: SupportedBufferSize::Unknown,
        sample_format: SampleFormat::U8,
    };
    let configs = vec![
        range(SampleFormat::U8, 8000, 48000),
        range(SampleFormat::I32, 22050, 48000),
        range(SampleFormat::I16, 8000, 48000),
    ];
    let chosen = get_config(None, Some(default), &configs, 16000).unwrap();
    assert_eq!(chosen.sample_format, SampleFormat::I32);
    assert_eq!(chosen.sample_rate, 22050);
}

#[test]
fn no_compatible_config() {
    let configs = vec![range(SampleFormat::U8, 8000, 48000)];
    assert_eq!(get_config(None, None, &configs, 16000), Err(ConfigError::NoCompatibleConfig));
    assert_eq!(get_config(None, None, &vec![], 16000), Err(ConfigError::NoCompatibleConfig));
}

#[test]
fn indexed_config() {
    let configs = vec![range(SampleFormat::U8, 8000, 48000), range(SampleFormat::I16, 8000, 48000)];
    let chosen = get_config(Some(1), None, &configs, 16000).unwrap();
    assert_eq!(chosen.sample_format, SampleFormat::I16);
    assert_eq!(chosen.sample_rate, 16000);
    assert_eq!(get_config(Some(0), None, &configs, 16000), Err(ConfigError::UnavailableConfig));
    assert_eq!(get_config(Some(2), None, &configs, 16000), Err(ConfigError::UnavailableConfig));
}

#[test]
fn wav_spec_follows_device_config() {
    let config = SupportedStreamConfig {
        channels: 2,
        sample_rate: 48000,
        buffer_size: SupportedBufferSize::Unknown,
        sample_format: SampleFormat::F32,
    };
    assert_eq!(
        wav_spec_from_config(&config),
        WavSpec {
            channels: 2,
            sample_rate: 48000,
            bits_per_sample: 32,
            sample_format: WavSampleFormat::Float
        }
    );
    let config = SupportedStreamConfig { sample_format: SampleFormat::I16, ..config };
    let spec = wav_spec_from_config(&config);
    assert_eq!(spec.bits_per_sample, 16);
    assert_eq!(spec.sample_format, WavSampleFormat::Int);
}

#[test]
fn remaining_samples_for_duration() {
    let spec = WavSpec {
        channels: 2,
        sample_rate: 16000,
        bits_per_sample: 16,
        sample_format: WavSampleFormat::Int,
    };
    assert_eq!(remaining_samples(&spec, None), None);
    assert_eq!(remaining_samples(&spec, Some(1500)), Some(48000));
    assert_eq!(remaining_samples(&spec, Some(1)), Some(32));
    let spec = WavSpec { channels: 1, sample_rate: 44100, ..spec };
    assert_eq!(remaining_samples(&spec, Some(1000)), Some(44100));
    assert_eq!(remaining_samples(&spec, Some(3)), Some(132));
    assert_eq!(remaining_samples(&spec, Some(u64::MAX)), Some(u64::MAX));
}

#[test]
fn write_plan_without_limit() {
    assert_eq!(plan_write(None, 10), WritePlan { count: 10, remaining: None, finished: false });
}

#[test]
fn write_plan_counts_down() {
    assert_eq!(
        plan_write(Some(25), 10),
        WritePlan { count: 10, remaining: Some(15), finished: false }
    );
    assert_eq!(plan_write(Some(10), 10), WritePlan { count: 10, remaining: Some(0), finished: true });
    assert_eq!(plan_write(Some(4), 10), WritePlan { count: 4, remaining: Some(0), finished: true });
    assert_eq!(plan_write(Some(0), 10), WritePlan { count: 0, remaining: Some(0), finished: false });
    assert_eq!(plan_write(Some(4), 0), WritePlan { count: 0, remaining: Some(4), finished: false });
}

#[test]
fn sample_sizes() {
    assert_eq!(SampleFormat::I8.sample_size(), 1);
    assert_eq!(SampleFormat::U16.sample_size(), 2);
    assert_eq!(SampleFormat::F32.sample_size(), 4);
    assert_eq!(SampleFormat::F64.sample_size(), 8);
    assert!(SampleFormat::F64.is_float());
    assert!(!SampleFormat::I32.is_float());
}
