//! Choosing an input stream configuration, and the bookkeeping of a recording.
use vstd::prelude::*;

verus! {

/// Sample encoding offered by an audio input device: the variants of cpal's
/// `SampleFormat`.
#[derive(Clone, Copy, Debug, PartialEq, Eq, Structural)]
pub enum SampleFormat {
    I8,
    I16,
    I32,
    I64,
    U8,
    U16,
    U32,
    U64,
    F32,
    F64,
}

impl SampleFormat {
    /// Bytes taken by one sample, as cpal's `SampleFormat::sample_size` gives it.
    pub open spec fn spec_sample_size(self) -> nat {
        match self {
            SampleFormat::I8 | SampleFormat::U8 => 1,
            SampleFormat::I16 | SampleFormat::U16 => 2,
            SampleFormat::I32 | SampleFormat::U32 | SampleFormat::F32 => 4,
            SampleFormat::I64 | SampleFormat::U64 | SampleFormat::F64 => 8,
        }
    }

    pub open spec fn spec_is_float(self) -> bool {
        self == SampleFormat::F32 || self == SampleFormat::F64
    }

    pub fn sample_size(&self) -> (r: usize)
        ensures
            r == self.spec_sample_size(),
    {
        match self {
            SampleFormat::I8 | SampleFormat::U8 => 1,
            SampleFormat::I16 | SampleFormat::U16 => 2,
            SampleFormat::I32 | SampleFormat::U32 | SampleFormat::F32 => 4,
            SampleFormat::I64 | SampleFormat::U64 | SampleFormat::F64 => 8,
        }
    }

    pub fn is_float(&self) -> (r: bool)
        ensures
            r == self.spec_is_float(),
    {
        match self {
            SampleFormat::F32 | SampleFormat::F64 => true,
            _ => false,
        }
    }
}

/// The buffer sizes, in frames, that a device accepts.
#[derive(Clone, Copy, Debug, PartialEq, Eq, Structural)]
pub enum SupportedBufferSize {
    Range { min: u32, max: u32 },
    /// The platform cannot tell before a stream starts.
    Unknown,
}

/// A family of input configurations a device offers: one format and channel
/// count over a range of sample rates.
#[derive(Clone, Copy, Debug, PartialEq, Eq, Structural)]
pub struct SupportedStreamConfigRange {
    pub channels: u16,
    pub min_sample_rate: u32,
    pub max_sample_rate: u32,
    pub buffer_size: SupportedBufferSize,
    pub sample_format: SampleFormat,
}

/// One concrete input configuration.
#[derive(Clone, Copy, Debug, PartialEq, Eq, Structural)]
pub struct SupportedStreamConfig {
    pub channels: u16,
    pub sample_rate: u32,
    pub buffer_size: SupportedBufferSize,
    pub sample_format: SampleFormat,
}

/// Sample encoding of a WAV file.
#[derive(Clone, Copy, Debug, PartialEq, Eq, Structural)]
pub enum WavSampleFormat {
    Int,
    Float,
}

/// Header values of a WAV file.
#[derive(Clone, Copy, Debug, PartialEq, Eq, Structural)]
pub struct WavSpec {
    pub channels: u16,
    pub sample_rate: u32,
    pub bits_per_sample: u16,
    pub sample_format: WavSampleFormat,
}

/// Why no input configuration could be chosen.
#[derive(Clone, Copy, Debug, PartialEq, Eq, Structural)]
pub enum ConfigError {
    /// Neither the default configuration nor any listed one has a usable format.
    NoCompatibleConfig,
    /// The requested index is past the list, or its format is not usable.
    UnavailableConfig,
}

pub open spec fn spec_is_compatible_format(format: SampleFormat) -> bool {
    format == SampleFormat::I8 || format == SampleFormat::I16 || format == SampleFormat::I32
        || format == SampleFormat::F32
}

pub open spec fn spec_is_compatible_buffer_size(supported: SupportedBufferSize, size: u32) -> bool {
    match supported {
        SupportedBufferSize::Range { min, max } => min <= size <= max,
        SupportedBufferSize::Unknown => true,
    }
}

/// The configuration of `sc` at `preferred` when its range holds that rate,
/// else at its lowest rate.
pub open spec fn config_with_rate(sc: SupportedStreamConfigRange, preferred: u32) -> SupportedStreamConfig {
    SupportedStreamConfig {
        channels: sc.channels,
        sample_rate: if sc.min_sample_rate <= preferred <= sc.max_sample_rate {
            preferred
        } else {
            sc.min_sample_rate
        },
        buffer_size: sc.buffer_size,
        sample_format: sc.sample_format,
    }
}

/// Index of the first configuration with a usable format; `configs.len()` when there is none.
pub open spec fn first_compatible(configs: Seq<SupportedStreamConfigRange>) -> nat
    decreases configs.len(),
{
    if configs.len() == 0 {
        0
    } else if spec_is_compatible_format(configs[0].sample_format) {
        0
    } else {
        1 + first_compatible(configs.drop_first())
    }
}

/// The configuration chosen for a device: the one at `config_index` when an index
/// is given; otherwise the default one when its format is usable, else the first
/// listed one with a usable format.
pub open spec fn chosen_config(
    config_index: Option<usize>,
    default_config: Option<SupportedStreamConfig>,
    configs: Seq<SupportedStreamConfigRange>,
    preferred: u32,
) -> Result<SupportedStreamConfig, ConfigError> {
    match config_index {
        Some(i) => if i < configs.len() && spec_is_compatible_format(configs[i as int].sample_format) {
            Ok(config_with_rate(configs[i as int], preferred))
        } else {
            Err(ConfigError::UnavailableConfig)
        },
        None => if default_config is Some && spec_is_compatible_format(
            default_config->0.sample_format,
        ) {
            Ok(default_config->0)
        } else if first_compatible(configs) < configs.len() {
            Ok(config_with_rate(configs[first_compatible(configs) as int], preferred))
        } else {
            Err(ConfigError::NoCompatibleConfig)
        },
    }
}

/// Whether the detector can read samples of this format.
pub fn is_compatible_format(format: &SampleFormat) -> (r: bool)
    ensures
        r == spec_is_compatible_format(*format),
{
    match format {
        SampleFormat::I8 | SampleFormat::I16 | SampleFormat::I32 | SampleFormat::F32 => true,
        _ => false,
    }
}

/// Whether a device accepts a buffer of `buffer_size` frames; an unknown range accepts any.
pub fn is_compatible_buffer_size(supported_buffer_size: &SupportedBufferSize, buffer_size: u32) -> (r:
    bool)
    ensures
        r == spec_is_compatible_buffer_size(*supported_buffer_size, buffer_size),
{
    match supported_buffer_size {
        SupportedBufferSize::Range { min, max } => *min <= buffer_size && buffer_size <= *max,
        SupportedBufferSize::Unknown => true,
    }
}

/// The configuration of `sc` at the preferred sample rate, or at its lowest
/// rate when the preferred one is out of its range.
pub fn try_get_config_with_sample_rate(sc: &SupportedStreamConfigRange, preferred_sample_rate: u32) -> (r:
    SupportedStreamConfig)
    ensures
        r == config_with_rate(*sc, preferred_sample_rate),
{
    let sample_rate = if sc.min_sample_rate <= preferred_sample_rate && preferred_sample_rate
        <= sc.max_sample_rate {
        preferred_sample_rate
    } else {
        sc.min_sample_rate
    };
    SupportedStreamConfig {
        channels: sc.channels,
        sample_rate,
        buffer_size: sc.buffer_size,
        sample_format: sc.sample_format,
    }
}

/// Chooses the input configuration of a device from its default configuration
/// and the list of configurations it supports.
pub fn get_config(
    config_index: Option<usize>,
    default_config: Option<SupportedStreamConfig>,
    configs: &Vec<SupportedStreamConfigRange>,
    preferred_sample_rate: u32,
) -> (r: Result<SupportedStreamConfig, ConfigError>)
    ensures
        r == chosen_config(config_index, default_config, configs@, preferred_sample_rate),
{
    match config_index {
        Some(i) => {
            if i < configs.len() && is_compatible_format(&configs[i].sample_format) {
                Ok(try_get_config_with_sample_rate(&configs[i], preferred_sample_rate))
            } else {
                Err(ConfigError::UnavailableConfig)
            }
        },
        None => {
            if let Some(d) = default_config {
                if is_compatible_format(&d.sample_format) {
                    return Ok(d);
                }
            }
            let mut j: usize = 0;
            while j < configs.len()
                invariant
                    j <= configs@.len(),
                    config_index is None,
                    !(default_config is Some && spec_is_compatible_format(
                        default_config->0.sample_format,
                    )),
                    forall|k: int| 0 <= k < j ==> !spec_is_compatible_format(#[trigger] configs@[k].sample_format),
                decreases configs.len() - j,
            {
                if is_compatible_format(&configs[j].sample_format) {
                    proof {
                        lemma_first_compatible(configs@, j as int);
                    }
                    return Ok(try_get_config_with_sample_rate(&configs[j], preferred_sample_rate));
                }
                j = j + 1;
            }
            proof {
                lemma_first_compatible(configs@, configs@.len() as int);
            }
            Err(ConfigError::NoCompatibleConfig)
        },
    }
}

proof fn lemma_first_compatible(configs: Seq<SupportedStreamConfigRange>, j: int)
    requires
        0 <= j <= configs.len(),
        forall|k: int| 0 <= k < j ==> !spec_is_compatible_format(#[trigger] configs[k].sample_format),
        j < configs.len() ==> spec_is_compatible_format(configs[j].sample_format),
    ensures
        first_compatible(configs) == j,
    decreases j,
{
    if j > 0 {
        assert(!spec_is_compatible_format(configs[0].sample_format));
        let rest = configs.drop_first();
        assert forall|k: int| 0 <= k < j - 1 implies !spec_is_compatible_format(
            #[trigger] rest[k].sample_format,
        ) by {
            assert(rest[k] == configs[k + 1]);
        }
        if j < configs.len() {
            assert(rest[j - 1] == configs[j]);
        }
        lemma_first_compatible(rest, j - 1);
    }
}

/// The header of a WAV file that stores samples exactly as the device delivers them.
pub fn wav_spec_from_config(config: &SupportedStreamConfig) -> (r: WavSpec)
    ensures
        r.channels == config.channels,
        r.sample_rate == config.sample_rate,
        r.bits_per_sample == config.sample_format.spec_sample_size() * 8,
        r.sample_format == (if config.sample_format.spec_is_float() {
            WavSampleFormat::Float
        } else {
            WavSampleFormat::Int
        }),
{
    let bits = (config.sample_format.sample_size() * 8) as u16;
    WavSpec {
        channels: config.channels,
        sample_rate: config.sample_rate,
        bits_per_sample: bits,
        sample_format: if config.sample_format.is_float() {
            WavSampleFormat::Float
        } else {
            WavSampleFormat::Int
        },
    }
}

/// How many samples `duration_ms` milliseconds of a stream hold over all its
/// channels, rounded down, or `u64::MAX` when that many do not fit in a `u64`.
pub open spec fn sample_budget(sample_rate: nat, channels: nat, duration_ms: nat) -> nat {
    let n = sample_rate * duration_ms * channels / 1000;
    if n > u64::MAX {
        u64::MAX as nat
    } else {
        n
    }
}

/// The number of samples a recording of `duration_ms` milliseconds takes in a
/// file of the given header; `None` for a recording without a time limit.
pub fn remaining_samples(spec: &WavSpec, duration_ms: Option<u64>) -> (r: Option<u64>)
    ensures
        match duration_ms {
            None => r is None,
            Some(ms) => r == Some(
                sample_budget(spec.sample_rate as nat, spec.channels as nat, ms as nat) as u64,
            ),
        },
{
    match duration_ms {
        None => None,
        Some(ms) => {
            let rate = spec.sample_rate as u128;
            let channels = spec.channels as u128;
            let millis = ms as u128;
            proof {
                assert(rate * millis <= 0xffff_ffff * 0xffff_ffff_ffff_ffff) by (nonlinear_arith)
                    requires
                        rate <= 0xffff_ffff,
                        millis <= 0xffff_ffff_ffff_ffff,
                ;
                assert(rate * millis * channels <= 0xffff_ffff * 0xffff_ffff_ffff_ffff * 0xffff)
                    by (nonlinear_arith)
                    requires
                        rate * millis <= 0xffff_ffff * 0xffff_ffff_ffff_ffff,
                        channels <= 0xffff,
                ;
            }
            let n = rate * millis * channels / 1000;
            if n > 0xffff_ffff_ffff_ffff {
                Some(0xffff_ffff_ffff_ffffu64)
            } else {
                Some(n as u64)
            }
        },
    }
}

/// What to do with a block of samples delivered while recording.
#[derive(Clone, Copy, Debug, PartialEq, Eq, Structural)]
pub struct WritePlan {
    /// How many samples, from the start of the block, to write.
    pub count: usize,
    /// The samples still owed to the recording afterwards, when it is limited.
    pub remaining: Option<u64>,
    /// Whether this block completes the recording, so that it should stop.
    pub finished: bool,
}

/// Plans the writing of `available` delivered samples when `remaining` samples are
/// still owed (`None`: no limit). A finished recording writes nothing more.
pub fn plan_write(remaining: Option<u64>, available: usize) -> (r: WritePlan)
    ensures
        match remaining {
            None => r.count == available && r.remaining is None && !r.finished,
            Some(left) => {
                &&& r.count == (if left < available {
                    left as int
                } else {
                    available as int
                })
                &&& r.remaining == Some((left - r.count) as u64)
                &&& r.finished == (0 < left <= available)
            },
        },
{
    match remaining {
        None => WritePlan { count: available, remaining: None, finished: false },
        Some(left) => {
            if left < available as u64 {
                WritePlan { count: left as usize, remaining: Some(0), finished: left > 0 }
            } else {
                WritePlan {
                    count: available,
                    remaining: Some(left - available as u64),
                    finished: left > 0 && left == available as u64,
                }
            }
        },
    }
}

} // verus!
