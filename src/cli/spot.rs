//! Decisions of live spotting: the detector's sample format, the stream buffer
//! size, and what to report after each processed frame.
use crate::cli::record::{
    is_compatible_buffer_size, spec_is_compatible_buffer_size, SampleFormat, SupportedBufferSize,
};
use crate::text::{push_two_digits, two_digits};
use vstd::prelude::*;

verus! {

/// Sample encodings the detector reads: those of rustpotter's `SampleFormat`.
#[derive(Clone, Copy, Debug, PartialEq, Eq, Structural)]
pub enum DetectorSampleFormat {
    I8,
    I16,
    I32,
    F32,
}

/// The detector encoding of samples of `bits` bits, floating point or integer,
/// as rustpotter's `SampleFormat::float_of_size` and `int_of_size` choose it.
pub open spec fn sized_format(is_float: bool, bits: nat) -> Option<DetectorSampleFormat> {
    if is_float {
        if bits == 32 {
            Some(DetectorSampleFormat::F32)
        } else {
            None
        }
    } else if bits == 8 {
        Some(DetectorSampleFormat::I8)
    } else if bits == 16 {
        Some(DetectorSampleFormat::I16)
    } else if bits == 32 {
        Some(DetectorSampleFormat::I32)
    } else {
        None
    }
}

/// The detector encoding for a device format, by its width and whether it is
/// floating point; `None` when the detector has none of that width.
pub fn detector_sample_format(format: &SampleFormat) -> (r: Option<DetectorSampleFormat>)
    ensures
        r == sized_format(format.spec_is_float(), format.spec_sample_size() * 8),
{
    let bits = format.sample_size() * 8;
    if format.is_float() {
        if bits == 32 {
            Some(DetectorSampleFormat::F32)
        } else {
            None
        }
    } else if bits == 8 {
        Some(DetectorSampleFormat::I8)
    } else if bits == 16 {
        Some(DetectorSampleFormat::I16)
    } else if bits == 32 {
        Some(DetectorSampleFormat::I32)
    } else {
        None
    }
}

/// The device cannot take the stream buffer size that was asked for.
#[derive(Clone, Copy, Debug, PartialEq, Eq, Structural)]
pub struct IncompatibleBufferSize {
    pub requested: u64,
}

/// The buffer size asked for: the manual one, else the detector's frame size.
pub open spec fn requested_buffer_size(manual_buffer_size: Option<u32>, frame_samples: u32) -> nat {
    match manual_buffer_size {
        Some(n) => n as nat,
        None => frame_samples as nat,
    }
}

/// `n`, raised to the next even number on ALSA, whose streams need an even size.
pub open spec fn host_buffer_size(n: nat, host_is_alsa: bool) -> nat {
    if host_is_alsa && n % 2 == 1 {
        n + 1
    } else {
        n
    }
}

/// The fixed stream buffer size for live spotting, if one is wanted.
///
/// None is wanted unless `custom_buffer_size` is set or a manual size is given.
/// Then the size is the manual one, else `frame_samples`, made even on ALSA; it is
/// refused when the device's supported range does not hold it.
pub fn required_buffer_size(
    custom_buffer_size: bool,
    manual_buffer_size: Option<u32>,
    frame_samples: u32,
    host_is_alsa: bool,
    supported: &SupportedBufferSize,
) -> (r: Result<Option<u32>, IncompatibleBufferSize>)
    ensures
        !custom_buffer_size && manual_buffer_size is None ==> r == Ok::<
            Option<u32>,
            IncompatibleBufferSize,
        >(None),
        custom_buffer_size || manual_buffer_size is Some ==> {
            let n = host_buffer_size(
                requested_buffer_size(manual_buffer_size, frame_samples),
                host_is_alsa,
            );
            &&& r is Ok <==> (n <= u32::MAX && spec_is_compatible_buffer_size(*supported, n as u32))
            &&& r is Ok ==> r == Ok::<Option<u32>, IncompatibleBufferSize>(Some(n as u32))
            &&& r is Err ==> r->Err_0.requested == n
        },
{
    if !custom_buffer_size && manual_buffer_size.is_none() {
        return Ok(None);
    }
    let requested: u32 = match manual_buffer_size {
        Some(n) => n,
        None => frame_samples,
    };
    let size: u64 = if host_is_alsa && requested % 2 == 1 {
        requested as u64 + 1
    } else {
        requested as u64
    };
    if size > 0xffff_ffff {
        return Err(IncompatibleBufferSize { requested: size });
    }
    if is_compatible_buffer_size(supported, size as u32) {
        Ok(Some(size as u32))
    } else {
        Err(IncompatibleBufferSize { requested: size })
    }
}

/// What to tell the user after one processed frame.
#[derive(Clone, Copy, Debug, PartialEq, Eq, Structural)]
pub enum DetectionReport {
    /// A wakeword was detected.
    Detection,
    /// A partial detection grew (shown in debug mode).
    PartialDetected,
    /// A partial detection was dropped (shown in debug mode).
    PartialDiscarded,
    /// Nothing to show.
    Silent,
}

/// The report for one processed frame and the partial detection count to
/// remember until the next one.
#[derive(Clone, Copy, Debug, PartialEq, Eq, Structural)]
pub struct DetectionUpdate {
    pub counter: usize,
    pub report: DetectionReport,
}

/// Decides the report after one processed frame.
///
/// `detected` tells whether the frame completed a detection, `partial_counter`
/// the count of the detector's partial detection, if it has one, and
/// `previous_counter` the count remembered from the frame before. A detection is
/// always reported and resets the count. Otherwise the count follows the partial
/// detection (zero without one), and in debug mode a partial detection is
/// reported when its count grew, and its loss when there was one before.
pub fn report_detection(
    detected: bool,
    partial_counter: Option<usize>,
    previous_counter: usize,
    debug: bool,
) -> (r: DetectionUpdate)
    ensures
        detected ==> r == (DetectionUpdate { counter: 0, report: DetectionReport::Detection }),
        !detected && partial_counter is None ==> r == (DetectionUpdate {
            counter: 0,
            report: if debug && previous_counter > 0 {
                DetectionReport::PartialDiscarded
            } else {
                DetectionReport::Silent
            },
        }),
        !detected && partial_counter is Some ==> r == (DetectionUpdate {
            counter: partial_counter->0,
            report: if debug && previous_counter < partial_counter->0 {
                DetectionReport::PartialDetected
            } else {
                DetectionReport::Silent
            },
        }),
{
    if detected {
        return DetectionUpdate { counter: 0, report: DetectionReport::Detection };
    }
    match partial_counter {
        None => DetectionUpdate {
            counter: 0,
            report: if debug && previous_counter > 0 {
                DetectionReport::PartialDiscarded
            } else {
                DetectionReport::Silent
            },
        },
        Some(counter) => DetectionUpdate {
            counter,
            report: if debug && previous_counter < counter {
                DetectionReport::PartialDetected
            } else {
                DetectionReport::Silent
            },
        },
    }
}

/// A time of day as `HH:MM:SS`.
pub open spec fn clock_text(hour: nat, minute: nat, second: nat) -> Seq<char> {
    two_digits(hour) + seq![':'] + two_digits(minute) + seq![':'] + two_digits(second)
}

/// Renders a time of day as `HH:MM:SS`.
pub fn clock_string(hour: u8, minute: u8, second: u8) -> (r: String)
    ensures
        r@ == clock_text(hour as nat, minute as nat, second as nat),
{
    proof {
        reveal_strlit(":");
    }
    let mut s = String::new();
    push_two_digits(&mut s, hour as u128);
    s.append(":");
    push_two_digits(&mut s, minute as u128);
    s.append(":");
    push_two_digits(&mut s, second as u128);
    assert(s@ =~= clock_text(hour as nat, minute as nat, second as nat));
    s
}

#[verifier::external_type_specification]
#[verifier::external_body]
pub struct ExOffsetDateTime(time::OffsetDateTime);

/// Relies on `std::time::SystemTime::now` and `duration_since`, on
/// `time::Duration::try_from` a `std::time::Duration`, and on
/// `time::OffsetDateTime::checked_add` / `checked_sub` from its `UNIX_EPOCH`: the
/// current time in UTC, or `None` when the system clock lies outside the dates
/// the time crate represents. None of these panics.
#[verifier::external_body]
fn now_utc() -> Option<time::OffsetDateTime> {
    let epoch = time::OffsetDateTime::UNIX_EPOCH;
    match std::time::SystemTime::now().duration_since(std::time::SystemTime::UNIX_EPOCH) {
        Ok(after) => epoch.checked_add(time::Duration::try_from(after).ok()?),
        Err(before) => epoch.checked_sub(time::Duration::try_from(before.duration()).ok()?),
    }
}

/// Relies on `time::OffsetDateTime::hour`, documented to lie in `0..24`.
pub assume_specification[ time::OffsetDateTime::hour ](dt: time::OffsetDateTime) -> (r: u8)
    ensures
        r < 24,
;

/// Relies on `time::OffsetDateTime::minute`, documented to lie in `0..60`.
pub assume_specification[ time::OffsetDateTime::minute ](dt: time::OffsetDateTime) -> (r: u8)
    ensures
        r < 60,
;

/// Relies on `time::OffsetDateTime::second`, documented to lie in `0..60`.
pub assume_specification[ time::OffsetDateTime::second ](dt: time::OffsetDateTime) -> (r: u8)
    ensures
        r < 60,
;

/// Stands for the time of day when the system clock cannot be read as a date.
pub open spec fn unknown_clock_text() -> Seq<char> {
    "--:--:--"@
}

/// The current UTC time of day as `HH:MM:SS`, to stamp a detection;
/// `--:--:--` when the system clock lies outside the representable dates.
pub fn get_time_string() -> (r: String)
    ensures
        r@ == unknown_clock_text() || exists|hour: nat, minute: nat, second: nat|
            hour < 24 && minute < 60 && second < 60 && r@ == clock_text(hour, minute, second),
{
    match now_utc() {
        Some(now) => clock_string(now.hour(), now.minute(), now.second()),
        None => String::from_str("--:--:--"),
    }
}

} // verus!
