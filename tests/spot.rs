use rustpotter_cli::cli::record::{SampleFormat, SupportedBufferSize};
use rustpotter_cli::cli::spot::{
    clock_string, detector_sample_format, get_time_string, report_detection,
    required_buffer_size, DetectionReport, DetectionUpdate, DetectorSampleFormat,
    IncompatibleBufferSize,
};

#[test]
fn detector_formats() {
    assert_eq!(detector_sample_format(&SampleFormat::I16), Some(DetectorSampleFormat::I16));
    assert_eq!(detector_sample_format(&SampleFormat::I32), Some(DetectorSampleFormat::I32));
    assert_eq!(detector_sample_format(&SampleFormat::F32), Some(DetectorSampleFormat::F32));
    assert_eq!(detector_sample_format(&SampleFormat::I8), Some(DetectorSampleFormat::I8));
    assert_eq!(detector_sample_format(&SampleFormat::U8), Some(DetectorSampleFormat::I8));
    assert_eq!(detector_sample_format(&SampleFormat::U16), Some(DetectorSampleFormat::I16));
    assert_eq!(detector_sample_format(&SampleFormat::I64), None);
    assert_eq!(detector_sample_format(&SampleFormat::F64), None);
}

#[test]
fn no_fixed_buffer_unless_asked() {
    let any = SupportedBufferSize::Range { min: 1, max: 2 };
    assert_eq!(required_buffer_size(false, None, 480, false, &any), Ok(None));
}

#[test]
fn frame_size_buffer() {
    let supported = SupportedBufferSize::Range { min: 64, max: 4096 };
    assert_eq!(required_buffer_size(true, None, 480, false, &supported), Ok(Some(480)));
    assert_eq!(required_buffer_size(true, None, 481, false, &supported), Ok(Some(481)));
    assert_eq!(required_buffer_size(true, None, 481, true, &supported), Ok(Some(482)));
}

#[test]
fn manual_buffer_wins() {
    let supported = SupportedBufferSize::Range { min: 64, max: 4096 };
    assert_eq!(required_buffer_size(false, Some(1024), 480, false, &supported), Ok(Some(1024)));
    assert_eq!(required_buffer_size(true, Some(1023), 480, true, &supported), Ok(Some(1024)));
    assert_eq!(
        required_buffer_size(false, Some(8192), 480, false, &supported),
        Err(IncompatibleBufferSize { requested: 8192 })
    );
    assert_eq!(
        required_buffer_size(false, Some(4095), 480, true, &SupportedBufferSize::Range {
            min: 64,
            max: 4095
        }),
        Err(IncompatibleBufferSize { requested: 4096 })
    );
}

#[test]
fn largest_odd_size_on_alsa_is_refused() {
    assert_eq!(
        required_buffer_size(false, Some(u32::MAX), 480, true, &SupportedBufferSize::Unknown),
        Err(IncompatibleBufferSize { requested: u32::MAX as u64 + 1 })
    );
    assert_eq!(
        required_buffer_size(false, Some(u32::MAX), 480, false, &SupportedBufferSize::Unknown),
        Ok(Some(u32::MAX))
    );
}

#[test]
fn detection_resets_counter() {
    assert_eq!(
        report_detection(true, Some(7), 5, false),
        DetectionUpdate { counter: 0, report: DetectionReport::Detection }
    );
}

#[test]
fn partial_detection_reported_in_debug_when_grown() {
    assert_eq!(
        report_detection(false, Some(3), 2, true),
        DetectionUpdate { counter: 3, report: DetectionReport::PartialDetected }
    );
    assert_eq!(
        report_detection(false, Some(3), 3, true),
        DetectionUpdate { counter: 3, report: DetectionReport::Silent }
    );
    assert_eq!(
        report_detection(false, Some(3), 2, false),
        DetectionUpdate { counter: 3, report: DetectionReport::Silent }
    );
}

#[test]
fn partial_detection_discarded() {
    assert_eq!(
        report_detection(false, None, 4, true),
        DetectionUpdate { counter: 0, report: DetectionReport::PartialDiscarded }
    );
    assert_eq!(
        report_detection(false, None, 0, true),
        DetectionUpdate { counter: 0, report: DetectionReport::Silent }
    );
    assert_eq!(
        report_detection(false, None, 4, false),
        DetectionUpdate { counter: 0, report: DetectionReport::Silent }
    );
}

#[test]
fn clock_is_zero_padded() {
    assert_eq!(clock_string(9, 5, 0), "09:05:00");
    assert_eq!(clock_string(23, 59, 59), "23:59:59");
    assert_eq!(clock_string(0, 0, 0), "00:00:00");
}

#[test]
fn wall_clock_string_shape() {
    let s = get_time_string();
    let b = s.as_bytes();
    assert_eq!(b.len(), 8);
    assert_eq!(b[2], b':');
    assert_eq!(b[5], b':');
    let hour: u32 = s[0..2].parse().unwrap();
    let minute: u32 = s[3..5].parse().unwrap();
    let second: u32 = s[6..8].parse().unwrap();
    assert!(hour < 24 && minute < 60 && second < 60);
}
