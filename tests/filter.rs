use rustpotter_cli::cli::filter::{filtered_file_name, NoFilterEnabled};

#[test]
fn no_filter_is_refused() {
    assert_eq!(filtered_file_name("take1", None, None), Err(NoFilterEnabled));
}

#[test]
fn gain_filter_name() {
    assert_eq!(filtered_file_name("take1", Some("0.005"), None).unwrap(), "take1-gain0.005.wav");
}

#[test]
fn band_pass_filter_name() {
    assert_eq!(
        filtered_file_name("take1", None, Some(("80", "400"))).unwrap(),
        "take1-bandpass80_400.wav"
    );
}

#[test]
fn both_filters_name() {
    assert_eq!(
        filtered_file_name("ok casa", Some("0.1"), Some(("80", "400"))).unwrap(),
        "ok casa-gain0.1-bandpass80_400.wav"
    );
}
