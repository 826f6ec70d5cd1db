use cpaldevice::{
    open_cpal_capture, open_cpal_playback, BufferSize, ConfigError, SampleFormat, StreamConfig,
    StreamFormat,
};

fn names(list: &[Option<&str>]) -> Vec<Option<String>> {
    list.iter().map(|name| name.map(|n| n.to_string())).collect()
}

#[test]
fn playback_opens_the_named_device() {
    let list = names(&[Some("Built-in"), Some("USB DAC")]);
    let res = open_cpal_playback(&list, "USB DAC", 44100, 2, &SampleFormat::S16LE);
    assert_eq!(
        res,
        Ok((
            1,
            StreamConfig {
                channels: 2,
                sample_rate: 44100,
                buffer_size: BufferSize::DeviceDefault,
            },
            StreamFormat::I16,
        ))
    );
}

#[test]
fn capture_opens_the_named_device() {
    let list = names(&[Some("Mic"), Some("Line")]);
    let res = open_cpal_capture(&list, "Mic", 96000, 8, &SampleFormat::FLOAT32LE);
    assert_eq!(
        res,
        Ok((
            0,
            StreamConfig {
                channels: 8,
                sample_rate: 96000,
                buffer_size: BufferSize::DeviceDefault,
            },
            StreamFormat::F32,
        ))
    );
}

#[test]
fn the_first_of_two_equal_names_is_taken() {
    let list = names(&[None, Some("other"), Some("dev"), Some("dev")]);
    let res = open_cpal_playback(&list, "dev", 48000, 2, &SampleFormat::S16LE);
    assert_eq!(res.unwrap().0, 2);
}

#[test]
fn a_device_without_a_readable_name_is_passed_over() {
    let list = names(&[None, None]);
    let res = open_cpal_playback(&list, "", 48000, 2, &SampleFormat::S16LE);
    assert!(res.is_err());
}

#[test]
fn a_missing_device_is_an_error_that_names_it() {
    let list = names(&[Some("Speakers"), Some("speaker"), None]);
    let expected = ConfigError { desc: "Could not find device 'Speaker'".to_string() };
    let playback = open_cpal_playback(&list, "Speaker", 48000, 2, &SampleFormat::S16LE);
    assert_eq!(playback, Err(expected.clone()));
    let capture = open_cpal_capture(&list, "Speaker", 48000, 2, &SampleFormat::FLOAT32LE);
    assert_eq!(capture, Err(expected));
}

#[test]
fn a_missing_device_comes_before_an_unsupported_format() {
    let res = open_cpal_playback(&names(&[]), "x", 48000, 2, &SampleFormat::Unsupported);
    assert_eq!(res, Err(ConfigError { desc: "Could not find device 'x'".to_string() }));
}

#[test]
fn stream_parameters_are_cut_to_their_width() {
    let list = names(&[Some("dev")]);
    let channels: usize = 0x1_0002;
    let samplerate: usize = 0x1_0000_0000 + 44100;
    let res = open_cpal_playback(&list, "dev", samplerate, channels, &SampleFormat::S16LE);
    let (_, config, _) = res.unwrap();
    assert_eq!(config.channels, channels as u16);
    assert_eq!(config.channels, 2);
    assert_eq!(config.sample_rate, samplerate as u32);
    assert_eq!(config.sample_rate, 44100);
}

#[test]
fn scale_factors_are_powers_of_two() {
    assert_eq!(SampleFormat::S16LE.bits_per_sample(), 16);
    assert_eq!(SampleFormat::FLOAT32LE.bits_per_sample(), 32);
    assert_eq!(SampleFormat::S16LE.scalefactor() as f64, (2.0 as f64).powi(15));
    assert_eq!(SampleFormat::FLOAT32LE.scalefactor() as f64, (2.0 as f64).powi(31));
    assert!(SampleFormat::S16LE.is_supported());
    assert!(!SampleFormat::Unsupported.is_supported());
}
