use cpaldevice::{
    AudioMessage, AverageLevel, BufferSize, CpalHost, CpalPlaybackDevice, DoubleBits,
    OnSendFailure, PlaybackAction, PlaybackEvent, PlaybackThread, SampleFormat, SingleBits,
    StatusMessage, StreamConfig, StreamFormat,
};

type Action = PlaybackAction<u32, String>;
type Event = PlaybackEvent<u32>;

fn device(period: f32, enable: bool) -> CpalPlaybackDevice {
    CpalPlaybackDevice {
        devname: "DAC".to_string(),
        host: CpalHost::Wasapi,
        samplerate: 48000,
        chunksize: 1024,
        channels: 2,
        sample_format: SampleFormat::S16LE,
        target_level: 0,
        adjust_period: SingleBits { bits: period.to_bits() },
        enable_rate_adjust: enable,
    }
}

fn step(thread: PlaybackThread<u32>, event: Event) -> (PlaybackThread<u32>, Vec<Action>) {
    assert!(thread.accepts(&event));
    thread.step(event)
}

fn must(message: StatusMessage<String>) -> Action {
    PlaybackAction::SendStatus { message, on_failure: OnSendFailure::Panic }
}

fn devices() -> Event {
    PlaybackEvent::Devices { names: vec![None, Some("DAC".to_string())] }
}

fn audio(chunk: u32, buffer_fill: usize) -> Event {
    PlaybackEvent::Message { audio: AudioMessage::Audio(chunk), buffer_fill }
}

fn bits(value: f64) -> DoubleBits {
    DoubleBits { bits: value.to_bits() }
}

fn receiving(device: &CpalPlaybackDevice) -> PlaybackThread<u32> {
    let (thread, _) = device.start();
    let (thread, _) = step(thread, devices());
    let (thread, _) = step(thread, PlaybackEvent::StreamBuilt);
    let (thread, _) = step(thread, PlaybackEvent::Played);
    thread
}

#[test]
fn playback_starts_up_in_order() {
    let (thread, actions) = device(0.0, false).start::<u32>();
    assert_eq!(actions, vec![PlaybackAction::ListDevices { host: CpalHost::Wasapi }]);
    let (thread, actions) = step(thread, devices());
    assert_eq!(
        actions,
        vec![
            PlaybackAction::SendStatus {
                message: StatusMessage::PlaybackReady,
                on_failure: OnSendFailure::Ignore,
            },
            PlaybackAction::StartMeters,
            PlaybackAction::BuildStream {
                device: 1,
                config: StreamConfig {
                    channels: 2,
                    sample_rate: 48000,
                    buffer_size: BufferSize::DeviceDefault,
                },
                format: StreamFormat::I16,
                scalefactor: 32768,
            },
        ]
    );
    let (thread, actions) = step(thread, PlaybackEvent::StreamBuilt);
    assert_eq!(actions, vec![PlaybackAction::WaitBarrier, PlaybackAction::Play]);
    let (_, actions) = step(thread, PlaybackEvent::Played);
    assert_eq!(actions, vec![PlaybackAction::Receive]);
}

#[test]
fn a_missing_device_is_reported_and_passes_the_barrier() {
    let (thread, _) = device(0.0, false).start::<u32>();
    let (thread, actions) = step(thread, PlaybackEvent::Devices { names: vec![None] });
    assert_eq!(
        actions,
        vec![
            PlaybackAction::SendStatus {
                message: StatusMessage::PlaybackError {
                    message: "Could not find device 'DAC'".to_string(),
                },
                on_failure: OnSendFailure::Log,
            },
            PlaybackAction::WaitBarrier,
            PlaybackAction::Stop,
        ]
    );
    assert!(!thread.accepts(&devices()));
    assert!(!thread.accepts(&PlaybackEvent::Disconnected));
}

#[test]
fn a_missing_host_is_reported_and_passes_the_barrier() {
    let (thread, _) = device(0.0, false).start::<u32>();
    let event = PlaybackEvent::DevicesFailed { message: "no host".to_string() };
    let (_, actions) = step(thread, event);
    assert_eq!(
        actions,
        vec![
            PlaybackAction::SendStatus {
                message: StatusMessage::PlaybackError { message: "no host".to_string() },
                on_failure: OnSendFailure::Log,
            },
            PlaybackAction::WaitBarrier,
            PlaybackAction::Stop,
        ]
    );
}

#[test]
fn a_stream_that_fails_is_reported_before_the_barrier() {
    let (thread, _) = device(0.0, false).start::<u32>();
    let (thread, _) = step(thread, devices());
    let (thread, actions) =
        step(thread, PlaybackEvent::StreamFailed { message: "busy".to_string() });
    assert_eq!(
        actions,
        vec![
            must(StatusMessage::PlaybackError { message: "busy".to_string() }),
            PlaybackAction::WaitBarrier,
            PlaybackAction::Receive,
        ]
    );
    assert!(thread.accepts(&PlaybackEvent::Disconnected));
}

#[test]
fn a_stream_that_does_not_start_is_reported() {
    let (thread, _) = device(0.0, false).start::<u32>();
    let (thread, _) = step(thread, devices());
    let (thread, _) = step(thread, PlaybackEvent::StreamBuilt);
    let (_, actions) = step(thread, PlaybackEvent::PlayFailed { message: "off".to_string() });
    assert_eq!(
        actions,
        vec![
            must(StatusMessage::PlaybackError { message: "off".to_string() }),
            PlaybackAction::Receive,
        ]
    );
}

#[test]
fn an_unsupported_format_is_not_accepted_for_a_device_that_is_there() {
    let mut settings = device(0.0, false);
    settings.sample_format = SampleFormat::Unsupported;
    let (thread, _) = settings.start::<u32>();
    assert!(!thread.accepts(&devices()));
    assert!(thread.accepts(&PlaybackEvent::Devices { names: Vec::new() }));
}

#[test]
fn chunks_are_forwarded_without_rate_adjust() {
    for settings in [device(10.0, false), device(0.0, true), device(-1.0, true)] {
        let thread = receiving(&settings);
        let (thread, actions) = step(thread, audio(7, 301));
        assert_eq!(
            actions,
            vec![
                PlaybackAction::AddLevel { frames: 150 },
                PlaybackAction::Forward { chunk: 7 },
                PlaybackAction::Receive,
            ]
        );
        let (_, actions) = step(thread, audio(8, 0));
        assert_eq!(
            actions,
            vec![
                PlaybackAction::AddLevel { frames: 0 },
                PlaybackAction::Forward { chunk: 8 },
                PlaybackAction::Receive,
            ]
        );
    }
}

#[test]
fn the_rate_is_adjusted_when_the_period_is_over() {
    let settings = device(10.0, true);
    let period = settings.adjust_period;
    let thread = receiving(&settings);
    let (thread, actions) = step(thread, audio(7, 2000));
    assert_eq!(
        actions,
        vec![
            PlaybackAction::AddLevel { frames: 1000 },
            PlaybackAction::CheckTimer { period },
        ]
    );
    let (thread, actions) = step(thread, PlaybackEvent::Timer { expired: true });
    assert_eq!(actions, vec![PlaybackAction::GetAverage]);
    let average = AverageLevel { value: bits(1000.5), whole: 1000 };
    let (thread, actions) = step(thread, PlaybackEvent::Average { average: Some(average) });
    assert_eq!(
        actions,
        vec![PlaybackAction::CalculateSpeed {
            average: bits(1000.5),
            target_level: 1024,
            period,
            samplerate: 48000,
        }]
    );
    let (thread, actions) = step(thread, PlaybackEvent::Speed { speed: bits(1.0001) });
    assert_eq!(
        actions,
        vec![
            PlaybackAction::RestartTimer,
            PlaybackAction::RestartAverage,
            must(StatusMessage::SetSpeed { speed: bits(1.0001) }),
            PlaybackAction::StoreLevel { level: 1000 },
            PlaybackAction::Forward { chunk: 7 },
            PlaybackAction::Receive,
        ]
    );
    assert!(thread.accepts(&audio(8, 0)));
}

#[test]
fn a_chunk_is_forwarded_while_the_period_lasts() {
    let thread = receiving(&device(10.0, true));
    let (thread, _) = step(thread, audio(7, 2000));
    let (thread, actions) = step(thread, PlaybackEvent::Timer { expired: false });
    assert_eq!(
        actions,
        vec![PlaybackAction::Forward { chunk: 7 }, PlaybackAction::Receive]
    );
    let (thread, _) = step(thread, audio(8, 2000));
    let (thread, _) = step(thread, PlaybackEvent::Timer { expired: true });
    let (_, actions) = step(thread, PlaybackEvent::Average { average: None });
    assert_eq!(
        actions,
        vec![PlaybackAction::Forward { chunk: 8 }, PlaybackAction::Receive]
    );
}

#[test]
fn a_target_level_of_its_own_is_used() {
    let mut settings = device(10.0, true);
    settings.target_level = 512;
    settings.samplerate = 0x1_0000_0000 + 7;
    let thread = receiving(&settings);
    let (thread, _) = step(thread, audio(1, 0));
    let (thread, _) = step(thread, PlaybackEvent::Timer { expired: true });
    let average = AverageLevel { value: bits(3.0), whole: 3 };
    let (_, actions) = step(thread, PlaybackEvent::Average { average: Some(average) });
    assert_eq!(
        actions,
        vec![PlaybackAction::CalculateSpeed {
            average: bits(3.0),
            target_level: 512,
            period: settings.adjust_period,
            samplerate: 7,
        }]
    );
}

#[test]
fn playback_is_done_once_when_the_audio_ends() {
    let end = PlaybackEvent::Message { audio: AudioMessage::EndOfStream, buffer_fill: 0 };
    for event in [end, PlaybackEvent::Disconnected] {
        let thread = receiving(&device(0.0, false));
        let (thread, actions) = step(thread, event);
        assert_eq!(
            actions,
            vec![must(StatusMessage::PlaybackDone), PlaybackAction::Stop]
        );
        assert!(!thread.accepts(&PlaybackEvent::Disconnected));
        assert!(!thread.accepts(&audio(1, 0)));
    }
}

#[test]
fn levels_cannot_be_counted_without_channels() {
    let mut settings = device(0.0, false);
    settings.channels = 0;
    let thread = receiving(&settings);
    assert!(!thread.accepts(&audio(1, 0)));
    assert!(thread.accepts(&PlaybackEvent::Disconnected));
}

#[test]
fn events_are_accepted_only_when_they_are_waited_for() {
    let (thread, _) = device(10.0, true).start::<u32>();
    assert!(!thread.accepts(&PlaybackEvent::StreamBuilt));
    assert!(!thread.accepts(&PlaybackEvent::Played));
    assert!(!thread.accepts(&audio(1, 0)));
    let thread = receiving(&device(10.0, true));
    assert!(!thread.accepts(&PlaybackEvent::Timer { expired: true }));
    let (thread, _) = step(thread, audio(1, 0));
    assert!(!thread.accepts(&audio(2, 0)));
    assert!(!thread.accepts(&PlaybackEvent::Average { average: None }));
    assert!(!thread.accepts(&PlaybackEvent::Speed { speed: bits(1.0) }));
    assert!(thread.accepts(&PlaybackEvent::Timer { expired: false }));
}

#[test]
fn every_chunk_is_forwarded_once_and_in_order() {
    let mut thread = receiving(&device(10.0, true));
    let mut forwarded: Vec<u32> = Vec::new();
    let mut speeds: usize = 0;
    for chunk in 0..12u32 {
        let (next, mut actions) = step(thread, audio(chunk, 64));
        thread = next;
        loop {
            for action in &actions {
                match action {
                    PlaybackAction::Forward { chunk } => forwarded.push(*chunk),
                    PlaybackAction::SendStatus {
                        message: StatusMessage::SetSpeed { .. }, ..
                    } => speeds += 1,
                    _ => {}
                }
            }
            let event = match actions.last().unwrap() {
                PlaybackAction::CheckTimer { .. } => {
                    PlaybackEvent::Timer { expired: chunk % 2 == 0 }
                }
                PlaybackAction::GetAverage => PlaybackEvent::Average {
                    average: if chunk % 4 == 0 {
                        Some(AverageLevel { value: bits(32.0), whole: 32 })
                    } else {
                        None
                    },
                },
                PlaybackAction::CalculateSpeed { .. } => {
                    PlaybackEvent::Speed { speed: bits(1.0) }
                }
                _ => break,
            };
            let (next, answer) = step(thread, event);
            thread = next;
            actions = answer;
        }
    }
    assert_eq!(forwarded, (0..12).collect::<Vec<u32>>());
    assert_eq!(speeds, 3);
}
