use cpaldevice::{
    get_nbr_capture_samples, AudioChunk, AudioMessage, BufferSize, CaptureAction, CaptureEvent,
    CaptureThread, CommandMessage, CpalCaptureDevice, CpalHost, DoubleBits, OnSendFailure,
    ProcessingState, SampleFormat, StatusMessage, StreamConfig, StreamFormat,
};
use rubato::{FftFixedOut, Resampler};
use std::collections::VecDeque;

type Thread = CaptureThread<i16, f64>;
type Action = CaptureAction<VecDeque<i16>, f64, String>;
type Event = CaptureEvent<i16, f64>;

fn device(resample: bool) -> CpalCaptureDevice<u8> {
    CpalCaptureDevice {
        devname: "Mic".to_string(),
        host: CpalHost::CoreAudio,
        samplerate: 48000,
        resampler_conf: 0,
        enable_resampling: resample,
        capture_samplerate: 44100,
        chunksize: 3,
        channels: 2,
        sample_format: SampleFormat::S16LE,
        silence_threshold: bits(0.001),
        silence_timeout: bits(3.0),
    }
}

fn bits(value: f64) -> DoubleBits {
    DoubleBits { bits: value.to_bits() }
}

fn step(thread: Thread, event: Event) -> (Thread, Vec<Action>) {
    assert!(thread.accepts(&event));
    thread.step(event)
}

fn must(message: StatusMessage<String>) -> Action {
    CaptureAction::SendStatus { message, on_failure: OnSendFailure::Panic }
}

fn devices() -> Event {
    CaptureEvent::Devices { names: vec![Some("Mic".to_string())] }
}

fn command(command: Option<CommandMessage>) -> Event {
    CaptureEvent::Command { command }
}

fn chunk(mark: f64) -> AudioChunk<f64> {
    AudioChunk {
        frames: 3,
        valid_frames: 3,
        waveforms: vec![vec![mark; 3], vec![-mark; 3]],
        maxval: mark,
        minval: -mark,
    }
}

fn entry() -> Vec<Action> {
    vec![
        CaptureAction::StartMeters {
            threshold: bits(0.001),
            timeout: bits(3.0),
            capture_samplerate: 44100,
            chunksize: 3,
        },
        CaptureAction::PollCommand,
    ]
}

fn polling() -> Thread {
    let (thread, _) = device(false).start(false);
    let (thread, _) = step(thread, devices());
    let (thread, _) = step(thread, CaptureEvent::StreamBuilt);
    let (thread, _) = step(thread, CaptureEvent::Played);
    thread
}

fn polling_with_resampler(async_src: bool) -> Thread {
    let (thread, _) = device(true).start(async_src);
    let (thread, _) = step(thread, CaptureEvent::ResamplerMade { available: true });
    let (thread, _) = step(thread, devices());
    let (thread, _) = step(thread, CaptureEvent::StreamBuilt);
    let (thread, _) = step(thread, CaptureEvent::Played);
    thread
}

fn handle_chunk(thread: Thread, range: f64, elapsed: bool) -> (Thread, Vec<Action>) {
    let (thread, actions) = step(
        thread,
        CaptureEvent::Converted { chunk: chunk(range), range: bits(range) },
    );
    assert_eq!(actions, vec![CaptureAction::Meter { count: 6 }]);
    step(thread, CaptureEvent::MeterRead { elapsed })
}

#[test]
fn capture_starts_up_in_order() {
    let (thread, actions) = device(false).start::<i16, f64>(false);
    assert_eq!(actions, vec![CaptureAction::ListDevices { host: CpalHost::CoreAudio }]);
    let (thread, actions) = step(thread, devices());
    assert_eq!(
        actions,
        vec![
            CaptureAction::SendStatus {
                message: StatusMessage::CaptureReady,
                on_failure: OnSendFailure::Ignore,
            },
            CaptureAction::BuildStream {
                device: 0,
                config: StreamConfig {
                    channels: 2,
                    sample_rate: 44100,
                    buffer_size: BufferSize::DeviceDefault,
                },
                format: StreamFormat::I16,
                scalefactor: 32768,
            },
        ]
    );
    let (thread, actions) = step(thread, CaptureEvent::StreamBuilt);
    assert_eq!(actions, vec![CaptureAction::WaitBarrier, CaptureAction::Play]);
    let (_, actions) = step(thread, CaptureEvent::Played);
    assert_eq!(actions, entry());
}

#[test]
fn a_resampler_is_made_before_the_device_is_opened() {
    let (thread, actions) = device(true).start::<i16, f64>(true);
    assert_eq!(
        actions,
        vec![CaptureAction::MakeResampler {
            channels: 2,
            samplerate: 48000,
            capture_samplerate: 44100,
            chunksize: 3,
        }]
    );
    let (_, actions) = step(thread, CaptureEvent::ResamplerMade { available: true });
    assert_eq!(actions, vec![CaptureAction::ListDevices { host: CpalHost::CoreAudio }]);
}

#[test]
fn a_missing_capture_device_is_reported_and_passes_the_barrier() {
    let (thread, _) = device(false).start::<i16, f64>(false);
    let (thread, actions) = step(thread, CaptureEvent::Devices { names: Vec::new() });
    assert_eq!(
        actions,
        vec![
            CaptureAction::SendStatus {
                message: StatusMessage::CaptureError {
                    message: "Could not find device 'Mic'".to_string(),
                },
                on_failure: OnSendFailure::Log,
            },
            CaptureAction::WaitBarrier,
            CaptureAction::Stop,
        ]
    );
    assert!(!thread.accepts(&command(None)));
}

#[test]
fn a_missing_capture_host_is_reported_and_passes_the_barrier() {
    let (thread, _) = device(false).start::<i16, f64>(false);
    let event = CaptureEvent::DevicesFailed { message: "no host".to_string() };
    let (_, actions) = step(thread, event);
    assert_eq!(
        actions,
        vec![
            CaptureAction::SendStatus {
                message: StatusMessage::CaptureError { message: "no host".to_string() },
                on_failure: OnSendFailure::Log,
            },
            CaptureAction::WaitBarrier,
            CaptureAction::Stop,
        ]
    );
}

#[test]
fn capture_goes_on_when_the_stream_fails() {
    let (thread, _) = device(false).start::<i16, f64>(false);
    let (thread, _) = step(thread, devices());
    let (thread, actions) =
        step(thread, CaptureEvent::StreamFailed { message: "busy".to_string() });
    let mut expected = vec![
        must(StatusMessage::CaptureError { message: "busy".to_string() }),
        CaptureAction::WaitBarrier,
    ];
    expected.extend(entry());
    assert_eq!(actions, expected);
    assert!(thread.accepts(&command(None)));
}

#[test]
fn capture_goes_on_when_the_stream_does_not_start() {
    let (thread, _) = device(false).start::<i16, f64>(false);
    let (thread, _) = step(thread, devices());
    let (thread, _) = step(thread, CaptureEvent::StreamBuilt);
    let (_, actions) = step(thread, CaptureEvent::PlayFailed { message: "off".to_string() });
    let mut expected = vec![must(StatusMessage::CaptureError { message: "off".to_string() })];
    expected.extend(entry());
    assert_eq!(actions, expected);
}

#[test]
fn buffers_are_gathered_until_they_make_a_chunk() {
    let (thread, actions) = step(polling(), command(None));
    assert_eq!(actions, vec![CaptureAction::ReceiveBuffer]);
    let (thread, actions) = step(thread, CaptureEvent::Buffer { samples: vec![1, 2, 3, 4] });
    assert_eq!(actions, vec![CaptureAction::ReceiveBuffer]);
    let (thread, actions) = step(thread, CaptureEvent::Buffer { samples: vec![5, 6, 7, 8] });
    assert_eq!(
        actions,
        vec![CaptureAction::Convert {
            samples: VecDeque::from(vec![1, 2, 3, 4, 5, 6]),
            frames: 3,
            channels: 2,
        }]
    );
    let (thread, _) = handle_chunk(thread, 0.5, false);
    let (thread, _) = step(thread, CaptureEvent::Verdict { state: ProcessingState::Running });
    let (thread, actions) = step(thread, command(None));
    assert_eq!(actions, vec![CaptureAction::ReceiveBuffer]);
    let (_, actions) =
        step(thread, CaptureEvent::Buffer { samples: (9..20).collect::<Vec<i16>>() });
    assert_eq!(
        actions,
        vec![CaptureAction::Convert {
            samples: VecDeque::from(vec![7, 8, 9, 10, 11, 12]),
            frames: 3,
            channels: 2,
        }]
    );
}

#[test]
fn a_full_queue_is_converted_at_once() {
    let (thread, _) = step(polling(), command(None));
    let (thread, _) =
        step(thread, CaptureEvent::Buffer { samples: (0..13).collect::<Vec<i16>>() });
    let (thread, _) = handle_chunk(thread, 0.5, false);
    let (thread, _) = step(thread, CaptureEvent::Verdict { state: ProcessingState::Running });
    let (_, actions) = step(thread, command(None));
    assert_eq!(
        actions,
        vec![CaptureAction::Convert {
            samples: VecDeque::from(vec![6, 7, 8, 9, 10, 11]),
            frames: 3,
            channels: 2,
        }]
    );
}

#[test]
fn a_lost_buffer_is_reported_and_asked_for_again() {
    let (thread, _) = step(polling(), command(None));
    let (thread, actions) =
        step(thread, CaptureEvent::BufferFailed { message: "closed".to_string() });
    let expected = vec![
        must(StatusMessage::CaptureError { message: "closed".to_string() }),
        CaptureAction::ReceiveBuffer,
    ];
    assert_eq!(actions, expected);
    let (_, actions) = step(thread, CaptureEvent::BufferFailed { message: "closed".to_string() });
    assert_eq!(actions, expected);
}

#[test]
fn running_chunks_are_sent_and_others_dropped() {
    let mut thread = polling();
    let states = [
        ProcessingState::Running,
        ProcessingState::Paused,
        ProcessingState::Inactive,
        ProcessingState::Running,
    ];
    let mut sent: Vec<AudioMessage<AudioChunk<f64>>> = Vec::new();
    for (i, state) in states.iter().enumerate() {
        let (next, _) = step(thread, command(None));
        let (next, _) = step(next, CaptureEvent::Buffer { samples: vec![0; 6] });
        let (next, _) = handle_chunk(next, i as f64, false);
        let (next, actions) = step(next, CaptureEvent::Verdict { state: *state });
        thread = next;
        assert_eq!(actions.last(), Some(&CaptureAction::PollCommand));
        for action in actions {
            if let CaptureAction::SendAudio { audio } = action {
                sent.push(audio);
            }
        }
    }
    assert_eq!(sent, vec![AudioMessage::Audio(chunk(0.0)), AudioMessage::Audio(chunk(3.0))]);
}

#[test]
fn the_published_status_is_of_the_chunk_before() {
    let speed = CommandMessage::SetSpeed { speed: bits(1.01) };
    let (thread, _) = step(polling(), command(Some(speed)));
    let (thread, _) = step(thread, CaptureEvent::Buffer { samples: vec![0; 18] });
    let (thread, actions) = handle_chunk(thread, 0.25, true);
    assert_eq!(
        actions,
        vec![
            CaptureAction::Publish {
                channels: 2,
                signal_range: bits(0.0),
                rate_adjust: bits(1.01),
                state: ProcessingState::Running,
            },
            CaptureAction::UpdateSilence { range: bits(0.25) },
        ]
    );
    let (thread, _) = step(thread, CaptureEvent::Verdict { state: ProcessingState::Paused });
    let (thread, _) = step(thread, command(None));
    let (thread, actions) = handle_chunk(thread, 0.75, true);
    assert_eq!(
        actions,
        vec![
            CaptureAction::Publish {
                channels: 2,
                signal_range: bits(0.25),
                rate_adjust: bits(1.01),
                state: ProcessingState::Paused,
            },
            CaptureAction::UpdateSilence { range: bits(0.75) },
        ]
    );
    let (thread, _) = step(thread, CaptureEvent::Verdict { state: ProcessingState::Running });
    let (thread, _) = step(thread, command(None));
    let (_, actions) = handle_chunk(thread, 0.5, false);
    assert_eq!(actions, vec![CaptureAction::UpdateSilence { range: bits(0.5) }]);
}

#[test]
fn exit_ends_the_audio_and_the_thread() {
    let (thread, actions) = step(polling(), command(Some(CommandMessage::Exit)));
    assert_eq!(
        actions,
        vec![
            CaptureAction::SendAudio { audio: AudioMessage::EndOfStream },
            must(StatusMessage::CaptureDone),
            CaptureAction::SetInactive,
            CaptureAction::Stop,
        ]
    );
    assert!(!thread.accepts(&command(None)));
    assert!(!thread.accepts(&command(Some(CommandMessage::Exit))));
}

#[test]
fn speeds_reach_a_resampler_that_can_follow() {
    let speed = CommandMessage::SetSpeed { speed: bits(0.99) };
    let (_, actions) = step(polling_with_resampler(true), command(Some(speed)));
    assert_eq!(
        actions,
        vec![CaptureAction::SetRatio { speed: bits(0.99) }, CaptureAction::QueryFrames]
    );
    let (_, actions) = step(polling_with_resampler(false), command(Some(speed)));
    assert_eq!(actions, vec![CaptureAction::QueryFrames]);
    let (_, actions) = step(polling(), command(Some(speed)));
    assert_eq!(actions, vec![CaptureAction::ReceiveBuffer]);
}

#[test]
fn a_resampler_that_could_not_be_made_is_not_asked() {
    let (thread, _) = device(true).start(true);
    let (thread, _) = step(thread, CaptureEvent::ResamplerMade { available: false });
    let (thread, _) = step(thread, devices());
    let (thread, _) = step(thread, CaptureEvent::StreamBuilt);
    let (thread, _) = step(thread, CaptureEvent::Played);
    let (_, actions) = step(thread, command(None));
    assert_eq!(actions, vec![CaptureAction::ReceiveBuffer]);
}

#[test]
fn chunk_size_follows_the_resampler() {
    assert_eq!(get_nbr_capture_samples(Some(10), 6, 2), 20);
    assert_eq!(get_nbr_capture_samples(Some(0), 6, 2), 0);
    assert_eq!(get_nbr_capture_samples(None, 6, 2), 6);
    let (thread, _) = step(polling_with_resampler(false), command(None));
    let (thread, actions) = step(thread, CaptureEvent::FramesNeeded { frames: 4 });
    assert_eq!(actions, vec![CaptureAction::ReceiveBuffer]);
    let (thread, actions) = step(thread, CaptureEvent::Buffer { samples: vec![1; 7] });
    assert_eq!(actions, vec![CaptureAction::ReceiveBuffer]);
    let (thread, actions) = step(thread, CaptureEvent::Buffer { samples: vec![2; 2] });
    assert_eq!(
        actions,
        vec![CaptureAction::Convert {
            samples: VecDeque::from(vec![1, 1, 1, 1, 1, 1, 1, 2]),
            frames: 4,
            channels: 2,
        }]
    );
    let (_, actions) =
        step(thread, CaptureEvent::Converted { chunk: chunk(1.0), range: bits(2.0) });
    assert_eq!(actions, vec![CaptureAction::Meter { count: 8 }]);
}

#[test]
fn resampled_chunks_take_their_length_from_the_waveforms() {
    let (thread, _) = step(polling_with_resampler(false), command(None));
    let (thread, _) = step(thread, CaptureEvent::FramesNeeded { frames: 3 });
    let (thread, _) = step(thread, CaptureEvent::Buffer { samples: vec![0; 6] });
    let (thread, _) = handle_chunk(thread, 0.5, false);
    let (thread, actions) =
        step(thread, CaptureEvent::Verdict { state: ProcessingState::Running });
    assert_eq!(actions, vec![CaptureAction::Resample { waveforms: chunk(0.5).waveforms }]);
    assert!(!thread.accepts(&CaptureEvent::Resampled { waveforms: Vec::new() }));
    let waveforms = vec![vec![0.1, 0.2], vec![0.3, 0.4]];
    let (_, actions) = step(thread, CaptureEvent::Resampled { waveforms: waveforms.clone() });
    assert_eq!(
        actions,
        vec![
            CaptureAction::SendAudio {
                audio: AudioMessage::Audio(AudioChunk {
                    frames: 2,
                    valid_frames: 2,
                    waveforms,
                    maxval: 0.5,
                    minval: -0.5,
                }),
            },
            CaptureAction::PollCommand,
        ]
    );
}

#[test]
fn silent_chunks_are_not_resampled() {
    let (thread, _) = step(polling_with_resampler(false), command(None));
    let (thread, _) = step(thread, CaptureEvent::FramesNeeded { frames: 3 });
    let (thread, _) = step(thread, CaptureEvent::Buffer { samples: vec![0; 6] });
    let (thread, _) = handle_chunk(thread, 0.0, false);
    let (_, actions) = step(thread, CaptureEvent::Verdict { state: ProcessingState::Paused });
    assert_eq!(actions, vec![CaptureAction::PollCommand]);
}

#[test]
fn settings_that_do_not_fit_are_not_accepted() {
    let mut settings = device(false);
    settings.channels = 0;
    let (thread, _) = settings.start(false);
    let (thread, _) = step(thread, devices());
    let (thread, _) = step(thread, CaptureEvent::StreamBuilt);
    let (thread, _) = step(thread, CaptureEvent::Played);
    assert!(!thread.accepts(&command(None)));
    assert!(thread.accepts(&command(Some(CommandMessage::Exit))));

    let mut settings = device(false);
    settings.chunksize = usize::MAX;
    let (thread, _) = settings.start::<i16, f64>(false);
    let (thread, _) = step(thread, devices());
    let (thread, _) = step(thread, CaptureEvent::StreamBuilt);
    assert!(!thread.accepts(&CaptureEvent::Played));

    let (thread, _) = step(polling_with_resampler(false), command(None));
    assert!(!thread.accepts(&CaptureEvent::FramesNeeded { frames: usize::MAX }));

    let mut settings = device(false);
    settings.sample_format = SampleFormat::Unsupported;
    let (thread, _) = settings.start::<i16, f64>(false);
    assert!(!thread.accepts(&devices()));
}

#[test]
fn every_sample_is_converted_once_and_in_order() {
    let mut thread = polling();
    let mut next: i16 = 0;
    let mut converted: Vec<i16> = Vec::new();
    for size in [1usize, 4, 11, 2, 6, 9] {
        let (mut current, mut actions) = step(thread, command(None));
        loop {
            match actions.pop().unwrap() {
                CaptureAction::Convert { samples, frames, channels } => {
                    assert_eq!(samples.len(), frames * channels);
                    converted.extend(samples);
                    break;
                }
                CaptureAction::ReceiveBuffer => {
                    let samples: Vec<i16> = (next..next + size as i16).collect();
                    next += size as i16;
                    let (answered, answer) = step(current, CaptureEvent::Buffer { samples });
                    current = answered;
                    actions = answer;
                }
                other => panic!("{:?}", other),
            }
        }
        let (current, _) = handle_chunk(current, 1.0, false);
        let (current, _) =
            step(current, CaptureEvent::Verdict { state: ProcessingState::Running });
        thread = current;
    }
    assert_eq!(converted, (0..36).collect::<Vec<i16>>());
}

#[test]
fn a_real_resampler_decides_how_much_is_read() {
    let mut resampler = FftFixedOut::<f64>::new(44100, 48000, 1024, 2, 2);
    let (thread, _) = step(polling_with_resampler(false), command(None));
    let frames = resampler.nbr_frames_needed();
    let (thread, _) = step(thread, CaptureEvent::FramesNeeded { frames });
    let (thread, actions) =
        step(thread, CaptureEvent::Buffer { samples: vec![100; 2 * frames] });
    assert_eq!(
        actions,
        vec![CaptureAction::Convert {
            samples: VecDeque::from(vec![100; 2 * frames]),
            frames,
            channels: 2,
        }]
    );
    let converted = AudioChunk {
        frames,
        valid_frames: frames,
        waveforms: vec![vec![0.1; frames], vec![0.1; frames]],
        maxval: 0.1,
        minval: 0.1,
    };
    let (thread, _) =
        step(thread, CaptureEvent::Converted { chunk: converted, range: bits(0.0) });
    let (thread, _) = step(thread, CaptureEvent::MeterRead { elapsed: false });
    let (thread, mut actions) =
        step(thread, CaptureEvent::Verdict { state: ProcessingState::Running });
    let waveforms = match actions.pop() {
        Some(CaptureAction::Resample { waveforms }) => resampler.process(&waveforms).unwrap(),
        other => panic!("{:?}", other),
    };
    let (_, mut actions) = step(thread, CaptureEvent::Resampled { waveforms });
    match actions.swap_remove(0) {
        CaptureAction::SendAudio { audio: AudioMessage::Audio(chunk) } => {
            assert_eq!(chunk.frames, 1024);
            assert_eq!(chunk.valid_frames, 1024);
            assert_eq!(chunk.waveforms.len(), 2);
        }
        other => panic!("{:?}", other),
    }
}
