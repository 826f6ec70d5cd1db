//! The capture thread: what it decides, and in which order it acts.
//!
//! The thread is driven from outside, as the playback thread is: `start` gives the first
//! actions, the last action of every list asks for an event, and `step` answers that event
//! with the next actions.

use crate::bits::DoubleBits;
use crate::device::{
    any_named, first_named, first_named_is_unique, is_any_named, not_found_text, open_cpal_capture,
    CpalCaptureDevice, CpalHost, SampleFormat, StreamConfig, StreamFormat,
};
use crate::message::{
    AudioChunk, AudioMessage, CommandMessage, OnSendFailure, ProcessingState, StatusMessage,
};
use crate::queue::{
    capacity_fits, capacity_ok, new_queue, take_front, write_data_from_device,
};
use std::collections::VecDeque;
use vstd::prelude::*;

verus! {

/// Something that a capture thread does. `Q` is the type of a run of samples, `S` that of
/// the samples in a chunk, `M` that of the error texts.
#[derive(Debug, PartialEq)]
pub enum CaptureAction<Q, S, M> {
    /// Make a resampler. Asks for `ResamplerMade`.
    MakeResampler {
        channels: usize,
        samplerate: usize,
        capture_samplerate: usize,
        chunksize: usize,
    },
    /// Read the names of the host's devices. Asks for `Devices` or `DevicesFailed`.
    ListDevices { host: CpalHost },
    /// Send a message on the status channel.
    SendStatus { message: StatusMessage<M>, on_failure: OnSendFailure },
    /// Build the stream of a device. Asks for `StreamBuilt` or `StreamFailed`.
    BuildStream { device: usize, config: StreamConfig, format: StreamFormat, scalefactor: u64 },
    /// Wait until all threads have got this far.
    WaitBarrier,
    /// Start the stream. Asks for `Played` or `PlayFailed`.
    Play,
    /// Start the rate meter and the silence counter.
    StartMeters {
        threshold: DoubleBits,
        timeout: DoubleBits,
        capture_samplerate: usize,
        chunksize: usize,
    },
    /// Look for a command. Asks for `Command`.
    PollCommand,
    /// Set the ratio of the resampler relative to its original one.
    SetRatio { speed: DoubleBits },
    /// Read how many frames the resampler needs. Asks for `FramesNeeded`.
    QueryFrames,
    /// Receive a buffer from the device callback. Asks for `Buffer` or `BufferFailed`.
    ReceiveBuffer,
    /// Convert samples to a chunk. Asks for `Converted`.
    Convert { samples: Q, frames: usize, channels: usize },
    /// Add a number of samples to the rate meter, and read whether the measured rate is to
    /// be published. Asks for `MeterRead`.
    Meter { count: usize },
    /// Publish the measured rate, which the meter gives in samples, together with the rest
    /// of the status, and restart the meter.
    Publish {
        channels: usize,
        signal_range: DoubleBits,
        rate_adjust: DoubleBits,
        state: ProcessingState,
    },
    /// Hand the range of a chunk to the silence counter. Asks for `Verdict`.
    UpdateSilence { range: DoubleBits },
    /// Resample waveforms. Asks for `Resampled`.
    Resample { waveforms: Vec<Vec<S>> },
    /// Send an audio message.
    SendAudio { audio: AudioMessage<AudioChunk<S>> },
    /// Publish that the thread is inactive.
    SetInactive,
    /// End the thread.
    Stop,
}

/// Something that happens to a capture thread.
#[derive(Debug, PartialEq)]
pub enum CaptureEvent<T, S> {
    /// A resampler was asked for; `available` tells whether there is one.
    ResamplerMade { available: bool },
    /// The host's devices gave these names.
    Devices { names: Vec<Option<String>> },
    /// The host or its devices are not available.
    DevicesFailed { message: String },
    StreamBuilt,
    StreamFailed { message: String },
    Played,
    PlayFailed { message: String },
    /// The command that was waiting, if there was one.
    Command { command: Option<CommandMessage> },
    FramesNeeded { frames: usize },
    Buffer { samples: Vec<T> },
    BufferFailed { message: String },
    /// The samples became a chunk; `range` is the difference of its largest and its
    /// smallest sample.
    Converted { chunk: AudioChunk<S>, range: DoubleBits },
    /// `elapsed` tells whether the measured rate is to be published.
    MeterRead { elapsed: bool },
    /// What the silence counter makes of the chunk.
    Verdict { state: ProcessingState },
    Resampled { waveforms: Vec<Vec<S>> },
}

/// What a capture thread waits for.
#[derive(Debug, PartialEq)]
pub enum CapturePhase<S> {
    /// The resampler.
    Preparing,
    /// The names of the devices.
    Opening,
    /// The stream.
    Building,
    /// The start of the stream.
    Starting,
    /// A command.
    Polling,
    /// The number of frames that the resampler needs.
    Sizing,
    /// A buffer from the device.
    Filling,
    /// A chunk.
    Converting,
    /// The rate meter.
    Metering { chunk: AudioChunk<S>, range: DoubleBits },
    /// The silence counter.
    Judging { chunk: AudioChunk<S> },
    /// The resampled waveforms.
    Resampling { maxval: S, minval: S },
    /// Nothing: the thread was told to exit.
    Finished,
    /// Nothing: the device could not be opened.
    Failed,
}

/// The settings that a capture thread works with.
struct CaptureSettings {
    devname: String,
    host: CpalHost,
    capture_samplerate: usize,
    chunksize: usize,
    channels: usize,
    sample_format: SampleFormat,
    silence_threshold: DoubleBits,
    silence_timeout: DoubleBits,
    async_src: bool,
}

/// A capture thread. `T` is the type of the device's samples, `S` that of the samples in a
/// chunk.
pub struct CaptureThread<T, S> {
    settings: CaptureSettings,
    has_resampler: bool,
    queue: VecDeque<T>,
    capture_samples: usize,
    value_range: DoubleBits,
    rate_adjust: DoubleBits,
    state: ProcessingState,
    phase: CapturePhase<S>,
}

/// The contents of a `CaptureThread`.
pub struct CaptureState<T, S> {
    pub devname: Seq<char>,
    pub host: CpalHost,
    pub capture_samplerate: usize,
    pub chunksize: usize,
    pub channels: usize,
    pub sample_format: SampleFormat,
    pub silence_threshold: DoubleBits,
    pub silence_timeout: DoubleBits,
    /// The resampler's ratio can be set while it runs.
    pub async_src: bool,
    /// There is a resampler.
    pub has_resampler: bool,
    /// The samples that came from the device and are not yet converted.
    pub queue: Seq<T>,
    /// How many samples make a chunk.
    pub capture_samples: usize,
    /// The range of the latest chunk that the silence counter got.
    pub value_range: DoubleBits,
    /// The latest speed that was asked for.
    pub rate_adjust: DoubleBits,
    /// What the silence counter last gave.
    pub state: ProcessingState,
    pub phase: CapturePhase<S>,
}

impl<T, S> View for CaptureThread<T, S> {
    type V = CaptureState<T, S>;

    closed spec fn view(&self) -> CaptureState<T, S> {
        CaptureState {
            devname: self.settings.devname@,
            host: self.settings.host,
            capture_samplerate: self.settings.capture_samplerate,
            chunksize: self.settings.chunksize,
            channels: self.settings.channels,
            sample_format: self.settings.sample_format,
            silence_threshold: self.settings.silence_threshold,
            silence_timeout: self.settings.silence_timeout,
            async_src: self.settings.async_src,
            has_resampler: self.has_resampler,
            queue: self.queue@,
            capture_samples: self.capture_samples,
            value_range: self.value_range,
            rate_adjust: self.rate_adjust,
            state: self.state,
            phase: self.phase,
        }
    }
}

impl<T, S> View for CaptureAction<VecDeque<T>, S, String> {
    type V = CaptureAction<Seq<T>, S, Seq<char>>;

    open spec fn view(&self) -> CaptureAction<Seq<T>, S, Seq<char>> {
        match *self {
            CaptureAction::MakeResampler {
                channels,
                samplerate,
                capture_samplerate,
                chunksize,
            } => CaptureAction::MakeResampler {
                channels,
                samplerate,
                capture_samplerate,
                chunksize,
            },
            CaptureAction::ListDevices { host } => CaptureAction::ListDevices { host },
            CaptureAction::SendStatus { message, on_failure } => CaptureAction::SendStatus {
                message: message@,
                on_failure,
            },
            CaptureAction::BuildStream { device, config, format, scalefactor } => {
                CaptureAction::BuildStream { device, config, format, scalefactor }
            },
            CaptureAction::WaitBarrier => CaptureAction::WaitBarrier,
            CaptureAction::Play => CaptureAction::Play,
            CaptureAction::StartMeters { threshold, timeout, capture_samplerate, chunksize } => {
                CaptureAction::StartMeters { threshold, timeout, capture_samplerate, chunksize }
            },
            CaptureAction::PollCommand => CaptureAction::PollCommand,
            CaptureAction::SetRatio { speed } => CaptureAction::SetRatio { speed },
            CaptureAction::QueryFrames => CaptureAction::QueryFrames,
            CaptureAction::ReceiveBuffer => CaptureAction::ReceiveBuffer,
            CaptureAction::Convert { samples, frames, channels } => CaptureAction::Convert {
                samples: samples@,
                frames,
                channels,
            },
            CaptureAction::Meter { count } => CaptureAction::Meter { count },
            CaptureAction::Publish { channels, signal_range, rate_adjust, state } => {
                CaptureAction::Publish { channels, signal_range, rate_adjust, state }
            },
            CaptureAction::UpdateSilence { range } => CaptureAction::UpdateSilence { range },
            CaptureAction::Resample { waveforms } => CaptureAction::Resample { waveforms },
            CaptureAction::SendAudio { audio } => CaptureAction::SendAudio { audio },
            CaptureAction::SetInactive => CaptureAction::SetInactive,
            CaptureAction::Stop => CaptureAction::Stop,
        }
    }
}

/// The contents of a list of actions.
pub open spec fn capture_actions<T, S>(
    actions: Seq<CaptureAction<VecDeque<T>, S, String>>,
) -> Seq<CaptureAction<Seq<T>, S, Seq<char>>> {
    actions.map_values(|action: CaptureAction<VecDeque<T>, S, String>| action@)
}

/// The action that sends `message` and panics if it cannot.
pub open spec fn must_send<T, S>(
    message: StatusMessage<Seq<char>>,
) -> CaptureAction<Seq<T>, S, Seq<char>> {
    CaptureAction::SendStatus { message, on_failure: OnSendFailure::Panic }
}

/// What a thread does when its device cannot be opened: it reports why, and lets the other
/// threads go on.
pub open spec fn open_failure<T, S>(
    text: Seq<char>,
) -> Seq<CaptureAction<Seq<T>, S, Seq<char>>> {
    seq![
        CaptureAction::SendStatus {
            message: StatusMessage::CaptureError { message: text },
            on_failure: OnSendFailure::Log,
        },
        CaptureAction::WaitBarrier,
        CaptureAction::Stop,
    ]
}

/// How many samples make the next chunk: as many as the resampler needs, where there is one
/// and it gave `frames_needed`, and as many as before where there is none.
pub open spec fn nbr_capture_samples(
    frames_needed: Option<usize>,
    capture_samples: usize,
    channels: usize,
) -> int {
    match frames_needed {
        Some(frames) => frames * channels,
        None => capture_samples as int,
    }
}

/// Returns how many samples make the next chunk. `frames_needed` is the number of frames
/// that the resampler needs, where there is a resampler.
pub fn get_nbr_capture_samples(
    frames_needed: Option<usize>,
    capture_samples: usize,
    channels: usize,
) -> (res: usize)
    requires
        nbr_capture_samples(frames_needed, capture_samples, channels) <= usize::MAX,
    ensures
        res == nbr_capture_samples(frames_needed, capture_samples, channels),
        frames_needed matches Some(frames) ==> res == frames * channels,
        frames_needed is None ==> res == capture_samples,
{
    match frames_needed {
        Some(frames) => frames * channels,
        None => capture_samples,
    }
}

impl<T, S> CaptureState<T, S> {
    /// The state in which a device's thread starts.
    pub open spec fn initial<R>(
        device: CpalCaptureDevice<R>,
        async_src: bool,
    ) -> CaptureState<T, S> {
        CaptureState {
            devname: device.devname@,
            host: device.host,
            capture_samplerate: device.capture_samplerate,
            chunksize: device.chunksize,
            channels: device.channels,
            sample_format: device.sample_format,
            silence_threshold: device.silence_threshold,
            silence_timeout: device.silence_timeout,
            async_src,
            has_resampler: false,
            queue: Seq::empty(),
            capture_samples: 0,
            value_range: DoubleBits::zero(),
            rate_adjust: DoubleBits::zero(),
            state: ProcessingState::Running,
            phase: if device.enable_resampling {
                CapturePhase::Preparing
            } else {
                CapturePhase::Opening
            },
        }
    }

    /// The state with another phase.
    pub open spec fn at(self, phase: CapturePhase<S>) -> CaptureState<T, S> {
        CaptureState { phase, ..self }
    }

    /// The thread waits for `event`.
    pub open spec fn waits_for(self, event: CaptureEvent<T, S>) -> bool {
        match event {
            CaptureEvent::ResamplerMade { .. } => self.phase is Preparing,
            CaptureEvent::Devices { .. } => self.phase is Opening,
            CaptureEvent::DevicesFailed { .. } => self.phase is Opening,
            CaptureEvent::StreamBuilt => self.phase is Building,
            CaptureEvent::StreamFailed { .. } => self.phase is Building,
            CaptureEvent::Played => self.phase is Starting,
            CaptureEvent::PlayFailed { .. } => self.phase is Starting,
            CaptureEvent::Command { .. } => self.phase is Polling,
            CaptureEvent::FramesNeeded { .. } => self.phase is Sizing,
            CaptureEvent::Buffer { .. } => self.phase is Filling,
            CaptureEvent::BufferFailed { .. } => self.phase is Filling,
            CaptureEvent::Converted { .. } => self.phase is Converting,
            CaptureEvent::MeterRead { .. } => self.phase is Metering,
            CaptureEvent::Verdict { .. } => self.phase is Judging,
            CaptureEvent::Resampled { .. } => self.phase is Resampling,
        }
    }

    /// The settings allow the thread to handle `event`: a device that is there has a format
    /// that can be used, a queue for two chunks can be had, samples can be counted in frames
    /// and frames in samples, and a resampler gives at least one waveform.
    pub open spec fn can_handle(self, event: CaptureEvent<T, S>) -> bool {
        match event {
            CaptureEvent::Devices { names } => any_named(names@, self.devname)
                ==> self.sample_format.supported(),
            CaptureEvent::StreamFailed { .. } => self.has_room(),
            CaptureEvent::Played => self.has_room(),
            CaptureEvent::PlayFailed { .. } => self.has_room(),
            CaptureEvent::Command { command } => command != Some(CommandMessage::Exit)
                ==> self.channels > 0,
            CaptureEvent::FramesNeeded { frames } => {
                &&& self.channels > 0
                &&& frames * self.channels <= usize::MAX
            },
            CaptureEvent::Buffer { .. } => self.channels > 0,
            CaptureEvent::Resampled { waveforms } => waveforms@.len() > 0,
            _ => true,
        }
    }

    /// A queue for two chunks can be had.
    pub open spec fn has_room(self) -> bool {
        capacity_ok::<T>(2, self.chunksize, self.channels)
    }

    /// The thread waits for `event` and can handle it.
    pub open spec fn accepts(self, event: CaptureEvent<T, S>) -> bool {
        self.waits_for(event) && self.can_handle(event)
    }

    /// The state in which the thread first looks for a command.
    pub open spec fn entered(self) -> CaptureState<T, S> {
        CaptureState {
            queue: Seq::empty(),
            capture_samples: (self.channels * self.chunksize) as usize,
            phase: CapturePhase::Polling,
            ..self
        }
    }

    /// What the thread does before it first looks for a command.
    pub open spec fn entry(self) -> Seq<CaptureAction<Seq<T>, S, Seq<char>>> {
        seq![
            CaptureAction::StartMeters {
                threshold: self.silence_threshold,
                timeout: self.silence_timeout,
                capture_samplerate: self.capture_samplerate,
                chunksize: self.chunksize,
            },
            CaptureAction::PollCommand,
        ]
    }

    /// The queue holds too few samples for a chunk.
    pub open spec fn short(self) -> bool {
        self.queue.len() < self.capture_samples
    }

    /// How many frames make a chunk.
    pub open spec fn chunk_frames(self) -> int {
        self.capture_samples as int / self.channels as int
    }

    /// The state after the thread looked whether the queue holds enough for a chunk, and
    /// took the samples of the chunk if it does.
    pub open spec fn gathered(self) -> CaptureState<T, S> {
        if self.short() {
            self.at(CapturePhase::Filling)
        } else {
            CaptureState {
                queue: self.queue.skip(self.chunk_frames() * self.channels),
                phase: CapturePhase::Converting,
                ..self
            }
        }
    }

    /// What the thread does about the queue: it asks for a buffer, or converts a chunk.
    pub open spec fn gathering(self) -> Seq<CaptureAction<Seq<T>, S, Seq<char>>> {
        if self.short() {
            seq![CaptureAction::ReceiveBuffer]
        } else {
            seq![
                CaptureAction::Convert {
                    samples: self.queue.take(self.chunk_frames() * self.channels),
                    frames: self.chunk_frames() as usize,
                    channels: self.channels,
                },
            ]
        }
    }

    /// The state once a command was dealt with.
    pub open spec fn commanded(self, command: Option<CommandMessage>) -> CaptureState<T, S> {
        match command {
            Some(CommandMessage::SetSpeed { speed }) => CaptureState { rate_adjust: speed, ..self },
            _ => self,
        }
    }

    /// What a command makes the thread do at once: a speed goes to a resampler that can
    /// change its ratio while it runs.
    pub open spec fn commanding(
        self,
        command: Option<CommandMessage>,
    ) -> Seq<CaptureAction<Seq<T>, S, Seq<char>>> {
        match command {
            Some(CommandMessage::SetSpeed { speed }) if self.has_resampler && self.async_src => {
                seq![CaptureAction::SetRatio { speed }]
            },
            _ => Seq::empty(),
        }
    }

    /// The state after `event`.
    pub open spec fn next(self, event: CaptureEvent<T, S>) -> CaptureState<T, S>
        recommends
            self.accepts(event),
    {
        match event {
            CaptureEvent::ResamplerMade { available } => CaptureState {
                has_resampler: available,
                phase: CapturePhase::Opening,
                ..self
            },
            CaptureEvent::Devices { names } => if any_named(names@, self.devname) {
                self.at(CapturePhase::Building)
            } else {
                self.at(CapturePhase::Failed)
            },
            CaptureEvent::DevicesFailed { .. } => self.at(CapturePhase::Failed),
            CaptureEvent::StreamBuilt => self.at(CapturePhase::Starting),
            CaptureEvent::StreamFailed { .. } => self.entered(),
            CaptureEvent::Played => self.entered(),
            CaptureEvent::PlayFailed { .. } => self.entered(),
            CaptureEvent::Command { command } => if command == Some(CommandMessage::Exit) {
                self.at(CapturePhase::Finished)
            } else if self.has_resampler {
                self.commanded(command).at(CapturePhase::Sizing)
            } else {
                self.commanded(command).gathered()
            },
            CaptureEvent::FramesNeeded { frames } => self.sized(frames).gathered(),
            CaptureEvent::Buffer { samples } => self.filled(samples@).gathered(),
            CaptureEvent::BufferFailed { .. } => self,
            CaptureEvent::Converted { chunk, range } => self.at(
                CapturePhase::Metering { chunk, range },
            ),
            CaptureEvent::MeterRead { .. } => CaptureState {
                value_range: self.phase->range,
                phase: CapturePhase::Judging { chunk: self.phase->Metering_chunk },
                ..self
            },
            CaptureEvent::Verdict { state } => CaptureState {
                state,
                phase: if state == ProcessingState::Running && self.has_resampler {
                    CapturePhase::Resampling {
                        maxval: self.phase->Judging_chunk.maxval,
                        minval: self.phase->Judging_chunk.minval,
                    }
                } else {
                    CapturePhase::Polling
                },
                ..self
            },
            CaptureEvent::Resampled { .. } => self.at(CapturePhase::Polling),
        }
    }

    /// The state once the resampler needs `frames` frames.
    pub open spec fn sized(self, frames: usize) -> CaptureState<T, S> {
        CaptureState {
            capture_samples: nbr_capture_samples(
                Some(frames),
                self.capture_samples,
                self.channels,
            ) as usize,
            ..self
        }
    }

    /// The state once the device gave `samples`.
    pub open spec fn filled(self, samples: Seq<T>) -> CaptureState<T, S> {
        CaptureState { queue: self.queue + samples, ..self }
    }

    /// What the thread does in answer to `event`.
    pub open spec fn answer(
        self,
        event: CaptureEvent<T, S>,
    ) -> Seq<CaptureAction<Seq<T>, S, Seq<char>>>
        recommends
            self.accepts(event),
    {
        match event {
            CaptureEvent::ResamplerMade { .. } => seq![
                CaptureAction::ListDevices { host: self.host },
            ],
            CaptureEvent::Devices { names } => if any_named(names@, self.devname) {
                seq![
                    CaptureAction::SendStatus {
                        message: StatusMessage::CaptureReady,
                        on_failure: OnSendFailure::Ignore,
                    },
                    CaptureAction::BuildStream {
                        device: first_named(names@, self.devname) as usize,
                        config: StreamConfig::for_device(self.capture_samplerate, self.channels),
                        format: self.sample_format.stream_format(),
                        scalefactor: self.sample_format.spec_scalefactor() as u64,
                    },
                ]
            } else {
                open_failure(not_found_text(self.devname))
            },
            CaptureEvent::DevicesFailed { message } => open_failure(message@),
            CaptureEvent::StreamBuilt => seq![CaptureAction::WaitBarrier, CaptureAction::Play],
            CaptureEvent::StreamFailed { message } => seq![
                must_send(StatusMessage::CaptureError { message: message@ }),
                CaptureAction::WaitBarrier,
            ] + self.entry(),
            CaptureEvent::Played => self.entry(),
            CaptureEvent::PlayFailed { message } => seq![
                must_send(StatusMessage::CaptureError { message: message@ }),
            ] + self.entry(),
            CaptureEvent::Command { command } => if command == Some(CommandMessage::Exit) {
                seq![
                    CaptureAction::SendAudio { audio: AudioMessage::EndOfStream },
                    must_send(StatusMessage::CaptureDone),
                    CaptureAction::SetInactive,
                    CaptureAction::Stop,
                ]
            } else if self.has_resampler {
                self.commanding(command) + seq![CaptureAction::QueryFrames]
            } else {
                self.commanded(command).gathering()
            },
            CaptureEvent::FramesNeeded { frames } => self.sized(frames).gathering(),
            CaptureEvent::Buffer { samples } => self.filled(samples@).gathering(),
            CaptureEvent::BufferFailed { message } => seq![
                must_send(StatusMessage::CaptureError { message: message@ }),
                CaptureAction::ReceiveBuffer,
            ],
            CaptureEvent::Converted { .. } => seq![
                CaptureAction::Meter { count: self.capture_samples },
            ],
            CaptureEvent::MeterRead { elapsed } => (if elapsed {
                seq![
                    CaptureAction::Publish {
                        channels: self.channels,
                        signal_range: self.value_range,
                        rate_adjust: self.rate_adjust,
                        state: self.state,
                    },
                ]
            } else {
                Seq::empty()
            }) + seq![CaptureAction::UpdateSilence { range: self.phase->range }],
            CaptureEvent::Verdict { state } => if state != ProcessingState::Running {
                seq![CaptureAction::PollCommand]
            } else if self.has_resampler {
                seq![
                    CaptureAction::Resample { waveforms: self.phase->Judging_chunk.waveforms },
                ]
            } else {
                seq![
                    CaptureAction::SendAudio {
                        audio: AudioMessage::Audio(self.phase->Judging_chunk),
                    },
                    CaptureAction::PollCommand,
                ]
            },
            CaptureEvent::Resampled { waveforms } => seq![
                CaptureAction::SendAudio {
                    audio: AudioMessage::Audio(
                        AudioChunk::resampled(waveforms, self.phase->maxval, self.phase->minval),
                    ),
                },
                CaptureAction::PollCommand,
            ],
        }
    }
}

impl<R> CpalCaptureDevice<R> {
    /// Starts a capture thread for the device. `async_src` tells whether the ratio of the
    /// resampler of these settings can be set while it runs.
    pub fn start<T, S>(&self, async_src: bool) -> (res: (
        CaptureThread<T, S>,
        Vec<CaptureAction<VecDeque<T>, S, String>>,
    ))
        ensures
            res.0@ == CaptureState::<T, S>::initial(*self, async_src),
            capture_actions(res.1@) == (if self.enable_resampling {
                seq![
                    CaptureAction::<Seq<T>, S, Seq<char>>::MakeResampler {
                        channels: self.channels,
                        samplerate: self.samplerate,
                        capture_samplerate: self.capture_samplerate,
                        chunksize: self.chunksize,
                    },
                ]
            } else {
                seq![CaptureAction::<Seq<T>, S, Seq<char>>::ListDevices { host: self.host }]
            }),
    {
        let settings = CaptureSettings {
            devname: self.devname.clone(),
            host: self.host,
            capture_samplerate: self.capture_samplerate,
            chunksize: self.chunksize,
            channels: self.channels,
            sample_format: self.sample_format,
            silence_threshold: self.silence_threshold,
            silence_timeout: self.silence_timeout,
            async_src,
        };
        let phase = if self.enable_resampling {
            CapturePhase::Preparing
        } else {
            CapturePhase::Opening
        };
        let thread = CaptureThread {
            settings,
            has_resampler: false,
            queue: VecDeque::new(),
            capture_samples: 0,
            value_range: DoubleBits::new_zero(),
            rate_adjust: DoubleBits::new_zero(),
            state: ProcessingState::Running,
            phase,
        };
        let mut actions: Vec<CaptureAction<VecDeque<T>, S, String>> = Vec::new();
        if self.enable_resampling {
            actions.push(
                CaptureAction::MakeResampler {
                    channels: self.channels,
                    samplerate: self.samplerate,
                    capture_samplerate: self.capture_samplerate,
                    chunksize: self.chunksize,
                },
            );
        } else {
            actions.push(CaptureAction::ListDevices { host: self.host });
        }
        (thread, actions)
    }
}

/// The exec counterpart of `must_send`.
fn send<T, S>(message: StatusMessage<String>) -> (res: CaptureAction<VecDeque<T>, S, String>)
    ensures
        res@ == must_send::<T, S>(message@),
{
    CaptureAction::SendStatus { message, on_failure: OnSendFailure::Panic }
}

/// The exec counterpart of `open_failure`.
fn fail_open<T, S>(message: String) -> (res: Vec<CaptureAction<VecDeque<T>, S, String>>)
    ensures
        capture_actions(res@) == open_failure::<T, S>(message@),
{
    let mut actions: Vec<CaptureAction<VecDeque<T>, S, String>> = Vec::new();
    actions.push(
        CaptureAction::SendStatus {
            message: StatusMessage::CaptureError { message },
            on_failure: OnSendFailure::Log,
        },
    );
    actions.push(CaptureAction::WaitBarrier);
    actions.push(CaptureAction::Stop);
    assert(capture_actions(actions@) =~= open_failure::<T, S>(message@));
    actions
}

impl<T: Copy, S> CaptureThread<T, S> {
    /// Tells whether the thread waits for `event` and can handle it.
    pub fn accepts(&self, event: &CaptureEvent<T, S>) -> (res: bool)
        ensures
            res == self@.accepts(*event),
    {
        let channels: usize = self.settings.channels;
        match (event, &self.phase) {
            (CaptureEvent::ResamplerMade { .. }, CapturePhase::Preparing) => true,
            (CaptureEvent::Devices { names }, CapturePhase::Opening) => {
                self.settings.sample_format.is_supported() || !is_any_named(
                    names,
                    self.settings.devname.as_str(),
                )
            },
            (CaptureEvent::DevicesFailed { .. }, CapturePhase::Opening) => true,
            (CaptureEvent::StreamBuilt, CapturePhase::Building) => true,
            (CaptureEvent::StreamFailed { .. }, CapturePhase::Building) => {
                capacity_fits::<T>(2, self.settings.chunksize, channels)
            },
            (CaptureEvent::Played, CapturePhase::Starting) => {
                capacity_fits::<T>(2, self.settings.chunksize, channels)
            },
            (CaptureEvent::PlayFailed { .. }, CapturePhase::Starting) => {
                capacity_fits::<T>(2, self.settings.chunksize, channels)
            },
            (CaptureEvent::Command { command }, CapturePhase::Polling) => match command {
                Some(CommandMessage::Exit) => true,
                _ => channels > 0,
            },
            (CaptureEvent::FramesNeeded { frames }, CapturePhase::Sizing) => {
                channels > 0 && match (*frames).checked_mul(channels) {
                    Some(_) => true,
                    None => false,
                }
            },
            (CaptureEvent::Buffer { .. }, CapturePhase::Filling) => channels > 0,
            (CaptureEvent::BufferFailed { .. }, CapturePhase::Filling) => true,
            (CaptureEvent::Converted { .. }, CapturePhase::Converting) => true,
            (CaptureEvent::MeterRead { .. }, CapturePhase::Metering { .. }) => true,
            (CaptureEvent::Verdict { .. }, CapturePhase::Judging { .. }) => true,
            (CaptureEvent::Resampled { waveforms }, CapturePhase::Resampling { .. }) => {
                waveforms.len() > 0
            },
            _ => false,
        }
    }

    /// Chooses the device among `names`.
    fn open(self, names: Vec<Option<String>>) -> (res: (
        CaptureThread<T, S>,
        Vec<CaptureAction<VecDeque<T>, S, String>>,
    ))
        requires
            self@.accepts(CaptureEvent::Devices { names }),
        ensures
            res.0@ == self@.next(CaptureEvent::Devices { names }),
            capture_actions(res.1@) == self@.answer(CaptureEvent::Devices { names }),
    {
        let ghost state = self@;
        let mut thread = self;
        let opened = open_cpal_capture(
            &names,
            thread.settings.devname.as_str(),
            thread.settings.capture_samplerate,
            thread.settings.channels,
            &thread.settings.sample_format,
        );
        match opened {
            Ok((device, config, format)) => {
                proof {
                    first_named_is_unique(
                        names@,
                        state.devname,
                        device as int,
                        first_named(names@, state.devname),
                    );
                }
                let mut actions: Vec<CaptureAction<VecDeque<T>, S, String>> = Vec::new();
                actions.push(
                    CaptureAction::SendStatus {
                        message: StatusMessage::CaptureReady,
                        on_failure: OnSendFailure::Ignore,
                    },
                );
                let scalefactor: u64 = thread.settings.sample_format.scalefactor();
                actions.push(CaptureAction::BuildStream { device, config, format, scalefactor });
                thread.phase = CapturePhase::Building;
                assert(capture_actions(actions@) =~= state.answer(CaptureEvent::Devices { names }));
                (thread, actions)
            },
            Err(err) => {
                let actions = fail_open(err.desc);
                thread.phase = CapturePhase::Failed;
                (thread, actions)
            },
        }
    }

    /// Enters the loop over the chunks. `actions` holds what comes before.
    fn enter(self, actions: Vec<CaptureAction<VecDeque<T>, S, String>>) -> (res: (
        CaptureThread<T, S>,
        Vec<CaptureAction<VecDeque<T>, S, String>>,
    ))
        requires
            self@.has_room(),
        ensures
            res.0@ == self@.entered(),
            capture_actions(res.1@) == capture_actions(actions@) + self@.entry(),
    {
        let ghost state = self@;
        let ghost before = actions@;
        let mut thread = self;
        let mut actions = actions;
        let chunksize: usize = thread.settings.chunksize;
        let channels: usize = thread.settings.channels;
        assert(channels * chunksize <= 2 * chunksize * channels) by (nonlinear_arith);
        thread.capture_samples = channels * chunksize;
        thread.queue = new_queue(2, chunksize, channels);
        thread.phase = CapturePhase::Polling;
        actions.push(
            CaptureAction::StartMeters {
                threshold: thread.settings.silence_threshold,
                timeout: thread.settings.silence_timeout,
                capture_samplerate: thread.settings.capture_samplerate,
                chunksize,
            },
        );
        actions.push(CaptureAction::PollCommand);
        assert(capture_actions(actions@) =~= capture_actions(before) + state.entry());
        (thread, actions)
    }

    /// Asks for a buffer, or takes the samples of a chunk from the queue. `actions` holds
    /// what comes before.
    fn gather(self, actions: Vec<CaptureAction<VecDeque<T>, S, String>>) -> (res: (
        CaptureThread<T, S>,
        Vec<CaptureAction<VecDeque<T>, S, String>>,
    ))
        requires
            self@.channels > 0,
        ensures
            res.0@ == self@.gathered(),
            capture_actions(res.1@) == capture_actions(actions@) + self@.gathering(),
    {
        let ghost state = self@;
        let ghost before = actions@;
        let mut thread = self;
        let mut actions = actions;
        if thread.queue.len() < thread.capture_samples {
            thread.phase = CapturePhase::Filling;
            actions.push(CaptureAction::ReceiveBuffer);
        } else {
            let channels: usize = thread.settings.channels;
            let capture_samples: usize = thread.capture_samples;
            let frames: usize = capture_samples / channels;
            assert(0 <= frames * channels <= capture_samples) by (nonlinear_arith)
                requires
                    channels > 0,
                    frames == capture_samples / channels,
            ;
            let samples = take_front(&mut thread.queue, frames * channels);
            thread.phase = CapturePhase::Converting;
            actions.push(CaptureAction::Convert { samples, frames, channels });
        }
        assert(capture_actions(actions@) =~= capture_actions(before) + state.gathering());
        (thread, actions)
    }

    /// Deals with a command.
    fn command(self, command: Option<CommandMessage>) -> (res: (
        CaptureThread<T, S>,
        Vec<CaptureAction<VecDeque<T>, S, String>>,
    ))
        requires
            self@.accepts(CaptureEvent::Command { command }),
        ensures
            res.0@ == self@.next(CaptureEvent::Command { command }),
            capture_actions(res.1@) == self@.answer(CaptureEvent::Command { command }),
    {
        let ghost state = self@;
        let mut thread = self;
        let mut actions: Vec<CaptureAction<VecDeque<T>, S, String>> = Vec::new();
        match command {
            Some(CommandMessage::Exit) => {
                actions.push(CaptureAction::SendAudio { audio: AudioMessage::EndOfStream });
                actions.push(send(StatusMessage::CaptureDone));
                actions.push(CaptureAction::SetInactive);
                actions.push(CaptureAction::Stop);
                thread.phase = CapturePhase::Finished;
                assert(capture_actions(actions@) =~= state.answer(
                    CaptureEvent::Command { command },
                ));
                return (thread, actions);
            },
            Some(CommandMessage::SetSpeed { speed }) => {
                thread.rate_adjust = speed;
                if thread.has_resampler && thread.settings.async_src {
                    actions.push(CaptureAction::SetRatio { speed });
                }
            },
            None => {},
        }
        if thread.has_resampler {
            actions.push(CaptureAction::QueryFrames);
            thread.phase = CapturePhase::Sizing;
            assert(capture_actions(actions@) =~= state.answer(CaptureEvent::Command { command }));
            (thread, actions)
        } else {
            let capture_samples: usize = get_nbr_capture_samples(
                None,
                thread.capture_samples,
                thread.settings.channels,
            );
            thread.capture_samples = capture_samples;
            assert(capture_actions(actions@) =~= Seq::empty());
            let res = thread.gather(actions);
            assert(capture_actions(res.1@) =~= state.answer(CaptureEvent::Command { command }));
            res
        }
    }

    /// Answers an event: gives the thread that goes on, and what it does.
    pub fn step(self, event: CaptureEvent<T, S>) -> (res: (
        CaptureThread<T, S>,
        Vec<CaptureAction<VecDeque<T>, S, String>>,
    ))
        requires
            self@.accepts(event),
        ensures
            res.0@ == self@.next(event),
            capture_actions(res.1@) == self@.answer(event),
    {
        let ghost state = self@;
        let mut thread = self;
        let mut actions: Vec<CaptureAction<VecDeque<T>, S, String>> = Vec::new();
        assert(capture_actions(actions@) =~= Seq::empty());
        let mut phase = CapturePhase::Finished;
        core::mem::swap(&mut phase, &mut thread.phase);
        match (event, phase) {
            (CaptureEvent::ResamplerMade { available }, _) => {
                thread.has_resampler = available;
                actions.push(CaptureAction::ListDevices { host: thread.settings.host });
                thread.phase = CapturePhase::Opening;
            },
            (CaptureEvent::Devices { names }, phase) => {
                thread.phase = phase;
                return thread.open(names);
            },
            (CaptureEvent::DevicesFailed { message }, _) => {
                actions = fail_open(message);
                thread.phase = CapturePhase::Failed;
            },
            (CaptureEvent::StreamBuilt, _) => {
                actions.push(CaptureAction::WaitBarrier);
                actions.push(CaptureAction::Play);
                thread.phase = CapturePhase::Starting;
            },
            (CaptureEvent::StreamFailed { message }, _) => {
                actions.push(send(StatusMessage::CaptureError { message }));
                actions.push(CaptureAction::WaitBarrier);
                let res = thread.enter(actions);
                assert(capture_actions(res.1@) =~= state.answer(event));
                return res;
            },
            (CaptureEvent::Played, _) => {
                let res = thread.enter(actions);
                assert(capture_actions(res.1@) =~= state.answer(event));
                return res;
            },
            (CaptureEvent::PlayFailed { message }, _) => {
                actions.push(send(StatusMessage::CaptureError { message }));
                let res = thread.enter(actions);
                assert(capture_actions(res.1@) =~= state.answer(event));
                return res;
            },
            (CaptureEvent::Command { command }, phase) => {
                thread.phase = phase;
                return thread.command(command);
            },
            (CaptureEvent::FramesNeeded { frames }, _) => {
                let capture_samples: usize = get_nbr_capture_samples(
                    Some(frames),
                    thread.capture_samples,
                    thread.settings.channels,
                );
                thread.capture_samples = capture_samples;
                let res = thread.gather(actions);
                assert(capture_actions(res.1@) =~= state.answer(event));
                return res;
            },
            (CaptureEvent::Buffer { samples }, _) => {
                write_data_from_device(samples.as_slice(), &mut thread.queue);
                let res = thread.gather(actions);
                assert(capture_actions(res.1@) =~= state.answer(event));
                return res;
            },
            (CaptureEvent::BufferFailed { message }, phase) => {
                thread.phase = phase;
                actions.push(send(StatusMessage::CaptureError { message }));
                actions.push(CaptureAction::ReceiveBuffer);
            },
            (CaptureEvent::Converted { chunk, range }, _) => {
                actions.push(CaptureAction::Meter { count: thread.capture_samples });
                thread.phase = CapturePhase::Metering { chunk, range };
            },
            (CaptureEvent::MeterRead { elapsed }, CapturePhase::Metering { chunk, range }) => {
                if elapsed {
                    actions.push(
                        CaptureAction::Publish {
                            channels: thread.settings.channels,
                            signal_range: thread.value_range,
                            rate_adjust: thread.rate_adjust,
                            state: thread.state,
                        },
                    );
                }
                thread.value_range = range;
                actions.push(CaptureAction::UpdateSilence { range });
                thread.phase = CapturePhase::Judging { chunk };
            },
            (CaptureEvent::Verdict { state: verdict }, CapturePhase::Judging { chunk }) => {
                thread.state = verdict;
                if verdict != ProcessingState::Running {
                    actions.push(CaptureAction::PollCommand);
                    thread.phase = CapturePhase::Polling;
                } else if thread.has_resampler {
                    let AudioChunk { waveforms, maxval, minval, .. } = chunk;
                    actions.push(CaptureAction::Resample { waveforms });
                    thread.phase = CapturePhase::Resampling { maxval, minval };
                } else {
                    actions.push(CaptureAction::SendAudio { audio: AudioMessage::Audio(chunk) });
                    actions.push(CaptureAction::PollCommand);
                    thread.phase = CapturePhase::Polling;
                }
            },
            (
                CaptureEvent::Resampled { waveforms },
                CapturePhase::Resampling { maxval, minval },
            ) => {
                let chunk = AudioChunk::from_resampler(waveforms, maxval, minval);
                actions.push(CaptureAction::SendAudio { audio: AudioMessage::Audio(chunk) });
                actions.push(CaptureAction::PollCommand);
                thread.phase = CapturePhase::Polling;
            },
            (_, phase) => {
                thread.phase = phase;
            },
        }
        assert(capture_actions(actions@) =~= state.answer(event));
        (thread, actions)
    }
}

} // verus!
