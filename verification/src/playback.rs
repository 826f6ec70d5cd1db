//! The playback thread: what it decides, and in which order it acts.
//!
//! The thread is driven from outside. `start` gives the first actions; the last action of
//! every list asks for an event, and `step` answers that event with the next actions.

use crate::bits::{DoubleBits, SingleBits};
use crate::device::{
    any_named, first_named, first_named_is_unique, is_any_named, not_found_text, open_cpal_playback, CpalHost, CpalPlaybackDevice,
    SampleFormat, StreamConfig, StreamFormat, stream_rate,
};
use crate::message::{AudioMessage, OnSendFailure, StatusMessage};
use vstd::prelude::*;

verus! {

/// The average buffer level that was measured.
#[derive(Clone, Copy, Debug, PartialEq, Eq, Structural)]
pub struct AverageLevel {
    /// The level in frames.
    pub value: DoubleBits,
    /// The level as a whole number of frames.
    pub whole: usize,
}

/// Something that a playback thread does. `C` is the type of the chunks, `M` that of the
/// error texts.
#[derive(Debug, PartialEq)]
pub enum PlaybackAction<C, M> {
    /// Read the names of the host's devices. Asks for `Devices` or `DevicesFailed`.
    ListDevices { host: CpalHost },
    /// Send a message on the status channel.
    SendStatus { message: StatusMessage<M>, on_failure: OnSendFailure },
    /// Start the timer of the rate adjustment, and the average buffer level.
    StartMeters,
    /// Build the stream of a device. Asks for `StreamBuilt` or `StreamFailed`.
    BuildStream { device: usize, config: StreamConfig, format: StreamFormat, scalefactor: u64 },
    /// Wait until all threads have got this far.
    WaitBarrier,
    /// Start the stream. Asks for `Played` or `PlayFailed`.
    Play,
    /// Receive an audio message. Asks for `Message` or `Disconnected`.
    Receive,
    /// Add a buffer level in frames to the average.
    AddLevel { frames: usize },
    /// Read whether the period of the rate adjustment is over. Asks for `Timer`.
    CheckTimer { period: SingleBits },
    /// Read the average buffer level. Asks for `Average`.
    GetAverage,
    /// Calculate the speed that corrects the buffer level. Asks for `Speed`.
    CalculateSpeed {
        average: DoubleBits,
        target_level: usize,
        period: SingleBits,
        samplerate: u32,
    },
    /// Restart the timer of the rate adjustment.
    RestartTimer,
    /// Restart the average.
    RestartAverage,
    /// Publish the buffer level.
    StoreLevel { level: usize },
    /// Hand a chunk to the device callback.
    Forward { chunk: C },
    /// End the thread.
    Stop,
}

/// Something that happens to a playback thread.
#[derive(Debug, PartialEq)]
pub enum PlaybackEvent<C> {
    /// The host's devices gave these names.
    Devices { names: Vec<Option<String>> },
    /// The host or its devices are not available.
    DevicesFailed { message: String },
    StreamBuilt,
    StreamFailed { message: String },
    Played,
    PlayFailed { message: String },
    /// An audio message came while `buffer_fill` samples were waiting for the device.
    Message { audio: AudioMessage<C>, buffer_fill: usize },
    /// The audio channel was closed.
    Disconnected,
    Timer { expired: bool },
    Average { average: Option<AverageLevel> },
    Speed { speed: DoubleBits },
}

/// What a playback thread waits for.
#[derive(Debug, PartialEq)]
pub enum PlaybackPhase<C> {
    /// The names of the devices.
    Opening,
    /// The stream.
    Building,
    /// The start of the stream.
    Starting,
    /// An audio message.
    Receiving,
    /// The timer. `chunk` is not yet forwarded.
    Timing { chunk: C },
    /// The average. `chunk` is not yet forwarded.
    Averaging { chunk: C },
    /// The speed. `chunk` is not yet forwarded.
    Adjusting { chunk: C, level: usize },
    /// Nothing: the audio ended.
    Finished,
    /// Nothing: the device could not be opened.
    Failed,
}

/// The settings that a playback thread works with.
struct PlaybackSettings {
    devname: String,
    samplerate: usize,
    channels: usize,
    sample_format: SampleFormat,
    target_level: usize,
    adjust_period: SingleBits,
    adjust: bool,
}

/// A playback thread.
pub struct PlaybackThread<C> {
    settings: PlaybackSettings,
    phase: PlaybackPhase<C>,
}

/// The contents of a `PlaybackThread`.
pub struct PlaybackState<C> {
    pub devname: Seq<char>,
    pub samplerate: usize,
    pub channels: usize,
    pub sample_format: SampleFormat,
    /// The wanted buffer level in frames.
    pub target_level: usize,
    pub adjust_period: SingleBits,
    /// The capture rate is to be adjusted.
    pub adjust: bool,
    pub phase: PlaybackPhase<C>,
}

impl<C> View for PlaybackThread<C> {
    type V = PlaybackState<C>;

    closed spec fn view(&self) -> PlaybackState<C> {
        PlaybackState {
            devname: self.settings.devname@,
            samplerate: self.settings.samplerate,
            channels: self.settings.channels,
            sample_format: self.settings.sample_format,
            target_level: self.settings.target_level,
            adjust_period: self.settings.adjust_period,
            adjust: self.settings.adjust,
            phase: self.phase,
        }
    }
}

impl<C> View for PlaybackAction<C, String> {
    type V = PlaybackAction<C, Seq<char>>;

    open spec fn view(&self) -> PlaybackAction<C, Seq<char>> {
        match *self {
            PlaybackAction::ListDevices { host } => PlaybackAction::ListDevices { host },
            PlaybackAction::SendStatus { message, on_failure } => PlaybackAction::SendStatus {
                message: message@,
                on_failure,
            },
            PlaybackAction::BuildStream { device, config, format, scalefactor } => {
                PlaybackAction::BuildStream { device, config, format, scalefactor }
            },
            PlaybackAction::StartMeters => PlaybackAction::StartMeters,
            PlaybackAction::WaitBarrier => PlaybackAction::WaitBarrier,
            PlaybackAction::Play => PlaybackAction::Play,
            PlaybackAction::Receive => PlaybackAction::Receive,
            PlaybackAction::AddLevel { frames } => PlaybackAction::AddLevel { frames },
            PlaybackAction::CheckTimer { period } => PlaybackAction::CheckTimer { period },
            PlaybackAction::GetAverage => PlaybackAction::GetAverage,
            PlaybackAction::CalculateSpeed { average, target_level, period, samplerate } => {
                PlaybackAction::CalculateSpeed { average, target_level, period, samplerate }
            },
            PlaybackAction::RestartTimer => PlaybackAction::RestartTimer,
            PlaybackAction::RestartAverage => PlaybackAction::RestartAverage,
            PlaybackAction::StoreLevel { level } => PlaybackAction::StoreLevel { level },
            PlaybackAction::Forward { chunk } => PlaybackAction::Forward { chunk },
            PlaybackAction::Stop => PlaybackAction::Stop,
        }
    }
}

/// The contents of a list of actions.
pub open spec fn playback_actions<C>(
    actions: Seq<PlaybackAction<C, String>>,
) -> Seq<PlaybackAction<C, Seq<char>>> {
    actions.map_values(|action: PlaybackAction<C, String>| action@)
}

/// The action that sends `message` and panics if it cannot.
pub open spec fn must_send<C>(message: StatusMessage<Seq<char>>) -> PlaybackAction<C, Seq<char>> {
    PlaybackAction::SendStatus { message, on_failure: OnSendFailure::Panic }
}

/// The actions that end the handling of a chunk.
pub open spec fn forward<C>(chunk: C) -> Seq<PlaybackAction<C, Seq<char>>> {
    seq![PlaybackAction::Forward { chunk }, PlaybackAction::Receive]
}

impl<C> PlaybackState<C> {
    /// The state in which a device's thread starts.
    pub open spec fn initial(device: CpalPlaybackDevice) -> PlaybackState<C> {
        PlaybackState {
            devname: device.devname@,
            samplerate: device.samplerate,
            channels: device.channels,
            sample_format: device.sample_format,
            target_level: if device.target_level > 0 {
                device.target_level
            } else {
                device.chunksize
            },
            adjust_period: device.adjust_period,
            adjust: device.adjust_period.positive() && device.enable_rate_adjust,
            phase: PlaybackPhase::Opening,
        }
    }

    /// The state with another phase.
    pub open spec fn at(self, phase: PlaybackPhase<C>) -> PlaybackState<C> {
        PlaybackState { phase, ..self }
    }

    /// The thread waits for `event`.
    pub open spec fn waits_for(self, event: PlaybackEvent<C>) -> bool {
        match event {
            PlaybackEvent::Devices { .. } => self.phase is Opening,
            PlaybackEvent::DevicesFailed { .. } => self.phase is Opening,
            PlaybackEvent::StreamBuilt => self.phase is Building,
            PlaybackEvent::StreamFailed { .. } => self.phase is Building,
            PlaybackEvent::Played => self.phase is Starting,
            PlaybackEvent::PlayFailed { .. } => self.phase is Starting,
            PlaybackEvent::Message { .. } => self.phase is Receiving,
            PlaybackEvent::Disconnected => self.phase is Receiving,
            PlaybackEvent::Timer { .. } => self.phase is Timing,
            PlaybackEvent::Average { .. } => self.phase is Averaging,
            PlaybackEvent::Speed { .. } => self.phase is Adjusting,
        }
    }

    /// The settings allow the thread to handle `event`: a device that is there has a format
    /// that can be used, and a buffer level can be counted in frames.
    pub open spec fn can_handle(self, event: PlaybackEvent<C>) -> bool {
        match event {
            PlaybackEvent::Devices { names } => any_named(names@, self.devname)
                ==> self.sample_format.supported(),
            PlaybackEvent::Message { audio: AudioMessage::Audio(_), .. } => self.channels > 0,
            _ => true,
        }
    }

    /// The thread waits for `event` and can handle it.
    pub open spec fn accepts(self, event: PlaybackEvent<C>) -> bool {
        self.waits_for(event) && self.can_handle(event)
    }

    /// The chunk that was received and not yet forwarded.
    pub open spec fn pending(self) -> Seq<C> {
        match self.phase {
            PlaybackPhase::Timing { chunk } => seq![chunk],
            PlaybackPhase::Averaging { chunk } => seq![chunk],
            PlaybackPhase::Adjusting { chunk, .. } => seq![chunk],
            _ => Seq::empty(),
        }
    }

    /// What the thread waits for after `event`.
    pub open spec fn next_phase(self, event: PlaybackEvent<C>) -> PlaybackPhase<C>
        recommends
            self.accepts(event),
    {
        match event {
            PlaybackEvent::Devices { names } => if any_named(names@, self.devname) {
                PlaybackPhase::Building
            } else {
                PlaybackPhase::Failed
            },
            PlaybackEvent::DevicesFailed { .. } => PlaybackPhase::Failed,
            PlaybackEvent::StreamBuilt => PlaybackPhase::Starting,
            PlaybackEvent::StreamFailed { .. } => PlaybackPhase::Receiving,
            PlaybackEvent::Played => PlaybackPhase::Receiving,
            PlaybackEvent::PlayFailed { .. } => PlaybackPhase::Receiving,
            PlaybackEvent::Message { audio: AudioMessage::Audio(chunk), .. } => if self.adjust {
                PlaybackPhase::Timing { chunk }
            } else {
                PlaybackPhase::Receiving
            },
            PlaybackEvent::Message { audio: AudioMessage::EndOfStream, .. } => {
                PlaybackPhase::Finished
            },
            PlaybackEvent::Disconnected => PlaybackPhase::Finished,
            PlaybackEvent::Timer { expired } => if expired {
                PlaybackPhase::Averaging { chunk: self.pending()[0] }
            } else {
                PlaybackPhase::Receiving
            },
            PlaybackEvent::Average { average } => match average {
                Some(level) => PlaybackPhase::Adjusting {
                    chunk: self.pending()[0],
                    level: level.whole,
                },
                None => PlaybackPhase::Receiving,
            },
            PlaybackEvent::Speed { .. } => PlaybackPhase::Receiving,
        }
    }

    /// The state after `event`.
    pub open spec fn next(self, event: PlaybackEvent<C>) -> PlaybackState<C> {
        self.at(self.next_phase(event))
    }

    /// What the thread does in answer to `event`.
    pub open spec fn answer(self, event: PlaybackEvent<C>) -> Seq<PlaybackAction<C, Seq<char>>>
        recommends
            self.accepts(event),
    {
        match event {
            PlaybackEvent::Devices { names } => if any_named(names@, self.devname) {
                seq![
                    PlaybackAction::SendStatus {
                        message: StatusMessage::PlaybackReady,
                        on_failure: OnSendFailure::Ignore,
                    },
                    PlaybackAction::StartMeters,
                    PlaybackAction::BuildStream {
                        device: first_named(names@, self.devname) as usize,
                        config: StreamConfig::for_device(self.samplerate, self.channels),
                        format: self.sample_format.stream_format(),
                        scalefactor: self.sample_format.spec_scalefactor() as u64,
                    },
                ]
            } else {
                open_failure(not_found_text(self.devname))
            },
            PlaybackEvent::DevicesFailed { message } => open_failure(message@),
            PlaybackEvent::StreamBuilt => seq![PlaybackAction::WaitBarrier, PlaybackAction::Play],
            PlaybackEvent::StreamFailed { message } => seq![
                must_send(StatusMessage::PlaybackError { message: message@ }),
                PlaybackAction::WaitBarrier,
                PlaybackAction::Receive,
            ],
            PlaybackEvent::Played => seq![PlaybackAction::Receive],
            PlaybackEvent::PlayFailed { message } => seq![
                must_send(StatusMessage::PlaybackError { message: message@ }),
                PlaybackAction::Receive,
            ],
            PlaybackEvent::Message { audio: AudioMessage::Audio(chunk), buffer_fill } => seq![
                PlaybackAction::AddLevel { frames: (buffer_fill / self.channels) as usize },
            ] + if self.adjust {
                seq![PlaybackAction::CheckTimer { period: self.adjust_period }]
            } else {
                forward(chunk)
            },
            PlaybackEvent::Message { audio: AudioMessage::EndOfStream, .. } => seq![
                must_send(StatusMessage::PlaybackDone),
                PlaybackAction::Stop,
            ],
            PlaybackEvent::Disconnected => seq![
                must_send(StatusMessage::PlaybackDone),
                PlaybackAction::Stop,
            ],
            PlaybackEvent::Timer { expired } => if expired {
                seq![PlaybackAction::GetAverage]
            } else {
                forward(self.pending()[0])
            },
            PlaybackEvent::Average { average } => match average {
                Some(level) => seq![
                    PlaybackAction::CalculateSpeed {
                        average: level.value,
                        target_level: self.target_level,
                        period: self.adjust_period,
                        samplerate: (self.samplerate as int % 0x1_0000_0000) as u32,
                    },
                ],
                None => forward(self.pending()[0]),
            },
            PlaybackEvent::Speed { speed } => seq![
                PlaybackAction::RestartTimer,
                PlaybackAction::RestartAverage,
                must_send(StatusMessage::SetSpeed { speed }),
                PlaybackAction::StoreLevel { level: self.phase->level },
            ] + forward(self.pending()[0]),
        }
    }
}

/// What a thread does when its device cannot be opened: it reports why, and lets the other
/// threads go on.
pub open spec fn open_failure<C>(text: Seq<char>) -> Seq<PlaybackAction<C, Seq<char>>> {
    seq![
        PlaybackAction::SendStatus {
            message: StatusMessage::PlaybackError { message: text },
            on_failure: OnSendFailure::Log,
        },
        PlaybackAction::WaitBarrier,
        PlaybackAction::Stop,
    ]
}

impl CpalPlaybackDevice {
    /// Starts a playback thread for the device.
    pub fn start<C>(&self) -> (res: (PlaybackThread<C>, Vec<PlaybackAction<C, String>>))
        ensures
            res.0@ == PlaybackState::<C>::initial(*self),
            playback_actions(res.1@) == seq![
                PlaybackAction::<C, Seq<char>>::ListDevices { host: self.host },
            ],
    {
        let target_level: usize = if self.target_level > 0 {
            self.target_level
        } else {
            self.chunksize
        };
        let settings = PlaybackSettings {
            devname: self.devname.clone(),
            samplerate: self.samplerate,
            channels: self.channels,
            sample_format: self.sample_format,
            target_level,
            adjust_period: self.adjust_period,
            adjust: self.adjust_period.is_positive() && self.enable_rate_adjust,
        };
        let thread = PlaybackThread { settings, phase: PlaybackPhase::Opening };
        let mut actions: Vec<PlaybackAction<C, String>> = Vec::new();
        actions.push(PlaybackAction::ListDevices { host: self.host });
        assert(playback_actions(actions@) =~= seq![
            PlaybackAction::<C, Seq<char>>::ListDevices { host: self.host },
        ]);
        (thread, actions)
    }
}

/// The exec counterpart of `forward`.
fn push_forward<C>(actions: &mut Vec<PlaybackAction<C, String>>, chunk: C)
    ensures
        playback_actions(final(actions)@) == playback_actions(old(actions)@) + forward(chunk),
{
    actions.push(PlaybackAction::Forward { chunk });
    actions.push(PlaybackAction::Receive);
    assert(playback_actions(actions@) =~= playback_actions(old(actions)@) + forward(chunk));
}

/// The exec counterpart of `open_failure`.
fn fail_open<C>(message: String) -> (res: Vec<PlaybackAction<C, String>>)
    ensures
        playback_actions(res@) == open_failure::<C>(message@),
{
    let mut actions: Vec<PlaybackAction<C, String>> = Vec::new();
    actions.push(
        PlaybackAction::SendStatus {
            message: StatusMessage::PlaybackError { message },
            on_failure: OnSendFailure::Log,
        },
    );
    actions.push(PlaybackAction::WaitBarrier);
    actions.push(PlaybackAction::Stop);
    assert(playback_actions(actions@) =~= open_failure::<C>(message@));
    actions
}

/// The exec counterpart of `must_send`.
fn send<C>(message: StatusMessage<String>) -> (res: PlaybackAction<C, String>)
    ensures
        res@ == must_send::<C>(message@),
{
    PlaybackAction::SendStatus { message, on_failure: OnSendFailure::Panic }
}

impl<C> PlaybackThread<C> {
    /// Tells whether the thread waits for `event` and can handle it.
    pub fn accepts(&self, event: &PlaybackEvent<C>) -> (res: bool)
        ensures
            res == self@.accepts(*event),
    {
        match (event, &self.phase) {
            (PlaybackEvent::Devices { names }, PlaybackPhase::Opening) => {
                self.settings.sample_format.is_supported() || !is_any_named(
                    names,
                    self.settings.devname.as_str(),
                )
            },
            (PlaybackEvent::DevicesFailed { .. }, PlaybackPhase::Opening) => true,
            (PlaybackEvent::StreamBuilt, PlaybackPhase::Building) => true,
            (PlaybackEvent::StreamFailed { .. }, PlaybackPhase::Building) => true,
            (PlaybackEvent::Played, PlaybackPhase::Starting) => true,
            (PlaybackEvent::PlayFailed { .. }, PlaybackPhase::Starting) => true,
            (PlaybackEvent::Message { audio, .. }, PlaybackPhase::Receiving) => match audio {
                AudioMessage::Audio(_) => self.settings.channels > 0,
                AudioMessage::EndOfStream => true,
            },
            (PlaybackEvent::Disconnected, PlaybackPhase::Receiving) => true,
            (PlaybackEvent::Timer { .. }, PlaybackPhase::Timing { .. }) => true,
            (PlaybackEvent::Average { .. }, PlaybackPhase::Averaging { .. }) => true,
            (PlaybackEvent::Speed { .. }, PlaybackPhase::Adjusting { .. }) => true,
            _ => false,
        }
    }

    /// Chooses the device among `names`.
    fn open(self, names: Vec<Option<String>>) -> (res: (
        PlaybackThread<C>,
        Vec<PlaybackAction<C, String>>,
    ))
        requires
            self@.accepts(PlaybackEvent::Devices { names }),
        ensures
            res.0@ == self@.next(PlaybackEvent::Devices { names }),
            playback_actions(res.1@) == self@.answer(PlaybackEvent::Devices { names }),
    {
        let ghost state = self@;
        let settings = self.settings;
        let opened = open_cpal_playback(
            &names,
            settings.devname.as_str(),
            settings.samplerate,
            settings.channels,
            &settings.sample_format,
        );
        match opened {
            Ok((device, config, format)) => {
                proof {
                    first_named_is_unique(
                        names@,
                        state.devname,
                        device as int,
                        first_named(names@, state.devname),
                    );
                }
                let mut actions: Vec<PlaybackAction<C, String>> = Vec::new();
                actions.push(
                    PlaybackAction::SendStatus {
                        message: StatusMessage::PlaybackReady,
                        on_failure: OnSendFailure::Ignore,
                    },
                );
                actions.push(PlaybackAction::StartMeters);
                let scalefactor: u64 = settings.sample_format.scalefactor();
                actions.push(PlaybackAction::BuildStream { device, config, format, scalefactor });
                assert(playback_actions(actions@) =~= state.answer(
                    PlaybackEvent::Devices { names },
                ));
                (PlaybackThread { settings, phase: PlaybackPhase::Building }, actions)
            },
            Err(err) => {
                let actions = fail_open(err.desc);
                (PlaybackThread { settings, phase: PlaybackPhase::Failed }, actions)
            },
        }
    }

    /// Answers an event: gives the thread that goes on, and what it does.
    pub fn step(self, event: PlaybackEvent<C>) -> (res: (
        PlaybackThread<C>,
        Vec<PlaybackAction<C, String>>,
    ))
        requires
            self@.accepts(event),
        ensures
            res.0@ == self@.next(event),
            playback_actions(res.1@) == self@.answer(event),
    {
        let ghost state = self@;
        let settings = self.settings;
        let mut actions: Vec<PlaybackAction<C, String>> = Vec::new();
        let phase = match (event, self.phase) {
            (PlaybackEvent::Devices { names }, phase) => {
                return (PlaybackThread { settings, phase }).open(names);
            },
            (PlaybackEvent::DevicesFailed { message }, _) => {
                actions = fail_open(message);
                PlaybackPhase::Failed
            },
            (PlaybackEvent::StreamBuilt, _) => {
                actions.push(PlaybackAction::WaitBarrier);
                actions.push(PlaybackAction::Play);
                PlaybackPhase::Starting
            },
            (PlaybackEvent::StreamFailed { message }, _) => {
                actions.push(send(StatusMessage::PlaybackError { message }));
                actions.push(PlaybackAction::WaitBarrier);
                actions.push(PlaybackAction::Receive);
                PlaybackPhase::Receiving
            },
            (PlaybackEvent::Played, _) => {
                actions.push(PlaybackAction::Receive);
                PlaybackPhase::Receiving
            },
            (PlaybackEvent::PlayFailed { message }, _) => {
                actions.push(send(StatusMessage::PlaybackError { message }));
                actions.push(PlaybackAction::Receive);
                PlaybackPhase::Receiving
            },
            (PlaybackEvent::Message { audio: AudioMessage::Audio(chunk), buffer_fill }, _) => {
                let frames: usize = buffer_fill / settings.channels;
                actions.push(PlaybackAction::AddLevel { frames });
                if settings.adjust {
                    actions.push(PlaybackAction::CheckTimer { period: settings.adjust_period });
                    PlaybackPhase::Timing { chunk }
                } else {
                    push_forward(&mut actions, chunk);
                    PlaybackPhase::Receiving
                }
            },
            (PlaybackEvent::Message { audio: AudioMessage::EndOfStream, .. }, _) => {
                actions.push(send(StatusMessage::PlaybackDone));
                actions.push(PlaybackAction::Stop);
                PlaybackPhase::Finished
            },
            (PlaybackEvent::Disconnected, _) => {
                actions.push(send(StatusMessage::PlaybackDone));
                actions.push(PlaybackAction::Stop);
                PlaybackPhase::Finished
            },
            (PlaybackEvent::Timer { expired }, PlaybackPhase::Timing { chunk }) => {
                if expired {
                    actions.push(PlaybackAction::GetAverage);
                    PlaybackPhase::Averaging { chunk }
                } else {
                    push_forward(&mut actions, chunk);
                    PlaybackPhase::Receiving
                }
            },
            (PlaybackEvent::Average { average }, PlaybackPhase::Averaging { chunk }) => {
                match average {
                    Some(level) => {
                        actions.push(
                            PlaybackAction::CalculateSpeed {
                                average: level.value,
                                target_level: settings.target_level,
                                period: settings.adjust_period,
                                samplerate: stream_rate(settings.samplerate),
                            },
                        );
                        PlaybackPhase::Adjusting { chunk, level: level.whole }
                    },
                    None => {
                        push_forward(&mut actions, chunk);
                        PlaybackPhase::Receiving
                    },
                }
            },
            (PlaybackEvent::Speed { speed }, PlaybackPhase::Adjusting { chunk, level }) => {
                actions.push(PlaybackAction::RestartTimer);
                actions.push(PlaybackAction::RestartAverage);
                actions.push(send(StatusMessage::SetSpeed { speed }));
                actions.push(PlaybackAction::StoreLevel { level });
                push_forward(&mut actions, chunk);
                PlaybackPhase::Receiving
            },
            (_, phase) => phase,
        };
        assert(playback_actions(actions@) =~= state.answer(event));
        (PlaybackThread { settings, phase }, actions)
    }
}

} // verus!
