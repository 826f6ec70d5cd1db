//! What a playback thread does, told by the settings of its device and by the events that
//! came so far.

use crate::bits::{DoubleBits, SingleBits};
use crate::device::{
    any_named, first_named, first_named_is_unique, formats_have_their_width, is_first_named,
    is_named, CpalPlaybackDevice, SampleFormat, StreamFormat,
};
use crate::message::{AudioMessage, OnSendFailure, StatusMessage};
use crate::playback::{
    playback_actions, AverageLevel, PlaybackAction, PlaybackEvent, PlaybackState,
};
use crate::playback_laws::{
    playback_asks_for_what_it_waits_for, playback_is_asked, playback_run, playback_trace,
    playback_valid, received_chunk,
};
use crate::trace::{pick_all, pick_all_of_few, pick_all_splits};
use vstd::prelude::*;

verus! {

/// The average level that an event brings.
pub open spec fn measured_average<C>() -> spec_fn(PlaybackEvent<C>) -> Seq<AverageLevel> {
    |event: PlaybackEvent<C>|
        match event {
            PlaybackEvent::Average { average: Some(level) } => seq![level],
            _ => Seq::empty(),
        }
}

/// What a speed is calculated from.
pub struct SpeedInputs {
    pub average: DoubleBits,
    pub target_level: usize,
    pub period: SingleBits,
    pub samplerate: u32,
}

/// What an action calculates a speed from.
pub open spec fn speed_inputs<C>() -> spec_fn(PlaybackAction<C, Seq<char>>) -> Seq<SpeedInputs> {
    |action: PlaybackAction<C, Seq<char>>|
        match action {
            PlaybackAction::CalculateSpeed { average, target_level, period, samplerate } => seq![
                SpeedInputs { average, target_level, period, samplerate },
            ],
            _ => Seq::empty(),
        }
}

/// The period for which an action reads the timer.
pub open spec fn timer_check<C>() -> spec_fn(PlaybackAction<C, Seq<char>>) -> Seq<SingleBits> {
    |action: PlaybackAction<C, Seq<char>>|
        match action {
            PlaybackAction::CheckTimer { period } => seq![period],
            _ => Seq::empty(),
        }
}

/// The state of a device's thread after `events`.
pub open spec fn after<C>(
    device: CpalPlaybackDevice,
    events: Seq<PlaybackEvent<C>>,
) -> PlaybackState<C> {
    playback_run(PlaybackState::initial(device), events)
}

/// `events` can come to a device's thread.
pub open spec fn possible<C>(device: CpalPlaybackDevice, events: Seq<PlaybackEvent<C>>) -> bool {
    playback_valid(PlaybackState::initial(device), events)
}

/// All that a device's thread did, from its start on.
pub open spec fn done<C>(
    device: CpalPlaybackDevice,
    events: Seq<PlaybackEvent<C>>,
) -> Seq<PlaybackAction<C, Seq<char>>> {
    seq![PlaybackAction::ListDevices { host: device.host }] + playback_trace(
        PlaybackState::initial(device),
        events,
    )
}

/// The capture rate is to be adjusted: it is enabled, and the period is greater than zero.
pub open spec fn adjusts(device: CpalPlaybackDevice) -> bool {
    device.enable_rate_adjust && 0 < device.adjust_period.bits <= 0x7f80_0000
}

/// How the state of a thread hangs on its device and on the events that came.
proof fn state_from_history<C>(device: CpalPlaybackDevice, events: Seq<PlaybackEvent<C>>)
    requires
        possible(device, events),
    ensures
        ({
            let state = after(device, events);
            let received = pick_all(events, received_chunk());
            let averages = pick_all(events, measured_average());
            &&& state.devname == device.devname@
            &&& state.samplerate == device.samplerate
            &&& state.channels == device.channels
            &&& state.sample_format == device.sample_format
            &&& state.adjust_period == device.adjust_period
            &&& state.adjust == adjusts(device)
            &&& device.target_level > 0 ==> state.target_level == device.target_level
            &&& device.target_level == 0 ==> state.target_level == device.chunksize
            &&& (state.phase is Timing || state.phase is Averaging || state.phase is Adjusting)
                ==> received.len() > 0 && state.pending() == seq![received.last()]
                && adjusts(device)
            &&& state.phase is Adjusting ==> averages.len() > 0 && state.phase->level
                == averages.last().whole
        }),
    decreases events.len(),
{
    if events.len() > 0 {
        let before = events.drop_last();
        state_from_history(device, before);
        assert(after(device, events) == after(device, before).next(events.last()));
        if events.last() is Average {
            assert(pick_all(events, received_chunk()) =~= pick_all(before, received_chunk()));
        }
        if events.last() is Timer {
            assert(pick_all(events, received_chunk()) =~= pick_all(before, received_chunk()));
        }
    }
}

/// A device that is there is announced, the meters are started and its stream is built: that
/// of the first device with the name, with the channels, rate and sample type of the settings.
pub proof fn named_device_is_built<C>(
    device: CpalPlaybackDevice,
    events: Seq<PlaybackEvent<C>>,
    names: Vec<Option<String>>,
    index: int,
)
    requires
        possible(device, events),
        after(device, events).accepts(PlaybackEvent::Devices { names }),
        0 <= index < names@.len(),
        names@[index] matches Some(name) && name@ == device.devname@,
        forall|j: int|
            0 <= j < index ==> (#[trigger] names@[j] matches Some(name) ==> name@
                != device.devname@),
    ensures
        ({
            let answer = after(device, events).answer(PlaybackEvent::Devices { names });
            &&& answer.len() == 3
            &&& answer[0] == (PlaybackAction::<C, Seq<char>>::SendStatus {
                message: StatusMessage::PlaybackReady,
                on_failure: OnSendFailure::Ignore,
            })
            &&& answer[1] == PlaybackAction::<C, Seq<char>>::StartMeters
            &&& answer[2] matches PlaybackAction::BuildStream {
                device: chosen,
                config,
                format,
                scalefactor,
            } && {
                &&& chosen == index
                &&& config.channels as int == device.channels as int % 0x1_0000
                &&& config.sample_rate as int == device.samplerate as int % 0x1_0000_0000
                &&& device.channels <= u16::MAX ==> config.channels == device.channels
                &&& device.samplerate <= u32::MAX ==> config.sample_rate == device.samplerate
                &&& device.sample_format == SampleFormat::S16LE ==> format == StreamFormat::I16
                    && scalefactor == 32768
                &&& device.sample_format == SampleFormat::FLOAT32LE ==> format
                    == StreamFormat::F32 && scalefactor == 2147483648
            }
        }),
{
    state_from_history(device, events);
    formats_have_their_width(device.sample_format);
    assert(names.len() == names@.len());
    assert(index as usize == index);
    assert(is_named(names@[index], device.devname@));
    assert(is_first_named(names@, device.devname@, index));
    first_named_is_unique(
        names@,
        device.devname@,
        index,
        first_named(names@, device.devname@),
    );
}

/// A device that is not there is reported by name, the barrier is passed and the thread ends;
/// and so it is with the error text where the host cannot be asked.
pub proof fn missing_device_ends_the_thread<C>(
    device: CpalPlaybackDevice,
    events: Seq<PlaybackEvent<C>>,
    names: Vec<Option<String>>,
    message: String,
)
    requires
        possible(device, events),
        forall|j: int|
            0 <= j < names@.len() ==> (#[trigger] names@[j] matches Some(name) ==> name@
                != device.devname@),
    ensures
        after(device, events).accepts(PlaybackEvent::Devices { names }) ==> after(
            device,
            events,
        ).answer(PlaybackEvent::Devices { names }) == seq![
            PlaybackAction::<C, Seq<char>>::SendStatus {
                message: StatusMessage::PlaybackError {
                    message: "Could not find device '"@ + device.devname@ + "'"@,
                },
                on_failure: OnSendFailure::Log,
            },
            PlaybackAction::WaitBarrier,
            PlaybackAction::Stop,
        ],
        after(device, events).accepts(PlaybackEvent::DevicesFailed { message }) ==> after(
            device,
            events,
        ).answer(PlaybackEvent::DevicesFailed { message }) == seq![
            PlaybackAction::<C, Seq<char>>::SendStatus {
                message: StatusMessage::PlaybackError { message: message@ },
                on_failure: OnSendFailure::Log,
            },
            PlaybackAction::WaitBarrier,
            PlaybackAction::Stop,
        ],
{
    state_from_history(device, events);
    assert(!any_named(names@, device.devname@));
}

/// A stream that was built is started after the barrier; one that was not built or not
/// started is reported, before the barrier if it was not built; and the thread receives audio
/// in any case.
pub proof fn stream_is_started_after_the_barrier<C>(
    device: CpalPlaybackDevice,
    events: Seq<PlaybackEvent<C>>,
    text: String,
)
    requires
        possible(device, events),
    ensures
        ({
            let state = after(device, events);
            let report = PlaybackAction::<C, Seq<char>>::SendStatus {
                message: StatusMessage::PlaybackError { message: text@ },
                on_failure: OnSendFailure::Panic,
            };
            &&& state.answer(PlaybackEvent::StreamBuilt) == seq![
                PlaybackAction::<C, Seq<char>>::WaitBarrier,
                PlaybackAction::Play,
            ]
            &&& state.answer(PlaybackEvent::StreamFailed { message: text }) == seq![
                report,
                PlaybackAction::WaitBarrier,
                PlaybackAction::Receive,
            ]
            &&& state.answer(PlaybackEvent::Played) == seq![
                PlaybackAction::<C, Seq<char>>::Receive,
            ]
            &&& state.answer(PlaybackEvent::PlayFailed { message: text }) == seq![
                report,
                PlaybackAction::Receive,
            ]
        }),
{
}

/// A chunk that is received adds the level of the buffer, in frames, to the average. Then the
/// timer is read, where the rate is to be adjusted, and the chunk forwarded where it is not.
pub proof fn received_chunk_is_handled<C>(
    device: CpalPlaybackDevice,
    events: Seq<PlaybackEvent<C>>,
    chunk: C,
    buffer_fill: usize,
)
    requires
        possible(device, events),
        after(device, events).accepts(
            PlaybackEvent::Message { audio: AudioMessage::Audio(chunk), buffer_fill },
        ),
    ensures
        ({
            let answer = after(device, events).answer(
                PlaybackEvent::Message { audio: AudioMessage::Audio(chunk), buffer_fill },
            );
            &&& answer.len() >= 2
            &&& answer[0] matches PlaybackAction::AddLevel { frames } && frames * device.channels
                <= buffer_fill < (frames + 1) * device.channels
            &&& adjusts(device) ==> answer.skip(1) == seq![
                PlaybackAction::<C, Seq<char>>::CheckTimer { period: device.adjust_period },
            ]
            &&& !adjusts(device) ==> answer.skip(1) == seq![
                PlaybackAction::<C, Seq<char>>::Forward { chunk },
                PlaybackAction::Receive,
            ]
        }),
{
    state_from_history(device, events);
    let fill = buffer_fill as int;
    let channels = device.channels as int;
    assert(fill / channels * channels <= fill < (fill / channels + 1) * channels)
        by (nonlinear_arith)
        requires
            channels > 0,
            fill >= 0,
    ;
    let answer = after(device, events).answer(
        PlaybackEvent::Message { audio: AudioMessage::Audio(chunk), buffer_fill },
    );
    if adjusts(device) {
        assert(answer.skip(1) =~= seq![
            PlaybackAction::<C, Seq<char>>::CheckTimer { period: device.adjust_period },
        ]);
    } else {
        assert(answer.skip(1) =~= seq![
            PlaybackAction::<C, Seq<char>>::Forward { chunk },
            PlaybackAction::Receive,
        ]);
    }
}

/// When the period is over the average is read, and with an average the speed is calculated:
/// from that average, the target level of the settings, or one chunk where they have none,
/// the period and the sample rate. Until the period is over, and without an average, the chunk
/// that was received last is forwarded at once.
pub proof fn speed_is_calculated_when_the_period_is_over<C>(
    device: CpalPlaybackDevice,
    events: Seq<PlaybackEvent<C>>,
    level: AverageLevel,
)
    requires
        possible(device, events),
    ensures
        ({
            let state = after(device, events);
            let forwarded = seq![
                PlaybackAction::<C, Seq<char>>::Forward {
                    chunk: pick_all(events, received_chunk()).last(),
                },
                PlaybackAction::Receive,
            ];
            &&& state.accepts(PlaybackEvent::Timer { expired: false }) ==> state.answer(
                PlaybackEvent::Timer { expired: false },
            ) == forwarded
            &&& state.accepts(PlaybackEvent::Timer { expired: true }) ==> state.answer(
                PlaybackEvent::Timer { expired: true },
            ) == seq![PlaybackAction::<C, Seq<char>>::GetAverage]
            &&& state.accepts(PlaybackEvent::Average { average: None }) ==> state.answer(
                PlaybackEvent::Average { average: None },
            ) == forwarded
            &&& state.accepts(PlaybackEvent::Average { average: Some(level) }) ==> {
                let answer = state.answer(PlaybackEvent::Average { average: Some(level) });
                &&& answer.len() == 1
                &&& answer[0] matches PlaybackAction::CalculateSpeed {
                    average,
                    target_level,
                    period,
                    samplerate,
                } && {
                    &&& average == level.value
                    &&& device.target_level > 0 ==> target_level == device.target_level
                    &&& device.target_level == 0 ==> target_level == device.chunksize
                    &&& period == device.adjust_period
                    &&& device.samplerate <= u32::MAX ==> samplerate == device.samplerate
                    &&& samplerate as int == device.samplerate as int % 0x1_0000_0000
                }
            }
        }),
{
    state_from_history(device, events);
}

/// A speed that was calculated is sent after the timer and the average were restarted; then
/// the whole frames of the average it was calculated from are published, and the chunk that
/// was received last is forwarded.
pub proof fn speed_is_sent_and_level_published<C>(
    device: CpalPlaybackDevice,
    events: Seq<PlaybackEvent<C>>,
    speed: DoubleBits,
)
    requires
        possible(device, events),
        after(device, events).accepts(PlaybackEvent::Speed { speed }),
    ensures
        after(device, events).answer(PlaybackEvent::Speed { speed }) == seq![
            PlaybackAction::<C, Seq<char>>::RestartTimer,
            PlaybackAction::RestartAverage,
            PlaybackAction::SendStatus {
                message: StatusMessage::SetSpeed { speed },
                on_failure: OnSendFailure::Panic,
            },
            PlaybackAction::StoreLevel {
                level: pick_all(events, measured_average()).last().whole,
            },
            PlaybackAction::Forward { chunk: pick_all(events, received_chunk()).last() },
            PlaybackAction::Receive,
        ],
{
    state_from_history(device, events);
    assert(after(device, events).answer(PlaybackEvent::Speed { speed }) =~= seq![
        PlaybackAction::<C, Seq<char>>::RestartTimer,
        PlaybackAction::RestartAverage,
        PlaybackAction::SendStatus {
            message: StatusMessage::SetSpeed { speed },
            on_failure: OnSendFailure::Panic,
        },
        PlaybackAction::StoreLevel { level: pick_all(events, measured_average()).last().whole },
        PlaybackAction::Forward { chunk: pick_all(events, received_chunk()).last() },
        PlaybackAction::Receive,
    ]);
}

/// The end of the audio and the loss of the channel end the thread alike.
pub proof fn end_of_audio_ends_the_thread<C>(
    device: CpalPlaybackDevice,
    events: Seq<PlaybackEvent<C>>,
    buffer_fill: usize,
)
    ensures
        ({
            let state = after(device, events);
            let ending = seq![
                PlaybackAction::<C, Seq<char>>::SendStatus {
                    message: StatusMessage::PlaybackDone,
                    on_failure: OnSendFailure::Panic,
                },
                PlaybackAction::Stop,
            ];
            &&& state.answer(
                PlaybackEvent::Message { audio: AudioMessage::EndOfStream, buffer_fill },
            ) == ending
            &&& state.answer(PlaybackEvent::Disconnected) == ending
        }),
{
}

/// The thread accepts exactly the events that its last action asked for, but for two that the
/// settings rule out: a device that is there with a format that cannot be used, and audio for
/// no channels.
pub proof fn last_action_decides_what_is_accepted<C>(
    device: CpalPlaybackDevice,
    events: Seq<PlaybackEvent<C>>,
    event: PlaybackEvent<C>,
)
    requires
        possible(device, events),
    ensures
        after(device, events).accepts(event) <==> playback_is_asked(
            done(device, events).last(),
            event,
        ) && (match event {
            PlaybackEvent::Devices { names } => device.sample_format == SampleFormat::S16LE
                || device.sample_format == SampleFormat::FLOAT32LE || forall|j: int|
                0 <= j < names@.len() ==> (#[trigger] names@[j] matches Some(name) ==> name@
                    != device.devname@),
            PlaybackEvent::Message { audio: AudioMessage::Audio(_), .. } => device.channels > 0,
            _ => true,
        }),
{
    state_from_history(device, events);
    formats_have_their_width(device.sample_format);
    if events.len() > 0 {
        let before = events.drop_last();
        let state = after(device, before);
        assert(after(device, events) == state.next(events.last()));
        playback_asks_for_what_it_waits_for(state, events.last(), event);
        assert(state.answer(events.last()).len() > 0);
        assert(done(device, events).last() == state.answer(events.last()).last());
    } else {
        assert(done(device, events).last() == (PlaybackAction::<C, Seq<char>>::ListDevices {
            host: device.host,
        }));
    }
    if let PlaybackEvent::Devices { names } = event {
        assert(any_named(names@, device.devname@) <==> !(forall|j: int|
            0 <= j < names@.len() ==> (#[trigger] names@[j] matches Some(name) ==> name@
                != device.devname@))) by {
            if any_named(names@, device.devname@) {
                let i = choose|i: int|
                    0 <= i < names@.len() && is_named(#[trigger] names@[i], device.devname@);
                assert(names@[i] matches Some(name) && name@ == device.devname@);
            } else {
                assert forall|j: int| 0 <= j < names@.len() implies (#[trigger] names@[j] matches Some(
                name,
                ) ==> name@ != device.devname@) by {
                    assert(!is_named(names@[j], device.devname@));
                }
            }
        }
    }
}

/// Over the life of a thread, a speed is calculated for every average that was measured, in
/// order, and each time for the target level of the settings, or one chunk where they have
/// none, the period and the sample rate.
pub proof fn speeds_are_calculated_from_the_settings<C>(
    device: CpalPlaybackDevice,
    events: Seq<PlaybackEvent<C>>,
)
    requires
        possible(device, events),
    ensures
        ({
            let inputs = pick_all(
                playback_trace(PlaybackState::<C>::initial(device), events),
                speed_inputs(),
            );
            let averages = pick_all(events, measured_average());
            &&& inputs.len() == averages.len()
            &&& forall|i: int|
                #![trigger inputs[i]]
                0 <= i < inputs.len() ==> {
                    &&& inputs[i].average == averages[i].value
                    &&& device.target_level > 0 ==> inputs[i].target_level == device.target_level
                    &&& device.target_level == 0 ==> inputs[i].target_level == device.chunksize
                    &&& inputs[i].period == device.adjust_period
                    &&& inputs[i].samplerate as int == device.samplerate as int % 0x1_0000_0000
                    &&& device.samplerate <= u32::MAX ==> inputs[i].samplerate
                        == device.samplerate
                }
            &&& !adjusts(device) ==> inputs.len() == 0
        }),
    decreases events.len(),
{
    let start = PlaybackState::<C>::initial(device);
    if events.len() > 0 {
        let before = events.drop_last();
        let state = after(device, before);
        let answer = state.answer(events.last());
        speeds_are_calculated_from_the_settings(device, before);
        state_from_history(device, before);
        pick_all_splits(playback_trace(start, before), answer, speed_inputs());
        pick_all_of_few(answer, speed_inputs());
        match events.last() {
            PlaybackEvent::Average { average: Some(level) } => {
                assert(pick_all(answer, speed_inputs()).len() == 1);
            },
            _ => {
                assert(pick_all(answer, speed_inputs()) =~= Seq::empty());
                assert(pick_all(events, measured_average()) =~= pick_all(
                    before,
                    measured_average(),
                ));
            },
        }
    }
}

/// Over the life of a thread, the timer is read once for every chunk that is received where
/// the rate is to be adjusted, for the period of the settings, and never where it is not.
pub proof fn timer_is_read_for_every_chunk<C>(
    device: CpalPlaybackDevice,
    events: Seq<PlaybackEvent<C>>,
)
    requires
        possible(device, events),
    ensures
        ({
            let checks = pick_all(
                playback_trace(PlaybackState::<C>::initial(device), events),
                timer_check(),
            );
            &&& adjusts(device) ==> checks.len() == pick_all(events, received_chunk()).len()
            &&& !adjusts(device) ==> checks.len() == 0
            &&& forall|i: int|
                0 <= i < checks.len() ==> #[trigger] checks[i] == device.adjust_period
        }),
    decreases events.len(),
{
    let start = PlaybackState::<C>::initial(device);
    if events.len() > 0 {
        let before = events.drop_last();
        let state = after(device, before);
        let answer = state.answer(events.last());
        timer_is_read_for_every_chunk(device, before);
        state_from_history(device, before);
        pick_all_splits(playback_trace(start, before), answer, timer_check());
        pick_all_of_few(answer, timer_check());
        if events.last() is Message && events.last()->audio is Audio && adjusts(device) {
            assert(pick_all(answer, timer_check()) =~= seq![device.adjust_period]);
        } else {
            assert(pick_all(answer, timer_check()) =~= Seq::empty());
        }
    }
}

/// The contents of a list of actions are those of each action, one for one.
pub proof fn listed_actions_are_viewed_one_for_one<C>(
    actions: Seq<PlaybackAction<C, String>>,
    i: int,
)
    requires
        0 <= i < actions.len(),
    ensures
        playback_actions(actions).len() == actions.len(),
        playback_actions(actions)[i] == actions[i]@,
{
}

/// The contents of an action are the action itself, with error texts as their characters.
pub proof fn action_contents_are_the_action<C>(action: PlaybackAction<C, String>)
    ensures
        ({
            let contents = action@;
            &&& action matches PlaybackAction::ListDevices { host } ==> contents == (
            PlaybackAction::<C, Seq<char>>::ListDevices { host })
            &&& action matches PlaybackAction::SendStatus { message, on_failure } ==> contents
                == (PlaybackAction::<C, Seq<char>>::SendStatus { message: message@, on_failure })
            &&& action matches PlaybackAction::BuildStream {
                device,
                config,
                format,
                scalefactor,
            } ==> contents == (PlaybackAction::<C, Seq<char>>::BuildStream {
                device,
                config,
                format,
                scalefactor,
            })
            &&& action matches PlaybackAction::AddLevel { frames } ==> contents == (
            PlaybackAction::<C, Seq<char>>::AddLevel { frames })
            &&& action matches PlaybackAction::CheckTimer { period } ==> contents == (
            PlaybackAction::<C, Seq<char>>::CheckTimer { period })
            &&& action matches PlaybackAction::CalculateSpeed {
                average,
                target_level,
                period,
                samplerate,
            } ==> contents == (PlaybackAction::<C, Seq<char>>::CalculateSpeed {
                average,
                target_level,
                period,
                samplerate,
            })
            &&& action matches PlaybackAction::StoreLevel { level } ==> contents == (
            PlaybackAction::<C, Seq<char>>::StoreLevel { level })
            &&& action matches PlaybackAction::Forward { chunk } ==> contents == (
            PlaybackAction::<C, Seq<char>>::Forward { chunk })
            &&& action is StartMeters <==> contents is StartMeters
            &&& action is WaitBarrier <==> contents is WaitBarrier
            &&& action is Play <==> contents is Play
            &&& action is Receive <==> contents is Receive
            &&& action is GetAverage <==> contents is GetAverage
            &&& action is RestartTimer <==> contents is RestartTimer
            &&& action is RestartAverage <==> contents is RestartAverage
            &&& action is Stop <==> contents is Stop
        }),
{
}

} // verus!
