//! What a capture thread does, told by the settings of its device and by the events that
//! came so far.

use crate::bits::DoubleBits;
use crate::capture::{
    capture_actions, nbr_capture_samples, CaptureAction, CaptureEvent, CaptureState,
};
use crate::capture_laws::{
    asked_speed, before_loop, capture_asks_for_what_it_waits_for, capture_is_asked, capture_run,
    capture_starts_at_start, capture_trace, capture_valid, converted_chunk, converted_range,
    converted_samples, given_verdict, latest_values_are_remembered, provided_samples,
    samples_are_converted_in_order,
};
use crate::device::{
    any_named, first_named, first_named_is_unique, formats_have_their_width, is_first_named,
    is_named, CpalCaptureDevice, SampleFormat, StreamFormat,
};
use crate::message::{
    AudioChunk, AudioMessage, CommandMessage, OnSendFailure, ProcessingState, StatusMessage,
};
use crate::trace::{last_or, pick_all, pick_all_of_few, pick_all_splits};
use std::collections::VecDeque;
use vstd::layout::size_of;
use vstd::prelude::*;

verus! {

/// Whether there is a resampler, where an event tells.
pub open spec fn made_resampler<T, S>() -> spec_fn(CaptureEvent<T, S>) -> Seq<bool> {
    |event: CaptureEvent<T, S>|
        match event {
            CaptureEvent::ResamplerMade { available } => seq![available],
            _ => Seq::empty(),
        }
}

/// The number of frames that the resampler needs, where an event tells.
pub open spec fn needed_frames<T, S>() -> spec_fn(CaptureEvent<T, S>) -> Seq<usize> {
    |event: CaptureEvent<T, S>|
        match event {
            CaptureEvent::FramesNeeded { frames } => seq![frames],
            _ => Seq::empty(),
        }
}

/// A conversion of samples to a chunk.
pub struct Conversion<T> {
    pub samples: Seq<T>,
    pub frames: usize,
    pub channels: usize,
}

/// The conversion that an action asks for.
pub open spec fn conversion<T, S>() -> spec_fn(CaptureAction<Seq<T>, S, Seq<char>>) -> Seq<
    Conversion<T>,
> {
    |action: CaptureAction<Seq<T>, S, Seq<char>>|
        match action {
            CaptureAction::Convert { samples, frames, channels } => seq![
                Conversion { samples, frames, channels },
            ],
            _ => Seq::empty(),
        }
}

/// The number of samples that an action adds to the rate meter.
pub open spec fn metered_count<T, S>() -> spec_fn(CaptureAction<Seq<T>, S, Seq<char>>) -> Seq<
    usize,
> {
    |action: CaptureAction<Seq<T>, S, Seq<char>>|
        match action {
            CaptureAction::Meter { count } => seq![count],
            _ => Seq::empty(),
        }
}

/// The range that an action hands to the silence counter.
pub open spec fn judged_range<T, S>() -> spec_fn(CaptureAction<Seq<T>, S, Seq<char>>) -> Seq<
    DoubleBits,
> {
    |action: CaptureAction<Seq<T>, S, Seq<char>>|
        match action {
            CaptureAction::UpdateSilence { range } => seq![range],
            _ => Seq::empty(),
        }
}

/// The state of a device's thread after `events`.
pub open spec fn after<R, T, S>(
    device: CpalCaptureDevice<R>,
    async_src: bool,
    events: Seq<CaptureEvent<T, S>>,
) -> CaptureState<T, S> {
    capture_run(CaptureState::initial(device, async_src), events)
}

/// `events` can come to a device's thread.
pub open spec fn possible<R, T, S>(
    device: CpalCaptureDevice<R>,
    async_src: bool,
    events: Seq<CaptureEvent<T, S>>,
) -> bool {
    capture_valid(CaptureState::initial(device, async_src), events)
}

/// All that a device's thread did in answer to `events`.
pub open spec fn done<R, T, S>(
    device: CpalCaptureDevice<R>,
    async_src: bool,
    events: Seq<CaptureEvent<T, S>>,
) -> Seq<CaptureAction<Seq<T>, S, Seq<char>>> {
    capture_trace(CaptureState::initial(device, async_src), events)
}

/// There is a resampler: one was asked for, and could be made.
pub open spec fn resamples<T, S>(events: Seq<CaptureEvent<T, S>>) -> bool {
    last_or(pick_all(events, made_resampler()), false)
}

/// How the state of a thread hangs on its device and on the events that came.
proof fn state_from_history<R, T, S>(
    device: CpalCaptureDevice<R>,
    async_src: bool,
    events: Seq<CaptureEvent<T, S>>,
)
    requires
        possible(device, async_src, events),
    ensures
        ({
            let state = after(device, async_src, events);
            let asked = pick_all(events, needed_frames());
            let chunks = pick_all(events, converted_chunk());
            &&& state.devname == device.devname@
            &&& state.host == device.host
            &&& state.capture_samplerate == device.capture_samplerate
            &&& state.chunksize == device.chunksize
            &&& state.channels == device.channels
            &&& state.sample_format == device.sample_format
            &&& state.silence_threshold == device.silence_threshold
            &&& state.silence_timeout == device.silence_timeout
            &&& state.async_src == async_src
            &&& state.has_resampler == resamples(events)
            &&& before_loop(state) ==> asked.len() == 0
            &&& !before_loop(state) ==> state.capture_samples == last_or(asked, device.chunksize)
                * device.channels
            &&& !resamples(events) ==> asked.len() == 0 && !(state.phase is Sizing)
            &&& (state.phase is Sizing || state.phase is Filling || state.phase is Converting
                || state.phase is Metering || state.phase is Judging || state.phase is Resampling)
                ==> state.channels > 0
            &&& state.phase is Metering ==> chunks.len() > 0 && state.phase->Metering_chunk
                == chunks.last()
            &&& state.phase is Judging ==> chunks.len() > 0 && state.phase->Judging_chunk
                == chunks.last()
            &&& state.phase is Resampling ==> chunks.len() > 0 && state.phase->maxval
                == chunks.last().maxval && state.phase->minval == chunks.last().minval
                && resamples(events)
        }),
    decreases events.len(),
{
    if events.len() > 0 {
        let before = events.drop_last();
        let state = after(device, async_src, before);
        let event = events.last();
        state_from_history(device, async_src, before);
        assert(after(device, async_src, events) == state.next(event));
        step_from_history(state, device.chunksize, before, event);
        assert(before.push(event) =~= events);
    }
}

/// What one event changes of the state that hangs on the events that came.
proof fn step_from_history<T, S>(
    state: CaptureState<T, S>,
    chunksize: usize,
    before: Seq<CaptureEvent<T, S>>,
    event: CaptureEvent<T, S>,
)
    requires
        state.accepts(event),
        state.chunksize == chunksize,
        state.has_resampler == resamples(before),
        before_loop(state) ==> pick_all(before, needed_frames()).len() == 0,
        !before_loop(state) ==> state.capture_samples == last_or(
            pick_all(before, needed_frames()),
            chunksize,
        ) * state.channels,
        !resamples(before) ==> pick_all(before, needed_frames()).len() == 0 && !(
        state.phase is Sizing),
    ensures
        ({
            let next = state.next(event);
            let events = before.push(event);
            let asked = pick_all(events, needed_frames());
            &&& next.has_resampler == resamples(events)
            &&& before_loop(next) ==> asked.len() == 0
            &&& !before_loop(next) ==> next.capture_samples == last_or(asked, chunksize)
                * state.channels
            &&& !resamples(events) ==> asked.len() == 0 && !(next.phase is Sizing)
        }),
{
    let events = before.push(event);
    assert(events.drop_last() =~= before);
    assert(events.last() == event);
    let chunks = chunksize as int;
    let channels = state.channels as int;
    assert(channels * chunks == chunks * channels) by (nonlinear_arith);
    assert(0 <= channels * chunks <= 2 * chunks * channels) by (nonlinear_arith)
        requires
            chunks >= 0,
            channels >= 0,
    ;
    assert(pick_all(before, needed_frames()) + Seq::empty() =~= pick_all(
        before,
        needed_frames(),
    ));
    assert(pick_all(before, made_resampler()) + Seq::empty() =~= pick_all(
        before,
        made_resampler(),
    ));
}

/// A device that is there is announced and its stream is built: that of the first device with
/// the name, with the channels, the capture rate and the sample type of the settings.
pub proof fn named_device_is_built<R, T, S>(
    device: CpalCaptureDevice<R>,
    async_src: bool,
    events: Seq<CaptureEvent<T, S>>,
    names: Vec<Option<String>>,
    index: int,
)
    requires
        possible(device, async_src, events),
        after(device, async_src, events).accepts(CaptureEvent::Devices { names }),
        0 <= index < names@.len(),
        names@[index] matches Some(name) && name@ == device.devname@,
        forall|j: int|
            0 <= j < index ==> (#[trigger] names@[j] matches Some(name) ==> name@
                != device.devname@),
    ensures
        ({
            let answer = after(device, async_src, events).answer(CaptureEvent::Devices { names });
            &&& answer.len() == 2
            &&& answer[0] == (CaptureAction::<Seq<T>, S, Seq<char>>::SendStatus {
                message: StatusMessage::CaptureReady,
                on_failure: OnSendFailure::Ignore,
            })
            &&& answer[1] matches CaptureAction::BuildStream {
                device: chosen,
                config,
                format,
                scalefactor,
            } && {
                &&& chosen == index
                &&& config.channels as int == device.channels as int % 0x1_0000
                &&& config.sample_rate as int == device.capture_samplerate as int % 0x1_0000_0000
                &&& device.channels <= u16::MAX ==> config.channels == device.channels
                &&& device.capture_samplerate <= u32::MAX ==> config.sample_rate
                    == device.capture_samplerate
                &&& device.sample_format == SampleFormat::S16LE ==> format == StreamFormat::I16
                    && scalefactor == 32768
                &&& device.sample_format == SampleFormat::FLOAT32LE ==> format
                    == StreamFormat::F32 && scalefactor == 2147483648
            }
        }),
{
    state_from_history(device, async_src, events);
    formats_have_their_width(device.sample_format);
    assert(names.len() == names@.len());
    assert(index as usize == index);
    assert(is_named(names@[index], device.devname@));
    assert(is_first_named(names@, device.devname@, index));
    first_named_is_unique(
        names@,
        device.devname@,
        index,
        first_named(names@, device.devname@),
    );
}

/// A device that is not there is reported by name, the barrier is passed and the thread ends;
/// and so it is with the error text where the host cannot be asked.
pub proof fn missing_device_ends_the_thread<R, T, S>(
    device: CpalCaptureDevice<R>,
    async_src: bool,
    events: Seq<CaptureEvent<T, S>>,
    names: Vec<Option<String>>,
    message: String,
)
    requires
        possible(device, async_src, events),
        forall|j: int|
            0 <= j < names@.len() ==> (#[trigger] names@[j] matches Some(name) ==> name@
                != device.devname@),
    ensures
        after(device, async_src, events).answer(CaptureEvent::Devices { names }) == seq![
            CaptureAction::<Seq<T>, S, Seq<char>>::SendStatus {
                message: StatusMessage::CaptureError {
                    message: "Could not find device '"@ + device.devname@ + "'"@,
                },
                on_failure: OnSendFailure::Log,
            },
            CaptureAction::WaitBarrier,
            CaptureAction::Stop,
        ],
        after(device, async_src, events).answer(CaptureEvent::DevicesFailed { message }) == seq![
            CaptureAction::<Seq<T>, S, Seq<char>>::SendStatus {
                message: StatusMessage::CaptureError { message: message@ },
                on_failure: OnSendFailure::Log,
            },
            CaptureAction::WaitBarrier,
            CaptureAction::Stop,
        ],
{
    state_from_history(device, async_src, events);
    assert(!any_named(names@, device.devname@));
}

/// The devices are listed once the resampler was asked for. A stream that was built is
/// started after the barrier; one that was not built or not started is reported, before the
/// barrier if it was not built. In any case the meters are then started with the silence
/// settings, the capture rate and the chunk size, and the thread looks for a command.
pub proof fn stream_is_started_after_the_barrier<R, T, S>(
    device: CpalCaptureDevice<R>,
    async_src: bool,
    events: Seq<CaptureEvent<T, S>>,
    available: bool,
    text: String,
)
    requires
        possible(device, async_src, events),
    ensures
        ({
            let state = after(device, async_src, events);
            let report = CaptureAction::<Seq<T>, S, Seq<char>>::SendStatus {
                message: StatusMessage::CaptureError { message: text@ },
                on_failure: OnSendFailure::Panic,
            };
            let meters = CaptureAction::<Seq<T>, S, Seq<char>>::StartMeters {
                threshold: device.silence_threshold,
                timeout: device.silence_timeout,
                capture_samplerate: device.capture_samplerate,
                chunksize: device.chunksize,
            };
            &&& state.answer(CaptureEvent::ResamplerMade { available }) == seq![
                CaptureAction::<Seq<T>, S, Seq<char>>::ListDevices { host: device.host },
            ]
            &&& state.answer(CaptureEvent::StreamBuilt) == seq![
                CaptureAction::<Seq<T>, S, Seq<char>>::WaitBarrier,
                CaptureAction::Play,
            ]
            &&& state.answer(CaptureEvent::StreamFailed { message: text }) == seq![
                report,
                CaptureAction::WaitBarrier,
                meters,
                CaptureAction::PollCommand,
            ]
            &&& state.answer(CaptureEvent::Played) == seq![meters, CaptureAction::PollCommand]
            &&& state.answer(CaptureEvent::PlayFailed { message: text }) == seq![
                report,
                meters,
                CaptureAction::PollCommand,
            ]
        }),
{
    state_from_history(device, async_src, events);
    let state = after(device, async_src, events);
    let report = CaptureAction::<Seq<T>, S, Seq<char>>::SendStatus {
        message: StatusMessage::CaptureError { message: text@ },
        on_failure: OnSendFailure::Panic,
    };
    let meters = CaptureAction::<Seq<T>, S, Seq<char>>::StartMeters {
        threshold: device.silence_threshold,
        timeout: device.silence_timeout,
        capture_samplerate: device.capture_samplerate,
        chunksize: device.chunksize,
    };
    assert(state.answer(CaptureEvent::StreamFailed { message: text }) =~= seq![
        report,
        CaptureAction::WaitBarrier,
        meters,
        CaptureAction::PollCommand,
    ]);
    assert(state.answer(CaptureEvent::PlayFailed { message: text }) =~= seq![
        report,
        meters,
        CaptureAction::PollCommand,
    ]);
}

/// The samples that came from the device and were not yet converted.
pub open spec fn waiting<R, T, S>(
    device: CpalCaptureDevice<R>,
    async_src: bool,
    events: Seq<CaptureEvent<T, S>>,
) -> Seq<T> {
    pick_all(events, provided_samples()).skip(
        pick_all(done(device, async_src, events), converted_samples()).len() as int,
    )
}

/// The queue holds the samples that came and were not yet converted.
proof fn queue_is_waiting<R, T, S>(
    device: CpalCaptureDevice<R>,
    async_src: bool,
    events: Seq<CaptureEvent<T, S>>,
)
    requires
        possible(device, async_src, events),
    ensures
        after(device, async_src, events).queue == waiting(device, async_src, events),
{
    let start = CaptureState::<T, S>::initial(device, async_src);
    capture_starts_at_start::<R, T, S>(device, async_src);
    samples_are_converted_in_order(start, events);
    let converted = pick_all(done(device, async_src, events), converted_samples());
    let queue = after(device, async_src, events).queue;
    assert((converted + queue).skip(converted.len() as int) =~= queue);
}

/// What a thread does about its queue, where a chunk is to hold `frames` frames.
proof fn gathering_in_frames<T, S>(state: CaptureState<T, S>, frames: usize)
    requires
        state.channels > 0,
        state.capture_samples == frames * state.channels,
    ensures
        state.queue.len() < frames * state.channels ==> state.gathering() == seq![
            CaptureAction::<Seq<T>, S, Seq<char>>::ReceiveBuffer,
        ],
        state.queue.len() >= frames * state.channels ==> state.gathering() == seq![
            CaptureAction::<Seq<T>, S, Seq<char>>::Convert {
                samples: state.queue.take(frames * state.channels),
                frames,
                channels: state.channels,
            },
        ],
{
    let f = frames as int;
    let c = state.channels as int;
    assert((f * c) / c == f) by (nonlinear_arith)
        requires
            c > 0,
    ;
}

/// The thread asks for a buffer while fewer samples wait than a chunk takes, and otherwise
/// converts that many, from the oldest on. A chunk takes the frames that the resampler needs
/// in this round, or the chunk size of the settings where there is no resampler, in each of
/// the channels.
pub proof fn chunk_is_taken_once_enough_waits<R, T, S>(
    device: CpalCaptureDevice<R>,
    async_src: bool,
    events: Seq<CaptureEvent<T, S>>,
    event: CaptureEvent<T, S>,
    frames: usize,
    samples: Seq<T>,
)
    requires
        possible(device, async_src, events),
        after(device, async_src, events).accepts(event),
        match event {
            CaptureEvent::FramesNeeded { frames: needed } => {
                &&& frames == needed
                &&& samples == waiting(device, async_src, events)
            },
            CaptureEvent::Buffer { samples: given } => {
                &&& frames == last_or(pick_all(events, needed_frames()), device.chunksize)
                &&& samples == waiting(device, async_src, events) + given@
            },
            CaptureEvent::Command { command } => {
                &&& command != Some(CommandMessage::Exit)
                &&& !resamples(events)
                &&& frames == device.chunksize
                &&& samples == waiting(device, async_src, events)
            },
            _ => false,
        },
    ensures
        samples.len() < frames * device.channels ==> after(device, async_src, events).answer(event)
            == seq![CaptureAction::<Seq<T>, S, Seq<char>>::ReceiveBuffer],
        samples.len() >= frames * device.channels ==> after(device, async_src, events).answer(
            event,
        ) == seq![
            CaptureAction::<Seq<T>, S, Seq<char>>::Convert {
                samples: samples.take(frames * device.channels),
                frames,
                channels: device.channels,
            },
        ],
{
    let state = after(device, async_src, events);
    state_from_history(device, async_src, events);
    queue_is_waiting(device, async_src, events);
    match event {
        CaptureEvent::FramesNeeded { frames: needed } => {
            gathering_in_frames(state.sized(needed), frames);
        },
        CaptureEvent::Buffer { samples: given } => {
            gathering_in_frames(state.filled(given@), frames);
        },
        CaptureEvent::Command { command } => {
            gathering_in_frames(state.commanded(command), frames);
        },
        _ => {},
    }
}

/// Told to exit, the thread ends the audio, reports that capture is done, publishes that it
/// is inactive, and ends. With a resampler, any other round starts with the number of frames
/// that it needs, after a new speed, if there is one, was set where the resampler can follow.
pub proof fn commands_are_followed<R, T, S>(
    device: CpalCaptureDevice<R>,
    async_src: bool,
    events: Seq<CaptureEvent<T, S>>,
    speed: DoubleBits,
)
    requires
        possible(device, async_src, events),
    ensures
        ({
            let state = after(device, async_src, events);
            let asking = Some(CommandMessage::SetSpeed { speed });
            let query = CaptureAction::<Seq<T>, S, Seq<char>>::QueryFrames;
            &&& state.answer(CaptureEvent::Command { command: Some(CommandMessage::Exit) })
                == seq![
                CaptureAction::<Seq<T>, S, Seq<char>>::SendAudio {
                    audio: AudioMessage::EndOfStream,
                },
                CaptureAction::SendStatus {
                    message: StatusMessage::CaptureDone,
                    on_failure: OnSendFailure::Panic,
                },
                CaptureAction::SetInactive,
                CaptureAction::Stop,
            ]
            &&& resamples(events) ==> state.answer(CaptureEvent::Command { command: None })
                == seq![query]
            &&& resamples(events) && !async_src ==> state.answer(
                CaptureEvent::Command { command: asking },
            ) == seq![query]
            &&& resamples(events) && async_src ==> state.answer(
                CaptureEvent::Command { command: asking },
            ) == seq![CaptureAction::SetRatio { speed }, query]
        }),
{
    state_from_history(device, async_src, events);
    let state = after(device, async_src, events);
    let query = CaptureAction::<Seq<T>, S, Seq<char>>::QueryFrames;
    assert(Seq::empty() + seq![query] =~= seq![query]);
    assert(seq![CaptureAction::<Seq<T>, S, Seq<char>>::SetRatio { speed }] + seq![query] =~= seq![
        CaptureAction::SetRatio { speed },
        query,
    ]);
}

/// A buffer that is lost is reported and asked for again. A chunk that was converted adds its
/// samples, frames times channels, to the rate meter.
pub proof fn lost_buffers_are_reported_and_chunks_metered<R, T, S>(
    device: CpalCaptureDevice<R>,
    async_src: bool,
    events: Seq<CaptureEvent<T, S>>,
    text: String,
    chunk: AudioChunk<S>,
    range: DoubleBits,
)
    requires
        possible(device, async_src, events),
    ensures
        ({
            let state = after(device, async_src, events);
            &&& state.answer(CaptureEvent::BufferFailed { message: text }) == seq![
                CaptureAction::<Seq<T>, S, Seq<char>>::SendStatus {
                    message: StatusMessage::CaptureError { message: text@ },
                    on_failure: OnSendFailure::Panic,
                },
                CaptureAction::ReceiveBuffer,
            ]
            &&& state.accepts(CaptureEvent::Converted { chunk, range }) ==> {
                let answer = state.answer(CaptureEvent::Converted { chunk, range });
                &&& answer.len() == 1
                &&& answer[0] matches CaptureAction::Meter { count } && count == last_or(
                    pick_all(events, needed_frames()),
                    device.chunksize,
                ) * device.channels
            }
        }),
{
    state_from_history(device, async_src, events);
}

/// Once a chunk is metered its range goes to the silence counter; before that, where the time
/// for it has come and only then, the status of the chunk before is published.
pub proof fn metered_chunk_is_judged<R, T, S>(
    device: CpalCaptureDevice<R>,
    async_src: bool,
    events: Seq<CaptureEvent<T, S>>,
)
    requires
        possible(device, async_src, events),
        after(device, async_src, events).accepts(CaptureEvent::MeterRead { elapsed: true }),
    ensures
        ({
            let state = after(device, async_src, events);
            let ranges = pick_all(events, converted_range());
            let judging = CaptureAction::<Seq<T>, S, Seq<char>>::UpdateSilence {
                range: ranges.last(),
            };
            &&& ranges.len() > 0
            &&& state.answer(CaptureEvent::MeterRead { elapsed: false }) == seq![judging]
            &&& state.answer(CaptureEvent::MeterRead { elapsed: true }) == seq![
                CaptureAction::Publish {
                    channels: device.channels,
                    signal_range: last_or(ranges.drop_last(), DoubleBits { bits: 0 }),
                    rate_adjust: last_or(
                        pick_all(events, asked_speed()),
                        DoubleBits { bits: 0 },
                    ),
                    state: last_or(
                        pick_all(events, given_verdict()),
                        ProcessingState::Running,
                    ),
                },
                judging,
            ]
        }),
{
    let start = CaptureState::<T, S>::initial(device, async_src);
    state_from_history(device, async_src, events);
    capture_starts_at_start::<R, T, S>(device, async_src);
    latest_values_are_remembered(start, events);
    let judging = CaptureAction::<Seq<T>, S, Seq<char>>::UpdateSilence {
        range: pick_all(events, converted_range()).last(),
    };
    assert(Seq::empty() + seq![judging] =~= seq![judging]);
}

/// A chunk that is not running is dropped. The others are sent as they are, or go to the
/// resampler first; what comes back is sent with as many frames as its first waveform has,
/// all of them valid, and with the largest and the smallest sample of the chunk.
pub proof fn judged_chunk_is_sent_if_running<R, T, S>(
    device: CpalCaptureDevice<R>,
    async_src: bool,
    events: Seq<CaptureEvent<T, S>>,
    verdict: ProcessingState,
    given: Vec<Vec<S>>,
)
    requires
        possible(device, async_src, events),
    ensures
        ({
            let state = after(device, async_src, events);
            let chunk = pick_all(events, converted_chunk()).last();
            let poll = CaptureAction::<Seq<T>, S, Seq<char>>::PollCommand;
            &&& state.accepts(CaptureEvent::Verdict { state: verdict }) ==> {
                let answer = state.answer(CaptureEvent::Verdict { state: verdict });
                &&& verdict != ProcessingState::Running ==> answer == seq![poll]
                &&& verdict == ProcessingState::Running && !resamples(events) ==> answer == seq![
                    CaptureAction::SendAudio { audio: AudioMessage::Audio(chunk) },
                    poll,
                ]
                &&& verdict == ProcessingState::Running && resamples(events) ==> answer == seq![
                    CaptureAction::<Seq<T>, S, Seq<char>>::Resample {
                        waveforms: chunk.waveforms,
                    },
                ]
            }
            &&& state.accepts(CaptureEvent::Resampled { waveforms: given }) ==> {
                let answer = state.answer(CaptureEvent::Resampled { waveforms: given });
                &&& answer.len() == 2
                &&& answer[0] matches CaptureAction::SendAudio {
                    audio: AudioMessage::Audio(sent),
                } && {
                    &&& sent.waveforms == given
                    &&& sent.frames == given@[0]@.len()
                    &&& sent.valid_frames == given@[0]@.len()
                    &&& sent.maxval == chunk.maxval
                    &&& sent.minval == chunk.minval
                }
                &&& answer[1] == poll
            }
        }),
{
    state_from_history(device, async_src, events);
    assert(given@[0].len() == given@[0]@.len());
}

/// A queue for two chunks can be had.
pub open spec fn room_for_two_chunks<R, T>(device: CpalCaptureDevice<R>) -> bool {
    &&& 2 * device.chunksize <= usize::MAX
    &&& 2 * device.chunksize * device.channels <= usize::MAX
    &&& 2 * device.chunksize * device.channels * size_of::<T>() <= isize::MAX
}

/// The thread accepts exactly the events that its last action asked for, but for some that
/// the settings or what comes from outside rule out: a device that is there with a format that
/// cannot be used, a queue for two chunks that cannot be had, chunks of no channels, more
/// samples than can be counted, and no waveforms from a resampler.
pub proof fn last_action_decides_what_is_accepted<R, T, S>(
    device: CpalCaptureDevice<R>,
    async_src: bool,
    events: Seq<CaptureEvent<T, S>>,
    first: CaptureAction<Seq<T>, S, Seq<char>>,
    event: CaptureEvent<T, S>,
)
    requires
        possible(device, async_src, events),
        device.enable_resampling ==> first is MakeResampler,
        !device.enable_resampling ==> first is ListDevices,
    ensures
        after(device, async_src, events).accepts(event) <==> capture_is_asked(
            last_or(done(device, async_src, events), first),
            event,
        ) && (match event {
            CaptureEvent::Devices { names } => device.sample_format == SampleFormat::S16LE
                || device.sample_format == SampleFormat::FLOAT32LE || forall|j: int|
                0 <= j < names@.len() ==> (#[trigger] names@[j] matches Some(name) ==> name@
                    != device.devname@),
            CaptureEvent::StreamFailed { .. } => room_for_two_chunks::<R, T>(device),
            CaptureEvent::Played => room_for_two_chunks::<R, T>(device),
            CaptureEvent::PlayFailed { .. } => room_for_two_chunks::<R, T>(device),
            CaptureEvent::Command { command } => command == Some(CommandMessage::Exit)
                || device.channels > 0,
            CaptureEvent::FramesNeeded { frames } => frames * device.channels <= usize::MAX,
            CaptureEvent::Resampled { waveforms } => waveforms@.len() > 0,
            _ => true,
        }),
{
    state_from_history(device, async_src, events);
    formats_have_their_width(device.sample_format);
    if events.len() > 0 {
        let before = events.drop_last();
        let state = after(device, async_src, before);
        assert(after(device, async_src, events) == state.next(events.last()));
        capture_asks_for_what_it_waits_for(state, events.last(), event);
        assert(state.answer(events.last()).len() > 0);
        assert(done(device, async_src, events).last() == state.answer(events.last()).last());
    }
    if let CaptureEvent::Devices { names } = event {
        assert(any_named(names@, device.devname@) <==> !(forall|j: int|
            0 <= j < names@.len() ==> (#[trigger] names@[j] matches Some(name) ==> name@
                != device.devname@))) by {
            if any_named(names@, device.devname@) {
                let i = choose|i: int|
                    0 <= i < names@.len() && is_named(#[trigger] names@[i], device.devname@);
                assert(names@[i] matches Some(name) && name@ == device.devname@);
            } else {
                assert forall|j: int| 0 <= j < names@.len() implies (#[trigger] names@[j] matches Some(
                name,
                ) ==> name@ != device.devname@) by {
                    assert(!is_named(names@[j], device.devname@));
                }
            }
        }
    }
}

/// The thread looks after `event` whether enough samples wait for a chunk.
pub open spec fn gathers<T, S>(event: CaptureEvent<T, S>, resampling: bool) -> bool {
    match event {
        CaptureEvent::FramesNeeded { .. } => true,
        CaptureEvent::Buffer { .. } => true,
        CaptureEvent::Command { command } => command != Some(CommandMessage::Exit) && !resampling,
        _ => false,
    }
}

/// What one event makes the thread convert, where a chunk is to hold `frames` frames.
proof fn step_converts<T, S>(state: CaptureState<T, S>, event: CaptureEvent<T, S>, frames: usize)
    requires
        state.accepts(event),
        event matches CaptureEvent::FramesNeeded { frames: needed } ==> needed == frames,
        !(event is FramesNeeded) && gathers(event, state.has_resampler) ==> state.capture_samples
            == frames * state.channels,
    ensures
        ({
            let made = pick_all(state.answer(event), conversion());
            let counts = pick_all(state.answer(event), metered_count());
            let next = state.next(event);
            &&& gathers(event, state.has_resampler) ==> {
                &&& counts.len() == 0
                &&& next.capture_samples == frames * state.channels
                &&& next.phase is Filling || next.phase is Converting
                &&& next.phase is Filling ==> made.len() == 0
                &&& next.phase is Converting ==> made.len() == 1 && made[0].frames == frames
                    && made[0].channels == state.channels && made[0].samples.len() == frames
                    * state.channels
            }
            &&& !gathers(event, state.has_resampler) ==> {
                &&& made.len() == 0
                &&& !(next.phase is Converting)
                &&& next.phase is Filling ==> event is BufferFailed
                &&& event is BufferFailed ==> next == state
                &&& event is Converted ==> counts == seq![state.capture_samples]
                &&& !(event is Converted) ==> counts.len() == 0
            }
        }),
{
    let answer = state.answer(event);
    pick_all_of_few(answer, conversion::<T, S>());
    pick_all_of_few(answer, metered_count::<T, S>());
    let f = frames as int;
    let c = state.channels as int;
    if gathers(event, state.has_resampler) {
        assert(0 <= f * c && (f * c) / c == f) by (nonlinear_arith)
            requires
                f >= 0,
                c > 0,
        ;
        match event {
            CaptureEvent::FramesNeeded { .. } => {
                gathering_in_frames(state.sized(frames), frames);
            },
            CaptureEvent::Buffer { samples } => {
                gathering_in_frames(state.filled(samples@), frames);
            },
            CaptureEvent::Command { command } => {
                gathering_in_frames(state.commanded(command), frames);
            },
            _ => {},
        }
    }
}

/// Over the life of a thread, every conversion has the channels of the settings and as many
/// samples as frames and channels make. With a resampler, the frames are those that it needed
/// in that round, whatever they were before; without one, they are the chunk size of the
/// settings.
pub proof fn conversions_hold_the_frames_that_are_needed<R, T, S>(
    device: CpalCaptureDevice<R>,
    async_src: bool,
    events: Seq<CaptureEvent<T, S>>,
)
    requires
        possible(device, async_src, events),
    ensures
        ({
            let conversions = pick_all(done(device, async_src, events), conversion());
            let asked = pick_all(events, needed_frames());
            let state = after(device, async_src, events);
            &&& forall|i: int|
                #![trigger conversions[i]]
                0 <= i < conversions.len() ==> {
                    &&& conversions[i].channels == device.channels
                    &&& conversions[i].samples.len() == conversions[i].frames * device.channels
                    &&& resamples(events) ==> conversions[i].frames == asked[i]
                    &&& !resamples(events) ==> conversions[i].frames == device.chunksize
                }
            &&& resamples(events) ==> asked.len() == conversions.len() + (
            if state.phase is Filling {
                1int
            } else {
                0int
            })
            &&& !resamples(events) ==> asked.len() == 0
            &&& before_loop(state) ==> conversions.len() == 0
        }),
    decreases events.len(),
{
    if events.len() > 0 {
        let before = events.drop_last();
        let state = after(device, async_src, before);
        let event = events.last();
        conversions_hold_the_frames_that_are_needed(device, async_src, before);
        state_from_history(device, async_src, before);
        state_from_history(device, async_src, events);
        trace_grows(device, async_src, events, conversion());
        let needed = pick_all(before, needed_frames());
        let frames = if let CaptureEvent::FramesNeeded { frames } = event {
            frames
        } else {
            last_or(needed, device.chunksize)
        };
        step_converts(state, event, frames);
        let made = pick_all(state.answer(event), conversion());
        let conversions = pick_all(done(device, async_src, before), conversion());
        if !(event is FramesNeeded) {
            assert(pick_all(events, needed_frames()) =~= needed);
        }
        if !(event is ResamplerMade) {
            assert(resamples(events) == resamples(before)) by {
                assert(pick_all(events, made_resampler()) =~= pick_all(before, made_resampler()));
            }
        }
        if made.len() == 0 {
            assert(conversions + made =~= conversions);
        }
    }
}

/// What is picked of all that a thread did grows by what is picked of its last answer.
proof fn trace_grows<R, T, S, B>(
    device: CpalCaptureDevice<R>,
    async_src: bool,
    events: Seq<CaptureEvent<T, S>>,
    pick: spec_fn(CaptureAction<Seq<T>, S, Seq<char>>) -> Seq<B>,
)
    requires
        possible(device, async_src, events),
        events.len() > 0,
    ensures
        ({
            let before = events.drop_last();
            let state = after(device, async_src, before);
            &&& pick_all(done(device, async_src, events), pick) == pick_all(
                done(device, async_src, before),
                pick,
            ) + pick_all(state.answer(events.last()), pick)
            &&& after(device, async_src, events) == state.next(events.last())
            &&& possible(device, async_src, before)
            &&& state.accepts(events.last())
        }),
{
    let before = events.drop_last();
    let state = after(device, async_src, before);
    pick_all_splits(done(device, async_src, before), state.answer(events.last()), pick);
}

/// What one event makes the thread hand to the silence counter.
proof fn step_judges<T, S>(state: CaptureState<T, S>, event: CaptureEvent<T, S>)
    requires
        state.accepts(event),
    ensures
        ({
            let judged = pick_all(state.answer(event), judged_range());
            let next = state.next(event);
            &&& event is MeterRead ==> judged == seq![state.phase->range]
            &&& !(event is MeterRead) ==> judged.len() == 0
            &&& event is Converted <==> next.phase is Metering
            &&& event matches CaptureEvent::Converted { range, .. } ==> next.phase->range == range
            &&& event is MeterRead <==> state.phase is Metering
        }),
{
    pick_all_of_few(state.answer(event), judged_range::<T, S>());
    if event is MeterRead {
        assert(pick_all(state.answer(event), judged_range()) =~= seq![state.phase->range]);
    }
}

/// Over the life of a thread, the ranges that the silence counter gets are those of the
/// converted chunks, each once and in order, whether or not the status is published meanwhile:
/// all but that of the chunk that is being metered.
pub proof fn silence_counter_gets_every_range<R, T, S>(
    device: CpalCaptureDevice<R>,
    async_src: bool,
    events: Seq<CaptureEvent<T, S>>,
)
    requires
        possible(device, async_src, events),
    ensures
        ({
            let judged = pick_all(done(device, async_src, events), judged_range());
            let ranges = pick_all(events, converted_range());
            let phase = after(device, async_src, events).phase;
            &&& phase is Metering ==> ranges.len() > 0 && judged == ranges.drop_last()
                && phase->range == ranges.last()
            &&& !(phase is Metering) ==> judged == ranges
        }),
    decreases events.len(),
{
    if events.len() > 0 {
        let before = events.drop_last();
        let state = after(device, async_src, before);
        let event = events.last();
        silence_counter_gets_every_range(device, async_src, before);
        trace_grows(device, async_src, events, judged_range());
        step_judges(state, event);
        let judged = pick_all(state.answer(event), judged_range());
        let ranges = pick_all(before, converted_range());
        if !(event is Converted) {
            assert(pick_all(events, converted_range()) =~= ranges);
        }
        if event is MeterRead {
            assert(ranges.drop_last() + judged =~= ranges);
        }
        if let CaptureEvent::Converted { range, .. } = event {
            assert((ranges + seq![range]).drop_last() =~= ranges);
        }
    }
}

/// Over the life of a thread, the rate meter gets the samples of every chunk that was
/// converted: as many as the conversion took, in order.
pub proof fn rate_meter_gets_every_conversion<R, T, S>(
    device: CpalCaptureDevice<R>,
    async_src: bool,
    events: Seq<CaptureEvent<T, S>>,
)
    requires
        possible(device, async_src, events),
    ensures
        ({
            let counts = pick_all(done(device, async_src, events), metered_count());
            let conversions = pick_all(done(device, async_src, events), conversion());
            let state = after(device, async_src, events);
            &&& conversions.len() == counts.len() + (if state.phase is Converting {
                1int
            } else {
                0int
            })
            &&& forall|i: int|
                0 <= i < counts.len() ==> #[trigger] counts[i] == conversions[i].samples.len()
            &&& state.phase is Converting ==> conversions.last().samples.len()
                == state.capture_samples
        }),
    decreases events.len(),
{
    if events.len() > 0 {
        let before = events.drop_last();
        let state = after(device, async_src, before);
        let event = events.last();
        rate_meter_gets_every_conversion(device, async_src, before);
        state_from_history(device, async_src, before);
        trace_grows(device, async_src, events, conversion());
        trace_grows(device, async_src, events, metered_count());
        let frames = if let CaptureEvent::FramesNeeded { frames } = event {
            frames
        } else {
            last_or(pick_all(before, needed_frames()), device.chunksize)
        };
        step_converts(state, event, frames);
        let made = pick_all(state.answer(event), conversion());
        let added = pick_all(state.answer(event), metered_count());
        let conversions = pick_all(done(device, async_src, before), conversion());
        let counts = pick_all(done(device, async_src, before), metered_count());
        if made.len() == 0 {
            assert(conversions + made =~= conversions);
        }
        if added.len() == 0 {
            assert(counts + added =~= counts);
        }
    }
}

/// The answer of the resampler fixes how many samples make the next chunk, whatever the
/// number was before: as many as its frames have in all channels.
pub proof fn answer_of_the_resampler_fixes_the_chunk<R, T, S>(
    device: CpalCaptureDevice<R>,
    async_src: bool,
    events: Seq<CaptureEvent<T, S>>,
    frames: usize,
)
    requires
        possible(device, async_src, events),
        after(device, async_src, events).accepts(CaptureEvent::FramesNeeded { frames }),
    ensures
        after(device, async_src, events).next(
            CaptureEvent::FramesNeeded { frames },
        ).capture_samples == frames * device.channels,
{
    state_from_history(device, async_src, events);
}

/// The frames that a resampler needs fix the number of samples, each frame with one for every
/// channel, and the number before has no part in it; without a resampler that number stays.
pub proof fn needed_frames_fix_the_samples(frames: usize, samples: usize, channels: usize)
    ensures
        nbr_capture_samples(Some(frames), samples, channels) == frames * channels,
        nbr_capture_samples(None, samples, channels) == samples,
{
}

/// The contents of a list of actions are those of each action, one for one.
pub proof fn listed_actions_are_viewed_one_for_one<T, S>(
    actions: Seq<CaptureAction<VecDeque<T>, S, String>>,
    i: int,
)
    requires
        0 <= i < actions.len(),
    ensures
        capture_actions(actions).len() == actions.len(),
        capture_actions(actions)[i] == actions[i]@,
{
}

/// The contents of an action are the action itself, with error texts as their characters and
/// runs of samples as their sequence.
pub proof fn action_contents_are_the_action<T, S>(action: CaptureAction<VecDeque<T>, S, String>)
    ensures
        ({
            let contents = action@;
            &&& action matches CaptureAction::MakeResampler {
                channels,
                samplerate,
                capture_samplerate,
                chunksize,
            } ==> contents == (CaptureAction::<Seq<T>, S, Seq<char>>::MakeResampler {
                channels,
                samplerate,
                capture_samplerate,
                chunksize,
            })
            &&& action matches CaptureAction::ListDevices { host } ==> contents == (
            CaptureAction::<Seq<T>, S, Seq<char>>::ListDevices { host })
            &&& action matches CaptureAction::SendStatus { message, on_failure } ==> contents == (
            CaptureAction::<Seq<T>, S, Seq<char>>::SendStatus { message: message@, on_failure })
            &&& action matches CaptureAction::BuildStream {
                device,
                config,
                format,
                scalefactor,
            } ==> contents == (CaptureAction::<Seq<T>, S, Seq<char>>::BuildStream {
                device,
                config,
                format,
                scalefactor,
            })
            &&& action matches CaptureAction::StartMeters {
                threshold,
                timeout,
                capture_samplerate,
                chunksize,
            } ==> contents == (CaptureAction::<Seq<T>, S, Seq<char>>::StartMeters {
                threshold,
                timeout,
                capture_samplerate,
                chunksize,
            })
            &&& action matches CaptureAction::SetRatio { speed } ==> contents == (
            CaptureAction::<Seq<T>, S, Seq<char>>::SetRatio { speed })
            &&& action matches CaptureAction::Convert { samples, frames, channels } ==> contents
                == (CaptureAction::<Seq<T>, S, Seq<char>>::Convert {
                samples: samples@,
                frames,
                channels,
            })
            &&& action matches CaptureAction::Meter { count } ==> contents == (CaptureAction::<
                Seq<T>,
                S,
                Seq<char>,
            >::Meter { count })
            &&& action matches CaptureAction::Publish {
                channels,
                signal_range,
                rate_adjust,
                state,
            } ==> contents == (CaptureAction::<Seq<T>, S, Seq<char>>::Publish {
                channels,
                signal_range,
                rate_adjust,
                state,
            })
            &&& action matches CaptureAction::UpdateSilence { range } ==> contents == (
            CaptureAction::<Seq<T>, S, Seq<char>>::UpdateSilence { range })
            &&& action matches CaptureAction::Resample { waveforms } ==> contents == (
            CaptureAction::<Seq<T>, S, Seq<char>>::Resample { waveforms })
            &&& action matches CaptureAction::SendAudio { audio } ==> contents == (
            CaptureAction::<Seq<T>, S, Seq<char>>::SendAudio { audio })
            &&& action is WaitBarrier <==> contents is WaitBarrier
            &&& action is Play <==> contents is Play
            &&& action is PollCommand <==> contents is PollCommand
            &&& action is QueryFrames <==> contents is QueryFrames
            &&& action is ReceiveBuffer <==> contents is ReceiveBuffer
            &&& action is SetInactive <==> contents is SetInactive
            &&& action is Stop <==> contents is Stop
        }),
{
}

} // verus!
