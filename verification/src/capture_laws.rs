//! What holds of a capture thread over its whole life.

use crate::bits::DoubleBits;
use crate::capture::{CaptureAction, CaptureEvent, CapturePhase, CaptureState};
use crate::device::{any_named, not_found_text, CpalCaptureDevice};
use crate::message::{
    AudioChunk, AudioMessage, CommandMessage, ProcessingState, StatusMessage,
};
use crate::trace::{last_or, pick_all, pick_all_of_few, pick_all_splits};
use vstd::prelude::*;

verus! {

/// The state after `events`.
pub open spec fn capture_run<T, S>(
    start: CaptureState<T, S>,
    events: Seq<CaptureEvent<T, S>>,
) -> CaptureState<T, S>
    decreases events.len(),
{
    if events.len() == 0 {
        start
    } else {
        capture_run(start, events.drop_last()).next(events.last())
    }
}

/// Every event came when the thread waited for it, and could be handled.
pub open spec fn capture_valid<T, S>(
    start: CaptureState<T, S>,
    events: Seq<CaptureEvent<T, S>>,
) -> bool
    decreases events.len(),
{
    events.len() > 0 ==> {
        &&& capture_valid(start, events.drop_last())
        &&& capture_run(start, events.drop_last()).accepts(events.last())
    }
}

/// All that the thread did in answer to `events`.
pub open spec fn capture_trace<T, S>(
    start: CaptureState<T, S>,
    events: Seq<CaptureEvent<T, S>>,
) -> Seq<CaptureAction<Seq<T>, S, Seq<char>>>
    decreases events.len(),
{
    if events.len() == 0 {
        Seq::empty()
    } else {
        capture_trace(start, events.drop_last()) + capture_run(
            start,
            events.drop_last(),
        ).answer(events.last())
    }
}

/// A thread that has just been started.
pub open spec fn is_start<T, S>(state: CaptureState<T, S>) -> bool {
    &&& state.phase is Preparing || state.phase is Opening
    &&& !state.has_resampler
    &&& state.queue == Seq::<T>::empty()
    &&& state.value_range == DoubleBits::zero()
    &&& state.rate_adjust == DoubleBits::zero()
    &&& state.state == ProcessingState::Running
}

/// The thread has not yet looked for a command.
pub open spec fn before_loop<T, S>(state: CaptureState<T, S>) -> bool {
    match state.phase {
        CapturePhase::Preparing => true,
        CapturePhase::Opening => true,
        CapturePhase::Building => true,
        CapturePhase::Starting => true,
        CapturePhase::Failed => true,
        _ => false,
    }
}

/// The samples that an event brings from the device.
pub open spec fn provided_samples<T, S>() -> spec_fn(CaptureEvent<T, S>) -> Seq<T> {
    |event: CaptureEvent<T, S>|
        match event {
            CaptureEvent::Buffer { samples } => samples@,
            _ => Seq::empty(),
        }
}

/// The samples that an action converts.
pub open spec fn converted_samples<T, S>() -> spec_fn(
    CaptureAction<Seq<T>, S, Seq<char>>,
) -> Seq<T> {
    |action: CaptureAction<Seq<T>, S, Seq<char>>|
        match action {
            CaptureAction::Convert { samples, .. } => samples,
            _ => Seq::empty(),
        }
}

/// What is picked of all actions is picked of those before the last event and of the answer
/// to it.
proof fn trace_step<T, S, B>(
    start: CaptureState<T, S>,
    events: Seq<CaptureEvent<T, S>>,
    pick: spec_fn(CaptureAction<Seq<T>, S, Seq<char>>) -> Seq<B>,
)
    requires
        events.len() > 0,
    ensures
        pick_all(capture_trace(start, events), pick) == pick_all(
            capture_trace(start, events.drop_last()),
            pick,
        ) + pick_all(capture_run(start, events.drop_last()).answer(events.last()), pick),
{
    pick_all_splits(
        capture_trace(start, events.drop_last()),
        capture_run(start, events.drop_last()).answer(events.last()),
        pick,
    );
    pick_all_of_few(capture_run(start, events.drop_last()).answer(events.last()), pick);
}

/// A chunk never takes more samples than the queue holds.
proof fn chunk_fits<T, S>(state: CaptureState<T, S>)
    requires
        state.channels > 0,
    ensures
        0 <= state.chunk_frames() * state.channels <= state.capture_samples,
{
    let samples = state.capture_samples as int;
    let channels = state.channels as int;
    assert(0 <= samples / channels * channels <= samples) by (nonlinear_arith)
        requires
            channels > 0,
            samples >= 0,
    ;
}

/// Taking a chunk from the queue, or not, loses no sample.
proof fn gathering_keeps_samples<T, S>(state: CaptureState<T, S>)
    requires
        state.channels > 0,
    ensures
        pick_all(state.gathering(), converted_samples()) + state.gathered().queue == state.queue,
{
    chunk_fits(state);
    pick_all_of_few(state.gathering(), converted_samples::<T, S>());
    assert(pick_all(state.gathering(), converted_samples()) + state.gathered().queue
        =~= state.queue);
}

/// One event loses no sample.
proof fn step_keeps_samples<T, S>(state: CaptureState<T, S>, event: CaptureEvent<T, S>)
    requires
        state.accepts(event),
        before_loop(state) ==> state.queue == Seq::<T>::empty(),
    ensures
        before_loop(state.next(event)) ==> state.next(event).queue == Seq::<T>::empty(),
        pick_all(state.answer(event), converted_samples()) + state.next(event).queue
            == state.queue + provided_samples()(event),
{
    let answer = state.answer(event);
    pick_all_of_few(answer, converted_samples::<T, S>());
    assert(state.queue + Seq::<T>::empty() =~= state.queue);
    match event {
        CaptureEvent::Command { command } => {
            if command != Some(CommandMessage::Exit) && !state.has_resampler {
                gathering_keeps_samples(state.commanded(command));
            }
        },
        CaptureEvent::FramesNeeded { frames } => {
            gathering_keeps_samples(state.sized(frames));
        },
        CaptureEvent::Buffer { samples } => {
            gathering_keeps_samples(state.filled(samples@));
        },
        _ => {
            assert(pick_all(answer, converted_samples()) =~= Seq::empty());
        },
    }
    assert(pick_all(answer, converted_samples()) + state.next(event).queue =~= state.queue
        + provided_samples()(event));
}

/// Every sample that the device provides is converted once, and in the order of arrival:
/// what was converted, followed by what is still queued, is what the device provided.
pub proof fn samples_are_converted_in_order<T, S>(
    start: CaptureState<T, S>,
    events: Seq<CaptureEvent<T, S>>,
)
    requires
        is_start(start),
        capture_valid(start, events),
    ensures
        before_loop(capture_run(start, events)) ==> capture_run(start, events).queue == Seq::<
            T,
        >::empty(),
        pick_all(capture_trace(start, events), converted_samples()) + capture_run(
            start,
            events,
        ).queue == pick_all(events, provided_samples()),
    decreases events.len(),
{
    if events.len() > 0 {
        let before = events.drop_last();
        let state = capture_run(start, before);
        let event = events.last();
        let converted = pick_all(capture_trace(start, before), converted_samples());
        samples_are_converted_in_order(start, before);
        trace_step(start, events, converted_samples());
        step_keeps_samples(state, event);
        assert(converted + pick_all(state.answer(event), converted_samples()) + state.next(
            event,
        ).queue =~= converted + (pick_all(state.answer(event), converted_samples())
            + state.next(event).queue));
        assert(converted + (state.queue + provided_samples()(event)) =~= converted
            + state.queue + provided_samples()(event));
    } else {
        assert(pick_all(capture_trace(start, events), converted_samples()) + start.queue
            =~= Seq::empty());
    }
}

/// The speed that an event asks for.
pub open spec fn asked_speed<T, S>() -> spec_fn(CaptureEvent<T, S>) -> Seq<DoubleBits> {
    |event: CaptureEvent<T, S>|
        match event {
            CaptureEvent::Command { command: Some(CommandMessage::SetSpeed { speed }) } => {
                seq![speed]
            },
            _ => Seq::empty(),
        }
}

/// The chunk that an event brings.
pub open spec fn converted_chunk<T, S>() -> spec_fn(CaptureEvent<T, S>) -> Seq<AudioChunk<S>> {
    |event: CaptureEvent<T, S>|
        match event {
            CaptureEvent::Converted { chunk, .. } => seq![chunk],
            _ => Seq::empty(),
        }
}

/// The range of the chunk that an event brings.
pub open spec fn converted_range<T, S>() -> spec_fn(CaptureEvent<T, S>) -> Seq<DoubleBits> {
    |event: CaptureEvent<T, S>|
        match event {
            CaptureEvent::Converted { range, .. } => seq![range],
            _ => Seq::empty(),
        }
}

/// What the silence counter makes of a chunk.
pub open spec fn given_verdict<T, S>() -> spec_fn(CaptureEvent<T, S>) -> Seq<ProcessingState> {
    |event: CaptureEvent<T, S>|
        match event {
            CaptureEvent::Verdict { state } => seq![state],
            _ => Seq::empty(),
        }
}

/// The waveforms that an event brings from the resampler.
pub open spec fn resampled_waveforms<T, S>() -> spec_fn(CaptureEvent<T, S>) -> Seq<Vec<Vec<S>>> {
    |event: CaptureEvent<T, S>|
        match event {
            CaptureEvent::Resampled { waveforms } => seq![waveforms],
            _ => Seq::empty(),
        }
}

/// The ratio that an action sets.
pub open spec fn set_ratio<T, S>() -> spec_fn(CaptureAction<Seq<T>, S, Seq<char>>) -> Seq<
    DoubleBits,
> {
    |action: CaptureAction<Seq<T>, S, Seq<char>>|
        match action {
            CaptureAction::SetRatio { speed } => seq![speed],
            _ => Seq::empty(),
        }
}

/// The chunk that an action sends.
pub open spec fn sent_chunk<T, S>() -> spec_fn(CaptureAction<Seq<T>, S, Seq<char>>) -> Seq<
    AudioChunk<S>,
> {
    |action: CaptureAction<Seq<T>, S, Seq<char>>|
        match action {
            CaptureAction::SendAudio { audio: AudioMessage::Audio(chunk) } => seq![chunk],
            _ => Seq::empty(),
        }
}

/// The waveforms that an action hands to the resampler.
pub open spec fn handed_waveforms<T, S>() -> spec_fn(
    CaptureAction<Seq<T>, S, Seq<char>>,
) -> Seq<Vec<Vec<S>>> {
    |action: CaptureAction<Seq<T>, S, Seq<char>>|
        match action {
            CaptureAction::Resample { waveforms } => seq![waveforms],
            _ => Seq::empty(),
        }
}

/// One item for an action that waits at the barrier.
pub open spec fn barrier_wait<T, S>() -> spec_fn(CaptureAction<Seq<T>, S, Seq<char>>) -> Seq<()> {
    |action: CaptureAction<Seq<T>, S, Seq<char>>|
        match action {
            CaptureAction::WaitBarrier => seq![()],
            _ => Seq::empty(),
        }
}

/// One item for an action that sends that the device is ready.
pub open spec fn ready_sent<T, S>() -> spec_fn(CaptureAction<Seq<T>, S, Seq<char>>) -> Seq<()> {
    |action: CaptureAction<Seq<T>, S, Seq<char>>|
        match action {
            CaptureAction::SendStatus { message: StatusMessage::CaptureReady, .. } => seq![()],
            _ => Seq::empty(),
        }
}

/// One item for an action that sends that capture is done.
pub open spec fn done_sent<T, S>() -> spec_fn(CaptureAction<Seq<T>, S, Seq<char>>) -> Seq<()> {
    |action: CaptureAction<Seq<T>, S, Seq<char>>|
        match action {
            CaptureAction::SendStatus { message: StatusMessage::CaptureDone, .. } => seq![()],
            _ => Seq::empty(),
        }
}

/// One item for an action that sends that the audio ends.
pub open spec fn end_sent<T, S>() -> spec_fn(CaptureAction<Seq<T>, S, Seq<char>>) -> Seq<()> {
    |action: CaptureAction<Seq<T>, S, Seq<char>>|
        match action {
            CaptureAction::SendAudio { audio: AudioMessage::EndOfStream } => seq![()],
            _ => Seq::empty(),
        }
}

/// One item for an action that publishes that the thread is inactive.
pub open spec fn inactive_set<T, S>() -> spec_fn(CaptureAction<Seq<T>, S, Seq<char>>) -> Seq<()> {
    |action: CaptureAction<Seq<T>, S, Seq<char>>|
        match action {
            CaptureAction::SetInactive => seq![()],
            _ => Seq::empty(),
        }
}

/// The settings stay as they were at the start.
pub proof fn capture_settings_stay<T, S>(
    start: CaptureState<T, S>,
    events: Seq<CaptureEvent<T, S>>,
)
    ensures
        ({
            let state = capture_run(start, events);
            start == CaptureState {
                has_resampler: start.has_resampler,
                queue: start.queue,
                capture_samples: start.capture_samples,
                value_range: start.value_range,
                rate_adjust: start.rate_adjust,
                state: start.state,
                phase: start.phase,
                ..state
            }
        }),
    decreases events.len(),
{
    if events.len() > 0 {
        capture_settings_stay(start, events.drop_last());
    }
}

/// The number of samples that make a chunk is a whole number of frames, and without a
/// resampler it is that of the settings.
pub proof fn chunks_hold_whole_frames<T, S>(
    start: CaptureState<T, S>,
    events: Seq<CaptureEvent<T, S>>,
)
    requires
        is_start(start),
        capture_valid(start, events),
        !before_loop(capture_run(start, events)),
        start.channels > 0,
    ensures
        ({
            let state = capture_run(start, events);
            &&& state.chunk_frames() * state.channels == state.capture_samples
            &&& !state.has_resampler ==> state.capture_samples == start.channels
                * start.chunksize
            &&& !state.has_resampler ==> !(state.phase is Sizing)
        }),
    decreases events.len(),
{
    if events.len() > 0 {
        let before = events.drop_last();
        let state = capture_run(start, before);
        let event = events.last();
        capture_settings_stay(start, before);
        if before_loop(state) {
            let channels = start.channels as int;
            let chunksize = start.chunksize as int;
            assert(channels * chunksize <= 2 * chunksize * channels) by (nonlinear_arith)
                requires
                    channels >= 0,
                    chunksize >= 0,
            ;
            assert((channels * chunksize) / channels * channels == channels * chunksize)
                by (nonlinear_arith)
                requires
                    channels > 0,
            ;
        } else {
            chunks_hold_whole_frames(start, before);
            if let CaptureEvent::FramesNeeded { frames } = event {
                let channels = start.channels as int;
                let frames = frames as int;
                assert((frames * channels) / channels * channels == frames * channels)
                    by (nonlinear_arith)
                    requires
                        channels > 0,
                ;
            }
        }
    }
}

/// The thread waits at the barrier once, whatever fails: until its stream is built it has not
/// waited, and in every later phase, the two last ones among them, it has waited once.
pub proof fn barrier_is_passed_once<T, S>(
    start: CaptureState<T, S>,
    events: Seq<CaptureEvent<T, S>>,
)
    requires
        is_start(start),
        capture_valid(start, events),
    ensures
        pick_all(capture_trace(start, events), barrier_wait()).len() == (match capture_run(
            start,
            events,
        ).phase {
            CapturePhase::Preparing => 0nat,
            CapturePhase::Opening => 0nat,
            CapturePhase::Building => 0nat,
            _ => 1nat,
        }),
    decreases events.len(),
{
    if events.len() > 0 {
        barrier_is_passed_once(start, events.drop_last());
        trace_step(start, events, barrier_wait());
        pick_all_of_few(
            capture_run(start, events.drop_last()).answer(events.last()),
            barrier_wait(),
        );
    }
}

/// The thread sends that it is ready once, and only if its device was opened.
pub proof fn ready_is_sent_once<T, S>(
    start: CaptureState<T, S>,
    events: Seq<CaptureEvent<T, S>>,
)
    requires
        is_start(start),
        capture_valid(start, events),
    ensures
        pick_all(capture_trace(start, events), ready_sent()).len() == (match capture_run(
            start,
            events,
        ).phase {
            CapturePhase::Preparing => 0nat,
            CapturePhase::Opening => 0nat,
            CapturePhase::Failed => 0nat,
            _ => 1nat,
        }),
    decreases events.len(),
{
    if events.len() > 0 {
        ready_is_sent_once(start, events.drop_last());
        trace_step(start, events, ready_sent());
        pick_all_of_few(
            capture_run(start, events.drop_last()).answer(events.last()),
            ready_sent(),
        );
    }
}

/// The thread ends the audio once, when it is told to exit, and is then at its end.
pub proof fn end_of_stream_is_sent_once<T, S>(
    start: CaptureState<T, S>,
    events: Seq<CaptureEvent<T, S>>,
)
    requires
        is_start(start),
        capture_valid(start, events),
    ensures
        pick_all(capture_trace(start, events), end_sent()).len() == (match capture_run(
            start,
            events,
        ).phase {
            CapturePhase::Finished => 1nat,
            _ => 0nat,
        }),
    decreases events.len(),
{
    if events.len() > 0 {
        end_of_stream_is_sent_once(start, events.drop_last());
        trace_step(start, events, end_sent());
        pick_all_of_few(
            capture_run(start, events.drop_last()).answer(events.last()),
            end_sent(),
        );
    }
}

/// The thread sends that capture is done once, when it is told to exit.
pub proof fn done_is_sent_once<T, S>(
    start: CaptureState<T, S>,
    events: Seq<CaptureEvent<T, S>>,
)
    requires
        is_start(start),
        capture_valid(start, events),
    ensures
        pick_all(capture_trace(start, events), done_sent()).len() == (match capture_run(
            start,
            events,
        ).phase {
            CapturePhase::Finished => 1nat,
            _ => 0nat,
        }),
    decreases events.len(),
{
    if events.len() > 0 {
        done_is_sent_once(start, events.drop_last());
        trace_step(start, events, done_sent());
        pick_all_of_few(
            capture_run(start, events.drop_last()).answer(events.last()),
            done_sent(),
        );
    }
}

/// The thread publishes that it is inactive once, when it is told to exit.
pub proof fn inactive_is_set_once<T, S>(
    start: CaptureState<T, S>,
    events: Seq<CaptureEvent<T, S>>,
)
    requires
        is_start(start),
        capture_valid(start, events),
    ensures
        pick_all(capture_trace(start, events), inactive_set()).len() == (match capture_run(
            start,
            events,
        ).phase {
            CapturePhase::Finished => 1nat,
            _ => 0nat,
        }),
    decreases events.len(),
{
    if events.len() > 0 {
        inactive_is_set_once(start, events.drop_last());
        trace_step(start, events, inactive_set());
        pick_all_of_few(
            capture_run(start, events.drop_last()).answer(events.last()),
            inactive_set(),
        );
    }
}

/// Before the thread first looks for a command, nothing is picked of the events that only
/// come later.
proof fn no_event_before_loop<T, S, B>(
    start: CaptureState<T, S>,
    events: Seq<CaptureEvent<T, S>>,
    pick: spec_fn(CaptureEvent<T, S>) -> Seq<B>,
)
    requires
        is_start(start),
        capture_valid(start, events),
        before_loop(capture_run(start, events)),
        forall|event: CaptureEvent<T, S>|
            event is ResamplerMade || event is Devices || event is DevicesFailed
                || event is StreamBuilt ==> #[trigger] pick(event) == Seq::<B>::empty(),
    ensures
        pick_all(events, pick) == Seq::<B>::empty(),
    decreases events.len(),
{
    if events.len() > 0 {
        no_event_before_loop(start, events.drop_last(), pick);
        assert(pick(events.last()) == Seq::<B>::empty());
    }
}

/// Before the thread first looks for a command, nothing is picked of the actions that only
/// come later.
proof fn no_action_before_loop<T, S, B>(
    start: CaptureState<T, S>,
    events: Seq<CaptureEvent<T, S>>,
    pick: spec_fn(CaptureAction<Seq<T>, S, Seq<char>>) -> Seq<B>,
)
    requires
        is_start(start),
        capture_valid(start, events),
        before_loop(capture_run(start, events)),
        forall|action: CaptureAction<Seq<T>, S, Seq<char>>|
            action is ListDevices || action is SendStatus || action is BuildStream
                || action is WaitBarrier || action is Play || action is Stop
                ==> #[trigger] pick(action) == Seq::<B>::empty(),
    ensures
        pick_all(capture_trace(start, events), pick) == Seq::<B>::empty(),
    decreases events.len(),
{
    if events.len() > 0 {
        let answer = capture_run(start, events.drop_last()).answer(events.last());
        no_action_before_loop(start, events.drop_last(), pick);
        trace_step(start, events, pick);
        pick_all_of_few(answer, pick);
        assert(forall|i: int| 0 <= i < answer.len() ==> pick(#[trigger] answer[i]) == Seq::<
            B,
        >::empty());
        assert(pick_all(answer, pick) =~= Seq::empty());
    }
}

/// The speeds that are asked for go to a resampler that can change its ratio while it runs,
/// each once and in order. Without a resampler, or with one that cannot, no ratio is set.
pub proof fn speeds_reach_async_resampler<T, S>(
    start: CaptureState<T, S>,
    events: Seq<CaptureEvent<T, S>>,
)
    requires
        is_start(start),
        capture_valid(start, events),
    ensures
        pick_all(capture_trace(start, events), set_ratio()) == (if capture_run(
            start,
            events,
        ).has_resampler && start.async_src {
            pick_all(events, asked_speed())
        } else {
            Seq::<DoubleBits>::empty()
        }),
    decreases events.len(),
{
    if before_loop(capture_run(start, events)) {
        no_event_before_loop(start, events, asked_speed::<T, S>());
        no_action_before_loop(start, events, set_ratio::<T, S>());
    } else if events.len() > 0 {
        let before = events.drop_last();
        let state = capture_run(start, before);
        speeds_reach_async_resampler(start, before);
        capture_settings_stay(start, before);
        trace_step(start, events, set_ratio());
        pick_all_of_few(state.answer(events.last()), set_ratio::<T, S>());
        assert(pick_all(state.answer(events.last()), set_ratio()) =~= (if state.has_resampler
            && start.async_src {
            asked_speed()(events.last())
        } else {
            Seq::empty()
        }));
    }
}

/// The thread remembers the latest speed that was asked for, the latest verdict of the
/// silence counter, and the range of the latest chunk that the counter got, from 0.0, running
/// and 0.0 on.
pub proof fn latest_values_are_remembered<T, S>(
    start: CaptureState<T, S>,
    events: Seq<CaptureEvent<T, S>>,
)
    requires
        is_start(start),
        capture_valid(start, events),
    ensures
        ({
            let state = capture_run(start, events);
            let ranges = pick_all(events, converted_range());
            &&& state.rate_adjust == last_or(
                pick_all(events, asked_speed()),
                DoubleBits::zero(),
            )
            &&& state.state == last_or(
                pick_all(events, given_verdict()),
                ProcessingState::Running,
            )
            &&& state.phase is Metering ==> {
                &&& ranges.len() > 0
                &&& state.phase->range == ranges.last()
                &&& state.value_range == last_or(ranges.drop_last(), DoubleBits::zero())
            }
            &&& !(state.phase is Metering) ==> state.value_range == last_or(
                ranges,
                DoubleBits::zero(),
            )
        }),
    decreases events.len(),
{
    if events.len() > 0 {
        let before = events.drop_last();
        latest_values_are_remembered(start, before);
        if events.last() is Converted {
            assert(pick_all(events, converted_range()).drop_last() =~= pick_all(
                before,
                converted_range(),
            ));
        }
    }
}

/// What is published while a chunk is handled is the status of the chunk before it: its
/// range, or 0.0 for the first chunk, and its verdict, or running; together with the latest
/// speed that was asked for.
pub proof fn published_status_is_of_the_chunk_before<T, S>(
    start: CaptureState<T, S>,
    events: Seq<CaptureEvent<T, S>>,
)
    requires
        is_start(start),
        capture_valid(start, events),
        capture_run(start, events).phase is Metering,
    ensures
        capture_run(start, events).answer(CaptureEvent::MeterRead { elapsed: true }) == seq![
            CaptureAction::<Seq<T>, S, Seq<char>>::Publish {
                channels: start.channels,
                signal_range: last_or(
                    pick_all(events, converted_range()).drop_last(),
                    DoubleBits::zero(),
                ),
                rate_adjust: last_or(pick_all(events, asked_speed()), DoubleBits::zero()),
                state: last_or(pick_all(events, given_verdict()), ProcessingState::Running),
            },
            CaptureAction::UpdateSilence { range: pick_all(events, converted_range()).last() },
        ],
{
    latest_values_are_remembered(start, events);
    capture_settings_stay(start, events);
}

/// The chunks that the silence counter found to be running: the first chunk got the first
/// verdict, and so on.
pub open spec fn kept<S>(
    chunks: Seq<AudioChunk<S>>,
    verdicts: Seq<ProcessingState>,
) -> Seq<AudioChunk<S>>
    decreases verdicts.len(),
{
    if verdicts.len() == 0 {
        Seq::empty()
    } else {
        kept(chunks, verdicts.drop_last()) + (if verdicts.last() == ProcessingState::Running {
            seq![chunks[verdicts.len() - 1]]
        } else {
            Seq::empty()
        })
    }
}

/// The chunks of `events` that were found to be running.
pub open spec fn kept_chunks<T, S>(events: Seq<CaptureEvent<T, S>>) -> Seq<AudioChunk<S>> {
    kept(pick_all(events, converted_chunk()), pick_all(events, given_verdict()))
}

/// The chunk that waits for its verdict.
pub open spec fn unjudged<T, S>(state: CaptureState<T, S>) -> Seq<AudioChunk<S>> {
    match state.phase {
        CapturePhase::Metering { chunk, .. } => seq![chunk],
        CapturePhase::Judging { chunk } => seq![chunk],
        _ => Seq::empty(),
    }
}

/// One more chunk changes nothing for those that have a verdict.
proof fn kept_ignores_later_chunk<S>(
    chunks: Seq<AudioChunk<S>>,
    verdicts: Seq<ProcessingState>,
    chunk: AudioChunk<S>,
)
    requires
        verdicts.len() <= chunks.len(),
    ensures
        kept(chunks.push(chunk), verdicts) == kept(chunks, verdicts),
    decreases verdicts.len(),
{
    if verdicts.len() > 0 {
        kept_ignores_later_chunk(chunks, verdicts.drop_last(), chunk);
    }
}

/// Every chunk gets one verdict, and in order: the silence counter has judged all chunks but
/// the one that is being handled.
pub proof fn every_chunk_is_judged<T, S>(
    start: CaptureState<T, S>,
    events: Seq<CaptureEvent<T, S>>,
)
    requires
        is_start(start),
        capture_valid(start, events),
    ensures
        ({
            let chunks = pick_all(events, converted_chunk());
            let verdicts = pick_all(events, given_verdict());
            let waiting = unjudged(capture_run(start, events));
            &&& chunks.len() == verdicts.len() + waiting.len()
            &&& waiting.len() > 0 ==> chunks.last() == waiting[0]
        }),
    decreases events.len(),
{
    if events.len() > 0 {
        every_chunk_is_judged(start, events.drop_last());
    }
}

/// What one event adds to the chunks that were found to be running.
proof fn kept_step<T, S>(start: CaptureState<T, S>, events: Seq<CaptureEvent<T, S>>)
    requires
        is_start(start),
        capture_valid(start, events),
        events.len() > 0,
    ensures
        kept_chunks(events) == kept_chunks(events.drop_last()) + (match events.last() {
            CaptureEvent::Verdict { state } => if state == ProcessingState::Running {
                unjudged(capture_run(start, events.drop_last()))
            } else {
                Seq::empty()
            },
            _ => Seq::empty(),
        }),
{
    let before = events.drop_last();
    let chunks = pick_all(before, converted_chunk());
    let verdicts = pick_all(before, given_verdict());
    every_chunk_is_judged(start, before);
    match events.last() {
        CaptureEvent::Converted { chunk, .. } => {
            kept_ignores_later_chunk(chunks, verdicts, chunk);
            assert(chunks + seq![chunk] =~= chunks.push(chunk));
            assert(verdicts + Seq::empty() =~= verdicts);
        },
        CaptureEvent::Verdict { state } => {
            assert(chunks + Seq::empty() =~= chunks);
            assert((verdicts + seq![state]).drop_last() =~= verdicts);
            assert(unjudged(capture_run(start, before)) =~= seq![chunks[verdicts.len() as int]]);
        },
        _ => {
            assert(chunks + Seq::empty() =~= chunks);
            assert(verdicts + Seq::empty() =~= verdicts);
        },
    }
    assert(kept_chunks(before) + Seq::empty() =~= kept_chunks(before));
}

/// Without a resampler, the chunks that are sent are those that were found to be running,
/// unchanged, each once and in order; the others are dropped.
pub proof fn running_chunks_are_sent<T, S>(
    start: CaptureState<T, S>,
    events: Seq<CaptureEvent<T, S>>,
)
    requires
        is_start(start),
        capture_valid(start, events),
        !capture_run(start, events).has_resampler,
    ensures
        pick_all(capture_trace(start, events), sent_chunk()) == kept_chunks(events),
    decreases events.len(),
{
    if before_loop(capture_run(start, events)) {
        no_event_before_loop(start, events, given_verdict::<T, S>());
        no_action_before_loop(start, events, sent_chunk::<T, S>());
    } else if events.len() > 0 {
        let before = events.drop_last();
        let state = capture_run(start, before);
        let event = events.last();
        running_chunks_are_sent(start, before);
        kept_step(start, events);
        no_resampling_without_resampler(start, before);
        trace_step(start, events, sent_chunk());
        pick_all_of_few(state.answer(event), sent_chunk::<T, S>());
        assert(pick_all(state.answer(event), sent_chunk()) =~= (match event {
            CaptureEvent::Verdict { state: verdict } => if verdict
                == ProcessingState::Running {
                unjudged(state)
            } else {
                Seq::empty()
            },
            _ => Seq::empty(),
        }));
    }
}

/// The thread waits for resampled waveforms only if there is a resampler.
proof fn no_resampling_without_resampler<T, S>(
    start: CaptureState<T, S>,
    events: Seq<CaptureEvent<T, S>>,
)
    requires
        is_start(start),
        capture_valid(start, events),
    ensures
        capture_run(start, events).phase is Resampling ==> capture_run(
            start,
            events,
        ).has_resampler,
        capture_run(start, events).phase is Preparing ==> !capture_run(
            start,
            events,
        ).has_resampler,
    decreases events.len(),
{
    if events.len() > 0 {
        no_resampling_without_resampler(start, events.drop_last());
    }
}

/// The chunks that a resampler makes of `chunks`, where it gave `waveforms`.
pub open spec fn resampled_chunks<S>(
    chunks: Seq<AudioChunk<S>>,
    waveforms: Seq<Vec<Vec<S>>>,
) -> Seq<AudioChunk<S>> {
    Seq::new(
        waveforms.len(),
        |i: int| AudioChunk::resampled(waveforms[i], chunks[i].maxval, chunks[i].minval),
    )
}

/// The waveforms of `chunks`.
pub open spec fn waveforms_of<S>(chunks: Seq<AudioChunk<S>>) -> Seq<Vec<Vec<S>>> {
    chunks.map_values(|chunk: AudioChunk<S>| chunk.waveforms)
}

/// With a resampler, the waveforms of the chunks that were found to be running go to it, each
/// once and in order; and what is sent is, for each of them, a chunk with the waveforms that
/// came back.
pub proof fn running_chunks_are_resampled<T, S>(
    start: CaptureState<T, S>,
    events: Seq<CaptureEvent<T, S>>,
)
    requires
        is_start(start),
        capture_valid(start, events),
        capture_run(start, events).has_resampler,
    ensures
        ({
            let state = capture_run(start, events);
            let chunks = kept_chunks(events);
            let waveforms = pick_all(events, resampled_waveforms());
            &&& pick_all(capture_trace(start, events), handed_waveforms()) == waveforms_of(chunks)
            &&& pick_all(capture_trace(start, events), sent_chunk()) == resampled_chunks(
                chunks,
                waveforms,
            )
            &&& !(state.phase is Resampling) ==> chunks.len() == waveforms.len()
            &&& state.phase is Resampling ==> {
                &&& chunks.len() == waveforms.len() + 1
                &&& state.phase->maxval == chunks.last().maxval
                &&& state.phase->minval == chunks.last().minval
            }
        }),
    decreases events.len(),
{
    let chunks = kept_chunks(events);
    let waveforms = pick_all(events, resampled_waveforms());
    if before_loop(capture_run(start, events)) {
        no_event_before_loop(start, events, given_verdict::<T, S>());
        no_event_before_loop(start, events, resampled_waveforms::<T, S>());
        no_action_before_loop(start, events, handed_waveforms::<T, S>());
        no_action_before_loop(start, events, sent_chunk::<T, S>());
        assert(waveforms_of(chunks) =~= Seq::empty());
        assert(resampled_chunks(chunks, waveforms) =~= Seq::empty());
    } else if events.len() > 0 {
        let before = events.drop_last();
        let state = capture_run(start, before);
        let event = events.last();
        let answer = state.answer(event);
        let old_chunks = kept_chunks(before);
        let old_waveforms = pick_all(before, resampled_waveforms());
        running_chunks_are_resampled(start, before);
        kept_step(start, events);
        trace_step(start, events, handed_waveforms());
        trace_step(start, events, sent_chunk());
        pick_all_of_few(answer, handed_waveforms::<T, S>());
        pick_all_of_few(answer, sent_chunk::<T, S>());
        match event {
            CaptureEvent::Verdict { state: verdict } => {
                assert(old_waveforms + Seq::empty() =~= old_waveforms);
                assert(pick_all(answer, sent_chunk()) =~= Seq::empty());
                if verdict == ProcessingState::Running {
                    assert(pick_all(answer, handed_waveforms()) =~= seq![
                        unjudged(state)[0].waveforms,
                    ]);
                } else {
                    assert(pick_all(answer, handed_waveforms()) =~= Seq::empty());
                }
            },
            CaptureEvent::Resampled { waveforms: given } => {
                assert(pick_all(answer, handed_waveforms()) =~= Seq::empty());
                assert(pick_all(answer, sent_chunk()) =~= seq![
                    AudioChunk::resampled(given, state.phase->maxval, state.phase->minval),
                ]);
            },
            _ => {
                assert(old_waveforms + Seq::empty() =~= old_waveforms);
                assert(pick_all(answer, sent_chunk()) =~= Seq::empty());
                assert(pick_all(answer, handed_waveforms()) =~= Seq::empty());
            },
        }
        assert(pick_all(capture_trace(start, events), handed_waveforms()) =~= waveforms_of(
            chunks,
        ));
        assert(pick_all(capture_trace(start, events), sent_chunk()) =~= resampled_chunks(
            chunks,
            waveforms,
        ));
    }
}

/// The text of the failure that an event brings to a thread whose device is `devname`.
pub open spec fn failure_text<T, S>(devname: Seq<char>) -> spec_fn(CaptureEvent<T, S>) -> Seq<
    Seq<char>,
> {
    |event: CaptureEvent<T, S>|
        match event {
            CaptureEvent::Devices { names } => if any_named(names@, devname) {
                Seq::empty()
            } else {
                seq![not_found_text(devname)]
            },
            CaptureEvent::DevicesFailed { message } => seq![message@],
            CaptureEvent::StreamFailed { message } => seq![message@],
            CaptureEvent::PlayFailed { message } => seq![message@],
            CaptureEvent::BufferFailed { message } => seq![message@],
            _ => Seq::empty(),
        }
}

/// The text of the error that an action reports.
pub open spec fn reported_error<T, S>() -> spec_fn(CaptureAction<Seq<T>, S, Seq<char>>) -> Seq<
    Seq<char>,
> {
    |action: CaptureAction<Seq<T>, S, Seq<char>>|
        match action {
            CaptureAction::SendStatus {
                message: StatusMessage::CaptureError { message },
                ..
            } => seq![message],
            _ => Seq::empty(),
        }
}

/// Every failure is reported once, in order and with its text, and nothing else is reported
/// as an error.
#[verifier::rlimit(40)]
pub proof fn failures_are_reported<T, S>(
    start: CaptureState<T, S>,
    events: Seq<CaptureEvent<T, S>>,
)
    requires
        is_start(start),
        capture_valid(start, events),
    ensures
        pick_all(capture_trace(start, events), reported_error()) == pick_all(
            events,
            failure_text(start.devname),
        ),
    decreases events.len(),
{
    if events.len() > 0 {
        let before = events.drop_last();
        let state = capture_run(start, before);
        let event = events.last();
        failures_are_reported(start, before);
        capture_settings_stay(start, before);
        trace_step(start, events, reported_error());
        pick_all_of_few(state.answer(event), reported_error());
        assert(pick_all(state.answer(event), reported_error()) =~= failure_text(start.devname)(
            event,
        ));
    }
}

/// A capture thread starts as the laws ask.
pub proof fn capture_starts_at_start<R, T, S>(device: CpalCaptureDevice<R>, async_src: bool)
    ensures
        is_start(CaptureState::<T, S>::initial(device, async_src)),
{
}

/// The last action of every answer asks for exactly the events that the thread then waits
/// for, or ends the thread, which then waits for none.
pub proof fn capture_asks_for_what_it_waits_for<T, S>(
    state: CaptureState<T, S>,
    event: CaptureEvent<T, S>,
    later: CaptureEvent<T, S>,
)
    requires
        state.accepts(event),
    ensures
        state.next(event).waits_for(later) <==> capture_is_asked(
            state.answer(event).last(),
            later,
        ),
        state.answer(event).last() is Stop <==> (state.next(event).phase is Finished
            || state.next(event).phase is Failed),
{
}

/// `action` asks for `event`.
pub open spec fn capture_is_asked<T, S>(
    action: CaptureAction<Seq<T>, S, Seq<char>>,
    event: CaptureEvent<T, S>,
) -> bool {
    match event {
        CaptureEvent::ResamplerMade { .. } => action is MakeResampler,
        CaptureEvent::Devices { .. } => action is ListDevices,
        CaptureEvent::DevicesFailed { .. } => action is ListDevices,
        CaptureEvent::StreamBuilt => action is BuildStream,
        CaptureEvent::StreamFailed { .. } => action is BuildStream,
        CaptureEvent::Played => action is Play,
        CaptureEvent::PlayFailed { .. } => action is Play,
        CaptureEvent::Command { .. } => action is PollCommand,
        CaptureEvent::FramesNeeded { .. } => action is QueryFrames,
        CaptureEvent::Buffer { .. } => action is ReceiveBuffer,
        CaptureEvent::BufferFailed { .. } => action is ReceiveBuffer,
        CaptureEvent::Converted { .. } => action is Convert,
        CaptureEvent::MeterRead { .. } => action is Meter,
        CaptureEvent::Verdict { .. } => action is UpdateSilence,
        CaptureEvent::Resampled { .. } => action is Resample,
    }
}

} // verus!
