//! What holds of a playback thread over its whole life.

use crate::bits::DoubleBits;
use crate::device::{any_named, not_found_text};
use crate::message::{AudioMessage, StatusMessage};
use crate::playback::{PlaybackAction, PlaybackEvent, PlaybackPhase, PlaybackState};
use crate::trace::{pick_all, pick_all_of_few, pick_all_splits};
use vstd::prelude::*;

verus! {

/// The state after `events`.
pub open spec fn playback_run<C>(
    start: PlaybackState<C>,
    events: Seq<PlaybackEvent<C>>,
) -> PlaybackState<C>
    decreases events.len(),
{
    if events.len() == 0 {
        start
    } else {
        playback_run(start, events.drop_last()).next(events.last())
    }
}

/// Every event came when the thread waited for it.
pub open spec fn playback_valid<C>(
    start: PlaybackState<C>,
    events: Seq<PlaybackEvent<C>>,
) -> bool
    decreases events.len(),
{
    events.len() > 0 ==> {
        &&& playback_valid(start, events.drop_last())
        &&& playback_run(start, events.drop_last()).accepts(events.last())
    }
}

/// All that the thread did in answer to `events`.
pub open spec fn playback_trace<C>(
    start: PlaybackState<C>,
    events: Seq<PlaybackEvent<C>>,
) -> Seq<PlaybackAction<C, Seq<char>>>
    decreases events.len(),
{
    if events.len() == 0 {
        Seq::empty()
    } else {
        playback_trace(start, events.drop_last()) + playback_run(
            start,
            events.drop_last(),
        ).answer(events.last())
    }
}

/// The chunk that an event brings.
pub open spec fn received_chunk<C>() -> spec_fn(PlaybackEvent<C>) -> Seq<C> {
    |event: PlaybackEvent<C>|
        match event {
            PlaybackEvent::Message { audio: AudioMessage::Audio(chunk), .. } => seq![chunk],
            _ => Seq::empty(),
        }
}

/// The buffer level, in samples, at which an event brings a chunk.
pub open spec fn received_level<C>() -> spec_fn(PlaybackEvent<C>) -> Seq<usize> {
    |event: PlaybackEvent<C>|
        match event {
            PlaybackEvent::Message { audio: AudioMessage::Audio(_), buffer_fill } => {
                seq![buffer_fill]
            },
            _ => Seq::empty(),
        }
}

/// The speed that an event brings.
pub open spec fn calculated_speed<C>() -> spec_fn(PlaybackEvent<C>) -> Seq<DoubleBits> {
    |event: PlaybackEvent<C>|
        match event {
            PlaybackEvent::Speed { speed } => seq![speed],
            _ => Seq::empty(),
        }
}

/// The chunk that an action forwards.
pub open spec fn forwarded_chunk<C>() -> spec_fn(PlaybackAction<C, Seq<char>>) -> Seq<C> {
    |action: PlaybackAction<C, Seq<char>>|
        match action {
            PlaybackAction::Forward { chunk } => seq![chunk],
            _ => Seq::empty(),
        }
}

/// The buffer level, in frames, that an action adds to the average.
pub open spec fn added_level<C>() -> spec_fn(PlaybackAction<C, Seq<char>>) -> Seq<usize> {
    |action: PlaybackAction<C, Seq<char>>|
        match action {
            PlaybackAction::AddLevel { frames } => seq![frames],
            _ => Seq::empty(),
        }
}

/// The speed that an action sends.
pub open spec fn sent_speed<C>() -> spec_fn(PlaybackAction<C, Seq<char>>) -> Seq<DoubleBits> {
    |action: PlaybackAction<C, Seq<char>>|
        match action {
            PlaybackAction::SendStatus { message: StatusMessage::SetSpeed { speed }, .. } => {
                seq![speed]
            },
            _ => Seq::empty(),
        }
}

/// One item for an action that waits at the barrier.
pub open spec fn barrier_wait<C>() -> spec_fn(PlaybackAction<C, Seq<char>>) -> Seq<()> {
    |action: PlaybackAction<C, Seq<char>>|
        match action {
            PlaybackAction::WaitBarrier => seq![()],
            _ => Seq::empty(),
        }
}

/// One item for an action that sends that the device is ready.
pub open spec fn ready_sent<C>() -> spec_fn(PlaybackAction<C, Seq<char>>) -> Seq<()> {
    |action: PlaybackAction<C, Seq<char>>|
        match action {
            PlaybackAction::SendStatus { message: StatusMessage::PlaybackReady, .. } => seq![()],
            _ => Seq::empty(),
        }
}

/// One item for an action that sends that playback is done.
pub open spec fn done_sent<C>() -> spec_fn(PlaybackAction<C, Seq<char>>) -> Seq<()> {
    |action: PlaybackAction<C, Seq<char>>|
        match action {
            PlaybackAction::SendStatus { message: StatusMessage::PlaybackDone, .. } => seq![()],
            _ => Seq::empty(),
        }
}

/// What is picked of all actions is picked of those before the last event and of the answer
/// to it.
proof fn trace_step<C, B>(
    start: PlaybackState<C>,
    events: Seq<PlaybackEvent<C>>,
    pick: spec_fn(PlaybackAction<C, Seq<char>>) -> Seq<B>,
)
    requires
        events.len() > 0,
    ensures
        pick_all(playback_trace(start, events), pick) == pick_all(
            playback_trace(start, events.drop_last()),
            pick,
        ) + pick_all(playback_run(start, events.drop_last()).answer(events.last()), pick),
{
    pick_all_splits(
        playback_trace(start, events.drop_last()),
        playback_run(start, events.drop_last()).answer(events.last()),
        pick,
    );
}

/// Every chunk that is received is forwarded to the device once, and in the order of
/// arrival: what was forwarded, followed by the chunk that is being handled, is what was
/// received.
pub proof fn chunks_are_forwarded_in_order<C>(
    start: PlaybackState<C>,
    events: Seq<PlaybackEvent<C>>,
)
    requires
        start.phase is Opening,
        playback_valid(start, events),
    ensures
        pick_all(playback_trace(start, events), forwarded_chunk()) + playback_run(
            start,
            events,
        ).pending() == pick_all(events, received_chunk()),
    decreases events.len(),
{
    if events.len() > 0 {
        let before = events.drop_last();
        let state = playback_run(start, before);
        let event = events.last();
        let forwarded = pick_all(playback_trace(start, before), forwarded_chunk());
        chunks_are_forwarded_in_order(start, before);
        trace_step(start, events, forwarded_chunk());
        pick_all_of_few(state.answer(event), forwarded_chunk());
        assert(pick_all(state.answer(event), forwarded_chunk()) + state.next(event).pending()
            =~= state.pending() + received_chunk()(event));
        assert(forwarded + pick_all(state.answer(event), forwarded_chunk()) + state.next(
            event,
        ).pending() =~= forwarded + (pick_all(state.answer(event), forwarded_chunk())
            + state.next(event).pending()));
        assert(forwarded + (state.pending() + received_chunk()(event)) =~= forwarded
            + state.pending() + received_chunk()(event));
    } else {
        assert(pick_all(playback_trace(start, events), forwarded_chunk()) + start.pending()
            =~= Seq::empty());
    }
}

/// The buffer levels in frames, for levels in samples.
pub open spec fn in_frames(levels: Seq<usize>, channels: usize) -> Seq<usize> {
    levels.map_values(|samples: usize| (samples / channels) as usize)
}

/// The settings stay as they were at the start.
pub proof fn playback_settings_stay<C>(start: PlaybackState<C>, events: Seq<PlaybackEvent<C>>)
    ensures
        playback_run(start, events) == start.at(playback_run(start, events).phase),
    decreases events.len(),
{
    if events.len() > 0 {
        playback_settings_stay(start, events.drop_last());
    }
}

/// The average takes one buffer level for each chunk that is received: the samples that
/// were waiting for the device, counted in frames.
pub proof fn every_chunk_adds_its_level<C>(
    start: PlaybackState<C>,
    events: Seq<PlaybackEvent<C>>,
)
    requires
        start.phase is Opening,
        playback_valid(start, events),
    ensures
        pick_all(playback_trace(start, events), added_level()) == in_frames(
            pick_all(events, received_level()),
            start.channels,
        ),
    decreases events.len(),
{
    if events.len() > 0 {
        let before = events.drop_last();
        let state = playback_run(start, before);
        let event = events.last();
        every_chunk_adds_its_level(start, before);
        playback_settings_stay(start, before);
        trace_step(start, events, added_level());
        pick_all_of_few(state.answer(event), added_level());
        assert(pick_all(state.answer(event), added_level()) =~= in_frames(
            received_level()(event),
            start.channels,
        ));
        assert(in_frames(pick_all(events, received_level()), start.channels) =~= in_frames(
            pick_all(before, received_level()),
            start.channels,
        ) + in_frames(received_level()(event), start.channels));
    } else {
        assert(in_frames(pick_all(events, received_level()), start.channels) =~= Seq::empty());
    }
}

/// Every speed that is calculated is sent once, in order, and no other speed is sent.
pub proof fn speeds_are_sent_as_calculated<C>(
    start: PlaybackState<C>,
    events: Seq<PlaybackEvent<C>>,
)
    requires
        start.phase is Opening,
        playback_valid(start, events),
    ensures
        pick_all(playback_trace(start, events), sent_speed()) == pick_all(
            events,
            calculated_speed(),
        ),
    decreases events.len(),
{
    if events.len() > 0 {
        let before = events.drop_last();
        let state = playback_run(start, before);
        let event = events.last();
        speeds_are_sent_as_calculated(start, before);
        trace_step(start, events, sent_speed());
        pick_all_of_few(state.answer(event), sent_speed());
        assert(pick_all(state.answer(event), sent_speed()) =~= calculated_speed()(event));
    }
}

/// Where the rate is not to be adjusted, the thread never gets as far as the timer, and no
/// speed is sent.
pub proof fn no_speed_without_rate_adjust<C>(
    start: PlaybackState<C>,
    events: Seq<PlaybackEvent<C>>,
)
    requires
        start.phase is Opening,
        !start.adjust,
        playback_valid(start, events),
    ensures
        playback_run(start, events).pending() == Seq::<C>::empty(),
        pick_all(playback_trace(start, events), sent_speed()) == Seq::<DoubleBits>::empty(),
    decreases events.len(),
{
    if events.len() > 0 {
        let before = events.drop_last();
        let state = playback_run(start, before);
        let event = events.last();
        no_speed_without_rate_adjust(start, before);
        playback_settings_stay(start, before);
        trace_step(start, events, sent_speed());
        pick_all_of_few(state.answer(event), sent_speed());
        assert(state.pending().len() == 0);
        assert(pick_all(state.answer(event), sent_speed()) =~= Seq::empty());
        assert(playback_run(start, events).pending() =~= Seq::empty());
    }
}

/// The thread waits at the barrier once, whatever fails: while it opens its device and builds
/// the stream it has not waited, and in every later phase, the two last ones among them, it
/// has waited once.
pub proof fn barrier_is_passed_once<C>(start: PlaybackState<C>, events: Seq<PlaybackEvent<C>>)
    requires
        start.phase is Opening,
        playback_valid(start, events),
    ensures
        pick_all(playback_trace(start, events), barrier_wait()).len() == (
        match playback_run(start, events).phase {
            PlaybackPhase::Opening => 0nat,
            PlaybackPhase::Building => 0nat,
            _ => 1nat,
        }),
    decreases events.len(),
{
    if events.len() > 0 {
        let before = events.drop_last();
        barrier_is_passed_once(start, before);
        trace_step(start, events, barrier_wait());
        pick_all_of_few(playback_run(start, before).answer(events.last()), barrier_wait());
    }
}

/// The thread sends that it is ready once, and only if its device was opened.
pub proof fn ready_is_sent_once<C>(start: PlaybackState<C>, events: Seq<PlaybackEvent<C>>)
    requires
        start.phase is Opening,
        playback_valid(start, events),
    ensures
        pick_all(playback_trace(start, events), ready_sent()).len() == (
        match playback_run(start, events).phase {
            PlaybackPhase::Opening => 0nat,
            PlaybackPhase::Failed => 0nat,
            _ => 1nat,
        }),
    decreases events.len(),
{
    if events.len() > 0 {
        let before = events.drop_last();
        ready_is_sent_once(start, before);
        trace_step(start, events, ready_sent());
        pick_all_of_few(playback_run(start, before).answer(events.last()), ready_sent());
    }
}

/// The thread sends that playback is done once, when the audio ends, and is then at its end.
pub proof fn done_is_sent_once<C>(start: PlaybackState<C>, events: Seq<PlaybackEvent<C>>)
    requires
        start.phase is Opening,
        playback_valid(start, events),
    ensures
        pick_all(playback_trace(start, events), done_sent()).len() == (
        match playback_run(start, events).phase {
            PlaybackPhase::Finished => 1nat,
            _ => 0nat,
        }),
    decreases events.len(),
{
    if events.len() > 0 {
        let before = events.drop_last();
        done_is_sent_once(start, before);
        trace_step(start, events, done_sent());
        pick_all_of_few(playback_run(start, before).answer(events.last()), done_sent());
    }
}

/// The text of the failure that an event brings to a thread whose device is `devname`.
pub open spec fn failure_text<C>(devname: Seq<char>) -> spec_fn(PlaybackEvent<C>) -> Seq<
    Seq<char>,
> {
    |event: PlaybackEvent<C>|
        match event {
            PlaybackEvent::Devices { names } => if any_named(names@, devname) {
                Seq::empty()
            } else {
                seq![not_found_text(devname)]
            },
            PlaybackEvent::DevicesFailed { message } => seq![message@],
            PlaybackEvent::StreamFailed { message } => seq![message@],
            PlaybackEvent::PlayFailed { message } => seq![message@],
            _ => Seq::empty(),
        }
}

/// The text of the error that an action reports.
pub open spec fn reported_error<C>() -> spec_fn(PlaybackAction<C, Seq<char>>) -> Seq<Seq<char>> {
    |action: PlaybackAction<C, Seq<char>>|
        match action {
            PlaybackAction::SendStatus {
                message: StatusMessage::PlaybackError { message },
                ..
            } => seq![message],
            _ => Seq::empty(),
        }
}

/// Every failure is reported once, in order and with its text, and nothing else is reported
/// as an error.
pub proof fn failures_are_reported<C>(start: PlaybackState<C>, events: Seq<PlaybackEvent<C>>)
    requires
        start.phase is Opening,
        playback_valid(start, events),
    ensures
        pick_all(playback_trace(start, events), reported_error()) == pick_all(
            events,
            failure_text(start.devname),
        ),
    decreases events.len(),
{
    if events.len() > 0 {
        let before = events.drop_last();
        let state = playback_run(start, before);
        let event = events.last();
        failures_are_reported(start, before);
        playback_settings_stay(start, before);
        trace_step(start, events, reported_error());
        pick_all_of_few(state.answer(event), reported_error());
        assert(pick_all(state.answer(event), reported_error()) =~= failure_text(start.devname)(
            event,
        ));
    }
}

/// The last action of every answer asks for exactly the events that the thread then waits
/// for, or ends the thread, which then waits for none.
pub proof fn playback_asks_for_what_it_waits_for<C>(
    state: PlaybackState<C>,
    event: PlaybackEvent<C>,
    later: PlaybackEvent<C>,
)
    requires
        state.accepts(event),
    ensures
        state.next(event).waits_for(later) <==> playback_is_asked(
            state.answer(event).last(),
            later,
        ),
        state.answer(event).last() is Stop <==> (state.next(event).phase is Finished
            || state.next(event).phase is Failed),
{
}

/// `action` asks for `event`.
pub open spec fn playback_is_asked<C>(
    action: PlaybackAction<C, Seq<char>>,
    event: PlaybackEvent<C>,
) -> bool {
    match event {
        PlaybackEvent::Devices { .. } => action is ListDevices,
        PlaybackEvent::DevicesFailed { .. } => action is ListDevices,
        PlaybackEvent::StreamBuilt => action is BuildStream,
        PlaybackEvent::StreamFailed { .. } => action is BuildStream,
        PlaybackEvent::Played => action is Play,
        PlaybackEvent::PlayFailed { .. } => action is Play,
        PlaybackEvent::Message { .. } => action is Receive,
        PlaybackEvent::Disconnected => action is Receive,
        PlaybackEvent::Timer { .. } => action is CheckTimer,
        PlaybackEvent::Average { .. } => action is GetAverage,
        PlaybackEvent::Speed { .. } => action is CalculateSpeed,
    }
}

} // verus!
