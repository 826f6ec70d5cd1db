//! Sample queues between the device callbacks and the device threads.

use std::collections::VecDeque;
use vstd::layout::size_of;
use vstd::prelude::*;

verus! {

/// The capacity of a queue for `chunks` chunks can be computed, and a queue of that
/// capacity can be had.
pub open spec fn capacity_ok<T>(chunks: usize, chunksize: usize, channels: usize) -> bool {
    &&& chunks * chunksize <= usize::MAX
    &&& chunks * chunksize * channels <= usize::MAX
    &&& chunks * chunksize * channels * size_of::<T>() <= isize::MAX
}

/// Tells whether a queue for `chunks` chunks can be had.
pub fn capacity_fits<T>(chunks: usize, chunksize: usize, channels: usize) -> (res: bool)
    ensures
        res == capacity_ok::<T>(chunks, chunksize, channels),
        res <==> chunks * chunksize <= usize::MAX && chunks * chunksize * channels <= usize::MAX
            && chunks * chunksize * channels * size_of::<T>() <= isize::MAX,
{
    match chunks.checked_mul(chunksize) {
        Some(frames) => match frames.checked_mul(channels) {
            Some(samples) => match samples.checked_mul(core::mem::size_of::<T>()) {
                Some(bytes) => bytes <= isize::MAX as usize,
                None => false,
            },
            None => false,
        },
        None => false,
    }
}

/// Makes an empty queue with room for `chunks` chunks.
pub fn new_queue<T>(chunks: usize, chunksize: usize, channels: usize) -> (queue: VecDeque<T>)
    requires
        capacity_ok::<T>(chunks, chunksize, channels),
    ensures
        queue@ == Seq::<T>::empty(),
{
    VecDeque::with_capacity(chunks * chunksize * channels)
}

/// Moves samples from the front of a queue to a device buffer, until the buffer is full.
pub fn write_data_to_device<T>(output: &mut [T], queue: &mut VecDeque<T>)
    requires
        old(output)@.len() <= old(queue)@.len(),
    ensures
        final(output)@ == old(queue)@.take(old(output)@.len() as int),
        final(queue)@ == old(queue)@.skip(old(output)@.len() as int),
{
    let ghost samples = queue@;
    let len: usize = output.len();
    let mut i: usize = 0;
    while i < len
        invariant
            i <= len,
            len == output@.len(),
            len <= samples.len(),
            output@.take(i as int) == samples.take(i as int),
            queue@ == samples.skip(i as int),
        decreases len - i,
    {
        let ghost filled = output@;
        match queue.pop_front() {
            Some(sample) => {
                output[i] = sample;
            },
            None => {},
        }
        i = i + 1;
        assert(output@.take(i as int) =~= filled.take(i - 1).push(samples[i - 1]));
        assert(samples.take(i as int) =~= samples.take(i - 1).push(samples[i - 1]));
    }
    assert(output@ =~= output@.take(len as int));
}

/// Appends the samples of a device buffer to a queue.
pub fn write_data_from_device<T: Copy>(data: &[T], queue: &mut VecDeque<T>)
    ensures
        final(queue)@ == old(queue)@ + data@,
{
    let ghost start = queue@;
    let mut i: usize = 0;
    while i < data.len()
        invariant
            i <= data@.len(),
            queue@ == start + data@.take(i as int),
        decreases data@.len() - i,
    {
        queue.push_back(data[i]);
        i = i + 1;
        assert(data@.take(i as int) =~= data@.take(i - 1).push(data@[i - 1]));
    }
    assert(data@.take(i as int) =~= data@);
}

/// Copies the buffer that a capture device provides.
pub fn copy_input<T: Copy>(buffer: &[T]) -> (res: Vec<T>)
    ensures
        res@ == buffer@,
{
    let mut copy: Vec<T> = Vec::new();
    let mut i: usize = 0;
    while i < buffer.len()
        invariant
            i <= buffer@.len(),
            copy@ == buffer@.take(i as int),
        decreases buffer@.len() - i,
    {
        copy.push(buffer[i]);
        i = i + 1;
        assert(buffer@.take(i as int) =~= buffer@.take(i - 1).push(buffer@[i - 1]));
    }
    assert(buffer@.take(i as int) =~= buffer@);
    copy
}

/// Takes `count` samples from the front of a queue.
pub fn take_front<T>(queue: &mut VecDeque<T>, count: usize) -> (res: VecDeque<T>)
    requires
        count <= old(queue)@.len(),
    ensures
        res@ == old(queue)@.take(count as int),
        final(queue)@ == old(queue)@.skip(count as int),
{
    let mut front = queue.split_off(count);
    core::mem::swap(queue, &mut front);
    front
}

/// What the device callback of a playback stream does next.
#[derive(Clone, Copy, Debug, PartialEq, Eq, Structural)]
pub enum FeedAction {
    /// Convert one more chunk for the device: the queue is too short for the request.
    NeedChunk,
    /// The device buffer is filled. `buffer_fill` samples are left in the queue. `clipped`
    /// is to be added to the count of clipped samples, where there is anything to add.
    Filled { buffer_fill: usize, clipped: Option<usize> },
}

/// The samples that wait for a playback device, and how many samples were clipped when the
/// latest chunk was converted.
#[derive(Debug)]
pub struct OutputFeeder<T> {
    queue: VecDeque<T>,
    clipped: usize,
}

/// The contents of an `OutputFeeder`.
pub struct FeederState<T> {
    pub queue: Seq<T>,
    pub clipped: usize,
}

impl<T> View for OutputFeeder<T> {
    type V = FeederState<T>;

    closed spec fn view(&self) -> FeederState<T> {
        FeederState { queue: self.queue@, clipped: self.clipped }
    }
}

impl<T> FeederState<T> {
    /// A feeder that has seen no chunk.
    pub open spec fn empty() -> FeederState<T> {
        FeederState { queue: Seq::empty(), clipped: 0 }
    }

    /// The state after a chunk became `samples`, `clipped` of which were clipped.
    pub open spec fn accept(self, samples: Seq<T>, clipped: usize) -> FeederState<T> {
        FeederState { queue: self.queue + samples, clipped }
    }

    /// The state after the device took `wanted` samples.
    pub open spec fn serve(self, wanted: int) -> FeederState<T> {
        FeederState { queue: self.queue.skip(wanted), clipped: self.clipped }
    }
}

impl<T> OutputFeeder<T> {
    /// Makes a feeder with room for four chunks.
    pub fn new(chunksize: usize, channels: usize) -> (res: OutputFeeder<T>)
        requires
            capacity_ok::<T>(4, chunksize, channels),
        ensures
            res@ == FeederState::<T>::empty(),
            res@.queue == Seq::<T>::empty(),
            res@.clipped == 0,
    {
        OutputFeeder { queue: new_queue(4, chunksize, channels), clipped: 0 }
    }

    /// Appends the samples of a converted chunk, `clipped` of which were clipped, and
    /// empties `samples`.
    pub fn accept(&mut self, samples: &mut VecDeque<T>, clipped: usize)
        ensures
            final(self)@ == old(self)@.accept(old(samples)@, clipped),
            final(self)@.queue == old(self)@.queue + old(samples)@,
            final(self)@.clipped == clipped,
            final(samples)@ == Seq::<T>::empty(),
    {
        self.queue.append(samples);
        self.clipped = clipped;
    }

    /// Answers a request of the device for samples: fills `output` from the front of the
    /// queue, or asks for a chunk and changes nothing where the queue is too short. The
    /// count of clipped samples stays until the next chunk replaces it, so that every
    /// request before that chunk gives it again.
    pub fn step(&mut self, output: &mut [T]) -> (res: FeedAction)
        ensures
            old(self)@.queue.len() < old(output)@.len() ==> {
                &&& res == FeedAction::NeedChunk
                &&& final(self)@ == old(self)@
                &&& final(output)@ == old(output)@
            },
            old(output)@.len() <= old(self)@.queue.len() ==> {
                &&& final(self)@ == old(self)@.serve(old(output)@.len() as int)
                &&& final(self)@.queue == old(self)@.queue.skip(old(output)@.len() as int)
                &&& final(self)@.clipped == old(self)@.clipped
                &&& final(output)@ == old(self)@.queue.take(old(output)@.len() as int)
                &&& res is Filled
                &&& res->buffer_fill == old(self)@.queue.len() - old(output)@.len()
                &&& res->clipped == (if old(self)@.clipped > 0 {
                    Some(old(self)@.clipped)
                } else {
                    None
                })
            },
    {
        if self.queue.len() < output.len() {
            return FeedAction::NeedChunk;
        }
        write_data_to_device(output, &mut self.queue);
        let clipped = if self.clipped > 0 {
            Some(self.clipped)
        } else {
            None
        };
        FeedAction::Filled { buffer_fill: self.queue.len(), clipped }
    }
}

/// Something that happens to a feeder.
pub enum FeedEvent<T> {
    /// A chunk became these samples.
    Accept { samples: Seq<T>, clipped: usize },
    /// The device took this many samples.
    Serve { wanted: nat },
}

/// The state of a feeder after `events`.
pub open spec fn feed<T>(start: FeederState<T>, events: Seq<FeedEvent<T>>) -> FeederState<T>
    decreases events.len(),
{
    if events.len() == 0 {
        start
    } else {
        let before = feed(start, events.drop_last());
        match events.last() {
            FeedEvent::Accept { samples, clipped } => before.accept(samples, clipped),
            FeedEvent::Serve { wanted } => before.serve(wanted as int),
        }
    }
}

/// No request in `events` was served from a queue that was too short.
pub open spec fn feed_valid<T>(start: FeederState<T>, events: Seq<FeedEvent<T>>) -> bool
    decreases events.len(),
{
    events.len() > 0 ==> {
        &&& feed_valid(start, events.drop_last())
        &&& events.last() matches FeedEvent::Serve { wanted } ==> wanted <= feed(
            start,
            events.drop_last(),
        ).queue.len()
    }
}

/// All samples that the chunks of `events` became.
pub open spec fn fed<T>(events: Seq<FeedEvent<T>>) -> Seq<T>
    decreases events.len(),
{
    if events.len() == 0 {
        Seq::empty()
    } else {
        match events.last() {
            FeedEvent::Accept { samples, .. } => fed(events.drop_last()) + samples,
            FeedEvent::Serve { .. } => fed(events.drop_last()),
        }
    }
}

/// All samples that the device took during `events`.
pub open spec fn played<T>(start: FeederState<T>, events: Seq<FeedEvent<T>>) -> Seq<T>
    decreases events.len(),
{
    if events.len() == 0 {
        Seq::empty()
    } else {
        let before = events.drop_last();
        match events.last() {
            FeedEvent::Accept { .. } => played(start, before),
            FeedEvent::Serve { wanted } => played(start, before) + feed(start, before).queue.take(
                wanted as int,
            ),
        }
    }
}

/// The device plays every sample once and in order: what it took, followed by what is still
/// queued, is what was queued at the start, followed by all that the chunks became.
pub proof fn feeder_keeps_every_sample<T>(start: FeederState<T>, events: Seq<FeedEvent<T>>)
    requires
        feed_valid(start, events),
    ensures
        played(start, events) + feed(start, events).queue == start.queue + fed(events),
    decreases events.len(),
{
    if events.len() > 0 {
        let before = events.drop_last();
        feeder_keeps_every_sample(start, before);
        let queue = feed(start, before).queue;
        match events.last() {
            FeedEvent::Accept { samples, .. } => {
                assert(played(start, before) + (queue + samples) =~= (played(start, before)
                    + queue) + samples);
                assert(start.queue + (fed(before) + samples) =~= (start.queue + fed(before))
                    + samples);
            },
            FeedEvent::Serve { wanted } => {
                assert(queue =~= queue.take(wanted as int) + queue.skip(wanted as int));
                assert(played(start, before) + queue.take(wanted as int) + queue.skip(
                    wanted as int,
                ) =~= played(start, before) + queue);
            },
        }
    } else {
        assert(start.queue + fed(events) =~= played(start, events) + start.queue);
    }
}

/// Writing a captured buffer to a queue and then filling an output buffer of the same
/// length from it gives the captured samples back, once the samples that were queued before
/// have left, and leaves the queue empty.
pub proof fn queue_gives_back_what_it_took<T>(queue: Seq<T>, data: Seq<T>)
    ensures
        (queue + data).skip(queue.len() as int).take(data.len() as int) == data,
        (queue + data).take(queue.len() as int) == queue,
        (queue + data).skip(queue.len() as int).skip(data.len() as int) == Seq::<T>::empty(),
{
    assert((queue + data).skip(queue.len() as int) =~= data);
    assert(data.take(data.len() as int) =~= data);
    assert((queue + data).take(queue.len() as int) =~= queue);
}

/// Two requests for samples, one after the other, are answered as one request for both:
/// the device may ask in portions of any size.
pub proof fn requests_can_be_split<T>(queue: Seq<T>, first: int, second: int)
    requires
        0 <= first,
        0 <= second,
        first + second <= queue.len(),
    ensures
        queue.take(first) + queue.skip(first).take(second) == queue.take(first + second),
        queue.skip(first).skip(second) == queue.skip(first + second),
{
    assert(queue.take(first) + queue.skip(first).take(second) =~= queue.take(first + second));
    assert(queue.skip(first).skip(second) =~= queue.skip(first + second));
}

/// The clipped samples of the latest chunk that `events` brings.
pub open spec fn latest_clipped<T>(start: usize, events: Seq<FeedEvent<T>>) -> usize
    decreases events.len(),
{
    if events.len() == 0 {
        start
    } else {
        match events.last() {
            FeedEvent::Accept { clipped, .. } => clipped,
            FeedEvent::Serve { .. } => latest_clipped(start, events.drop_last()),
        }
    }
}

/// A feeder holds the number of clipped samples of the latest chunk, however many requests
/// came since, and a new feeder holds none.
pub proof fn clipped_is_of_the_latest_chunk<T>(start: FeederState<T>, events: Seq<FeedEvent<T>>)
    ensures
        feed(start, events).clipped == latest_clipped(start.clipped, events),
        FeederState::<T>::empty().clipped == 0,
        FeederState::<T>::empty().queue.len() == 0,
    decreases events.len(),
{
    if events.len() > 0 {
        clipped_is_of_the_latest_chunk(start, events.drop_last());
    }
}

} // verus!
