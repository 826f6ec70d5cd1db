//! What the device threads exchange with the rest of the program.

use crate::bits::DoubleBits;
use vstd::prelude::*;

verus! {

/// A chunk of audio with one waveform per channel.
#[derive(Clone, Debug, PartialEq)]
pub struct AudioChunk<S> {
    /// The number of frames in the chunk.
    pub frames: usize,
    /// The number of those frames that hold audio.
    pub valid_frames: usize,
    /// One waveform per channel.
    pub waveforms: Vec<Vec<S>>,
    /// The largest sample.
    pub maxval: S,
    /// The smallest sample.
    pub minval: S,
}

impl<S> AudioChunk<S> {
    /// A chunk whose waveforms came from a resampler.
    pub open spec fn resampled(waveforms: Vec<Vec<S>>, maxval: S, minval: S) -> AudioChunk<S> {
        AudioChunk {
            frames: waveforms@[0]@.len() as usize,
            valid_frames: waveforms@[0]@.len() as usize,
            waveforms,
            maxval,
            minval,
        }
    }

    /// Makes a chunk of the waveforms that a resampler gave, with the largest and the
    /// smallest sample of the chunk that it was given. The frames are those of the first
    /// waveform, and all of them are valid.
    pub fn from_resampler(waveforms: Vec<Vec<S>>, maxval: S, minval: S) -> (res: AudioChunk<S>)
        requires
            waveforms@.len() > 0,
        ensures
            res == AudioChunk::resampled(waveforms, maxval, minval),
            res.waveforms == waveforms,
            res.frames == waveforms@[0]@.len(),
            res.valid_frames == waveforms@[0]@.len(),
            res.maxval == maxval,
            res.minval == minval,
    {
        let frames: usize = waveforms[0].len();
        AudioChunk { frames, valid_frames: frames, waveforms, maxval, minval }
    }
}

/// A message on the channel that carries audio.
#[derive(Clone, Debug, PartialEq)]
pub enum AudioMessage<C> {
    Audio(C),
    EndOfStream,
}

/// What a capture thread is doing.
#[derive(Clone, Copy, Debug, PartialEq, Eq, Structural)]
pub enum ProcessingState {
    Running,
    Paused,
    Inactive,
}

/// A message on the status channel. `M` is the type of the error texts: `String`
/// in a message that is sent, `Seq<char>` in a contract.
#[derive(Clone, Debug, PartialEq)]
pub enum StatusMessage<M> {
    PlaybackReady,
    CaptureReady,
    PlaybackError { message: M },
    CaptureError { message: M },
    PlaybackDone,
    CaptureDone,
    SetSpeed { speed: DoubleBits },
}

impl View for StatusMessage<String> {
    type V = StatusMessage<Seq<char>>;

    open spec fn view(&self) -> StatusMessage<Seq<char>> {
        match *self {
            StatusMessage::PlaybackReady => StatusMessage::PlaybackReady,
            StatusMessage::CaptureReady => StatusMessage::CaptureReady,
            StatusMessage::PlaybackError { message } => StatusMessage::PlaybackError {
                message: message@,
            },
            StatusMessage::CaptureError { message } => StatusMessage::CaptureError {
                message: message@,
            },
            StatusMessage::PlaybackDone => StatusMessage::PlaybackDone,
            StatusMessage::CaptureDone => StatusMessage::CaptureDone,
            StatusMessage::SetSpeed { speed } => StatusMessage::SetSpeed { speed },
        }
    }
}

/// A command to a capture thread.
#[derive(Clone, Copy, Debug, PartialEq, Eq, Structural)]
pub enum CommandMessage {
    /// Run at another speed, relative to the speed of the settings.
    SetSpeed { speed: DoubleBits },
    Exit,
}

/// What a thread does when the status channel does not take a message.
#[derive(Clone, Copy, Debug, PartialEq, Eq, Structural)]
pub enum OnSendFailure {
    /// It goes on.
    Ignore,
    /// It logs the failure and goes on.
    Log,
    /// It panics.
    Panic,
}

/// The contents of a status message are the message itself, with the error text as its
/// characters.
pub proof fn status_contents_are_the_message(text: String, speed: DoubleBits)
    ensures
        (StatusMessage::<String>::PlaybackReady)@ == StatusMessage::<Seq<char>>::PlaybackReady,
        (StatusMessage::<String>::CaptureReady)@ == StatusMessage::<Seq<char>>::CaptureReady,
        (StatusMessage::PlaybackError { message: text })@ == (StatusMessage::PlaybackError {
            message: text@,
        }),
        (StatusMessage::CaptureError { message: text })@ == (StatusMessage::CaptureError {
            message: text@,
        }),
        (StatusMessage::<String>::PlaybackDone)@ == StatusMessage::<Seq<char>>::PlaybackDone,
        (StatusMessage::<String>::CaptureDone)@ == StatusMessage::<Seq<char>>::CaptureDone,
        (StatusMessage::<String>::SetSpeed { speed })@ == (StatusMessage::<
            Seq<char>,
        >::SetSpeed { speed }),
{
}

} // verus!
