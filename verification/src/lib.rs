//! The verified core of an audio backend: how devices are looked up and opened,
//! how samples are queued between the device callbacks and the device threads,
//! and how the playback and capture threads react to what they receive.
//!
//! Nothing here touches a device, a channel or a clock. A thread is a value: it
//! says what is to be done, and is told what came of it.

pub mod bits;
pub mod capture;
pub mod capture_history;
pub mod capture_laws;
pub mod device;
pub mod message;
pub mod playback;
pub mod playback_history;
pub mod playback_laws;
pub mod queue;
pub mod trace;

pub use bits::{DoubleBits, SingleBits};
pub use capture::{
    get_nbr_capture_samples, CaptureAction, CaptureEvent, CapturePhase, CaptureThread,
};
pub use device::{
    open_cpal_capture, open_cpal_playback, BufferSize, ConfigError, CpalCaptureDevice, CpalHost,
    CpalPlaybackDevice, SampleFormat, StreamConfig, StreamFormat,
};
pub use message::{
    AudioChunk, AudioMessage, CommandMessage, OnSendFailure, ProcessingState, StatusMessage,
};
pub use playback::{AverageLevel, PlaybackAction, PlaybackEvent, PlaybackPhase, PlaybackThread};
pub use queue::{
    capacity_fits, copy_input, take_front, write_data_from_device, write_data_to_device,
    FeedAction, OutputFeeder,
};
