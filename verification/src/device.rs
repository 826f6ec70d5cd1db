//! Device settings, and the choices made when a device is opened.

use crate::bits::{DoubleBits, SingleBits};
use vstd::arithmetic::power2::pow2;
use vstd::prelude::*;
use vstd::string::StringExecFns;

verus! {

/// The system interface through which a device is reached.
#[derive(Clone, Copy, Debug, PartialEq, Eq, Structural)]
pub enum CpalHost {
    CoreAudio,
    Wasapi,
}

/// The format of the samples that a device exchanges.
#[derive(Clone, Copy, Debug, PartialEq, Eq, Structural)]
pub enum SampleFormat {
    /// Signed 16-bit integers.
    S16LE,
    /// Single-precision floating-point numbers.
    FLOAT32LE,
    /// Any format that this backend cannot use.
    Unsupported,
}

/// The sample type of a device stream.
#[derive(Clone, Copy, Debug, PartialEq, Eq, Structural)]
pub enum StreamFormat {
    I16,
    F32,
}

/// How large the buffer of a device stream is.
#[derive(Clone, Copy, Debug, PartialEq, Eq, Structural)]
pub enum BufferSize {
    /// As large as the device chooses.
    DeviceDefault,
}

/// The parameters with which a device stream is built.
#[derive(Clone, Copy, Debug, PartialEq, Eq, Structural)]
pub struct StreamConfig {
    pub channels: u16,
    pub sample_rate: u32,
    pub buffer_size: BufferSize,
}

/// A device that the configuration names cannot be used.
#[derive(Clone, Debug, PartialEq)]
pub struct ConfigError {
    pub desc: String,
}

/// The settings of a playback device.
#[derive(Clone, Debug, PartialEq)]
pub struct CpalPlaybackDevice {
    pub devname: String,
    pub host: CpalHost,
    pub samplerate: usize,
    pub chunksize: usize,
    pub channels: usize,
    pub sample_format: SampleFormat,
    /// The wanted buffer level in frames; zero stands for one chunk.
    pub target_level: usize,
    /// The time between two rate adjustments, in seconds.
    pub adjust_period: SingleBits,
    pub enable_rate_adjust: bool,
}

/// The settings of a capture device. `R` is the type of the resampler settings,
/// which are carried and not read here.
#[derive(Clone, Debug, PartialEq)]
pub struct CpalCaptureDevice<R> {
    pub devname: String,
    pub host: CpalHost,
    pub samplerate: usize,
    pub resampler_conf: R,
    pub enable_resampling: bool,
    pub capture_samplerate: usize,
    pub chunksize: usize,
    pub channels: usize,
    pub sample_format: SampleFormat,
    /// The range of sample values below which a chunk counts as silent.
    pub silence_threshold: DoubleBits,
    /// How long the silence must last, in seconds.
    pub silence_timeout: DoubleBits,
}

impl SampleFormat {
    /// This backend can use the format.
    pub open spec fn supported(self) -> bool {
        self != SampleFormat::Unsupported
    }

    /// Tells whether this backend can use the format.
    pub fn is_supported(&self) -> (res: bool)
        ensures
            res == self.supported(),
            res <==> *self == SampleFormat::S16LE || *self == SampleFormat::FLOAT32LE,
    {
        match *self {
            SampleFormat::Unsupported => false,
            _ => true,
        }
    }

    /// The number of bits in a sample.
    pub open spec fn spec_bits_per_sample(self) -> nat {
        match self {
            SampleFormat::S16LE => 16,
            _ => 32,
        }
    }

    /// Returns the number of bits in a sample.
    pub fn bits_per_sample(&self) -> (res: usize)
        requires
            self.supported(),
        ensures
            res == self.spec_bits_per_sample(),
            *self == SampleFormat::S16LE ==> res == 16,
            *self == SampleFormat::FLOAT32LE ==> res == 32,
    {
        match *self {
            SampleFormat::S16LE => 16,
            _ => 32,
        }
    }

    /// The factor between a sample in the range from -1 to 1 and the integer that stands
    /// for it: two to the power of one less than the bits of a sample.
    pub open spec fn spec_scalefactor(self) -> nat {
        pow2((self.spec_bits_per_sample() - 1) as nat)
    }

    /// Returns the factor between a sample in the range from -1 to 1 and the integer
    /// that stands for it.
    pub fn scalefactor(&self) -> (res: u64)
        requires
            self.supported(),
        ensures
            res == self.spec_scalefactor(),
            *self == SampleFormat::S16LE ==> res == 32768,
            *self == SampleFormat::FLOAT32LE ==> res == 2147483648,
    {
        proof {
            vstd::arithmetic::power2::lemma2_to64();
        }
        match *self {
            SampleFormat::S16LE => 0x8000,
            _ => 0x8000_0000,
        }
    }

    /// The stream format for samples of this format.
    pub open spec fn stream_format(self) -> StreamFormat {
        match self {
            SampleFormat::S16LE => StreamFormat::I16,
            _ => StreamFormat::F32,
        }
    }
}

impl StreamConfig {
    /// The parameters for a sample rate and a number of channels. The stream takes the
    /// rate as 32 bits and the channels as 16: what does not fit is cut off.
    pub open spec fn for_device(samplerate: usize, channels: usize) -> StreamConfig {
        StreamConfig {
            channels: (channels as int % 0x1_0000) as u16,
            sample_rate: (samplerate as int % 0x1_0000_0000) as u32,
            buffer_size: BufferSize::DeviceDefault,
        }
    }
}

/// A device reported `name`, and it is `devname`. A device whose name could not be read
/// has `None`.
pub open spec fn is_named(name: Option<String>, devname: Seq<char>) -> bool {
    name matches Some(n) && n@ == devname
}

/// The device at `index` is the first that is named `devname`.
pub open spec fn is_first_named(
    names: Seq<Option<String>>,
    devname: Seq<char>,
    index: int,
) -> bool {
    &&& 0 <= index < names.len()
    &&& is_named(names[index], devname)
    &&& forall|j: int| 0 <= j < index ==> !is_named(#[trigger] names[j], devname)
}

/// Some device is named `devname`.
pub open spec fn any_named(names: Seq<Option<String>>, devname: Seq<char>) -> bool {
    exists|i: int| 0 <= i < names.len() && is_named(#[trigger] names[i], devname)
}

/// The index of the first device that is named `devname`, where there is one.
pub open spec fn first_named(names: Seq<Option<String>>, devname: Seq<char>) -> int {
    choose|index: int| is_first_named(names, devname, index)
}

/// The text of the error for a device that is not there.
pub open spec fn not_found_text(devname: Seq<char>) -> Seq<char> {
    "Could not find device '"@ + devname + "'"@
}

/// `res` is what opening the device `devname` gives, where `names` holds the names of the
/// host's devices in the order in which the host lists them.
pub open spec fn is_opened(
    names: Seq<Option<String>>,
    devname: Seq<char>,
    samplerate: usize,
    channels: usize,
    sample_format: SampleFormat,
    res: Result<(usize, StreamConfig, StreamFormat), ConfigError>,
) -> bool {
    match res {
        Ok((index, config, format)) => {
            &&& is_first_named(names, devname, index as int)
            &&& config == StreamConfig::for_device(samplerate, channels)
            &&& format == sample_format.stream_format()
        },
        Err(err) => {
            &&& !any_named(names, devname)
            &&& err.desc@ == not_found_text(devname)
        },
    }
}

/// Tells whether some device is named `devname`.
pub fn is_any_named(names: &Vec<Option<String>>, devname: &str) -> (res: bool)
    ensures
        res == any_named(names@, devname@),
        res <==> exists|i: int|
            0 <= i < names@.len() && (#[trigger] names@[i] matches Some(name) && name@
                == devname@),
{
    match find_device(names, devname) {
        Some(_) => true,
        None => false,
    }
}

/// Cuts a sample rate to the 32 bits that a stream takes.
pub fn stream_rate(samplerate: usize) -> (res: u32)
    ensures
        res == samplerate as int % 0x1_0000_0000,
{
    assert(samplerate as u32 == samplerate & 0xffff_ffffusize) by (bit_vector);
    assert(samplerate & 0xffff_ffffusize == samplerate as int % 0x1_0000_0000) by (bit_vector);
    samplerate as u32
}

/// Finds the first device that is named `devname`.
fn find_device(names: &Vec<Option<String>>, devname: &str) -> (res: Option<usize>)
    ensures
        match res {
            Some(index) => is_first_named(names@, devname@, index as int),
            None => !any_named(names@, devname@),
        },
{
    let wanted: String = devname.to_owned();
    let mut i: usize = 0;
    while i < names.len()
        invariant
            i <= names.len(),
            wanted@ == devname@,
            forall|j: int| 0 <= j < i ==> !is_named(#[trigger] names@[j], devname@),
        decreases names.len() - i,
    {
        match &names[i] {
            Some(name) => {
                if *name == wanted {
                    return Some(i);
                }
            },
            None => {},
        }
        i = i + 1;
    }
    None
}

/// Chooses the device, the stream parameters and the stream format.
fn open_device(
    names: &Vec<Option<String>>,
    devname: &str,
    samplerate: usize,
    channels: usize,
    sample_format: &SampleFormat,
) -> (res: Result<(usize, StreamConfig, StreamFormat), ConfigError>)
    requires
        any_named(names@, devname@) ==> sample_format.supported(),
    ensures
        is_opened(names@, devname@, samplerate, channels, *sample_format, res),
        res matches Ok((index, _, _)) ==> {
            &&& index < names@.len()
            &&& names@[index as int] matches Some(name) && name@ == devname@
        },
        res matches Ok((index, _, _)) ==> forall|j: int|
            0 <= j < index ==> (#[trigger] names@[j] matches Some(name) ==> name@ != devname@),
        res matches Ok((_, config, _)) ==> {
            &&& channels <= u16::MAX ==> config.channels == channels
            &&& samplerate <= u32::MAX ==> config.sample_rate == samplerate
            &&& config.channels as int == channels as int % 0x1_0000
            &&& config.sample_rate as int == samplerate as int % 0x1_0000_0000
            &&& config.buffer_size == BufferSize::DeviceDefault
        },
        res matches Ok((_, _, format)) ==> {
            &&& *sample_format == SampleFormat::S16LE ==> format == StreamFormat::I16
            &&& *sample_format == SampleFormat::FLOAT32LE ==> format == StreamFormat::F32
        },
        res matches Err(err) ==> err.desc@ == "Could not find device '"@ + devname@ + "'"@,
        res is Err <==> forall|j: int|
            0 <= j < names@.len() ==> (#[trigger] names@[j] matches Some(name) ==> name@
                != devname@),
{
    match find_device(names, devname) {
        Some(index) => {
            let format = match *sample_format {
                SampleFormat::S16LE => StreamFormat::I16,
                _ => StreamFormat::F32,
            };
            proof {
                assert(channels as u16 == channels % 0x1_0000usize) by (bit_vector);
            }
            let config = StreamConfig {
                channels: channels as u16,
                sample_rate: stream_rate(samplerate),
                buffer_size: BufferSize::DeviceDefault,
            };
            Ok((index, config, format))
        },
        None => {
            let mut desc: String = "Could not find device '".to_owned();
            desc.append(devname);
            desc.append("'");
            Err(ConfigError { desc })
        },
    }
}

/// Opens a playback device: chooses, among the devices of a host, the first that is named
/// `devname`, and the parameters of its stream. `names` holds what each device gave as
/// its name.
pub fn open_cpal_playback(
    names: &Vec<Option<String>>,
    devname: &str,
    samplerate: usize,
    channels: usize,
    sample_format: &SampleFormat,
) -> (res: Result<(usize, StreamConfig, StreamFormat), ConfigError>)
    requires
        any_named(names@, devname@) ==> sample_format.supported(),
    ensures
        is_opened(names@, devname@, samplerate, channels, *sample_format, res),
        res matches Ok((index, _, _)) ==> {
            &&& index < names@.len()
            &&& names@[index as int] matches Some(name) && name@ == devname@
        },
        res matches Ok((index, _, _)) ==> forall|j: int|
            0 <= j < index ==> (#[trigger] names@[j] matches Some(name) ==> name@ != devname@),
        res matches Ok((_, config, _)) ==> {
            &&& channels <= u16::MAX ==> config.channels == channels
            &&& samplerate <= u32::MAX ==> config.sample_rate == samplerate
            &&& config.channels as int == channels as int % 0x1_0000
            &&& config.sample_rate as int == samplerate as int % 0x1_0000_0000
            &&& config.buffer_size == BufferSize::DeviceDefault
        },
        res matches Ok((_, _, format)) ==> {
            &&& *sample_format == SampleFormat::S16LE ==> format == StreamFormat::I16
            &&& *sample_format == SampleFormat::FLOAT32LE ==> format == StreamFormat::F32
        },
        res matches Err(err) ==> err.desc@ == "Could not find device '"@ + devname@ + "'"@,
        res is Err <==> forall|j: int|
            0 <= j < names@.len() ==> (#[trigger] names@[j] matches Some(name) ==> name@
                != devname@),
{
    open_device(names, devname, samplerate, channels, sample_format)
}

/// Opens a capture device, in the same way as a playback device.
pub fn open_cpal_capture(
    names: &Vec<Option<String>>,
    devname: &str,
    samplerate: usize,
    channels: usize,
    sample_format: &SampleFormat,
) -> (res: Result<(usize, StreamConfig, StreamFormat), ConfigError>)
    requires
        any_named(names@, devname@) ==> sample_format.supported(),
    ensures
        is_opened(names@, devname@, samplerate, channels, *sample_format, res),
        res matches Ok((index, _, _)) ==> {
            &&& index < names@.len()
            &&& names@[index as int] matches Some(name) && name@ == devname@
        },
        res matches Ok((index, _, _)) ==> forall|j: int|
            0 <= j < index ==> (#[trigger] names@[j] matches Some(name) ==> name@ != devname@),
        res matches Ok((_, config, _)) ==> {
            &&& channels <= u16::MAX ==> config.channels == channels
            &&& samplerate <= u32::MAX ==> config.sample_rate == samplerate
            &&& config.channels as int == channels as int % 0x1_0000
            &&& config.sample_rate as int == samplerate as int % 0x1_0000_0000
            &&& config.buffer_size == BufferSize::DeviceDefault
        },
        res matches Ok((_, _, format)) ==> {
            &&& *sample_format == SampleFormat::S16LE ==> format == StreamFormat::I16
            &&& *sample_format == SampleFormat::FLOAT32LE ==> format == StreamFormat::F32
        },
        res matches Err(err) ==> err.desc@ == "Could not find device '"@ + devname@ + "'"@,
        res is Err <==> forall|j: int|
            0 <= j < names@.len() ==> (#[trigger] names@[j] matches Some(name) ==> name@
                != devname@),
{
    open_device(names, devname, samplerate, channels, sample_format)
}

/// At most one device is the first of a name.
pub proof fn first_named_is_unique(
    names: Seq<Option<String>>,
    devname: Seq<char>,
    i: int,
    j: int,
)
    requires
        is_first_named(names, devname, i),
        is_first_named(names, devname, j),
    ensures
        i == j,
{
}

/// What opening gives is determined by the names and the settings: opening for playback and
/// opening for capture choose alike, and fail alike.
pub proof fn opening_is_determined(
    names: Seq<Option<String>>,
    devname: Seq<char>,
    samplerate: usize,
    channels: usize,
    sample_format: SampleFormat,
    first: Result<(usize, StreamConfig, StreamFormat), ConfigError>,
    second: Result<(usize, StreamConfig, StreamFormat), ConfigError>,
)
    requires
        is_opened(names, devname, samplerate, channels, sample_format, first),
        is_opened(names, devname, samplerate, channels, sample_format, second),
    ensures
        first is Ok <==> any_named(names, devname),
        first is Ok ==> first == second,
        first is Err ==> second is Err && first->Err_0.desc@ == second->Err_0.desc@,
{
    if let (Ok((i, _, _)), Ok((j, _, _))) = (first, second) {
        first_named_is_unique(names, devname, i as int, j as int);
    }
}

/// A device that is opened is the first that gave the wanted name, and its stream has the
/// wanted channels, rate and sample type: as they are where they fit in what a stream takes,
/// and with the same remainder where they do not. The device is missing exactly if none gave
/// the name, and the error says which one.
pub proof fn opened_stream_has_the_settings(
    names: Seq<Option<String>>,
    devname: Seq<char>,
    samplerate: usize,
    channels: usize,
    sample_format: SampleFormat,
    res: Result<(usize, StreamConfig, StreamFormat), ConfigError>,
)
    requires
        is_opened(names, devname, samplerate, channels, sample_format, res),
    ensures
        res matches Ok((index, config, format)) ==> {
            &&& index < names.len()
            &&& names[index as int] matches Some(name) && name@ == devname
            &&& channels <= u16::MAX ==> config.channels == channels
            &&& samplerate <= u32::MAX ==> config.sample_rate == samplerate
            &&& (channels - config.channels) % 0x1_0000 == 0
            &&& (samplerate - config.sample_rate) % 0x1_0000_0000 == 0
            &&& sample_format == SampleFormat::S16LE ==> format == StreamFormat::I16
            &&& sample_format == SampleFormat::FLOAT32LE ==> format == StreamFormat::F32
        },
        res matches Ok((index, _, _)) ==> forall|j: int|
            0 <= j < index ==> (#[trigger] names[j] matches Some(name) ==> name@ != devname),
        res is Err <==> forall|j: int|
            0 <= j < names.len() ==> (#[trigger] names[j] matches Some(name) ==> name@
                != devname),
        res matches Err(err) ==> err.desc@ == "Could not find device '"@ + devname + "'"@,
{
}

/// The factor between samples and integers is two to the power of the bits of a sample but
/// the sign, and every format that can be used is one of two.
pub proof fn formats_have_their_width(format: SampleFormat)
    ensures
        format.supported() <==> format == SampleFormat::S16LE || format
            == SampleFormat::FLOAT32LE,
        format == SampleFormat::S16LE ==> format.spec_bits_per_sample() == 16
            && format.spec_scalefactor() == 32768,
        format == SampleFormat::FLOAT32LE ==> format.spec_bits_per_sample() == 32
            && format.spec_scalefactor() == 2147483648,
{
    vstd::arithmetic::power2::lemma2_to64();
}

/// Where some device has the name, one of them is the first.
pub proof fn first_named_exists(names: Seq<Option<String>>, devname: Seq<char>)
    requires
        any_named(names, devname),
    ensures
        is_first_named(names, devname, first_named(names, devname)),
    decreases names.len(),
{
    let shorter = names.drop_last();
    if any_named(shorter, devname) {
        first_named_exists(shorter, devname);
        let index = first_named(shorter, devname);
        assert(forall|j: int| 0 <= j < shorter.len() ==> shorter[j] == #[trigger] names[j]);
        assert(is_first_named(names, devname, index));
    } else {
        let i = choose|i: int| 0 <= i < names.len() && is_named(#[trigger] names[i], devname);
        assert forall|j: int| 0 <= j < names.len() - 1 implies !is_named(
            #[trigger] names[j],
            devname,
        ) by {
            assert(shorter[j] == names[j]);
        }
        assert(is_first_named(names, devname, i));
    }
}

} // verus!
