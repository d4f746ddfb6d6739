//! The fixed-layout value types exchanged across the driver boundary:
//! scalars, channel / clock / buffer descriptors, the timing aggregates
//! delivered with each buffer switch, and the parameter records of the
//! extension entry point. Pure data contracts, no behaviour.

use vstd::prelude::*;
use crate::codes::AsioBool;
use crate::codes::AsioIoFormatType;
use crate::codes::AsioSampleType;
use crate::codes::AsioTransportCommand;
use crate::flags::AsioTimeCodeFlags;
use crate::text::AsioName;

verus! {

/// A sample count on the driver's sample clock.
pub type AsioSamples = i64;

/// A system timestamp correlated with a sample count.
pub type AsioTimestamp = i64;

/// A 64-bit IEEE 754 value carried opaquely as its bit pattern. The
/// protocol negotiates rates and speeds by exchanging these values
/// unchanged; this library never computes on them, so the bits are the
/// whole story.
#[derive(Debug, Clone, Copy, PartialEq, Eq, Hash, Structural)]
pub struct AsioDouble {
    pub bits: u64,
}

impl AsioDouble {
    pub fn from_bits(bits: u64) -> (r: AsioDouble)
        ensures
            r.bits == bits,
    {
        AsioDouble { bits }
    }

    pub fn to_bits(&self) -> (r: u64)
        ensures
            r == self.bits,
    {
        self.bits
    }
}

/// A sample rate, carried as the bit pattern of a 64-bit float.
pub type AsioSampleRate = AsioDouble;

/// The bit pattern of the 64-bit float value one: the nominal stream
/// speed.
pub const DOUBLE_ONE_BITS: u64 = 0x3ff0_0000_0000_0000;

/// Bound on how many clock sources a driver may report.
pub const CLOCK_SOURCE_CAPACITY: usize = 16;

/// One selectable sample-clock source, as a driver reports it.
#[derive(Debug, Clone)]
pub struct AsioClockSource {
    pub index: i32,
    pub associated_channel: i32,
    pub associated_group: i32,
    pub is_current_source: AsioBool,
    pub name: AsioName,
}

impl AsioClockSource {
    /// A blank entry, as the query buffer holds before the driver
    /// fills it: zeroed fields and a zero-filled name.
    pub fn new() -> (r: AsioClockSource)
        ensures
            r.index == 0,
            r.associated_channel == 0,
            r.associated_group == 0,
            r.is_current_source == AsioBool::False,
            r.name.wf(),
            forall|j: int| 0 <= j < r.name.inner@.len() ==> r.name.inner@[j] == 0u8,
    {
        AsioClockSource {
            index: 0,
            associated_channel: 0,
            associated_group: 0,
            is_current_source: AsioBool::False,
            name: AsioName::new(),
        }
    }
}

/// The bounded set a clock-source query fills: a fixed array of 16
/// entries and the count the driver actually reported. The count never
/// exceeds the capacity, and only the first `length` entries are
/// meaningful — capacity must never be mistaken for length.
#[derive(Debug)]
pub struct AsioClockSources {
    pub length: i32,
    pub array: Vec<AsioClockSource>,
}

impl AsioClockSources {
    /// The array is exactly at capacity and the reported count lies
    /// within it.
    pub open spec fn wf(self) -> bool {
        &&& self.array.len() == CLOCK_SOURCE_CAPACITY
        &&& 0 <= self.length <= CLOCK_SOURCE_CAPACITY
    }

    /// A fresh query buffer: full capacity, nothing reported yet, and
    /// every entry blank — zeroed fields and a zero-filled name.
    pub fn new() -> (r: AsioClockSources)
        ensures
            r.wf(),
            r.length == 0,
            forall|k: int|
                0 <= k < r.array@.len() ==> {
                    &&& (#[trigger] r.array@[k]).index == 0
                    &&& r.array@[k].associated_channel == 0
                    &&& r.array@[k].associated_group == 0
                    &&& r.array@[k].is_current_source == AsioBool::False
                    &&& r.array@[k].name.wf()
                    &&& forall|j: int|
                        0 <= j < r.array@[k].name.inner@.len() ==> r.array@[k].name.inner@[j]
                            == 0u8
                },
    {
        let mut array: Vec<AsioClockSource> = Vec::new();
        let mut i: usize = 0;
        while i < CLOCK_SOURCE_CAPACITY
            invariant
                array@.len() == i,
                i <= CLOCK_SOURCE_CAPACITY,
                forall|k: int|
                    0 <= k < i ==> {
                        &&& (#[trigger] array@[k]).index == 0
                        &&& array@[k].associated_channel == 0
                        &&& array@[k].associated_group == 0
                        &&& array@[k].is_current_source == AsioBool::False
                        &&& array@[k].name.wf()
                        &&& forall|j: int|
                            0 <= j < array@[k].name.inner@.len() ==> array@[k].name.inner@[j]
                                == 0u8
                    },
            decreases CLOCK_SOURCE_CAPACITY - i,
        {
            array.push(AsioClockSource::new());
            i = i + 1;
        }
        AsioClockSources { length: 0, array }
    }

    /// One of the reported entries. The index is bounded by the
    /// reported count, so no read ever strays past what the driver
    /// filled.
    pub fn get(&self, i: usize) -> (r: &AsioClockSource)
        requires
            self.wf(),
            i < self.length,
        ensures
            *r == self.array@[i as int],
    {
        self.array.get(i).unwrap()
    }
}

/// One input or output channel's static properties, as one query
/// returns them. The `channel` and `is_input` fields are the query key;
/// the rest is the driver's answer.
#[derive(Debug, Clone)]
pub struct AsioChannelInfo {
    pub channel: i32,
    pub is_input: AsioBool,
    pub is_active: AsioBool,
    pub channel_group: i32,
    pub sample_type: AsioSampleType,
    pub name: AsioName,
}

impl AsioChannelInfo {
    /// A query record for one channel of one direction, its name
    /// still zero-filled.
    pub fn new(channel: i32, is_input: bool) -> (r: AsioChannelInfo)
        ensures
            r.channel == channel,
            r.is_input.spec_bool() == is_input,
            r.is_active == AsioBool::False,
            r.channel_group == 0,
            r.sample_type == AsioSampleType::AsioSTInt16MSB,
            r.name.wf(),
            forall|j: int| 0 <= j < r.name.inner@.len() ==> r.name.inner@[j] == 0u8,
    {
        AsioChannelInfo {
            channel,
            is_input: AsioBool::from_bool(is_input),
            is_active: AsioBool::False,
            channel_group: 0,
            sample_type: AsioSampleType::AsioSTInt16MSB,
            name: AsioName::new(),
        }
    }

    pub fn new_input(channel: i32) -> (r: AsioChannelInfo)
        ensures
            r.channel == channel,
            r.is_input.spec_bool(),
            r.is_active == AsioBool::False,
            r.channel_group == 0,
            r.sample_type == AsioSampleType::AsioSTInt16MSB,
            r.name.wf(),
            forall|j: int| 0 <= j < r.name.inner@.len() ==> r.name.inner@[j] == 0u8,
    {
        AsioChannelInfo::new(channel, true)
    }

    pub fn new_output(channel: i32) -> (r: AsioChannelInfo)
        ensures
            r.channel == channel,
            !r.is_input.spec_bool(),
            r.is_active == AsioBool::False,
            r.channel_group == 0,
            r.sample_type == AsioSampleType::AsioSTInt16MSB,
            r.name.wf(),
            forall|j: int| 0 <= j < r.name.inner@.len() ==> r.name.inner@[j] == 0u8,
    {
        AsioChannelInfo::new(channel, false)
    }
}

/// One channel's pair of alternating buffer regions. The host names the
/// direction and channel; a successful buffer creation fills `buffers`
/// with the driver's two region handles. The regions stay driver-owned:
/// a handle is only good between creation and disposal, and only for
/// the half the switch protocol currently grants the host.
#[derive(Debug, Clone, Copy, PartialEq, Eq, Hash)]
pub struct AsioBufferInfo {
    pub is_input: AsioBool,
    pub channel_num: i32,
    pub buffers: [u64; 2],
}

impl AsioBufferInfo {
    /// A creation request for one channel of one direction, with no
    /// regions granted yet.
    pub fn new(channel: i32, is_input: bool) -> (r: AsioBufferInfo)
        ensures
            r.is_input.spec_bool() == is_input,
            r.channel_num == channel,
            r.buffers[0] == 0,
            r.buffers[1] == 0,
    {
        AsioBufferInfo {
            is_input: AsioBool::from_bool(is_input),
            channel_num: channel,
            buffers: [0, 0],
        }
    }

    pub fn new_input(channel: i32) -> (r: AsioBufferInfo)
        ensures
            r.is_input.spec_bool(),
            r.channel_num == channel,
            r.buffers[0] == 0,
            r.buffers[1] == 0,
    {
        AsioBufferInfo::new(channel, true)
    }

    pub fn new_output(channel: i32) -> (r: AsioBufferInfo)
        ensures
            !r.is_input.spec_bool(),
            r.channel_num == channel,
            r.buffers[0] == 0,
            r.buffers[1] == 0,
    {
        AsioBufferInfo::new(channel, false)
    }
}

/// Parameters of the input-monitor extension request.
#[derive(Debug, Clone, Copy, PartialEq, Eq, Hash, Structural)]
pub struct AsioInputMonitor {
    pub input: i32,
    pub output: i32,
    pub gain: i32,
    pub state: AsioBool,
    pub pan: i32,
}

/// Parameters of the gain and meter extension requests: the channel the
/// request addresses, the gain to apply, and the meter the driver
/// fills.
#[derive(Debug, Clone, Copy, PartialEq, Eq, Hash, Structural)]
pub struct AsioChannelControls {
    pub channel: i32,
    pub is_input: AsioBool,
    pub gain: i32,
    pub meter: i32,
}

/// Parameters of the transport extension request.
#[derive(Debug, Clone, Copy, PartialEq, Eq, Hash)]
pub struct AsioTransportParameters {
    pub command: AsioTransportCommand,
    pub sample_position: AsioSamples,
    pub track: i32,
    pub track_switches: [i32; 16],
}

/// Parameters of the format-switching extension requests.
#[derive(Debug, Clone, Copy, PartialEq, Eq, Hash, Structural)]
pub struct AsioIoFormat {
    pub format_type: AsioIoFormatType,
}

/// The driver's internal buffering, as the introspection extension
/// reports it, in samples per direction.
#[derive(Debug, Clone, Copy, PartialEq, Eq, Hash, Structural)]
pub struct AsioInternalBufferInfo {
    pub input_samples: i32,
    pub output_samples: i32,
}

/// The time-code sub-record a switch callback may deliver when
/// time-code reading is enabled.
#[derive(Debug, Clone, Copy, PartialEq, Eq, Hash, Structural)]
pub struct AsioTimeCode {
    pub speed: AsioDouble,
    pub time_code_samples: AsioSamples,
    pub flags: AsioTimeCodeFlags,
}

/// The timing context delivered with each buffer switch: speed, system
/// timestamp, sample position and rate, and the validity flag word.
#[derive(Debug, Clone, Copy, PartialEq, Eq, Hash, Structural)]
pub struct AsioTimeInfo {
    pub speed: AsioDouble,
    pub system_time: AsioTimestamp,
    pub sample_position: AsioSamples,
    pub sample_rate: AsioSampleRate,
    pub flags: u32,
}

/// The full timing aggregate of the time-info switch callback.
#[derive(Debug, Clone, Copy, PartialEq, Eq, Hash, Structural)]
pub struct AsioTime {
    pub time_info: AsioTimeInfo,
    pub time_code: AsioTimeCode,
}

} // verus!
