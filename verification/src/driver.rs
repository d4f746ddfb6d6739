//! The driver contract itself: the lifecycle state machine, the
//! control surface, and the buffer-exchange protocol, as a reference
//! driver whose every operation carries an exact contract.
//!
//! A conforming hardware driver is reached through a platform dispatch
//! table this library cannot inspect; the reference driver gives the
//! same operation set a fully specified, executable meaning, so the
//! protocol's rules — which calls are legal in which state, what each
//! query returns, how the double-buffer switch alternates — are stated
//! and proved here once.
//!
//! Two execution contexts share a driver: the host control context
//! makes every call below except the switch deliveries, and the driver
//! callback context delivers switches. The host must not reshape the
//! data plane (create, dispose, start, stop) from within a callback;
//! that is a usage contract, not something the protocol can detect.

use vstd::prelude::*;
use crate::codes::AsioBool;
use crate::codes::AsioError;
use crate::codes::AsioFutureSelector;
use crate::codes::AsioIoFormatType;
use crate::codes::AsioSampleType;
use crate::marshal::AsioBufferInfo;
use crate::marshal::AsioChannelInfo;
use crate::marshal::AsioClockSource;
use crate::marshal::AsioClockSources;
use crate::marshal::AsioChannelControls;
use crate::marshal::AsioDouble;
use crate::marshal::AsioInputMonitor;
use crate::marshal::AsioInternalBufferInfo;
use crate::marshal::AsioIoFormat;
use crate::marshal::AsioTransportParameters;
use crate::marshal::AsioSampleRate;
use crate::marshal::AsioTime;
use crate::marshal::AsioTimeCode;
use crate::marshal::AsioTimeInfo;
use crate::marshal::DOUBLE_ONE_BITS;
use crate::marshal::CLOCK_SOURCE_CAPACITY;
use crate::flags::AsioTimeCodeFlags;
use crate::flags::TIME_CODE_RUNNING;
use crate::flags::TIME_CODE_SPEED_VALID;
use crate::flags::TIME_CODE_VALID;
use crate::flags::TIME_INFO_SAMPLE_POSITION_VALID;
use crate::flags::TIME_INFO_SAMPLE_RATE_VALID;
use crate::flags::TIME_INFO_SPEED_VALID;
use crate::flags::TIME_INFO_SYSTEM_TIME_VALID;
use crate::sizes::buffer_size_allowed;
use crate::sizes::buffer_size_permitted;
use crate::text::AsioErrorMsg;
use crate::text::AsioName;
use crate::text::copied_c_text;

verus! {

/// The lifecycle of a driver binding. A fresh binding is `Activated`;
/// `init` takes it to `Initialized`; creating buffers to
/// `BuffersCreated`; `start` to `Running`; `stop` back to
/// `BuffersCreated`; disposing buffers back to `Initialized`. Every
/// other transition is rejected with `InvalidMode`.
#[derive(Debug, Clone, Copy, PartialEq, Eq, Hash, Structural)]
pub enum DriverState {
    Activated,
    Initialized,
    BuffersCreated,
    Running,
}

/// The optional capabilities a driver may support. Each one answers a
/// probe of the extension entry point; a missing capability is a
/// normal negotiation outcome, not a fault.
#[derive(Debug, Clone, Copy, PartialEq, Eq, Hash, Structural)]
pub struct DriverCaps {
    pub input_monitor: bool,
    pub time_info: bool,
    pub time_code: bool,
    pub transport: bool,
    pub input_gain: bool,
    pub input_meter: bool,
    pub output_gain: bool,
    pub output_meter: bool,
    pub io_format: bool,
    pub report_overload: bool,
    pub internal_buffer_samples: bool,
    pub output_ready: bool,
}

/// One selectable clock source, as the driver is configured with it.
#[derive(Debug)]
pub struct ClockSourceConfig {
    pub associated_channel: i32,
    pub associated_group: i32,
    pub name: Vec<u8>,
}

/// Everything that fixes a reference driver's behaviour: its identity,
/// topology, supported rates and sizes, clock sources, capabilities,
/// and how much sample memory it may hand out.
#[derive(Debug)]
pub struct DriverConfig {
    pub name: Vec<u8>,
    pub version: i32,
    pub error_message: Vec<u8>,
    pub num_inputs: i32,
    pub num_outputs: i32,
    pub input_latency: i32,
    pub output_latency: i32,
    pub min_buffer_size: i32,
    pub max_buffer_size: i32,
    pub preferred_buffer_size: i32,
    pub buffer_granularity: i32,
    pub sample_type: AsioSampleType,
    pub initial_sample_rate: AsioSampleRate,
    pub supported_sample_rates: Vec<AsioSampleRate>,
    pub clock_sources: Vec<ClockSourceConfig>,
    pub caps: DriverCaps,
    pub memory_limit: u64,
}

impl DriverConfig {
    /// A sound configuration: non-negative channel counts whose sum
    /// fits the wire's 32-bit field, non-negative latencies (a latency
    /// is a sample count), no more clock sources than the query
    /// capacity, positive buffer sizes in order, and a preferred size
    /// the granularity itself permits.
    pub open spec fn wf(self) -> bool {
        &&& 0 <= self.num_inputs
        &&& 0 <= self.num_outputs
        &&& self.num_inputs + self.num_outputs <= 0x7fff_ffff
        &&& 0 <= self.input_latency
        &&& 0 <= self.output_latency
        &&& self.clock_sources.len() <= CLOCK_SOURCE_CAPACITY
        &&& 0 < self.min_buffer_size <= self.max_buffer_size
        &&& buffer_size_permitted(
            self.min_buffer_size as int,
            self.max_buffer_size as int,
            self.buffer_granularity as int,
            self.preferred_buffer_size as int,
        )
    }

    /// Whether the driver has any clock at all.
    pub open spec fn has_clock(self) -> bool {
        self.clock_sources.len() > 0
    }

    /// Whether a rate belongs to the supported set.
    pub open spec fn supports_rate(self, rate: AsioSampleRate) -> bool {
        self.supported_sample_rates@.contains(rate)
    }

    /// Whether `channel` names a real channel of the given direction.
    pub open spec fn valid_channel(self, is_input: bool, channel: i32) -> bool {
        if is_input {
            0 <= channel < self.num_inputs
        } else {
            0 <= channel < self.num_outputs
        }
    }
}

/// The negotiable settings a driver holds between calls.
#[derive(Debug, Clone, Copy, PartialEq, Eq, Hash, Structural)]
pub struct ControlSettings {
    pub sample_rate: AsioSampleRate,
    pub clock_source: i32,
    pub time_code_read: bool,
    pub io_format: AsioIoFormatType,
}

/// The data plane: the created slots, their sample regions, and the
/// running position of the stream.
#[derive(Debug)]
pub struct StreamState {
    pub buffer_size: i32,
    pub slots: Vec<AsioBufferInfo>,
    pub regions: Vec<Vec<u8>>,
    pub sample_position: i64,
    pub system_time: i64,
    pub switch_count: u64,
}

/// What one switch callback delivers: which half of every slot the
/// host now owns, and whether it may process synchronously inside the
/// callback.
#[derive(Debug, Clone, Copy, PartialEq, Eq, Hash, Structural)]
pub struct BufferSwitchEvent {
    pub double_buffer_index: i32,
    pub direct_process: AsioBool,
}

/// The reference driver: a binding that implements the whole operation
/// set of the protocol over explicit state.
#[derive(Debug)]
pub struct AsioDriver {
    pub config: DriverConfig,
    pub state: DriverState,
    pub control: ControlSettings,
    pub stream: StreamState,
}

impl AsioDriver {
    /// Whether buffers currently exist (created and not yet disposed).
    pub open spec fn has_buffers(self) -> bool {
        self.state == DriverState::BuffersCreated || self.state == DriverState::Running
    }

    /// Whether the binding has been initialized, so control-surface
    /// calls are legal.
    pub open spec fn ready(self) -> bool {
        self.state != DriverState::Activated
    }

    /// The well-formed states of a driver. While buffers exist, every
    /// slot names a real channel, the two region handles of slot `k`
    /// are `2k` and `2k + 1`, and every region is exactly one buffer
    /// long; without buffers the data plane is empty.
    pub open spec fn wf(self) -> bool {
        &&& self.config.wf()
        &&& (if self.config.has_clock() {
            0 <= self.control.clock_source < self.config.clock_sources.len()
        } else {
            self.control.clock_source == 0
        })
        &&& 0 <= self.stream.sample_position
        &&& (self.has_buffers() ==> {
            &&& 1 <= self.stream.buffer_size
            &&& buffer_size_permitted(
                self.config.min_buffer_size as int,
                self.config.max_buffer_size as int,
                self.config.buffer_granularity as int,
                self.stream.buffer_size as int,
            )
            &&& 1 <= self.stream.slots.len() <= 0x7fff_ffff
            &&& self.stream.regions.len() == 2 * self.stream.slots.len()
            &&& forall|k: int|
                0 <= k < self.stream.slots.len() ==> {
                    &&& self.config.valid_channel(
                        #[trigger] self.stream.slots@[k].is_input.spec_bool(),
                        self.stream.slots@[k].channel_num,
                    )
                    &&& self.stream.slots@[k].buffers[0] == 2 * k
                    &&& self.stream.slots@[k].buffers[1] == 2 * k + 1
                }
            &&& forall|j: int|
                0 <= j < self.stream.regions.len() ==> #[trigger] self.stream.regions@[j].len()
                    == self.stream.buffer_size
        })
        &&& (!self.has_buffers() ==> {
            &&& self.stream.slots.len() == 0
            &&& self.stream.regions.len() == 0
        })
    }

    /// A fresh binding to a configured driver, not yet initialized.
    pub fn new(config: DriverConfig) -> (r: AsioDriver)
        requires
            config.wf(),
        ensures
            r.wf(),
            r.config == config,
            r.state == DriverState::Activated,
            r.control.sample_rate == config.initial_sample_rate,
            r.control.clock_source == 0,
            r.control.time_code_read == false,
            r.control.io_format == AsioIoFormatType::PCM,
            r.stream.slots.len() == 0,
            r.stream.regions.len() == 0,
            r.stream.sample_position == 0,
            r.stream.system_time == 0,
            r.stream.switch_count == 0,
    {
        let initial_rate: AsioSampleRate = config.initial_sample_rate;
        AsioDriver {
            config,
            state: DriverState::Activated,
            control: ControlSettings {
                sample_rate: initial_rate,
                clock_source: 0,
                time_code_read: false,
                io_format: AsioIoFormatType::PCM,
            },
            stream: StreamState {
                buffer_size: 0,
                slots: Vec::new(),
                regions: Vec::new(),
                sample_position: 0,
                system_time: 0,
                switch_count: 0,
            },
        }
    }

    /// Binds the driver to the host. The one boolean-only result of
    /// the protocol: true means the driver accepted the host context,
    /// false that it declined — here, that it was not freshly
    /// activated.
    pub fn init(&mut self) -> (r: AsioBool)
        requires
            old(self).wf(),
        ensures
            final(self).wf(),
            old(self).state == DriverState::Activated ==> {
                &&& r == AsioBool::True
                &&& final(self).state == DriverState::Initialized
                &&& final(self).config == old(self).config
                &&& final(self).control == old(self).control
                &&& final(self).stream == old(self).stream
            },
            old(self).state != DriverState::Activated ==> {
                &&& r == AsioBool::False
                &&& *final(self) == *old(self)
            },
    {
        if self.state == DriverState::Activated {
            self.state = DriverState::Initialized;
            AsioBool::True
        } else {
            AsioBool::False
        }
    }

    /// Reports the driver's display name into the fixed 32-byte field,
    /// truncated to fit with its terminator.
    pub fn get_driver_name(&self, name: &mut AsioName)
        requires
            old(name).wf(),
        ensures
            final(name).wf(),
            final(name).inner@ == copied_c_text(
                crate::text::DRIVER_NAME_CAPACITY as nat,
                self.config.name@,
            ),
    {
        name.set_text(&self.config.name);
    }

    /// Reports the driver's version number.
    pub fn get_driver_version(&self) -> (r: i32)
        ensures
            r == self.config.version,
    {
        self.config.version
    }

    /// Reports the driver's last error text into the fixed 124-byte
    /// field, truncated to fit with its terminator.
    pub fn get_error_message(&self, msg: &mut AsioErrorMsg)
        requires
            old(msg).wf(),
        ensures
            final(msg).wf(),
            final(msg).inner@ == copied_c_text(
                crate::text::ERROR_MESSAGE_CAPACITY as nat,
                self.config.error_message@,
            ),
    {
        msg.set_text(&self.config.error_message);
    }

    /// Reports how many input and output channels the driver has.
    pub fn get_channels(&self, num_input_channels: &mut i32, num_output_channels: &mut i32) -> (r:
        AsioError)
        requires
            self.wf(),
        ensures
            self.ready() ==> {
                &&& r == AsioError::OK
                &&& *final(num_input_channels) == self.config.num_inputs
                &&& *final(num_output_channels) == self.config.num_outputs
            },
            !self.ready() ==> {
                &&& r == AsioError::InvalidMode
                &&& *final(num_input_channels) == *old(num_input_channels)
                &&& *final(num_output_channels) == *old(num_output_channels)
            },
    {
        if self.state == DriverState::Activated {
            return AsioError::InvalidMode;
        }
        *num_input_channels = self.config.num_inputs;
        *num_output_channels = self.config.num_outputs;
        AsioError::OK
    }

    /// Reports the stream latencies of both directions, in samples.
    pub fn get_latencies(&self, input_latency: &mut i32, output_latency: &mut i32) -> (r:
        AsioError)
        requires
            self.wf(),
        ensures
            self.ready() ==> {
                &&& r == AsioError::OK
                &&& *final(input_latency) == self.config.input_latency
                &&& *final(output_latency) == self.config.output_latency
            },
            !self.ready() ==> {
                &&& r == AsioError::InvalidMode
                &&& *final(input_latency) == *old(input_latency)
                &&& *final(output_latency) == *old(output_latency)
            },
    {
        if self.state == DriverState::Activated {
            return AsioError::InvalidMode;
        }
        *input_latency = self.config.input_latency;
        *output_latency = self.config.output_latency;
        AsioError::OK
    }

    /// Reports the buffer-size negotiation quadruple. The preferred
    /// value is itself permitted by the reported triple, so requesting
    /// it always succeeds.
    pub fn get_buffer_size(
        &self,
        min_size: &mut i32,
        max_size: &mut i32,
        preferred_size: &mut i32,
        granularity: &mut i32,
    ) -> (r: AsioError)
        requires
            self.wf(),
        ensures
            self.ready() ==> {
                &&& r == AsioError::OK
                &&& *final(min_size) == self.config.min_buffer_size
                &&& *final(max_size) == self.config.max_buffer_size
                &&& *final(preferred_size) == self.config.preferred_buffer_size
                &&& *final(granularity) == self.config.buffer_granularity
            },
            !self.ready() ==> {
                &&& r == AsioError::InvalidMode
                &&& *final(min_size) == *old(min_size)
                &&& *final(max_size) == *old(max_size)
                &&& *final(preferred_size) == *old(preferred_size)
                &&& *final(granularity) == *old(granularity)
            },
    {
        if self.state == DriverState::Activated {
            return AsioError::InvalidMode;
        }
        *min_size = self.config.min_buffer_size;
        *max_size = self.config.max_buffer_size;
        *preferred_size = self.config.preferred_buffer_size;
        *granularity = self.config.buffer_granularity;
        AsioError::OK
    }

    /// Whether the given rate is in the supported set, decided by
    /// searching it.
    fn rate_supported(&self, rate: AsioSampleRate) -> (r: bool)
        ensures
            r == self.config.supports_rate(rate),
    {
        let n: usize = self.config.supported_sample_rates.len();
        let mut i: usize = 0;
        while i < n
            invariant
                i <= n,
                n == self.config.supported_sample_rates.len(),
                forall|j: int|
                    0 <= j < i ==> self.config.supported_sample_rates@[j] != rate,
            decreases n - i,
        {
            if *self.config.supported_sample_rates.get(i).unwrap() == rate {
                assert(self.config.supported_sample_rates@[i as int] == rate);
                return true;
            }
            i = i + 1;
        }
        false
    }

    /// Asks whether a rate could be selected. Success is owed exactly
    /// for the supported rates; an unsupported rate is an invalid
    /// parameter, and a driver without any clock source answers
    /// `NoClock` — two distinct outcomes the host must not merge.
    pub fn can_sample_rate(&self, sample_rate: AsioSampleRate) -> (r: AsioError)
        requires
            self.wf(),
        ensures
            !self.ready() ==> r == AsioError::InvalidMode,
            self.ready() && !self.config.has_clock() ==> r == AsioError::NoClock,
            self.ready() && self.config.has_clock() && !self.config.supports_rate(sample_rate)
                ==> r == AsioError::InvalidParameter,
            self.ready() && self.config.has_clock() && self.config.supports_rate(sample_rate)
                ==> r == AsioError::OK,
    {
        if self.state == DriverState::Activated {
            AsioError::InvalidMode
        } else if self.config.clock_sources.len() == 0 {
            AsioError::NoClock
        } else if !self.rate_supported(sample_rate) {
            AsioError::InvalidParameter
        } else {
            AsioError::OK
        }
    }

    /// Reports the currently selected rate.
    pub fn get_sample_rate(&self, sample_rate: &mut AsioSampleRate) -> (r: AsioError)
        requires
            self.wf(),
        ensures
            !self.ready() ==> r == AsioError::InvalidMode && *final(sample_rate)
                == *old(sample_rate),
            self.ready() && !self.config.has_clock() ==> r == AsioError::NoClock
                && *final(sample_rate) == *old(sample_rate),
            self.ready() && self.config.has_clock() ==> {
                &&& r == AsioError::OK
                &&& *final(sample_rate) == self.control.sample_rate
            },
    {
        if self.state == DriverState::Activated {
            return AsioError::InvalidMode;
        }
        if self.config.clock_sources.len() == 0 {
            return AsioError::NoClock;
        }
        *sample_rate = self.control.sample_rate;
        AsioError::OK
    }

    /// The state after a successful rate selection: only the selected
    /// rate differs.
    pub open spec fn with_sample_rate(self, rate: AsioSampleRate) -> AsioDriver {
        AsioDriver {
            control: ControlSettings { sample_rate: rate, ..self.control },
            ..self
        }
    }

    /// Selects a rate. Exactly the rates that `can_sample_rate`
    /// accepts are selected; on success the selected rate is the one
    /// asked for, and nothing else changes.
    pub fn set_sample_rate(&mut self, sample_rate: AsioSampleRate) -> (r: AsioError)
        requires
            old(self).wf(),
        ensures
            final(self).wf(),
            !old(self).ready() ==> r == AsioError::InvalidMode && *final(self) == *old(self),
            old(self).ready() && !old(self).config.has_clock() ==> r == AsioError::NoClock
                && *final(self) == *old(self),
            old(self).ready() && old(self).config.has_clock() && !old(self).config.supports_rate(
                sample_rate,
            ) ==> r == AsioError::InvalidParameter && *final(self) == *old(self),
            old(self).ready() && old(self).config.has_clock() && old(self).config.supports_rate(
                sample_rate,
            ) ==> {
                &&& r == AsioError::OK
                &&& *final(self) == old(self).with_sample_rate(sample_rate)
            },
    {
        if self.state == DriverState::Activated {
            return AsioError::InvalidMode;
        }
        if self.config.clock_sources.len() == 0 {
            return AsioError::NoClock;
        }
        if !self.rate_supported(sample_rate) {
            return AsioError::InvalidParameter;
        }
        self.control.sample_rate = sample_rate;
        AsioError::OK
    }

    /// Reports the selectable clock sources into the bounded query
    /// set: the reported count never exceeds the capacity of sixteen,
    /// entry `i` describes configured source `i` and flags whether it
    /// is the current selection, and the entries past the reported
    /// count keep whatever the buffer held.
    pub fn get_clock_sources(&self, clock_sources: &mut AsioClockSources) -> (r: AsioError)
        requires
            self.wf(),
            old(clock_sources).wf(),
        ensures
            final(clock_sources).wf(),
            !self.ready() ==> r == AsioError::InvalidMode && final(clock_sources).length
                == old(clock_sources).length && final(clock_sources).array@
                == old(clock_sources).array@,
            self.ready() ==> {
                &&& r == AsioError::OK
                &&& final(clock_sources).length == self.config.clock_sources.len()
                &&& final(clock_sources).length <= CLOCK_SOURCE_CAPACITY
                &&& forall|i: int|
                    0 <= i < self.config.clock_sources.len() ==> {
                        &&& (#[trigger] final(clock_sources).array@[i]).index == i
                        &&& final(clock_sources).array@[i].associated_channel
                            == self.config.clock_sources@[i].associated_channel
                        &&& final(clock_sources).array@[i].associated_group
                            == self.config.clock_sources@[i].associated_group
                        &&& final(clock_sources).array@[i].is_current_source.spec_bool() == (i
                            == self.control.clock_source)
                        &&& final(clock_sources).array@[i].name.inner@ == copied_c_text(
                            crate::text::DRIVER_NAME_CAPACITY as nat,
                            self.config.clock_sources@[i].name@,
                        )
                    }
                &&& forall|j: int|
                    self.config.clock_sources.len() <= j < CLOCK_SOURCE_CAPACITY ==> #[trigger]
                    final(clock_sources).array@[j] == old(clock_sources).array@[j]
            },
    {
        if self.state == DriverState::Activated {
            return AsioError::InvalidMode;
        }
        let n: usize = self.config.clock_sources.len();
        let mut i: usize = 0;
        while i < n
            invariant
                i <= n,
                n == self.config.clock_sources.len(),
                n <= CLOCK_SOURCE_CAPACITY,
                clock_sources.array.len() == CLOCK_SOURCE_CAPACITY,
                clock_sources.length == old(clock_sources).length,
                forall|k: int|
                    0 <= k < i ==> {
                        &&& (#[trigger] clock_sources.array@[k]).index == k
                        &&& clock_sources.array@[k].associated_channel
                            == self.config.clock_sources@[k].associated_channel
                        &&& clock_sources.array@[k].associated_group
                            == self.config.clock_sources@[k].associated_group
                        &&& clock_sources.array@[k].is_current_source.spec_bool() == (k
                            == self.control.clock_source)
                        &&& clock_sources.array@[k].name.inner@ == copied_c_text(
                            crate::text::DRIVER_NAME_CAPACITY as nat,
                            self.config.clock_sources@[k].name@,
                        )
                    },
                forall|j: int|
                    i <= j < CLOCK_SOURCE_CAPACITY ==> #[trigger] clock_sources.array@[j]
                        == old(clock_sources).array@[j],
            decreases n - i,
        {
            let source: &ClockSourceConfig = self.config.clock_sources.get(i).unwrap();
            let mut entry: AsioClockSource = AsioClockSource::new();
            entry.index = i as i32;
            entry.associated_channel = source.associated_channel;
            entry.associated_group = source.associated_group;
            entry.is_current_source = AsioBool::from_bool(i as i32 == self.control.clock_source);
            entry.name.set_text(&source.name);
            clock_sources.array[i] = entry;
            i = i + 1;
        }
        clock_sources.length = n as i32;
        AsioError::OK
    }

    /// Selects a clock source by its reported index; an index outside
    /// the reported set is an invalid parameter.
    pub fn set_clock_source(&mut self, reference: i32) -> (r: AsioError)
        requires
            old(self).wf(),
        ensures
            final(self).wf(),
            !old(self).ready() ==> r == AsioError::InvalidMode && *final(self) == *old(self),
            old(self).ready() && !(0 <= reference < old(self).config.clock_sources.len()) ==> r
                == AsioError::InvalidParameter && *final(self) == *old(self),
            old(self).ready() && 0 <= reference < old(self).config.clock_sources.len() ==> {
                &&& r == AsioError::OK
                &&& final(self).control.clock_source == reference
                &&& final(self).control.sample_rate == old(self).control.sample_rate
                &&& final(self).control.time_code_read == old(self).control.time_code_read
                &&& final(self).control.io_format == old(self).control.io_format
                &&& final(self).config == old(self).config
                &&& final(self).state == old(self).state
                &&& final(self).stream == old(self).stream
            },
    {
        if self.state == DriverState::Activated {
            return AsioError::InvalidMode;
        }
        if reference < 0 || reference as usize >= self.config.clock_sources.len() {
            return AsioError::InvalidParameter;
        }
        self.control.clock_source = reference;
        AsioError::OK
    }

    /// Reports the stream's sample position and the system timestamp
    /// correlated with it. While the stream runs the position is owed
    /// with `OK`; with buffers created but the stream stopped the
    /// position stands still and the driver answers `SpNotAdvancing`;
    /// without buffers there is no position to report.
    pub fn get_sample_position(&self, sample_position: &mut i64, timestamp: &mut i64) -> (r:
        AsioError)
        requires
            self.wf(),
        ensures
            !self.has_buffers() ==> r == AsioError::InvalidMode && *final(sample_position)
                == *old(sample_position) && *final(timestamp) == *old(timestamp),
            self.has_buffers() ==> {
                &&& (self.state == DriverState::Running ==> r == AsioError::OK)
                &&& (self.state == DriverState::BuffersCreated ==> r == AsioError::SpNotAdvancing)
                &&& *final(sample_position) == self.stream.sample_position
                &&& *final(timestamp) == self.stream.system_time
            },
    {
        match self.state {
            DriverState::Running => {
                *sample_position = self.stream.sample_position;
                *timestamp = self.stream.system_time;
                AsioError::OK
            },
            DriverState::BuffersCreated => {
                *sample_position = self.stream.sample_position;
                *timestamp = self.stream.system_time;
                AsioError::SpNotAdvancing
            },
            _ => AsioError::InvalidMode,
        }
    }

    /// Whether a channel of the given direction belongs to the created
    /// buffer set.
    pub open spec fn channel_active(self, is_input: bool, channel: i32) -> bool {
        exists|k: int|
            #![trigger self.stream.slots@[k]]
            {
                &&& 0 <= k < self.stream.slots.len()
                &&& self.stream.slots@[k].is_input.spec_bool() == is_input
                &&& self.stream.slots@[k].channel_num == channel
            }
    }

    /// Decides whether a channel belongs to the created buffer set, by
    /// searching the slots.
    fn channel_is_active(&self, is_input: bool, channel: i32) -> (r: bool)
        ensures
            r == self.channel_active(is_input, channel),
    {
        let n: usize = self.stream.slots.len();
        let mut k: usize = 0;
        while k < n
            invariant
                k <= n,
                n == self.stream.slots.len(),
                forall|j: int|
                    #![trigger self.stream.slots@[j]]
                    0 <= j < k ==> !(self.stream.slots@[j].is_input.spec_bool() == is_input
                        && self.stream.slots@[j].channel_num == channel),
            decreases n - k,
        {
            let slot: &AsioBufferInfo = self.stream.slots.get(k).unwrap();
            if slot.is_input.to_bool() == is_input && slot.channel_num == channel {
                assert(self.stream.slots@[k as int].is_input.spec_bool() == is_input);
                return true;
            }
            k = k + 1;
        }
        false
    }

    /// Answers a channel-info query. The `channel` and `is_input`
    /// fields of the record name the channel asked about and come back
    /// unchanged; the driver fills the rest: whether the channel is in
    /// the created buffer set, its group, its sample encoding, and a
    /// display name of the form "Input 3" or "Output 0".
    pub fn get_channel_info(&self, channel_info: &mut AsioChannelInfo) -> (r: AsioError)
        requires
            self.wf(),
            old(channel_info).name.wf(),
        ensures
            final(channel_info).name.wf(),
            !self.ready() ==> r == AsioError::InvalidMode && *final(channel_info) == *old(channel_info),
            self.ready() && !self.config.valid_channel(
                old(channel_info).is_input.spec_bool(),
                old(channel_info).channel,
            ) ==> r == AsioError::InvalidParameter && *final(channel_info) == *old(channel_info),
            self.ready() && self.config.valid_channel(
                old(channel_info).is_input.spec_bool(),
                old(channel_info).channel,
            ) ==> {
                &&& r == AsioError::OK
                &&& final(channel_info).channel == old(channel_info).channel
                &&& final(channel_info).is_input == old(channel_info).is_input
                &&& final(channel_info).is_active.spec_bool() == self.channel_active(
                    old(channel_info).is_input.spec_bool(),
                    old(channel_info).channel,
                )
                &&& final(channel_info).channel_group == 0
                &&& final(channel_info).sample_type == self.config.sample_type
                &&& final(channel_info).name.inner@ == copied_c_text(
                    crate::text::DRIVER_NAME_CAPACITY as nat,
                    spec_channel_label(
                        old(channel_info).is_input.spec_bool(),
                        old(channel_info).channel as nat,
                    ),
                )
            },
    {
        if self.state == DriverState::Activated {
            return AsioError::InvalidMode;
        }
        let is_input: bool = channel_info.is_input.to_bool();
        let valid: bool = if is_input {
            channel_info.channel >= 0 && channel_info.channel < self.config.num_inputs
        } else {
            channel_info.channel >= 0 && channel_info.channel < self.config.num_outputs
        };
        if !valid {
            return AsioError::InvalidParameter;
        }
        channel_info.is_active = AsioBool::from_bool(
            self.channel_is_active(is_input, channel_info.channel),
        );
        channel_info.channel_group = 0;
        channel_info.sample_type = self.config.sample_type;
        let label: Vec<u8> = channel_label(is_input, channel_info.channel as u32);
        channel_info.name.set_text(&label);
        AsioError::OK
    }

    /// Starts the stream. Legal exactly when buffers exist and the
    /// stream is stopped; the position and the switch count restart
    /// from zero, so the first switch delivers half index zero.
    pub fn start(&mut self) -> (r: AsioError)
        requires
            old(self).wf(),
        ensures
            final(self).wf(),
            old(self).state != DriverState::BuffersCreated ==> r == AsioError::InvalidMode
                && *final(self) == *old(self),
            old(self).state == DriverState::BuffersCreated ==> {
                &&& r == AsioError::OK
                &&& final(self).state == DriverState::Running
                &&& final(self).config == old(self).config
                &&& final(self).control == old(self).control
                &&& final(self).stream.buffer_size == old(self).stream.buffer_size
                &&& final(self).stream.slots == old(self).stream.slots
                &&& final(self).stream.regions == old(self).stream.regions
                &&& final(self).stream.sample_position == 0
                &&& final(self).stream.system_time == 0
                &&& final(self).stream.switch_count == 0
            },
    {
        if self.state != DriverState::BuffersCreated {
            return AsioError::InvalidMode;
        }
        self.stream.sample_position = 0;
        self.stream.system_time = 0;
        self.stream.switch_count = 0;
        self.state = DriverState::Running;
        AsioError::OK
    }

    /// Stops the stream: no further switches are delivered. The
    /// buffers and the final position stay.
    pub fn stop(&mut self) -> (r: AsioError)
        requires
            old(self).wf(),
        ensures
            final(self).wf(),
            old(self).state != DriverState::Running ==> r == AsioError::InvalidMode && *final(self)
                == *old(self),
            old(self).state == DriverState::Running ==> {
                &&& r == AsioError::OK
                &&& final(self).state == DriverState::BuffersCreated
                &&& final(self).config == old(self).config
                &&& final(self).control == old(self).control
                &&& final(self).stream == old(self).stream
            },
    {
        if self.state != DriverState::Running {
            return AsioError::InvalidMode;
        }
        self.state = DriverState::BuffersCreated;
        AsioError::OK
    }
}

/// Whether two slot requests name the same channel of the same
/// direction somewhere in the list: the buffer set must hold exactly
/// one slot per requested channel.
pub open spec fn has_duplicate_slot(s: Seq<AsioBufferInfo>) -> bool {
    exists|k1: int, k2: int|
        #![trigger s[k1], s[k2]]
        {
            &&& 0 <= k1 < k2 < s.len()
            &&& s[k1].is_input == s[k2].is_input
            &&& s[k1].channel_num == s[k2].channel_num
        }
}

/// Whether every slot request names a real channel.
pub open spec fn all_slots_valid(config: DriverConfig, s: Seq<AsioBufferInfo>) -> bool {
    forall|k: int|
        #![trigger s[k]]
        0 <= k < s.len() ==> config.valid_channel(s[k].is_input.spec_bool(), s[k].channel_num)
}

/// The ways a buffer-creation request can be malformed: an empty list,
/// a count past the wire's 32-bit field, a size the negotiation triple
/// does not permit, a slot naming no real channel, or two slots naming
/// the same channel.
pub open spec fn create_request_rejected(
    config: DriverConfig,
    s: Seq<AsioBufferInfo>,
    buffer_size: int,
) -> bool {
    ||| s.len() == 0
    ||| s.len() > 0x7fff_ffff
    ||| !buffer_size_permitted(
        config.min_buffer_size as int,
        config.max_buffer_size as int,
        config.buffer_granularity as int,
        buffer_size,
    )
    ||| !all_slots_valid(config, s)
    ||| has_duplicate_slot(s)
}

/// The bytes a buffer set occupies: two regions of `buffer_size` bytes
/// for each slot.
pub open spec fn bytes_needed(count: int, buffer_size: int) -> int {
    2 * count * buffer_size
}

/// What disposing buffers leaves behind: the same configuration and
/// settings, the binding back in `Initialized`, and an empty data
/// plane — every region handle handed out before is dead.
pub open spec fn disposed_from(pre: AsioDriver, post: AsioDriver) -> bool {
    &&& post.config == pre.config
    &&& post.control == pre.control
    &&& post.state == DriverState::Initialized
    &&& post.stream.slots.len() == 0
    &&& post.stream.regions.len() == 0
    &&& post.stream.buffer_size == 0
    &&& post.stream.sample_position == 0
    &&& post.stream.system_time == 0
    &&& post.stream.switch_count == 0
}

/// A fresh, silent sample region.
fn zero_bytes(len: usize) -> (r: Vec<u8>)
    ensures
        r@.len() == len,
        forall|o: int| 0 <= o < len ==> r@[o] == 0u8,
{
    let mut region: Vec<u8> = Vec::new();
    let mut i: usize = 0;
    while i < len
        invariant
            region@.len() == i,
            i <= len,
            forall|o: int| 0 <= o < i ==> region@[o] == 0u8,
        decreases len - i,
    {
        region.push(0);
        i = i + 1;
    }
    region
}

impl AsioDriver {
    /// Creates the buffer set: one slot per requested channel, each
    /// slot granted two region handles (`2k` and `2k + 1` for slot
    /// `k`), every region `buffer_size` silent bytes. Legal only from
    /// `Initialized`; a malformed request is an invalid parameter, not
    /// a fault; a request past the driver's memory budget is refused
    /// with `NoMemory`; and on any refusal nothing changes.
    #[verifier::loop_isolation(false)]
    pub fn create_buffers(&mut self, buffer_infos: &mut Vec<AsioBufferInfo>, buffer_size: i32) -> (
        r: AsioError)
        requires
            old(self).wf(),
        ensures
            final(self).wf(),
            old(self).state != DriverState::Initialized ==> r == AsioError::InvalidMode && *final(self) == *old(self) && final(buffer_infos)@ == old(buffer_infos)@,
            old(self).state == DriverState::Initialized && create_request_rejected(
                old(self).config,
                old(buffer_infos)@,
                buffer_size as int,
            ) ==> r == AsioError::InvalidParameter && *final(self) == *old(self) && final(buffer_infos)@ == old(buffer_infos)@,
            old(self).state == DriverState::Initialized && !create_request_rejected(
                old(self).config,
                old(buffer_infos)@,
                buffer_size as int,
            ) && bytes_needed(old(buffer_infos)@.len() as int, buffer_size as int) > old(self).config.memory_limit ==> r == AsioError::NoMemory && *final(self) == *old(self)
                && final(buffer_infos)@ == old(buffer_infos)@,
            old(self).state == DriverState::Initialized && !create_request_rejected(
                old(self).config,
                old(buffer_infos)@,
                buffer_size as int,
            ) && bytes_needed(old(buffer_infos)@.len() as int, buffer_size as int) <= old(self).config.memory_limit ==> {
                &&& r == AsioError::OK
                &&& final(self).state == DriverState::BuffersCreated
                &&& final(self).config == old(self).config
                &&& final(self).control == old(self).control
                &&& final(self).stream.buffer_size == buffer_size
                &&& final(self).stream.sample_position == 0
                &&& final(self).stream.system_time == 0
                &&& final(self).stream.switch_count == 0
                &&& final(buffer_infos)@.len() == old(buffer_infos)@.len()
                &&& forall|k: int|
                    0 <= k < old(buffer_infos)@.len() ==> {
                        &&& (#[trigger] final(buffer_infos)@[k]).is_input == old(buffer_infos)@[k].is_input
                        &&& final(buffer_infos)@[k].channel_num == old(buffer_infos)@[k].channel_num
                        &&& final(buffer_infos)@[k].buffers[0] == 2 * k
                        &&& final(buffer_infos)@[k].buffers[1] == 2 * k + 1
                    }
                &&& final(self).stream.slots@ == final(buffer_infos)@
                &&& final(self).stream.regions@.len() == 2 * old(buffer_infos)@.len()
                &&& forall|j: int|
                    0 <= j < final(self).stream.regions@.len() ==> #[trigger] final(self).stream.regions@[j].len() == buffer_size
                &&& forall|j: int, o: int|
                    0 <= j < final(self).stream.regions@.len() && 0 <= o < buffer_size
                        ==> #[trigger] final(self).stream.regions@[j]@[o] == 0u8
            },
    {
        if self.state != DriverState::Initialized {
            return AsioError::InvalidMode;
        }
        let n: usize = buffer_infos.len();
        if n == 0 {
            return AsioError::InvalidParameter;
        }
        if n > 0x7fff_ffff {
            return AsioError::InvalidParameter;
        }
        if !buffer_size_allowed(
            self.config.min_buffer_size,
            self.config.max_buffer_size,
            self.config.buffer_granularity,
            buffer_size,
        ) {
            return AsioError::InvalidParameter;
        }
        let mut k: usize = 0;
        while k < n
            invariant
                k <= n,
                n == buffer_infos.len(),
                forall|j: int|
                    #![trigger buffer_infos@[j]]
                    0 <= j < k ==> self.config.valid_channel(
                        buffer_infos@[j].is_input.spec_bool(),
                        buffer_infos@[j].channel_num,
                    ),
            decreases n - k,
        {
            let slot: &AsioBufferInfo = buffer_infos.get(k).unwrap();
            let valid: bool = if slot.is_input.to_bool() {
                slot.channel_num >= 0 && slot.channel_num < self.config.num_inputs
            } else {
                slot.channel_num >= 0 && slot.channel_num < self.config.num_outputs
            };
            if !valid {
                assert(!self.config.valid_channel(
                    buffer_infos@[k as int].is_input.spec_bool(),
                    buffer_infos@[k as int].channel_num,
                ));
                return AsioError::InvalidParameter;
            }
            k = k + 1;
        }
        let mut k1: usize = 0;
        while k1 < n
            invariant
                k1 <= n,
                n == buffer_infos.len(),
                forall|a: int, b: int|
                    #![trigger buffer_infos@[a], buffer_infos@[b]]
                    0 <= a < k1 && a < b < n ==> !(buffer_infos@[a].is_input
                        == buffer_infos@[b].is_input && buffer_infos@[a].channel_num
                        == buffer_infos@[b].channel_num),
            decreases n - k1,
        {
            let first: AsioBufferInfo = *buffer_infos.get(k1).unwrap();
            let mut k2: usize = k1 + 1;
            while k2 < n
                invariant
                    k1 < k2 <= n,
                    n == buffer_infos.len(),
                    first == buffer_infos@[k1 as int],
                    forall|b: int|
                        #![trigger buffer_infos@[b]]
                        k1 < b < k2 ==> !(buffer_infos@[k1 as int].is_input
                            == buffer_infos@[b].is_input && buffer_infos@[k1 as int].channel_num
                            == buffer_infos@[b].channel_num),
                decreases n - k2,
            {
                let second: &AsioBufferInfo = buffer_infos.get(k2).unwrap();
                if first.is_input == second.is_input && first.channel_num == second.channel_num {
                    assert(buffer_infos@[k1 as int].is_input == buffer_infos@[k2 as int].is_input);
                    assert(has_duplicate_slot(buffer_infos@));
                    return AsioError::InvalidParameter;
                }
                k2 = k2 + 1;
            }
            k1 = k1 + 1;
        }
        proof {
            assert(2 * (n as int) * (buffer_size as int) <= 2 * 0x7fff_ffff * 0x7fff_ffff)
                by (nonlinear_arith)
                requires
                    0 <= n <= 0x7fff_ffff,
                    0 <= buffer_size <= 0x7fff_ffff,
            ;
        }
        let needed: u64 = 2 * (n as u64) * (buffer_size as u64);
        if needed > self.config.memory_limit {
            return AsioError::NoMemory;
        }
        let ghost orig: Seq<AsioBufferInfo> = buffer_infos@;
        let size_of_region: usize = buffer_size as usize;
        let mut regions: Vec<Vec<u8>> = Vec::new();
        let mut slots: Vec<AsioBufferInfo> = Vec::new();
        let mut k: usize = 0;
        while k < n
            invariant
                k <= n,
                n == buffer_infos.len(),
                buffer_infos@.len() == orig.len(),
                1 <= buffer_size,
                size_of_region == buffer_size,
                regions@.len() == 2 * k,
                slots@.len() == k,
                forall|j: int|
                    0 <= j < 2 * k ==> #[trigger] regions@[j].len() == buffer_size,
                forall|j: int, o: int|
                    0 <= j < 2 * k && 0 <= o < buffer_size ==> #[trigger] regions@[j]@[o] == 0u8,
                forall|i: int|
                    0 <= i < k ==> {
                        &&& (#[trigger] buffer_infos@[i]).is_input == orig[i].is_input
                        &&& buffer_infos@[i].channel_num == orig[i].channel_num
                        &&& buffer_infos@[i].buffers[0] == 2 * i
                        &&& buffer_infos@[i].buffers[1] == 2 * i + 1
                    },
                forall|i: int| k <= i < n ==> #[trigger] buffer_infos@[i] == orig[i],
                forall|i: int| 0 <= i < k ==> #[trigger] slots@[i] == buffer_infos@[i],
            decreases n - k,
        {
            let mut updated: AsioBufferInfo = *buffer_infos.get(k).unwrap();
            updated.buffers = [(k as u64) * 2, (k as u64) * 2 + 1];
            buffer_infos[k] = updated;
            slots.push(updated);
            regions.push(zero_bytes(size_of_region));
            regions.push(zero_bytes(size_of_region));
            k = k + 1;
        }
        self.stream.buffer_size = buffer_size;
        self.stream.slots = slots;
        self.stream.regions = regions;
        self.stream.sample_position = 0;
        self.stream.system_time = 0;
        self.stream.switch_count = 0;
        self.state = DriverState::BuffersCreated;
        assert(final(self).stream.slots@ =~= final(buffer_infos)@);
        AsioError::OK
    }

    /// Releases the buffer set. Legal whenever buffers exist — if the
    /// stream still runs, disposing stops it. Afterwards every region
    /// handle handed out at creation is invalid, and a second disposal
    /// without a creation in between is rejected with `InvalidMode`,
    /// never undefined.
    pub fn dispose_buffers(&mut self) -> (r: AsioError)
        requires
            old(self).wf(),
        ensures
            final(self).wf(),
            !old(self).has_buffers() ==> r == AsioError::InvalidMode && *final(self) == *old(self),
            old(self).has_buffers() ==> r == AsioError::OK && disposed_from(
                *old(self),
                *final(self),
            ),
    {
        if self.state != DriverState::BuffersCreated && self.state != DriverState::Running {
            return AsioError::InvalidMode;
        }
        self.stream.buffer_size = 0;
        self.stream.slots = Vec::new();
        self.stream.regions = Vec::new();
        self.stream.sample_position = 0;
        self.stream.system_time = 0;
        self.stream.switch_count = 0;
        self.state = DriverState::Initialized;
        AsioError::OK
    }

    /// Whether a region handle currently refers to a live region:
    /// handles die with disposal.
    pub open spec fn region_valid(self, region: u64) -> bool {
        self.has_buffers() && region < self.stream.regions.len()
    }

    /// The half the switch protocol last granted the host, meaningful
    /// once at least one switch has been delivered.
    pub open spec fn host_half(self) -> int {
        (self.stream.switch_count - 1) % 2
    }

    /// Whether the host may touch a region right now: the handle must
    /// be live, and while the stream runs only the half the last
    /// switch granted — the other half belongs to the driver's
    /// concurrent transfer. With the stream stopped both halves are
    /// the host's. Before the first switch of a run the host owns
    /// neither half yet.
    pub open spec fn host_may_touch(self, region: u64) -> bool {
        &&& self.region_valid(region)
        &&& (self.state == DriverState::BuffersCreated || (self.stream.switch_count > 0 && region
            as int % 2 == self.host_half()))
    }

    /// Delivers one switch callback: the half index the host now owns,
    /// strictly alternating 0, 1, 0, 1 from the start of the run, with
    /// the sample position advancing by one buffer — never backwards.
    /// The driver issues this only while the stream runs.
    pub fn buffer_switch(&mut self) -> (ev: BufferSwitchEvent)
        requires
            old(self).wf(),
            old(self).state == DriverState::Running,
            old(self).stream.switch_count < u64::MAX,
            old(self).stream.sample_position + old(self).stream.buffer_size <= i64::MAX,
            old(self).stream.system_time < i64::MAX,
        ensures
            final(self).wf(),
            ev.double_buffer_index as int == old(self).stream.switch_count as int % 2,
            ev.double_buffer_index == 0 || ev.double_buffer_index == 1,
            ev.direct_process == AsioBool::True,
            final(self).state == DriverState::Running,
            final(self).config == old(self).config,
            final(self).control == old(self).control,
            final(self).stream.buffer_size == old(self).stream.buffer_size,
            final(self).stream.slots == old(self).stream.slots,
            final(self).stream.regions == old(self).stream.regions,
            final(self).stream.switch_count == old(self).stream.switch_count + 1,
            final(self).stream.sample_position == old(self).stream.sample_position + old(self).stream.buffer_size,
            old(self).stream.sample_position <= final(self).stream.sample_position,
            final(self).stream.system_time == old(self).stream.system_time + 1,
            final(self).host_half() == ev.double_buffer_index as int,
    {
        let ev_index: i32 = if self.stream.switch_count % 2 == 0 {
            0
        } else {
            1
        };
        self.stream.sample_position = self.stream.sample_position + self.stream.buffer_size as i64;
        self.stream.system_time = self.stream.system_time + 1;
        self.stream.switch_count = self.stream.switch_count + 1;
        BufferSwitchEvent { double_buffer_index: ev_index, direct_process: AsioBool::True }
    }

    /// Delivers one switch callback together with its timing context.
    /// Chosen instead of the plain variant only when the host declared
    /// time-info support through the extension probe. The record
    /// carries nominal speed, the post-switch timestamp, the position
    /// and rate of this buffer, and the validity flags; the time-code
    /// sub-record is filled only while time-code reading is enabled on
    /// a driver that supports it.
    pub fn buffer_switch_time_info(&mut self) -> (r: (BufferSwitchEvent, AsioTime))
        requires
            old(self).wf(),
            old(self).config.caps.time_info,
            old(self).state == DriverState::Running,
            old(self).stream.switch_count < u64::MAX,
            old(self).stream.sample_position + old(self).stream.buffer_size <= i64::MAX,
            old(self).stream.system_time < i64::MAX,
        ensures
            final(self).wf(),
            r.0.double_buffer_index as int == old(self).stream.switch_count as int % 2,
            r.0.double_buffer_index == 0 || r.0.double_buffer_index == 1,
            r.0.direct_process == AsioBool::True,
            final(self).state == DriverState::Running,
            final(self).config == old(self).config,
            final(self).control == old(self).control,
            final(self).stream.buffer_size == old(self).stream.buffer_size,
            final(self).stream.slots == old(self).stream.slots,
            final(self).stream.regions == old(self).stream.regions,
            final(self).stream.switch_count == old(self).stream.switch_count + 1,
            final(self).stream.sample_position == old(self).stream.sample_position + old(self).stream.buffer_size,
            final(self).stream.system_time == old(self).stream.system_time + 1,
            r.1.time_info.speed.bits == DOUBLE_ONE_BITS,
            r.1.time_info.system_time == final(self).stream.system_time,
            r.1.time_info.sample_position == old(self).stream.sample_position,
            r.1.time_info.sample_rate == old(self).control.sample_rate,
            r.1.time_info.flags == (TIME_INFO_SYSTEM_TIME_VALID | TIME_INFO_SAMPLE_POSITION_VALID
                | TIME_INFO_SAMPLE_RATE_VALID | TIME_INFO_SPEED_VALID),
            old(self).control.time_code_read && old(self).config.caps.time_code ==> {
                &&& r.1.time_code.speed.bits == DOUBLE_ONE_BITS
                &&& r.1.time_code.time_code_samples == old(self).stream.sample_position
                &&& r.1.time_code.flags.bits == (TIME_CODE_VALID | TIME_CODE_RUNNING
                    | TIME_CODE_SPEED_VALID)
            },
            !(old(self).control.time_code_read && old(self).config.caps.time_code) ==> {
                &&& r.1.time_code.speed.bits == 0
                &&& r.1.time_code.time_code_samples == 0
                &&& r.1.time_code.flags.bits == 0
            },
    {
        let position: i64 = self.stream.sample_position;
        let rate: AsioSampleRate = self.control.sample_rate;
        let time_code_on: bool = self.control.time_code_read && self.config.caps.time_code;
        let ev: BufferSwitchEvent = self.buffer_switch();
        let time_code: AsioTimeCode = if time_code_on {
            AsioTimeCode {
                speed: AsioDouble { bits: DOUBLE_ONE_BITS },
                time_code_samples: position,
                flags: AsioTimeCodeFlags {
                    bits: TIME_CODE_VALID | TIME_CODE_RUNNING | TIME_CODE_SPEED_VALID,
                },
            }
        } else {
            AsioTimeCode {
                speed: AsioDouble { bits: 0 },
                time_code_samples: 0,
                flags: AsioTimeCodeFlags { bits: 0 },
            }
        };
        let time: AsioTime = AsioTime {
            time_info: AsioTimeInfo {
                speed: AsioDouble { bits: DOUBLE_ONE_BITS },
                system_time: self.stream.system_time,
                sample_position: position,
                sample_rate: rate,
                flags: TIME_INFO_SYSTEM_TIME_VALID | TIME_INFO_SAMPLE_POSITION_VALID
                    | TIME_INFO_SAMPLE_RATE_VALID | TIME_INFO_SPEED_VALID,
            },
            time_code,
        };
        (ev, time)
    }

    /// Reads one byte of a region the host currently owns: the handle
    /// must be live and, while the stream runs, belong to the half the
    /// last switch granted — the read/write grant of the switch
    /// protocol is half-at-a-time in both directions.
    pub fn read_buffer_byte(&self, region: u64, offset: usize) -> (r: u8)
        requires
            self.wf(),
            self.host_may_touch(region),
            offset < self.stream.buffer_size,
        ensures
            r == self.stream.regions@[region as int]@[offset as int],
    {
        let total: usize = self.stream.regions.len();
        proof {
            assert(region < total);
            assert(self.stream.regions@[region as int].len() == self.stream.buffer_size);
        }
        let idx: usize = region as usize;
        *self.stream.regions.get(idx).unwrap().get(offset).unwrap()
    }

    /// Writes one byte of a region the host currently owns: the handle
    /// must be live and, while the stream runs, belong to the half the
    /// last switch granted. Exactly that byte changes.
    pub fn write_buffer_byte(&mut self, region: u64, offset: usize, value: u8)
        requires
            old(self).wf(),
            old(self).host_may_touch(region),
            offset < old(self).stream.buffer_size,
        ensures
            final(self).wf(),
            final(self).config == old(self).config,
            final(self).control == old(self).control,
            final(self).state == old(self).state,
            final(self).stream.buffer_size == old(self).stream.buffer_size,
            final(self).stream.slots == old(self).stream.slots,
            final(self).stream.sample_position == old(self).stream.sample_position,
            final(self).stream.system_time == old(self).stream.system_time,
            final(self).stream.switch_count == old(self).stream.switch_count,
            final(self).stream.regions@.len() == old(self).stream.regions@.len(),
            final(self).stream.regions@[region as int]@ == old(self).stream.regions@[region as int]@.update(offset as int, value),
            forall|j: int|
                0 <= j < old(self).stream.regions@.len() && j != region ==> final(self).stream.regions@[j] == old(self).stream.regions@[j],
    {
        let total: usize = self.stream.regions.len();
        proof {
            assert(region < total);
            assert(self.stream.regions@[region as int].len() == self.stream.buffer_size);
        }
        let idx: usize = region as usize;
        self.stream.regions[idx][offset] = value;
        proof {
            assert(self.stream.regions@[region as int].len() == old(self).stream.buffer_size);
            assert(forall|j: int|
                0 <= j < self.stream.regions@.len() ==> #[trigger] self.stream.regions@[j].len()
                    == self.stream.buffer_size);
        }
    }

    /// The state after the time-code toggle: only that switch differs.
    pub open spec fn with_time_code_read(self, on: bool) -> AsioDriver {
        AsioDriver {
            control: ControlSettings { time_code_read: on, ..self.control },
            ..self
        }
    }

    /// The state after a format switch: only the selected format
    /// differs.
    pub open spec fn with_io_format(self, format_type: AsioIoFormatType) -> AsioDriver {
        AsioDriver {
            control: ControlSettings { io_format: format_type, ..self.control },
            ..self
        }
    }

    /// Begins delivering the time-code sub-record with each time-info
    /// switch. Owed `Success` exactly on drivers with the time-code
    /// capability; absent the capability the probe answers
    /// `NotPresent`.
    pub fn enable_time_code_read(&mut self) -> (r: AsioError)
        requires
            old(self).wf(),
        ensures
            final(self).wf(),
            old(self).config.caps.time_code ==> r == AsioError::Success && *final(self) == old(self).with_time_code_read(true),
            !old(self).config.caps.time_code ==> r == AsioError::NotPresent && *final(self)
                == *old(self),
    {
        if !self.config.caps.time_code {
            return AsioError::NotPresent;
        }
        self.control.time_code_read = true;
        AsioError::Success
    }

    /// Stops delivering the time-code sub-record.
    pub fn disable_time_code_read(&mut self) -> (r: AsioError)
        requires
            old(self).wf(),
        ensures
            final(self).wf(),
            old(self).config.caps.time_code ==> r == AsioError::Success && *final(self) == old(self).with_time_code_read(false),
            !old(self).config.caps.time_code ==> r == AsioError::NotPresent && *final(self)
                == *old(self),
    {
        if !self.config.caps.time_code {
            return AsioError::NotPresent;
        }
        self.control.time_code_read = false;
        AsioError::Success
    }

    /// Routes an input to an output for direct monitoring. Needs the
    /// input-monitor capability; both named channels must be real.
    pub fn set_input_monitor(&self, input_monitor: &AsioInputMonitor) -> (r: AsioError)
        requires
            self.wf(),
        ensures
            !self.config.caps.input_monitor ==> r == AsioError::NotPresent,
            self.config.caps.input_monitor && !(self.config.valid_channel(
                true,
                input_monitor.input,
            ) && self.config.valid_channel(false, input_monitor.output)) ==> r
                == AsioError::InvalidParameter,
            self.config.caps.input_monitor && self.config.valid_channel(true, input_monitor.input)
                && self.config.valid_channel(false, input_monitor.output) ==> r
                == AsioError::Success,
    {
        if !self.config.caps.input_monitor {
            return AsioError::NotPresent;
        }
        let input_ok: bool = input_monitor.input >= 0 && input_monitor.input
            < self.config.num_inputs;
        let output_ok: bool = input_monitor.output >= 0 && input_monitor.output
            < self.config.num_outputs;
        if !(input_ok && output_ok) {
            return AsioError::InvalidParameter;
        }
        AsioError::Success
    }

    /// Forwards a transport command. Needs the transport capability;
    /// the command itself is acknowledged, not interpreted further by
    /// the reference driver.
    pub fn transport(&self, transport_params: &AsioTransportParameters) -> (r: AsioError)
        requires
            self.wf(),
        ensures
            self.config.caps.transport ==> r == AsioError::Success,
            !self.config.caps.transport ==> r == AsioError::NotPresent,
    {
        let _ = transport_params.track;
        if self.config.caps.transport {
            AsioError::Success
        } else {
            AsioError::NotPresent
        }
    }

    /// Applies a gain to an input channel. Needs the input-gain
    /// capability; the record must name a real input channel.
    pub fn set_input_gain(&self, channel_controls: &AsioChannelControls) -> (r: AsioError)
        requires
            self.wf(),
        ensures
            !self.config.caps.input_gain ==> r == AsioError::NotPresent,
            self.config.caps.input_gain && !(channel_controls.is_input.spec_bool()
                && self.config.valid_channel(true, channel_controls.channel)) ==> r
                == AsioError::InvalidParameter,
            self.config.caps.input_gain && channel_controls.is_input.spec_bool()
                && self.config.valid_channel(true, channel_controls.channel) ==> r
                == AsioError::Success,
    {
        if !self.config.caps.input_gain {
            return AsioError::NotPresent;
        }
        if !(channel_controls.is_input.to_bool() && channel_controls.channel >= 0
            && channel_controls.channel < self.config.num_inputs) {
            return AsioError::InvalidParameter;
        }
        AsioError::Success
    }

    /// Fills the meter of an input channel. Needs the input-meter
    /// capability; the reference driver's channels idle at zero.
    pub fn get_input_meter(&self, channel_controls: &mut AsioChannelControls) -> (r: AsioError)
        requires
            self.wf(),
        ensures
            !self.config.caps.input_meter ==> r == AsioError::NotPresent && *final(channel_controls) == *old(channel_controls),
            self.config.caps.input_meter && !(old(channel_controls).is_input.spec_bool()
                && self.config.valid_channel(true, old(channel_controls).channel)) ==> r
                == AsioError::InvalidParameter && *final(channel_controls) == *old(channel_controls),
            self.config.caps.input_meter && old(channel_controls).is_input.spec_bool()
                && self.config.valid_channel(true, old(channel_controls).channel) ==> {
                &&& r == AsioError::Success
                &&& final(channel_controls).meter == 0
                &&& final(channel_controls).channel == old(channel_controls).channel
                &&& final(channel_controls).is_input == old(channel_controls).is_input
                &&& final(channel_controls).gain == old(channel_controls).gain
            },
    {
        if !self.config.caps.input_meter {
            return AsioError::NotPresent;
        }
        if !(channel_controls.is_input.to_bool() && channel_controls.channel >= 0
            && channel_controls.channel < self.config.num_inputs) {
            return AsioError::InvalidParameter;
        }
        channel_controls.meter = 0;
        AsioError::Success
    }

    /// Applies a gain to an output channel. Needs the output-gain
    /// capability; the record must name a real output channel.
    pub fn set_output_gain(&self, channel_controls: &AsioChannelControls) -> (r: AsioError)
        requires
            self.wf(),
        ensures
            !self.config.caps.output_gain ==> r == AsioError::NotPresent,
            self.config.caps.output_gain && !(!channel_controls.is_input.spec_bool()
                && self.config.valid_channel(false, channel_controls.channel)) ==> r
                == AsioError::InvalidParameter,
            self.config.caps.output_gain && !channel_controls.is_input.spec_bool()
                && self.config.valid_channel(false, channel_controls.channel) ==> r
                == AsioError::Success,
    {
        if !self.config.caps.output_gain {
            return AsioError::NotPresent;
        }
        if !(!channel_controls.is_input.to_bool() && channel_controls.channel >= 0
            && channel_controls.channel < self.config.num_outputs) {
            return AsioError::InvalidParameter;
        }
        AsioError::Success
    }

    /// Fills the meter of an output channel. Needs the output-meter
    /// capability; the reference driver's channels idle at zero.
    pub fn get_output_meter(&self, channel_controls: &mut AsioChannelControls) -> (r: AsioError)
        requires
            self.wf(),
        ensures
            !self.config.caps.output_meter ==> r == AsioError::NotPresent && *final(channel_controls) == *old(channel_controls),
            self.config.caps.output_meter && !(!old(channel_controls).is_input.spec_bool()
                && self.config.valid_channel(false, old(channel_controls).channel)) ==> r
                == AsioError::InvalidParameter && *final(channel_controls) == *old(channel_controls),
            self.config.caps.output_meter && !old(channel_controls).is_input.spec_bool()
                && self.config.valid_channel(false, old(channel_controls).channel) ==> {
                &&& r == AsioError::Success
                &&& final(channel_controls).meter == 0
                &&& final(channel_controls).channel == old(channel_controls).channel
                &&& final(channel_controls).is_input == old(channel_controls).is_input
                &&& final(channel_controls).gain == old(channel_controls).gain
            },
    {
        if !self.config.caps.output_meter {
            return AsioError::NotPresent;
        }
        if !(!channel_controls.is_input.to_bool() && channel_controls.channel >= 0
            && channel_controls.channel < self.config.num_outputs) {
            return AsioError::InvalidParameter;
        }
        channel_controls.meter = 0;
        AsioError::Success
    }

    /// Probes the input-monitor capability.
    pub fn can_input_monitor(&self) -> (r: AsioError)
        ensures
            r == (if self.config.caps.input_monitor {
                AsioError::Success
            } else {
                AsioError::NotPresent
            }),
    {
        if self.config.caps.input_monitor {
            AsioError::Success
        } else {
            AsioError::NotPresent
        }
    }

    /// Probes the time-info capability: whether switches may carry the
    /// timing record.
    pub fn can_time_info(&self) -> (r: AsioError)
        ensures
            r == (if self.config.caps.time_info {
                AsioError::Success
            } else {
                AsioError::NotPresent
            }),
    {
        if self.config.caps.time_info {
            AsioError::Success
        } else {
            AsioError::NotPresent
        }
    }

    /// Probes the time-code capability.
    pub fn can_time_code(&self) -> (r: AsioError)
        ensures
            r == (if self.config.caps.time_code {
                AsioError::Success
            } else {
                AsioError::NotPresent
            }),
    {
        if self.config.caps.time_code {
            AsioError::Success
        } else {
            AsioError::NotPresent
        }
    }

    /// Probes the transport capability.
    pub fn can_transport(&self) -> (r: AsioError)
        ensures
            r == (if self.config.caps.transport {
                AsioError::Success
            } else {
                AsioError::NotPresent
            }),
    {
        if self.config.caps.transport {
            AsioError::Success
        } else {
            AsioError::NotPresent
        }
    }

    /// Probes the input-gain capability.
    pub fn can_input_gain(&self) -> (r: AsioError)
        ensures
            r == (if self.config.caps.input_gain {
                AsioError::Success
            } else {
                AsioError::NotPresent
            }),
    {
        if self.config.caps.input_gain {
            AsioError::Success
        } else {
            AsioError::NotPresent
        }
    }

    /// Probes the input-meter capability.
    pub fn can_input_meter(&self) -> (r: AsioError)
        ensures
            r == (if self.config.caps.input_meter {
                AsioError::Success
            } else {
                AsioError::NotPresent
            }),
    {
        if self.config.caps.input_meter {
            AsioError::Success
        } else {
            AsioError::NotPresent
        }
    }

    /// Probes the output-gain capability.
    pub fn can_output_gain(&self) -> (r: AsioError)
        ensures
            r == (if self.config.caps.output_gain {
                AsioError::Success
            } else {
                AsioError::NotPresent
            }),
    {
        if self.config.caps.output_gain {
            AsioError::Success
        } else {
            AsioError::NotPresent
        }
    }

    /// Probes the output-meter capability.
    pub fn can_output_meter(&self) -> (r: AsioError)
        ensures
            r == (if self.config.caps.output_meter {
                AsioError::Success
            } else {
                AsioError::NotPresent
            }),
    {
        if self.config.caps.output_meter {
            AsioError::Success
        } else {
            AsioError::NotPresent
        }
    }

    /// Probes the overload-reporting capability.
    pub fn can_report_overload(&self) -> (r: AsioError)
        ensures
            r == (if self.config.caps.report_overload {
                AsioError::Success
            } else {
                AsioError::NotPresent
            }),
    {
        if self.config.caps.report_overload {
            AsioError::Success
        } else {
            AsioError::NotPresent
        }
    }

    /// The selector with no documented meaning: treated as an opaque
    /// capability probe whose answer is always "unsupported", with no
    /// behaviour inferred.
    pub fn optional_one(&self) -> (r: AsioError)
        ensures
            r == AsioError::NotPresent,
    {
        AsioError::NotPresent
    }

    /// Switches the stream format family. Needs the format capability;
    /// the invalid family is an invalid parameter.
    pub fn set_io_format(&mut self, io_format: &AsioIoFormat) -> (r: AsioError)
        requires
            old(self).wf(),
        ensures
            final(self).wf(),
            !old(self).config.caps.io_format ==> r == AsioError::NotPresent && *final(self)
                == *old(self),
            old(self).config.caps.io_format && io_format.format_type
                == AsioIoFormatType::FormatInvalid ==> r == AsioError::InvalidParameter && *final(self) == *old(self),
            old(self).config.caps.io_format && io_format.format_type
                != AsioIoFormatType::FormatInvalid ==> r == AsioError::Success && *final(self)
                == old(self).with_io_format(io_format.format_type),
    {
        if !self.config.caps.io_format {
            return AsioError::NotPresent;
        }
        if io_format.format_type == AsioIoFormatType::FormatInvalid {
            return AsioError::InvalidParameter;
        }
        self.control.io_format = io_format.format_type;
        AsioError::Success
    }

    /// Reports the current stream format family.
    pub fn get_io_format(&self, io_format: &mut AsioIoFormat) -> (r: AsioError)
        requires
            self.wf(),
        ensures
            !self.config.caps.io_format ==> r == AsioError::NotPresent && *final(io_format)
                == *old(io_format),
            self.config.caps.io_format ==> {
                &&& r == AsioError::Success
                &&& final(io_format).format_type == self.control.io_format
            },
    {
        if !self.config.caps.io_format {
            return AsioError::NotPresent;
        }
        io_format.format_type = self.control.io_format;
        AsioError::Success
    }

    /// Asks whether a format family could be selected: with the format
    /// capability, both real families can, and only the invalid family
    /// cannot.
    pub fn can_do_io_format(&self, io_format: &AsioIoFormat) -> (r: AsioError)
        requires
            self.wf(),
        ensures
            !self.config.caps.io_format ==> r == AsioError::NotPresent,
            self.config.caps.io_format && io_format.format_type == AsioIoFormatType::FormatInvalid
                ==> r == AsioError::InvalidParameter,
            self.config.caps.io_format && io_format.format_type != AsioIoFormatType::FormatInvalid
                ==> r == AsioError::Success,
    {
        if !self.config.caps.io_format {
            return AsioError::NotPresent;
        }
        if io_format.format_type == AsioIoFormatType::FormatInvalid {
            return AsioError::InvalidParameter;
        }
        AsioError::Success
    }

    /// Reports the driver's internal buffering, in samples per
    /// direction; the reference driver's internal buffering is its
    /// reported latency.
    pub fn get_internal_buffer_samples(&self, internal_buffer_info: &mut AsioInternalBufferInfo)
        -> (r: AsioError)
        requires
            self.wf(),
        ensures
            !self.config.caps.internal_buffer_samples ==> r == AsioError::NotPresent && *final(internal_buffer_info) == *old(internal_buffer_info),
            self.config.caps.internal_buffer_samples ==> {
                &&& r == AsioError::Success
                &&& final(internal_buffer_info).input_samples == self.config.input_latency
                &&& final(internal_buffer_info).output_samples == self.config.output_latency
            },
    {
        if !self.config.caps.internal_buffer_samples {
            return AsioError::NotPresent;
        }
        internal_buffer_info.input_samples = self.config.input_latency;
        internal_buffer_info.output_samples = self.config.output_latency;
        AsioError::Success
    }

    /// Tells the driver the host finished its output early; supported
    /// only where the capability is present.
    pub fn output_ready(&self) -> (r: AsioError)
        ensures
            r == (if self.config.caps.output_ready {
                AsioError::OK
            } else {
                AsioError::NotPresent
            }),
    {
        if self.config.caps.output_ready {
            AsioError::OK
        } else {
            AsioError::NotPresent
        }
    }

    /// Opens the driver's own settings panel; the reference driver has
    /// none and simply acknowledges.
    pub fn control_panel(&self) -> (r: AsioError)
        ensures
            r == AsioError::OK,
    {
        AsioError::OK
    }

    /// The generic extension entry point for selectors that carry no
    /// parameter record. A selector outside the known set answers
    /// `NotPresent` — never a rejection or worse — and a known
    /// selector whose operation needs a parameter record answers
    /// `InvalidParameter`, since its typed entry point is the way in.
    pub fn future(&mut self, selector: i32) -> (r: AsioError)
        requires
            old(self).wf(),
        ensures
            final(self).wf(),
            AsioFutureSelector::spec_from_code(selector as int) is None ==> r
                == AsioError::NotPresent && *final(self) == *old(self),
            AsioFutureSelector::spec_from_code(selector as int) matches Some(sel) ==> {
                &&& sel == AsioFutureSelector::EnableTimeCodeRead ==> {
                    &&& old(self).config.caps.time_code ==> r == AsioError::Success && *final(self)
                        == old(self).with_time_code_read(true)
                    &&& !old(self).config.caps.time_code ==> r == AsioError::NotPresent && *final(self) == *old(self)
                }
                &&& sel == AsioFutureSelector::DisableTimeCodeRead ==> {
                    &&& old(self).config.caps.time_code ==> r == AsioError::Success && *final(self)
                        == old(self).with_time_code_read(false)
                    &&& !old(self).config.caps.time_code ==> r == AsioError::NotPresent && *final(self) == *old(self)
                }
                &&& sel == AsioFutureSelector::CanInputMonitor ==> r == (if old(self).config.caps.input_monitor {
                    AsioError::Success
                } else {
                    AsioError::NotPresent
                }) && *final(self) == *old(self)
                &&& sel == AsioFutureSelector::CanTimeInfo ==> r == (if old(self).config.caps.time_info {
                    AsioError::Success
                } else {
                    AsioError::NotPresent
                }) && *final(self) == *old(self)
                &&& sel == AsioFutureSelector::CanTimeCode ==> r == (if old(self).config.caps.time_code {
                    AsioError::Success
                } else {
                    AsioError::NotPresent
                }) && *final(self) == *old(self)
                &&& sel == AsioFutureSelector::CanTransport ==> r == (if old(self).config.caps.transport {
                    AsioError::Success
                } else {
                    AsioError::NotPresent
                }) && *final(self) == *old(self)
                &&& sel == AsioFutureSelector::CanInputGain ==> r == (if old(self).config.caps.input_gain {
                    AsioError::Success
                } else {
                    AsioError::NotPresent
                }) && *final(self) == *old(self)
                &&& sel == AsioFutureSelector::CanInputMeter ==> r == (if old(self).config.caps.input_meter {
                    AsioError::Success
                } else {
                    AsioError::NotPresent
                }) && *final(self) == *old(self)
                &&& sel == AsioFutureSelector::CanOutputGain ==> r == (if old(self).config.caps.output_gain {
                    AsioError::Success
                } else {
                    AsioError::NotPresent
                }) && *final(self) == *old(self)
                &&& sel == AsioFutureSelector::CanOutputMeter ==> r == (if old(self).config.caps.output_meter {
                    AsioError::Success
                } else {
                    AsioError::NotPresent
                }) && *final(self) == *old(self)
                &&& sel == AsioFutureSelector::CanReportOverload ==> r == (if old(self).config.caps.report_overload {
                    AsioError::Success
                } else {
                    AsioError::NotPresent
                }) && *final(self) == *old(self)
                &&& sel == AsioFutureSelector::OptionalOne ==> r == AsioError::NotPresent && *final(self) == *old(self)
                &&& (sel == AsioFutureSelector::SetInputMonitor || sel
                    == AsioFutureSelector::Transport || sel == AsioFutureSelector::SetInputGain
                    || sel == AsioFutureSelector::GetInputMeter || sel
                    == AsioFutureSelector::SetOutputGain || sel
                    == AsioFutureSelector::GetOutputMeter || sel == AsioFutureSelector::SetIoFormat
                    || sel == AsioFutureSelector::GetIoFormat || sel
                    == AsioFutureSelector::CanDoIoFormat || sel
                    == AsioFutureSelector::GetInternalBufferSamples) ==> r
                    == AsioError::InvalidParameter && *final(self) == *old(self)
            },
    {
        match AsioFutureSelector::from_code(selector) {
            Option::None => AsioError::NotPresent,
            Option::Some(sel) => match sel {
                AsioFutureSelector::EnableTimeCodeRead => self.enable_time_code_read(),
                AsioFutureSelector::DisableTimeCodeRead => self.disable_time_code_read(),
                AsioFutureSelector::CanInputMonitor => self.can_input_monitor(),
                AsioFutureSelector::CanTimeInfo => self.can_time_info(),
                AsioFutureSelector::CanTimeCode => self.can_time_code(),
                AsioFutureSelector::CanTransport => self.can_transport(),
                AsioFutureSelector::CanInputGain => self.can_input_gain(),
                AsioFutureSelector::CanInputMeter => self.can_input_meter(),
                AsioFutureSelector::CanOutputGain => self.can_output_gain(),
                AsioFutureSelector::CanOutputMeter => self.can_output_meter(),
                AsioFutureSelector::CanReportOverload => self.can_report_overload(),
                AsioFutureSelector::OptionalOne => self.optional_one(),
                _ => AsioError::InvalidParameter,
            },
        }
    }
}

/// The display name the reference driver gives a channel: a direction
/// word and the channel's decimal index.
pub open spec fn spec_channel_label(is_input: bool, channel: nat) -> Seq<u8> {
    (if is_input {
        seq![73u8, 110u8, 112u8, 117u8, 116u8, 32u8]
    } else {
        seq![79u8, 117u8, 116u8, 112u8, 117u8, 116u8, 32u8]
    }) + crate::text::dec_digits(channel)
}

/// Renders a channel's display name, "Input 3" or "Output 0".
pub fn channel_label(is_input: bool, channel: u32) -> (r: Vec<u8>)
    ensures
        r@ == spec_channel_label(is_input, channel as nat),
{
    let mut label: Vec<u8> = Vec::new();
    if is_input {
        label.push(73);
        label.push(110);
        label.push(112);
        label.push(117);
        label.push(116);
        label.push(32);
    } else {
        label.push(79);
        label.push(117);
        label.push(116);
        label.push(112);
        label.push(117);
        label.push(116);
        label.push(32);
    }
    let ghost prefix: Seq<u8> = label@;
    let digits: Vec<u8> = crate::text::u32_to_decimal(channel);
    let mut i: usize = 0;
    while i < digits.len()
        invariant
            i <= digits.len(),
            label@ == prefix + digits@.take(i as int),
        decreases digits.len() - i,
    {
        label.push(*digits.get(i).unwrap());
        proof {
            assert(label@ =~= prefix + digits@.take(i + 1));
        }
        i = i + 1;
    }
    proof {
        assert(digits@.take(digits@.len() as int) =~= digits@);
        assert(label@ =~= spec_channel_label(is_input, channel as nat));
    }
    label
}

/// Sample-rate round trip: a rate the driver reports as selectable
/// comes back unchanged from the rate query after a successful
/// selection. A successful `set_sample_rate(rate)` leaves exactly the
/// state below, whose current rate — what `get_sample_rate` reports —
/// is `rate`; and that state still answers rate queries with `OK`.
pub proof fn lemma_sample_rate_round_trip(d: AsioDriver, rate: AsioSampleRate)
    requires
        d.wf(),
        d.ready(),
        d.config.has_clock(),
        d.config.supports_rate(rate),
    ensures
        d.with_sample_rate(rate).control.sample_rate == rate,
        d.with_sample_rate(rate).wf(),
        d.with_sample_rate(rate).ready(),
        d.with_sample_rate(rate).config.has_clock(),
{
}

/// Buffer-half alternation: the half index delivered with the `n`-th
/// switch of a run is `n % 2` — the sequence 0, 1, 0, 1, … — so two
/// consecutive switches never grant the host the same half.
pub proof fn lemma_half_index_alternates(count: u64)
    requires
        count < u64::MAX,
    ensures
        count as int % 2 == 0 || count as int % 2 == 1,
        count as int % 2 != (count + 1) % 2,
{
}

/// Disposal invalidates the buffer set: after buffers are disposed no
/// region handle is live any more, and because the binding now stands
/// in `Initialized`, the disposal contract rejects a second disposal
/// with `InvalidMode` instead of touching anything.
pub proof fn lemma_dispose_invalidates(pre: AsioDriver, post: AsioDriver, region: u64)
    requires
        disposed_from(pre, post),
    ensures
        !post.region_valid(region),
        !post.has_buffers(),
        post.state == DriverState::Initialized,
{
}

/// The clock-source query is bounded: a well-formed result never
/// reports more than the sixteen-entry capacity, so a walk over the
/// reported count stays inside the array.
pub proof fn lemma_clock_sources_bounded(sources: AsioClockSources)
    requires
        sources.wf(),
    ensures
        sources.length <= CLOCK_SOURCE_CAPACITY,
{
}

} // verus!
