//! A verified model of a professional real-time audio driver protocol:
//! the marshaling types exchanged with a driver, the closed error and
//! capability taxonomy, fixed-capacity text buffers, buffer-size
//! negotiation rules, and a reference driver that implements the full
//! control-surface and buffer-exchange lifecycle with proved contracts.
//!
//! Platform activation of a concrete hardware driver (resolving a GUID
//! to a dispatch table) is an external facility and is not part of this
//! library; the demo program around the library shows the call sequence
//! a host performs against the protocol.

pub mod codes;
pub mod flags;
pub mod text;
pub mod marshal;
pub mod sizes;
pub mod driver;

pub use codes::AsioBool;
pub use codes::AsioError;
pub use codes::AsioFutureSelector;
pub use codes::AsioIoFormatType;
pub use codes::AsioMessageSelector;
pub use codes::AsioSampleType;
pub use codes::AsioTransportCommand;
pub use flags::AsioTimeCodeFlags;
pub use flags::AsioTimeInfoFlags;
pub use text::AsioErrorMsg;
pub use text::AsioName;
pub use marshal::AsioBufferInfo;
pub use marshal::AsioChannelControls;
pub use marshal::AsioChannelInfo;
pub use marshal::AsioClockSource;
pub use marshal::AsioClockSources;
pub use marshal::AsioDouble;
pub use marshal::AsioInputMonitor;
pub use marshal::AsioInternalBufferInfo;
pub use marshal::AsioIoFormat;
pub use marshal::AsioSampleRate;
pub use marshal::AsioSamples;
pub use marshal::AsioTime;
pub use marshal::AsioTimeCode;
pub use marshal::AsioTimeInfo;
pub use marshal::AsioTimestamp;
pub use marshal::AsioTransportParameters;
pub use driver::AsioDriver;
pub use driver::BufferSwitchEvent;
pub use driver::ClockSourceConfig;
pub use driver::ControlSettings;
pub use driver::DriverCaps;
pub use driver::DriverConfig;
pub use driver::DriverState;
pub use driver::StreamState;
