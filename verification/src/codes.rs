//! The closed result-code set of the protocol and the enumerations that
//! travel across the driver boundary as 32-bit codes.
//!
//! Every enumeration here is paired with its wire encoding: `to_code`
//! yields the 32-bit value a driver emits, and `from_code` recovers the
//! variant exactly when the value belongs to the closed set.

use vstd::prelude::*;

verus! {

/// The boolean type of the driver boundary: a 32-bit value where zero is
/// false and one is true.
#[derive(Debug, Clone, Copy, PartialEq, Eq, Hash, Structural)]
pub enum AsioBool {
    False,
    True,
}

impl AsioBool {
    /// The 32-bit wire value of this boolean.
    pub open spec fn spec_code(self) -> int {
        match self {
            AsioBool::False => 0,
            AsioBool::True => 1,
        }
    }

    /// The plain boolean this value stands for.
    pub open spec fn spec_bool(self) -> bool {
        self == AsioBool::True
    }

    pub fn to_bool(&self) -> (r: bool)
        ensures
            r == self.spec_bool(),
    {
        *self == AsioBool::True
    }

    pub fn from_bool(value: bool) -> (r: AsioBool)
        ensures
            r.spec_bool() == value,
    {
        if value {
            AsioBool::True
        } else {
            AsioBool::False
        }
    }

    pub fn to_code(self) -> (r: i32)
        ensures
            r as int == self.spec_code(),
    {
        match self {
            AsioBool::False => 0,
            AsioBool::True => 1,
        }
    }

    /// Decodes a wire value; any non-zero value counts as true, as the
    /// boundary convention has it.
    pub fn from_code(code: i32) -> (r: AsioBool)
        ensures
            r == (if code == 0 { AsioBool::False } else { AsioBool::True }),
    {
        if code == 0 {
            AsioBool::False
        } else {
            AsioBool::True
        }
    }
}

/// The closed set of operation outcomes. Two distinct wire values both
/// mean success (`Ok` and `Success`): drivers may emit either, and the
/// host must accept both.
#[derive(Debug, Clone, Copy, PartialEq, Eq, Hash, Structural)]
pub enum AsioError {
    OK,
    Success,
    NotPresent,
    HwMalfunction,
    InvalidParameter,
    InvalidMode,
    SpNotAdvancing,
    NoClock,
    NoMemory,
}

impl AsioError {
    /// The 32-bit wire value of each outcome.
    pub open spec fn spec_code(self) -> int {
        match self {
            AsioError::OK => 0,
            AsioError::Success => 0x3f4847a0,
            AsioError::NotPresent => -1000,
            AsioError::HwMalfunction => -999,
            AsioError::InvalidParameter => -998,
            AsioError::InvalidMode => -997,
            AsioError::SpNotAdvancing => -996,
            AsioError::NoClock => -995,
            AsioError::NoMemory => -994,
        }
    }

    /// The outcome a wire value stands for, if it belongs to the set.
    pub open spec fn spec_from_code(code: int) -> Option<AsioError> {
        if code == 0 {
            Some(AsioError::OK)
        } else if code == 0x3f4847a0 {
            Some(AsioError::Success)
        } else if code == -1000 {
            Some(AsioError::NotPresent)
        } else if code == -999 {
            Some(AsioError::HwMalfunction)
        } else if code == -998 {
            Some(AsioError::InvalidParameter)
        } else if code == -997 {
            Some(AsioError::InvalidMode)
        } else if code == -996 {
            Some(AsioError::SpNotAdvancing)
        } else if code == -995 {
            Some(AsioError::NoClock)
        } else if code == -994 {
            Some(AsioError::NoMemory)
        } else {
            None
        }
    }

    /// Both success values count as success; everything else is a fault.
    pub open spec fn spec_is_success(self) -> bool {
        self == AsioError::OK || self == AsioError::Success
    }

    pub fn is_success(&self) -> (r: bool)
        ensures
            r == self.spec_is_success(),
    {
        *self == AsioError::OK || *self == AsioError::Success
    }

    pub fn to_code(self) -> (r: i32)
        ensures
            r as int == self.spec_code(),
    {
        match self {
            AsioError::OK => 0,
            AsioError::Success => 0x3f4847a0,
            AsioError::NotPresent => -1000,
            AsioError::HwMalfunction => -999,
            AsioError::InvalidParameter => -998,
            AsioError::InvalidMode => -997,
            AsioError::SpNotAdvancing => -996,
            AsioError::NoClock => -995,
            AsioError::NoMemory => -994,
        }
    }

    pub fn from_code(code: i32) -> (r: Option<AsioError>)
        ensures
            r == AsioError::spec_from_code(code as int),
    {
        if code == 0 {
            Some(AsioError::OK)
        } else if code == 0x3f4847a0 {
            Some(AsioError::Success)
        } else if code == -1000 {
            Some(AsioError::NotPresent)
        } else if code == -999 {
            Some(AsioError::HwMalfunction)
        } else if code == -998 {
            Some(AsioError::InvalidParameter)
        } else if code == -997 {
            Some(AsioError::InvalidMode)
        } else if code == -996 {
            Some(AsioError::SpNotAdvancing)
        } else if code == -995 {
            Some(AsioError::NoClock)
        } else if code == -994 {
            Some(AsioError::NoMemory)
        } else {
            None
        }
    }
}

/// Encoding and decoding an outcome are inverse to each other: every
/// outcome survives a round trip over the wire unchanged.
pub proof fn lemma_error_code_round_trip(e: AsioError)
    ensures
        AsioError::spec_from_code(e.spec_code()) == Some(e),
{
}

/// The sample encodings a channel may use. The wire values leave gaps for
/// families of related formats, so the decoder is partial.
#[derive(Debug, Clone, Copy, PartialEq, Eq, Hash, Structural)]
pub enum AsioSampleType {
    AsioSTInt16MSB,
    AsioSTInt24MSB,
    AsioSTInt32MSB,
    AsioSTFloat32MSB,
    AsioSTFloat64MSB,
    AsioSTInt32MSB16,
    AsioSTInt32MSB18,
    AsioSTInt32MSB20,
    AsioSTInt32MSB24,
    AsioSTInt16LSB,
    AsioSTInt24LSB,
    AsioSTInt32LSB,
    AsioSTFloat32LSB,
    AsioSTFloat64LSB,
    AsioSTInt32LSB16,
    AsioSTInt32LSB18,
    AsioSTInt32LSB20,
    AsioSTInt32LSB24,
    AsioSTDSDInt8LSB1,
    AsioSTDSDInt8MSB1,
    AsioSTDSDInt8NER8,
}

impl AsioSampleType {
    /// The 32-bit wire value of each sample encoding.
    pub open spec fn spec_code(self) -> int {
        match self {
            AsioSampleType::AsioSTInt16MSB => 0,
            AsioSampleType::AsioSTInt24MSB => 1,
            AsioSampleType::AsioSTInt32MSB => 2,
            AsioSampleType::AsioSTFloat32MSB => 3,
            AsioSampleType::AsioSTFloat64MSB => 4,
            AsioSampleType::AsioSTInt32MSB16 => 8,
            AsioSampleType::AsioSTInt32MSB18 => 9,
            AsioSampleType::AsioSTInt32MSB20 => 10,
            AsioSampleType::AsioSTInt32MSB24 => 11,
            AsioSampleType::AsioSTInt16LSB => 16,
            AsioSampleType::AsioSTInt24LSB => 17,
            AsioSampleType::AsioSTInt32LSB => 18,
            AsioSampleType::AsioSTFloat32LSB => 19,
            AsioSampleType::AsioSTFloat64LSB => 20,
            AsioSampleType::AsioSTInt32LSB16 => 24,
            AsioSampleType::AsioSTInt32LSB18 => 25,
            AsioSampleType::AsioSTInt32LSB20 => 26,
            AsioSampleType::AsioSTInt32LSB24 => 27,
            AsioSampleType::AsioSTDSDInt8LSB1 => 32,
            AsioSampleType::AsioSTDSDInt8MSB1 => 33,
            AsioSampleType::AsioSTDSDInt8NER8 => 40,
        }
    }

    /// The sample encoding a wire value stands for, if any.
    pub open spec fn spec_from_code(code: int) -> Option<AsioSampleType> {
        if code == 0 {
            Some(AsioSampleType::AsioSTInt16MSB)
        } else if code == 1 {
            Some(AsioSampleType::AsioSTInt24MSB)
        } else if code == 2 {
            Some(AsioSampleType::AsioSTInt32MSB)
        } else if code == 3 {
            Some(AsioSampleType::AsioSTFloat32MSB)
        } else if code == 4 {
            Some(AsioSampleType::AsioSTFloat64MSB)
        } else if code == 8 {
            Some(AsioSampleType::AsioSTInt32MSB16)
        } else if code == 9 {
            Some(AsioSampleType::AsioSTInt32MSB18)
        } else if code == 10 {
            Some(AsioSampleType::AsioSTInt32MSB20)
        } else if code == 11 {
            Some(AsioSampleType::AsioSTInt32MSB24)
        } else if code == 16 {
            Some(AsioSampleType::AsioSTInt16LSB)
        } else if code == 17 {
            Some(AsioSampleType::AsioSTInt24LSB)
        } else if code == 18 {
            Some(AsioSampleType::AsioSTInt32LSB)
        } else if code == 19 {
            Some(AsioSampleType::AsioSTFloat32LSB)
        } else if code == 20 {
            Some(AsioSampleType::AsioSTFloat64LSB)
        } else if code == 24 {
            Some(AsioSampleType::AsioSTInt32LSB16)
        } else if code == 25 {
            Some(AsioSampleType::AsioSTInt32LSB18)
        } else if code == 26 {
            Some(AsioSampleType::AsioSTInt32LSB20)
        } else if code == 27 {
            Some(AsioSampleType::AsioSTInt32LSB24)
        } else if code == 32 {
            Some(AsioSampleType::AsioSTDSDInt8LSB1)
        } else if code == 33 {
            Some(AsioSampleType::AsioSTDSDInt8MSB1)
        } else if code == 40 {
            Some(AsioSampleType::AsioSTDSDInt8NER8)
        } else {
            None
        }
    }

    pub fn to_code(self) -> (r: i32)
        ensures
            r as int == self.spec_code(),
    {
        match self {
            AsioSampleType::AsioSTInt16MSB => 0,
            AsioSampleType::AsioSTInt24MSB => 1,
            AsioSampleType::AsioSTInt32MSB => 2,
            AsioSampleType::AsioSTFloat32MSB => 3,
            AsioSampleType::AsioSTFloat64MSB => 4,
            AsioSampleType::AsioSTInt32MSB16 => 8,
            AsioSampleType::AsioSTInt32MSB18 => 9,
            AsioSampleType::AsioSTInt32MSB20 => 10,
            AsioSampleType::AsioSTInt32MSB24 => 11,
            AsioSampleType::AsioSTInt16LSB => 16,
            AsioSampleType::AsioSTInt24LSB => 17,
            AsioSampleType::AsioSTInt32LSB => 18,
            AsioSampleType::AsioSTFloat32LSB => 19,
            AsioSampleType::AsioSTFloat64LSB => 20,
            AsioSampleType::AsioSTInt32LSB16 => 24,
            AsioSampleType::AsioSTInt32LSB18 => 25,
            AsioSampleType::AsioSTInt32LSB20 => 26,
            AsioSampleType::AsioSTInt32LSB24 => 27,
            AsioSampleType::AsioSTDSDInt8LSB1 => 32,
            AsioSampleType::AsioSTDSDInt8MSB1 => 33,
            AsioSampleType::AsioSTDSDInt8NER8 => 40,
        }
    }

    pub fn from_code(code: i32) -> (r: Option<AsioSampleType>)
        ensures
            r == AsioSampleType::spec_from_code(code as int),
    {
        match code {
            0 => Some(AsioSampleType::AsioSTInt16MSB),
            1 => Some(AsioSampleType::AsioSTInt24MSB),
            2 => Some(AsioSampleType::AsioSTInt32MSB),
            3 => Some(AsioSampleType::AsioSTFloat32MSB),
            4 => Some(AsioSampleType::AsioSTFloat64MSB),
            8 => Some(AsioSampleType::AsioSTInt32MSB16),
            9 => Some(AsioSampleType::AsioSTInt32MSB18),
            10 => Some(AsioSampleType::AsioSTInt32MSB20),
            11 => Some(AsioSampleType::AsioSTInt32MSB24),
            16 => Some(AsioSampleType::AsioSTInt16LSB),
            17 => Some(AsioSampleType::AsioSTInt24LSB),
            18 => Some(AsioSampleType::AsioSTInt32LSB),
            19 => Some(AsioSampleType::AsioSTFloat32LSB),
            20 => Some(AsioSampleType::AsioSTFloat64LSB),
            24 => Some(AsioSampleType::AsioSTInt32LSB16),
            25 => Some(AsioSampleType::AsioSTInt32LSB18),
            26 => Some(AsioSampleType::AsioSTInt32LSB20),
            27 => Some(AsioSampleType::AsioSTInt32LSB24),
            32 => Some(AsioSampleType::AsioSTDSDInt8LSB1),
            33 => Some(AsioSampleType::AsioSTDSDInt8MSB1),
            40 => Some(AsioSampleType::AsioSTDSDInt8NER8),
            _ => None,
        }
    }
}

/// Every sample encoding survives a round trip over the wire unchanged.
pub proof fn lemma_sample_type_code_round_trip(t: AsioSampleType)
    ensures
        AsioSampleType::spec_from_code(t.spec_code()) == Some(t),
{
}

/// Selectors of the driver-to-host message channel.
#[derive(Debug, Clone, Copy, PartialEq, Eq, Hash, Structural)]
pub enum AsioMessageSelector {
    SelectorSupported,
    EngineVersion,
    ResetRequest,
    BufferSizeChange,
    ResyncRequest,
    LatenciesatenciesChanged,
    SupportsTimeInfo,
    SupportsTimeCode,
    MMCCommand,
    SupportsInputMonitor,
    SupportsInputGain,
    SupportsInputMeter,
    SupportsOutputGain,
    SupportsOutputMeter,
    Overload,
}

impl AsioMessageSelector {
    /// The 32-bit wire value of each message selector.
    pub open spec fn spec_code(self) -> int {
        match self {
            AsioMessageSelector::SelectorSupported => 1,
            AsioMessageSelector::EngineVersion => 2,
            AsioMessageSelector::ResetRequest => 3,
            AsioMessageSelector::BufferSizeChange => 4,
            AsioMessageSelector::ResyncRequest => 5,
            AsioMessageSelector::LatenciesatenciesChanged => 6,
            AsioMessageSelector::SupportsTimeInfo => 7,
            AsioMessageSelector::SupportsTimeCode => 8,
            AsioMessageSelector::MMCCommand => 9,
            AsioMessageSelector::SupportsInputMonitor => 10,
            AsioMessageSelector::SupportsInputGain => 11,
            AsioMessageSelector::SupportsInputMeter => 12,
            AsioMessageSelector::SupportsOutputGain => 13,
            AsioMessageSelector::SupportsOutputMeter => 14,
            AsioMessageSelector::Overload => 15,
        }
    }

    /// The message selector a wire value stands for, if any.
    pub open spec fn spec_from_code(code: int) -> Option<AsioMessageSelector> {
        if code == 1 {
            Some(AsioMessageSelector::SelectorSupported)
        } else if code == 2 {
            Some(AsioMessageSelector::EngineVersion)
        } else if code == 3 {
            Some(AsioMessageSelector::ResetRequest)
        } else if code == 4 {
            Some(AsioMessageSelector::BufferSizeChange)
        } else if code == 5 {
            Some(AsioMessageSelector::ResyncRequest)
        } else if code == 6 {
            Some(AsioMessageSelector::LatenciesatenciesChanged)
        } else if code == 7 {
            Some(AsioMessageSelector::SupportsTimeInfo)
        } else if code == 8 {
            Some(AsioMessageSelector::SupportsTimeCode)
        } else if code == 9 {
            Some(AsioMessageSelector::MMCCommand)
        } else if code == 10 {
            Some(AsioMessageSelector::SupportsInputMonitor)
        } else if code == 11 {
            Some(AsioMessageSelector::SupportsInputGain)
        } else if code == 12 {
            Some(AsioMessageSelector::SupportsInputMeter)
        } else if code == 13 {
            Some(AsioMessageSelector::SupportsOutputGain)
        } else if code == 14 {
            Some(AsioMessageSelector::SupportsOutputMeter)
        } else if code == 15 {
            Some(AsioMessageSelector::Overload)
        } else {
            None
        }
    }

    pub fn to_code(self) -> (r: i32)
        ensures
            r as int == self.spec_code(),
    {
        match self {
            AsioMessageSelector::SelectorSupported => 1,
            AsioMessageSelector::EngineVersion => 2,
            AsioMessageSelector::ResetRequest => 3,
            AsioMessageSelector::BufferSizeChange => 4,
            AsioMessageSelector::ResyncRequest => 5,
            AsioMessageSelector::LatenciesatenciesChanged => 6,
            AsioMessageSelector::SupportsTimeInfo => 7,
            AsioMessageSelector::SupportsTimeCode => 8,
            AsioMessageSelector::MMCCommand => 9,
            AsioMessageSelector::SupportsInputMonitor => 10,
            AsioMessageSelector::SupportsInputGain => 11,
            AsioMessageSelector::SupportsInputMeter => 12,
            AsioMessageSelector::SupportsOutputGain => 13,
            AsioMessageSelector::SupportsOutputMeter => 14,
            AsioMessageSelector::Overload => 15,
        }
    }

    pub fn from_code(code: i32) -> (r: Option<AsioMessageSelector>)
        ensures
            r == AsioMessageSelector::spec_from_code(code as int),
    {
        match code {
            1 => Some(AsioMessageSelector::SelectorSupported),
            2 => Some(AsioMessageSelector::EngineVersion),
            3 => Some(AsioMessageSelector::ResetRequest),
            4 => Some(AsioMessageSelector::BufferSizeChange),
            5 => Some(AsioMessageSelector::ResyncRequest),
            6 => Some(AsioMessageSelector::LatenciesatenciesChanged),
            7 => Some(AsioMessageSelector::SupportsTimeInfo),
            8 => Some(AsioMessageSelector::SupportsTimeCode),
            9 => Some(AsioMessageSelector::MMCCommand),
            10 => Some(AsioMessageSelector::SupportsInputMonitor),
            11 => Some(AsioMessageSelector::SupportsInputGain),
            12 => Some(AsioMessageSelector::SupportsInputMeter),
            13 => Some(AsioMessageSelector::SupportsOutputGain),
            14 => Some(AsioMessageSelector::SupportsOutputMeter),
            15 => Some(AsioMessageSelector::Overload),
            _ => None,
        }
    }
}

/// The open, versioned selector space of the generic extension entry
/// point. High-value, date-stamped ranges are reserved for vendor
/// extensions; any value outside this set must be treated as a
/// capability probe that is simply unsupported.
#[derive(Debug, Clone, Copy, PartialEq, Eq, Hash, Structural)]
pub enum AsioFutureSelector {
    EnableTimeCodeRead,
    DisableTimeCodeRead,
    SetInputMonitor,
    Transport,
    SetInputGain,
    GetInputMeter,
    SetOutputGain,
    GetOutputMeter,
    CanInputMonitor,
    CanTimeInfo,
    CanTimeCode,
    CanTransport,
    CanInputGain,
    CanInputMeter,
    CanOutputGain,
    CanOutputMeter,
    OptionalOne,
    SetIoFormat,
    GetIoFormat,
    CanDoIoFormat,
    CanReportOverload,
    GetInternalBufferSamples,
}

impl AsioFutureSelector {
    /// The 32-bit wire value of each extension selector.
    pub open spec fn spec_code(self) -> int {
        match self {
            AsioFutureSelector::EnableTimeCodeRead => 1,
            AsioFutureSelector::DisableTimeCodeRead => 2,
            AsioFutureSelector::SetInputMonitor => 3,
            AsioFutureSelector::Transport => 4,
            AsioFutureSelector::SetInputGain => 5,
            AsioFutureSelector::GetInputMeter => 6,
            AsioFutureSelector::SetOutputGain => 7,
            AsioFutureSelector::GetOutputMeter => 8,
            AsioFutureSelector::CanInputMonitor => 9,
            AsioFutureSelector::CanTimeInfo => 10,
            AsioFutureSelector::CanTimeCode => 11,
            AsioFutureSelector::CanTransport => 12,
            AsioFutureSelector::CanInputGain => 13,
            AsioFutureSelector::CanInputMeter => 14,
            AsioFutureSelector::CanOutputGain => 15,
            AsioFutureSelector::CanOutputMeter => 16,
            AsioFutureSelector::OptionalOne => 17,
            AsioFutureSelector::SetIoFormat => 0x23111961,
            AsioFutureSelector::GetIoFormat => 0x23111983,
            AsioFutureSelector::CanDoIoFormat => 0x23112004,
            AsioFutureSelector::CanReportOverload => 0x24042012,
            AsioFutureSelector::GetInternalBufferSamples => 0x25042012,
        }
    }

    /// The extension selector a wire value stands for, if it belongs to
    /// the known set.
    pub open spec fn spec_from_code(code: int) -> Option<AsioFutureSelector> {
        if code == 1 {
            Some(AsioFutureSelector::EnableTimeCodeRead)
        } else if code == 2 {
            Some(AsioFutureSelector::DisableTimeCodeRead)
        } else if code == 3 {
            Some(AsioFutureSelector::SetInputMonitor)
        } else if code == 4 {
            Some(AsioFutureSelector::Transport)
        } else if code == 5 {
            Some(AsioFutureSelector::SetInputGain)
        } else if code == 6 {
            Some(AsioFutureSelector::GetInputMeter)
        } else if code == 7 {
            Some(AsioFutureSelector::SetOutputGain)
        } else if code == 8 {
            Some(AsioFutureSelector::GetOutputMeter)
        } else if code == 9 {
            Some(AsioFutureSelector::CanInputMonitor)
        } else if code == 10 {
            Some(AsioFutureSelector::CanTimeInfo)
        } else if code == 11 {
            Some(AsioFutureSelector::CanTimeCode)
        } else if code == 12 {
            Some(AsioFutureSelector::CanTransport)
        } else if code == 13 {
            Some(AsioFutureSelector::CanInputGain)
        } else if code == 14 {
            Some(AsioFutureSelector::CanInputMeter)
        } else if code == 15 {
            Some(AsioFutureSelector::CanOutputGain)
        } else if code == 16 {
            Some(AsioFutureSelector::CanOutputMeter)
        } else if code == 17 {
            Some(AsioFutureSelector::OptionalOne)
        } else if code == 0x23111961 {
            Some(AsioFutureSelector::SetIoFormat)
        } else if code == 0x23111983 {
            Some(AsioFutureSelector::GetIoFormat)
        } else if code == 0x23112004 {
            Some(AsioFutureSelector::CanDoIoFormat)
        } else if code == 0x24042012 {
            Some(AsioFutureSelector::CanReportOverload)
        } else if code == 0x25042012 {
            Some(AsioFutureSelector::GetInternalBufferSamples)
        } else {
            None
        }
    }

    pub fn to_code(self) -> (r: i32)
        ensures
            r as int == self.spec_code(),
    {
        match self {
            AsioFutureSelector::EnableTimeCodeRead => 1,
            AsioFutureSelector::DisableTimeCodeRead => 2,
            AsioFutureSelector::SetInputMonitor => 3,
            AsioFutureSelector::Transport => 4,
            AsioFutureSelector::SetInputGain => 5,
            AsioFutureSelector::GetInputMeter => 6,
            AsioFutureSelector::SetOutputGain => 7,
            AsioFutureSelector::GetOutputMeter => 8,
            AsioFutureSelector::CanInputMonitor => 9,
            AsioFutureSelector::CanTimeInfo => 10,
            AsioFutureSelector::CanTimeCode => 11,
            AsioFutureSelector::CanTransport => 12,
            AsioFutureSelector::CanInputGain => 13,
            AsioFutureSelector::CanInputMeter => 14,
            AsioFutureSelector::CanOutputGain => 15,
            AsioFutureSelector::CanOutputMeter => 16,
            AsioFutureSelector::OptionalOne => 17,
            AsioFutureSelector::SetIoFormat => 0x23111961,
            AsioFutureSelector::GetIoFormat => 0x23111983,
            AsioFutureSelector::CanDoIoFormat => 0x23112004,
            AsioFutureSelector::CanReportOverload => 0x24042012,
            AsioFutureSelector::GetInternalBufferSamples => 0x25042012,
        }
    }

    pub fn from_code(code: i32) -> (r: Option<AsioFutureSelector>)
        ensures
            r == AsioFutureSelector::spec_from_code(code as int),
    {
        match code {
            1 => Some(AsioFutureSelector::EnableTimeCodeRead),
            2 => Some(AsioFutureSelector::DisableTimeCodeRead),
            3 => Some(AsioFutureSelector::SetInputMonitor),
            4 => Some(AsioFutureSelector::Transport),
            5 => Some(AsioFutureSelector::SetInputGain),
            6 => Some(AsioFutureSelector::GetInputMeter),
            7 => Some(AsioFutureSelector::SetOutputGain),
            8 => Some(AsioFutureSelector::GetOutputMeter),
            9 => Some(AsioFutureSelector::CanInputMonitor),
            10 => Some(AsioFutureSelector::CanTimeInfo),
            11 => Some(AsioFutureSelector::CanTimeCode),
            12 => Some(AsioFutureSelector::CanTransport),
            13 => Some(AsioFutureSelector::CanInputGain),
            14 => Some(AsioFutureSelector::CanInputMeter),
            15 => Some(AsioFutureSelector::CanOutputGain),
            16 => Some(AsioFutureSelector::CanOutputMeter),
            17 => Some(AsioFutureSelector::OptionalOne),
            0x23111961 => Some(AsioFutureSelector::SetIoFormat),
            0x23111983 => Some(AsioFutureSelector::GetIoFormat),
            0x23112004 => Some(AsioFutureSelector::CanDoIoFormat),
            0x24042012 => Some(AsioFutureSelector::CanReportOverload),
            0x25042012 => Some(AsioFutureSelector::GetInternalBufferSamples),
            _ => None,
        }
    }
}

/// Every extension selector survives a round trip over the wire
/// unchanged, reserved high-value ranges included.
pub proof fn lemma_future_selector_code_round_trip(s: AsioFutureSelector)
    ensures
        AsioFutureSelector::spec_from_code(s.spec_code()) == Some(s),
{
}

/// Transport commands carried by the transport extension request.
#[derive(Debug, Clone, Copy, PartialEq, Eq, Hash, Structural)]
pub enum AsioTransportCommand {
    Start,
    Stop,
    Locate,
    PunchIn,
    PunchOut,
    ArmOn,
    ArmOff,
    MonitorOn,
    MonitorOff,
    Arm,
    Monitor,
}

impl AsioTransportCommand {
    /// The 32-bit wire value of each transport command.
    pub open spec fn spec_code(self) -> int {
        match self {
            AsioTransportCommand::Start => 1,
            AsioTransportCommand::Stop => 2,
            AsioTransportCommand::Locate => 3,
            AsioTransportCommand::PunchIn => 4,
            AsioTransportCommand::PunchOut => 5,
            AsioTransportCommand::ArmOn => 6,
            AsioTransportCommand::ArmOff => 7,
            AsioTransportCommand::MonitorOn => 8,
            AsioTransportCommand::MonitorOff => 9,
            AsioTransportCommand::Arm => 10,
            AsioTransportCommand::Monitor => 11,
        }
    }

    pub fn to_code(self) -> (r: i32)
        ensures
            r as int == self.spec_code(),
    {
        match self {
            AsioTransportCommand::Start => 1,
            AsioTransportCommand::Stop => 2,
            AsioTransportCommand::Locate => 3,
            AsioTransportCommand::PunchIn => 4,
            AsioTransportCommand::PunchOut => 5,
            AsioTransportCommand::ArmOn => 6,
            AsioTransportCommand::ArmOff => 7,
            AsioTransportCommand::MonitorOn => 8,
            AsioTransportCommand::MonitorOff => 9,
            AsioTransportCommand::Arm => 10,
            AsioTransportCommand::Monitor => 11,
        }
    }
}

/// The stream format families the format-switching extension selects
/// between.
#[derive(Debug, Clone, Copy, PartialEq, Eq, Hash, Structural)]
pub enum AsioIoFormatType {
    FormatInvalid,
    PCM,
    DSD,
}

impl AsioIoFormatType {
    /// The 32-bit wire value of each format family.
    pub open spec fn spec_code(self) -> int {
        match self {
            AsioIoFormatType::FormatInvalid => -1,
            AsioIoFormatType::PCM => 0,
            AsioIoFormatType::DSD => 1,
        }
    }

    pub fn to_code(self) -> (r: i32)
        ensures
            r as int == self.spec_code(),
    {
        match self {
            AsioIoFormatType::FormatInvalid => -1,
            AsioIoFormatType::PCM => 0,
            AsioIoFormatType::DSD => 1,
        }
    }
}

} // verus!
