use asio_driver::AsioBool;
use asio_driver::AsioError;
use asio_driver::AsioFutureSelector;
use asio_driver::AsioIoFormatType;
use asio_driver::AsioMessageSelector;
use asio_driver::AsioSampleType;
use asio_driver::AsioTransportCommand;

#[test]
fn bool_to_bool() {
    assert!(AsioBool::True.to_bool());
    assert!(!AsioBool::False.to_bool());
}

#[test]
fn bool_from_bool_round_trip() {
    assert_eq!(AsioBool::from_bool(true), AsioBool::True);
    assert_eq!(AsioBool::from_bool(false), AsioBool::False);
    assert!(AsioBool::from_bool(true).to_bool());
}

#[test]
fn bool_wire_codes() {
    assert_eq!(AsioBool::False.to_code(), 0);
    assert_eq!(AsioBool::True.to_code(), 1);
    assert_eq!(AsioBool::from_code(0), AsioBool::False);
    assert_eq!(AsioBool::from_code(1), AsioBool::True);
    assert_eq!(AsioBool::from_code(-7), AsioBool::True);
}

#[test]
fn error_codes_exact() {
    assert_eq!(AsioError::OK.to_code(), 0);
    assert_eq!(AsioError::Success.to_code(), 0x3f4847a0);
    assert_eq!(AsioError::NotPresent.to_code(), -1000);
    assert_eq!(AsioError::HwMalfunction.to_code(), -999);
    assert_eq!(AsioError::InvalidParameter.to_code(), -998);
    assert_eq!(AsioError::InvalidMode.to_code(), -997);
    assert_eq!(AsioError::SpNotAdvancing.to_code(), -996);
    assert_eq!(AsioError::NoClock.to_code(), -995);
    assert_eq!(AsioError::NoMemory.to_code(), -994);
}

#[test]
fn error_decode_exact() {
    assert_eq!(AsioError::from_code(0), Some(AsioError::OK));
    assert_eq!(AsioError::from_code(0x3f4847a0), Some(AsioError::Success));
    assert_eq!(AsioError::from_code(-1000), Some(AsioError::NotPresent));
    assert_eq!(AsioError::from_code(-999), Some(AsioError::HwMalfunction));
    assert_eq!(AsioError::from_code(-998), Some(AsioError::InvalidParameter));
    assert_eq!(AsioError::from_code(-997), Some(AsioError::InvalidMode));
    assert_eq!(AsioError::from_code(-996), Some(AsioError::SpNotAdvancing));
    assert_eq!(AsioError::from_code(-995), Some(AsioError::NoClock));
    assert_eq!(AsioError::from_code(-994), Some(AsioError::NoMemory));
    assert_eq!(AsioError::from_code(1), None);
    assert_eq!(AsioError::from_code(-1001), None);
}

#[test]
fn error_round_trip_every_variant() {
    let all = [
        AsioError::OK,
        AsioError::Success,
        AsioError::NotPresent,
        AsioError::HwMalfunction,
        AsioError::InvalidParameter,
        AsioError::InvalidMode,
        AsioError::SpNotAdvancing,
        AsioError::NoClock,
        AsioError::NoMemory,
    ];
    for e in all {
        assert_eq!(AsioError::from_code(e.to_code()), Some(e));
    }
}

#[test]
fn both_success_values_count_as_success() {
    assert!(AsioError::OK.is_success());
    assert!(AsioError::Success.is_success());
    assert!(!AsioError::NotPresent.is_success());
    assert!(!AsioError::InvalidMode.is_success());
}

#[test]
fn sample_type_codes_exact() {
    assert_eq!(AsioSampleType::AsioSTInt16MSB.to_code(), 0);
    assert_eq!(AsioSampleType::AsioSTFloat64MSB.to_code(), 4);
    assert_eq!(AsioSampleType::AsioSTInt32MSB16.to_code(), 8);
    assert_eq!(AsioSampleType::AsioSTInt16LSB.to_code(), 16);
    assert_eq!(AsioSampleType::AsioSTInt32LSB.to_code(), 18);
    assert_eq!(AsioSampleType::AsioSTInt32LSB24.to_code(), 27);
    assert_eq!(AsioSampleType::AsioSTDSDInt8LSB1.to_code(), 32);
    assert_eq!(AsioSampleType::AsioSTDSDInt8NER8.to_code(), 40);
}

#[test]
fn sample_type_decode_gaps_rejected() {
    assert_eq!(
        AsioSampleType::from_code(19),
        Some(AsioSampleType::AsioSTFloat32LSB)
    );
    assert_eq!(AsioSampleType::from_code(5), None);
    assert_eq!(AsioSampleType::from_code(28), None);
    assert_eq!(AsioSampleType::from_code(41), None);
}

#[test]
fn sample_type_round_trip() {
    let all = [
        AsioSampleType::AsioSTInt16MSB,
        AsioSampleType::AsioSTInt24MSB,
        AsioSampleType::AsioSTInt32MSB,
        AsioSampleType::AsioSTFloat32MSB,
        AsioSampleType::AsioSTFloat64MSB,
        AsioSampleType::AsioSTInt32MSB16,
        AsioSampleType::AsioSTInt32MSB18,
        AsioSampleType::AsioSTInt32MSB20,
        AsioSampleType::AsioSTInt32MSB24,
        AsioSampleType::AsioSTInt16LSB,
        AsioSampleType::AsioSTInt24LSB,
        AsioSampleType::AsioSTInt32LSB,
        AsioSampleType::AsioSTFloat32LSB,
        AsioSampleType::AsioSTFloat64LSB,
        AsioSampleType::AsioSTInt32LSB16,
        AsioSampleType::AsioSTInt32LSB18,
        AsioSampleType::AsioSTInt32LSB20,
        AsioSampleType::AsioSTInt32LSB24,
        AsioSampleType::AsioSTDSDInt8LSB1,
        AsioSampleType::AsioSTDSDInt8MSB1,
        AsioSampleType::AsioSTDSDInt8NER8,
    ];
    for t in all {
        assert_eq!(AsioSampleType::from_code(t.to_code()), Some(t));
    }
}

#[test]
fn message_selector_codes() {
    assert_eq!(AsioMessageSelector::SelectorSupported.to_code(), 1);
    assert_eq!(AsioMessageSelector::SupportsTimeInfo.to_code(), 7);
    assert_eq!(AsioMessageSelector::Overload.to_code(), 15);
    assert_eq!(
        AsioMessageSelector::from_code(3),
        Some(AsioMessageSelector::ResetRequest)
    );
    assert_eq!(AsioMessageSelector::from_code(0), None);
    assert_eq!(AsioMessageSelector::from_code(16), None);
}

#[test]
fn future_selector_codes_exact() {
    assert_eq!(AsioFutureSelector::EnableTimeCodeRead.to_code(), 1);
    assert_eq!(AsioFutureSelector::OptionalOne.to_code(), 17);
    assert_eq!(AsioFutureSelector::SetIoFormat.to_code(), 0x23111961);
    assert_eq!(AsioFutureSelector::GetIoFormat.to_code(), 0x23111983);
    assert_eq!(AsioFutureSelector::CanDoIoFormat.to_code(), 0x23112004);
    assert_eq!(AsioFutureSelector::CanReportOverload.to_code(), 0x24042012);
    assert_eq!(
        AsioFutureSelector::GetInternalBufferSamples.to_code(),
        0x25042012
    );
}

#[test]
fn future_selector_round_trip_and_unknown() {
    assert_eq!(
        AsioFutureSelector::from_code(0x23112004),
        Some(AsioFutureSelector::CanDoIoFormat)
    );
    assert_eq!(
        AsioFutureSelector::from_code(9),
        Some(AsioFutureSelector::CanInputMonitor)
    );
    assert_eq!(AsioFutureSelector::from_code(18), None);
    assert_eq!(AsioFutureSelector::from_code(0x23111962), None);
}

#[test]
fn transport_command_codes() {
    assert_eq!(AsioTransportCommand::Start.to_code(), 1);
    assert_eq!(AsioTransportCommand::Locate.to_code(), 3);
    assert_eq!(AsioTransportCommand::Monitor.to_code(), 11);
}

#[test]
fn io_format_type_codes() {
    assert_eq!(AsioIoFormatType::FormatInvalid.to_code(), -1);
    assert_eq!(AsioIoFormatType::PCM.to_code(), 0);
    assert_eq!(AsioIoFormatType::DSD.to_code(), 1);
}
