use asio_driver::AsioBool;
use asio_driver::AsioChannelInfo;
use asio_driver::AsioClockSources;
use asio_driver::AsioDriver;
use asio_driver::AsioError;
use asio_driver::AsioErrorMsg;
use asio_driver::AsioName;
use asio_driver::AsioSampleRate;
use asio_driver::AsioSampleType;
use asio_driver::ClockSourceConfig;
use asio_driver::DriverCaps;
use asio_driver::DriverConfig;

fn all_caps() -> DriverCaps {
    DriverCaps {
        input_monitor: true,
        time_info: true,
        time_code: true,
        transport: true,
        input_gain: true,
        input_meter: true,
        output_gain: true,
        output_meter: true,
        io_format: true,
        report_overload: false,
        internal_buffer_samples: true,
        output_ready: true,
    }
}

fn rate(hz: f64) -> AsioSampleRate {
    AsioSampleRate { bits: hz.to_bits() }
}

fn test_config() -> DriverConfig {
    DriverConfig {
        name: b"Reference ASIO".to_vec(),
        version: 2,
        error_message: b"no error".to_vec(),
        num_inputs: 2,
        num_outputs: 2,
        input_latency: 128,
        output_latency: 256,
        min_buffer_size: 64,
        max_buffer_size: 4096,
        preferred_buffer_size: 512,
        buffer_granularity: -1,
        sample_type: AsioSampleType::AsioSTInt32LSB,
        initial_sample_rate: rate(48000.0),
        supported_sample_rates: vec![rate(44100.0), rate(48000.0), rate(96000.0)],
        clock_sources: vec![
            ClockSourceConfig {
                associated_channel: 0,
                associated_group: 0,
                name: b"Internal".to_vec(),
            },
            ClockSourceConfig {
                associated_channel: 1,
                associated_group: 0,
                name: b"Word Clock".to_vec(),
            },
        ],
        caps: all_caps(),
        memory_limit: 1 << 20,
    }
}

fn ready_driver() -> AsioDriver {
    let mut d = AsioDriver::new(test_config());
    assert_eq!(d.init(), AsioBool::True);
    d
}

#[test]
fn init_accepts_once_then_declines() {
    let mut d = AsioDriver::new(test_config());
    assert_eq!(d.init(), AsioBool::True);
    assert_eq!(d.init(), AsioBool::False);
}

#[test]
fn control_calls_before_init_are_invalid_mode() {
    let d = AsioDriver::new(test_config());
    let mut inputs: i32 = -1;
    let mut outputs: i32 = -1;
    assert_eq!(
        d.get_channels(&mut inputs, &mut outputs),
        AsioError::InvalidMode
    );
    assert_eq!(inputs, -1);
    assert_eq!(outputs, -1);
}

#[test]
fn driver_name_version_and_error_message() {
    let d = ready_driver();
    let mut name = AsioName::new();
    d.get_driver_name(&mut name);
    assert_eq!(name.to_bytes(), b"Reference ASIO".to_vec());
    assert_eq!(d.get_driver_version(), 2);
    let mut msg = AsioErrorMsg::new();
    d.get_error_message(&mut msg);
    assert_eq!(msg.to_bytes(), b"no error".to_vec());
}

#[test]
fn channel_counts_and_latencies() {
    let d = ready_driver();
    let mut inputs: i32 = 0;
    let mut outputs: i32 = 0;
    assert_eq!(d.get_channels(&mut inputs, &mut outputs), AsioError::OK);
    assert_eq!((inputs, outputs), (2, 2));
    let mut in_lat: i32 = 0;
    let mut out_lat: i32 = 0;
    assert_eq!(d.get_latencies(&mut in_lat, &mut out_lat), AsioError::OK);
    assert_eq!((in_lat, out_lat), (128, 256));
}

#[test]
fn buffer_size_query() {
    let d = ready_driver();
    let mut min: i32 = 0;
    let mut max: i32 = 0;
    let mut preferred: i32 = 0;
    let mut granularity: i32 = 0;
    assert_eq!(
        d.get_buffer_size(&mut min, &mut max, &mut preferred, &mut granularity),
        AsioError::OK
    );
    assert_eq!((min, max, preferred, granularity), (64, 4096, 512, -1));
}

#[test]
fn sample_rate_round_trip() {
    let mut d = ready_driver();
    assert_eq!(d.can_sample_rate(rate(44100.0)), AsioError::OK);
    assert_eq!(d.set_sample_rate(rate(44100.0)), AsioError::OK);
    let mut current = rate(0.0);
    assert_eq!(d.get_sample_rate(&mut current), AsioError::OK);
    assert_eq!(current, rate(44100.0));
    assert_eq!(f64::from_bits(current.bits), 44100.0);
}

#[test]
fn unsupported_rate_is_invalid_parameter() {
    let mut d = ready_driver();
    assert_eq!(d.can_sample_rate(rate(22050.0)), AsioError::InvalidParameter);
    assert_eq!(d.set_sample_rate(rate(22050.0)), AsioError::InvalidParameter);
    let mut current = rate(0.0);
    assert_eq!(d.get_sample_rate(&mut current), AsioError::OK);
    assert_eq!(current, rate(48000.0));
}

#[test]
fn driver_without_clock_answers_no_clock() {
    let mut config = test_config();
    config.clock_sources = Vec::new();
    let mut d = AsioDriver::new(config);
    assert_eq!(d.init(), AsioBool::True);
    assert_eq!(d.can_sample_rate(rate(44100.0)), AsioError::NoClock);
    assert_eq!(d.set_sample_rate(rate(44100.0)), AsioError::NoClock);
    let mut current = rate(0.0);
    assert_eq!(d.get_sample_rate(&mut current), AsioError::NoClock);
}

#[test]
fn clock_sources_reported_within_capacity() {
    let d = ready_driver();
    let mut sources = AsioClockSources::new();
    assert_eq!(d.get_clock_sources(&mut sources), AsioError::OK);
    assert_eq!(sources.length, 2);
    assert!(sources.length <= 16);
    assert_eq!(sources.array.len(), 16);
    for i in 0..sources.length as usize {
        let entry = sources.get(i);
        assert_eq!(entry.index, i as i32);
    }
    assert_eq!(sources.get(0).is_current_source, AsioBool::True);
    assert_eq!(sources.get(1).is_current_source, AsioBool::False);
    assert_eq!(sources.get(0).name.to_bytes(), b"Internal".to_vec());
    assert_eq!(sources.get(1).name.to_bytes(), b"Word Clock".to_vec());
    assert_eq!(sources.get(1).associated_channel, 1);
}

#[test]
fn clock_source_selection() {
    let mut d = ready_driver();
    assert_eq!(d.set_clock_source(1), AsioError::OK);
    let mut sources = AsioClockSources::new();
    assert_eq!(d.get_clock_sources(&mut sources), AsioError::OK);
    assert_eq!(sources.get(0).is_current_source, AsioBool::False);
    assert_eq!(sources.get(1).is_current_source, AsioBool::True);
    assert_eq!(d.set_clock_source(2), AsioError::InvalidParameter);
    assert_eq!(d.set_clock_source(-1), AsioError::InvalidParameter);
}

#[test]
fn channel_info_matches_query_key() {
    let d = ready_driver();
    for i in 0..2 {
        let mut info = AsioChannelInfo::new_input(i);
        assert_eq!(d.get_channel_info(&mut info), AsioError::OK);
        assert_eq!(info.channel, i);
        assert_eq!(info.is_input, AsioBool::True);
        assert_eq!(info.is_active, AsioBool::False);
        assert_eq!(info.channel_group, 0);
        assert_eq!(info.sample_type, AsioSampleType::AsioSTInt32LSB);
    }
    for i in 0..2 {
        let mut info = AsioChannelInfo::new_output(i);
        assert_eq!(d.get_channel_info(&mut info), AsioError::OK);
        assert_eq!(info.channel, i);
        assert_eq!(info.is_input, AsioBool::False);
    }
}

#[test]
fn channel_info_names() {
    let d = ready_driver();
    let mut info = AsioChannelInfo::new_input(1);
    assert_eq!(d.get_channel_info(&mut info), AsioError::OK);
    assert_eq!(info.name.to_bytes(), b"Input 1".to_vec());
    let mut info = AsioChannelInfo::new_output(0);
    assert_eq!(d.get_channel_info(&mut info), AsioError::OK);
    assert_eq!(info.name.to_bytes(), b"Output 0".to_vec());
}

#[test]
fn channel_info_out_of_range_is_invalid_parameter() {
    let d = ready_driver();
    let mut info = AsioChannelInfo::new_input(2);
    assert_eq!(d.get_channel_info(&mut info), AsioError::InvalidParameter);
    let mut info = AsioChannelInfo::new_output(-1);
    assert_eq!(d.get_channel_info(&mut info), AsioError::InvalidParameter);
}

#[test]
fn fresh_descriptors_are_blank() {
    let entry = asio_driver::AsioClockSource::new();
    assert_eq!(entry.index, 0);
    assert_eq!(entry.associated_channel, 0);
    assert_eq!(entry.associated_group, 0);
    assert_eq!(entry.is_current_source, AsioBool::False);
    assert!(entry.name.inner.iter().all(|&b| b == 0));

    let sources = AsioClockSources::new();
    assert_eq!(sources.length, 0);
    assert_eq!(sources.array.len(), 16);
    for entry in sources.array.iter() {
        assert_eq!(entry.index, 0);
        assert_eq!(entry.is_current_source, AsioBool::False);
        assert!(entry.name.inner.iter().all(|&b| b == 0));
    }

    let info = AsioChannelInfo::new(1, true);
    assert_eq!(info.name.inner.len(), 32);
    assert!(info.name.inner.iter().all(|&b| b == 0));
    assert!(AsioChannelInfo::new_output(0)
        .name
        .inner
        .iter()
        .all(|&b| b == 0));
}
