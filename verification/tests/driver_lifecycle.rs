use asio_driver::AsioBool;
use asio_driver::AsioBufferInfo;
use asio_driver::AsioDriver;
use asio_driver::AsioError;
use asio_driver::AsioSampleRate;
use asio_driver::AsioSampleType;
use asio_driver::ClockSourceConfig;
use asio_driver::DriverCaps;
use asio_driver::DriverConfig;
use asio_driver::DriverState;

fn no_caps() -> DriverCaps {
    DriverCaps {
        input_monitor: false,
        time_info: false,
        time_code: false,
        transport: false,
        input_gain: false,
        input_meter: false,
        output_gain: false,
        output_meter: false,
        io_format: false,
        report_overload: false,
        internal_buffer_samples: false,
        output_ready: false,
    }
}

fn test_config() -> DriverConfig {
    DriverConfig {
        name: b"Reference ASIO".to_vec(),
        version: 2,
        error_message: Vec::new(),
        num_inputs: 2,
        num_outputs: 2,
        input_latency: 128,
        output_latency: 256,
        min_buffer_size: 64,
        max_buffer_size: 4096,
        preferred_buffer_size: 512,
        buffer_granularity: -1,
        sample_type: AsioSampleType::AsioSTInt32LSB,
        initial_sample_rate: AsioSampleRate {
            bits: 48000.0f64.to_bits(),
        },
        supported_sample_rates: vec![AsioSampleRate {
            bits: 48000.0f64.to_bits(),
        }],
        clock_sources: vec![ClockSourceConfig {
            associated_channel: 0,
            associated_group: 0,
            name: b"Internal".to_vec(),
        }],
        caps: no_caps(),
        memory_limit: 1 << 20,
    }
}

fn ready_driver() -> AsioDriver {
    let mut d = AsioDriver::new(test_config());
    assert_eq!(d.init(), AsioBool::True);
    d
}

fn four_channel_request() -> Vec<AsioBufferInfo> {
    vec![
        AsioBufferInfo::new_output(0),
        AsioBufferInfo::new_output(1),
        AsioBufferInfo::new_input(0),
        AsioBufferInfo::new_input(1),
    ]
}

#[test]
fn start_before_create_buffers_is_invalid_mode() {
    let mut d = ready_driver();
    assert_eq!(d.start(), AsioError::InvalidMode);
    assert_eq!(d.state, DriverState::Initialized);
}

#[test]
fn stop_without_start_is_invalid_mode() {
    let mut d = ready_driver();
    assert_eq!(d.stop(), AsioError::InvalidMode);
    let mut infos = four_channel_request();
    assert_eq!(d.create_buffers(&mut infos, 512), AsioError::OK);
    assert_eq!(d.stop(), AsioError::InvalidMode);
}

#[test]
fn dispose_without_create_is_invalid_mode() {
    let mut d = ready_driver();
    assert_eq!(d.dispose_buffers(), AsioError::InvalidMode);
}

#[test]
fn second_dispose_is_invalid_mode_not_a_crash() {
    let mut d = ready_driver();
    let mut infos = four_channel_request();
    assert_eq!(d.create_buffers(&mut infos, 512), AsioError::OK);
    assert_eq!(d.dispose_buffers(), AsioError::OK);
    assert_eq!(d.dispose_buffers(), AsioError::InvalidMode);
    assert_eq!(d.state, DriverState::Initialized);
}

#[test]
fn create_buffers_grants_region_handles() {
    let mut d = ready_driver();
    let mut infos = four_channel_request();
    assert_eq!(d.create_buffers(&mut infos, 512), AsioError::OK);
    assert_eq!(d.state, DriverState::BuffersCreated);
    for (k, info) in infos.iter().enumerate() {
        assert_eq!(info.buffers[0], 2 * k as u64);
        assert_eq!(info.buffers[1], 2 * k as u64 + 1);
    }
    assert_eq!(infos[0].is_input, AsioBool::False);
    assert_eq!(infos[2].is_input, AsioBool::True);
}

#[test]
fn create_buffers_before_init_is_invalid_mode() {
    let mut d = AsioDriver::new(test_config());
    let mut infos = four_channel_request();
    assert_eq!(d.create_buffers(&mut infos, 512), AsioError::InvalidMode);
}

#[test]
fn create_buffers_twice_is_invalid_mode() {
    let mut d = ready_driver();
    let mut infos = four_channel_request();
    assert_eq!(d.create_buffers(&mut infos, 512), AsioError::OK);
    let mut again = four_channel_request();
    assert_eq!(d.create_buffers(&mut again, 512), AsioError::InvalidMode);
}

#[test]
fn create_buffers_rejects_impermissible_size() {
    let mut d = ready_driver();
    let mut infos = four_channel_request();
    assert_eq!(d.create_buffers(&mut infos, 384), AsioError::InvalidParameter);
    assert_eq!(d.create_buffers(&mut infos, 8192), AsioError::InvalidParameter);
    assert_eq!(d.state, DriverState::Initialized);
}

#[test]
fn create_buffers_rejects_unknown_channel() {
    let mut d = ready_driver();
    let mut infos = vec![AsioBufferInfo::new_input(2)];
    assert_eq!(d.create_buffers(&mut infos, 512), AsioError::InvalidParameter);
}

#[test]
fn create_buffers_rejects_duplicate_channel() {
    let mut d = ready_driver();
    let mut infos = vec![
        AsioBufferInfo::new_input(0),
        AsioBufferInfo::new_output(0),
        AsioBufferInfo::new_input(0),
    ];
    assert_eq!(d.create_buffers(&mut infos, 512), AsioError::InvalidParameter);
}

#[test]
fn create_buffers_rejects_empty_request() {
    let mut d = ready_driver();
    let mut infos: Vec<AsioBufferInfo> = Vec::new();
    assert_eq!(d.create_buffers(&mut infos, 512), AsioError::InvalidParameter);
}

#[test]
fn create_buffers_past_memory_budget_is_no_memory() {
    let mut config = test_config();
    config.memory_limit = 1024;
    let mut d = AsioDriver::new(config);
    assert_eq!(d.init(), AsioBool::True);
    let mut infos = four_channel_request();
    assert_eq!(d.create_buffers(&mut infos, 512), AsioError::NoMemory);
    assert_eq!(d.state, DriverState::Initialized);
}

#[test]
fn switch_half_index_strictly_alternates() {
    let mut d = ready_driver();
    let mut infos = four_channel_request();
    assert_eq!(d.create_buffers(&mut infos, 512), AsioError::OK);
    assert_eq!(d.start(), AsioError::OK);
    let mut expected: i32 = 0;
    for _ in 0..8 {
        let ev = d.buffer_switch();
        assert_eq!(ev.double_buffer_index, expected);
        assert_eq!(ev.direct_process, AsioBool::True);
        expected = 1 - expected;
    }
}

#[test]
fn sample_position_is_non_decreasing_across_switches() {
    let mut d = ready_driver();
    let mut infos = four_channel_request();
    assert_eq!(d.create_buffers(&mut infos, 512), AsioError::OK);
    assert_eq!(d.start(), AsioError::OK);
    let mut last: i64 = -1;
    for _ in 0..5 {
        d.buffer_switch();
        let mut position: i64 = 0;
        let mut timestamp: i64 = 0;
        assert_eq!(
            d.get_sample_position(&mut position, &mut timestamp),
            AsioError::OK
        );
        assert!(position >= last);
        last = position;
    }
    assert_eq!(last, 5 * 512);
}

#[test]
fn sample_position_while_stopped_is_sp_not_advancing() {
    let mut d = ready_driver();
    let mut infos = four_channel_request();
    assert_eq!(d.create_buffers(&mut infos, 512), AsioError::OK);
    let mut position: i64 = 0;
    let mut timestamp: i64 = 0;
    assert_eq!(
        d.get_sample_position(&mut position, &mut timestamp),
        AsioError::SpNotAdvancing
    );
    assert_eq!(d.start(), AsioError::OK);
    d.buffer_switch();
    assert_eq!(d.stop(), AsioError::OK);
    assert_eq!(
        d.get_sample_position(&mut position, &mut timestamp),
        AsioError::SpNotAdvancing
    );
    assert_eq!(position, 512);
}

#[test]
fn sample_position_without_buffers_is_invalid_mode() {
    let d = ready_driver();
    let mut position: i64 = 7;
    let mut timestamp: i64 = 7;
    assert_eq!(
        d.get_sample_position(&mut position, &mut timestamp),
        AsioError::InvalidMode
    );
    assert_eq!((position, timestamp), (7, 7));
}

#[test]
fn host_writes_its_half_and_reads_back() {
    let mut d = ready_driver();
    let mut infos = four_channel_request();
    assert_eq!(d.create_buffers(&mut infos, 512), AsioError::OK);
    let region = infos[0].buffers[1];
    d.write_buffer_byte(region, 17, 0xa5);
    assert_eq!(d.read_buffer_byte(region, 17), 0xa5);
    assert_eq!(d.read_buffer_byte(region, 16), 0);
    assert_eq!(d.read_buffer_byte(infos[0].buffers[0], 17), 0);
}

#[test]
fn restart_resets_position_and_half_index() {
    let mut d = ready_driver();
    let mut infos = four_channel_request();
    assert_eq!(d.create_buffers(&mut infos, 512), AsioError::OK);
    assert_eq!(d.start(), AsioError::OK);
    d.buffer_switch();
    d.buffer_switch();
    d.buffer_switch();
    assert_eq!(d.stop(), AsioError::OK);
    assert_eq!(d.start(), AsioError::OK);
    let ev = d.buffer_switch();
    assert_eq!(ev.double_buffer_index, 0);
    let mut position: i64 = 0;
    let mut timestamp: i64 = 0;
    assert_eq!(
        d.get_sample_position(&mut position, &mut timestamp),
        AsioError::OK
    );
    assert_eq!(position, 512);
}

#[test]
fn dispose_while_running_implies_stop() {
    let mut d = ready_driver();
    let mut infos = four_channel_request();
    assert_eq!(d.create_buffers(&mut infos, 512), AsioError::OK);
    assert_eq!(d.start(), AsioError::OK);
    d.buffer_switch();
    assert_eq!(d.dispose_buffers(), AsioError::OK);
    assert_eq!(d.state, DriverState::Initialized);
    assert_eq!(d.stop(), AsioError::InvalidMode);
}
