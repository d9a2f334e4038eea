use stm32_bindings_gen::ble_sys_if::{BleBuffer, BleStatus};
use stm32_bindings_gen::linklayer_plat::{Config, InterruptHandler, SwLowPriority};
use stm32_bindings_gen::ll_sys_if::{
    DeepSleepState, InterruptMask, LlSysStatus, SchedulerTiming, SystemConfig,
};
use stm32_bindings_gen::mac_sys_if::{
    shared_config_library_params, AntennaDiversityConfig, AntennaIntervalType,
    ConfigLibraryParams, MacHandle, MacStatus, RawAntennaDiversity, RawConfigLib,
};

#[test]
fn ble_status_decodes_each_known_code() {
    assert_eq!(BleStatus::from_raw(0x00), BleStatus::Success);
    assert_eq!(BleStatus::from_raw(0x93), BleStatus::Busy);
    assert_eq!(BleStatus::from_raw(0x95), BleStatus::Pending);
    assert_eq!(BleStatus::from_raw(0x92), BleStatus::InvalidParameters);
    assert_eq!(BleStatus::from_raw(0x64), BleStatus::InsufficientResources);
    assert_eq!(BleStatus::from_raw(0x98), BleStatus::OutOfMemory);
    assert_eq!(BleStatus::from_raw(0xFF), BleStatus::Timeout);
    assert_eq!(BleStatus::from_raw(0x42), BleStatus::Other(0x42));
}

#[test]
fn ble_status_reads_only_the_low_byte() {
    assert_eq!(BleStatus::from_raw(0x1234_5693), BleStatus::Busy);
}

#[test]
fn ble_status_codes_round_trip() {
    for raw in 0u32..=0xFF {
        let status = BleStatus::from_raw(raw);
        assert_eq!(status.code() as u32, raw);
    }
}

#[test]
fn ble_status_into_result_keeps_the_error() {
    assert_eq!(BleStatus::Success.into_result(), Ok(()));
    assert_eq!(BleStatus::Busy.into_result(), Err(BleStatus::Busy));
    assert_eq!(BleStatus::Other(7).into_result(), Err(BleStatus::Other(7)));
}

#[test]
fn fresh_ble_buffer_is_empty_with_the_requested_capacity() {
    let buffer = BleBuffer::new(16);
    assert_eq!(buffer.capacity(), 16);
    assert_eq!(buffer.len(), 0);
    assert_eq!(buffer.offset(), 0);
    assert!(buffer.is_empty());
    assert!(buffer.payload().is_none());
}

#[test]
fn writing_a_payload_records_length_and_bytes() {
    let mut buffer = BleBuffer::new(8);
    buffer.set_offset(3);
    assert_eq!(buffer.write_payload(&[1, 2, 3]), Ok(()));
    assert_eq!(buffer.len(), 3);
    assert_eq!(buffer.offset(), 0);
    assert!(!buffer.is_empty());
    assert_eq!(buffer.payload(), Some(vec![1, 2, 3]));
}

#[test]
fn oversized_payload_is_rejected_and_nothing_changes() {
    let mut buffer = BleBuffer::new(2);
    assert_eq!(buffer.write_payload(&[1, 2, 3]), Err(()));
    assert_eq!(buffer.len(), 0);
    assert_eq!(buffer.capacity(), 2);
}

#[test]
fn payload_reflects_recorded_offset_and_length() {
    let mut buffer = BleBuffer::new(6);
    buffer.write_payload(&[9, 8, 7, 6]).unwrap();
    buffer.set_offset(2);
    buffer.set_len(2);
    assert_eq!(buffer.payload(), Some(vec![7, 6]));
    buffer.set_len(0);
    assert!(buffer.payload().is_none());
}

#[test]
fn ll_sys_status_decodes_raw_codes() {
    assert_eq!(LlSysStatus::from_raw(0), LlSysStatus::Success);
    assert_eq!(LlSysStatus::from_raw(2), LlSysStatus::Busy);
    assert_eq!(LlSysStatus::from_raw(1), LlSysStatus::Error);
    assert_eq!(LlSysStatus::from_raw(99), LlSysStatus::Error);
    assert_eq!(LlSysStatus::Success.into_result(), Ok(()));
    assert_eq!(LlSysStatus::Busy.into_result(), Err(LlSysStatus::Busy));
}

#[test]
fn deep_sleep_state_decodes_raw_codes() {
    assert_eq!(DeepSleepState::from_raw(1), DeepSleepState::Enabled);
    assert_eq!(DeepSleepState::from_raw(0), DeepSleepState::Disabled);
    assert_eq!(DeepSleepState::from_raw(7), DeepSleepState::Disabled);
}

#[test]
fn system_config_defaults_enable_everything() {
    let config = SystemConfig::default();
    assert!(config.configure_params);
    assert!(config.init_background_task);
    assert!(config.enable_irq_on_init);
}

#[test]
fn interrupt_masks_combine_and_report_their_bits() {
    let mask = InterruptMask::radio_high().union(InterruptMask::system_low());
    assert_eq!(mask.bits(), 1 | 4);
    assert!(!mask.is_empty());
    assert!(InterruptMask::empty().is_empty());
    assert_eq!(InterruptMask::from_bits(3).bits(), 3);
}

#[test]
fn scheduler_timing_converts_to_the_raw_layout() {
    let timing = SchedulerTiming::new(10, 20, 30);
    let raw = timing.into_raw();
    assert_eq!(raw.drift_time, 10);
    assert_eq!(raw.exec_time, 20);
    assert_eq!(raw.schdling_time, 30);
    let plat = stm32_bindings_gen::linklayer_plat::SchedulerTiming::new(1, 2, 3);
    let plat_raw = plat.into_raw();
    assert_eq!(plat_raw.drift_time, 1);
    assert_eq!(plat_raw.exec_time, 2);
    assert_eq!(plat_raw.schdling_time, 3);
}

#[test]
fn platform_config_defaults_register_no_handlers() {
    let config = Config::default();
    assert!(config.clock_init);
    assert!(config.enable_active_clock);
    assert!(config.radio_isr.is_none());
    assert!(config.sw_low_isr.is_none());
    let handler = InterruptHandler::new(0x0800_0000);
    assert_eq!(handler.raw(), 0x0800_0000);
}

#[test]
fn sw_low_priority_codes() {
    assert_eq!(SwLowPriority::default(), SwLowPriority::High);
    assert_eq!(SwLowPriority::High.to_raw(), 0);
    assert_eq!(SwLowPriority::Low.to_raw(), 1);
}

#[test]
fn mac_handle_keeps_its_raw_value() {
    assert_eq!(MacHandle::new(7).raw(), 7);
}

#[test]
fn mac_status_decodes_each_known_code() {
    assert_eq!(MacStatus::from_raw(0x00), MacStatus::Success);
    assert_eq!(MacStatus::from_raw(0xE2), MacStatus::Busy);
    assert_eq!(MacStatus::from_raw(0xE8), MacStatus::InvalidParameter);
    assert_eq!(MacStatus::from_raw(0xE1), MacStatus::ChannelAccessFailure);
    assert_eq!(MacStatus::from_raw(0xE9), MacStatus::NoAck);
    assert_eq!(MacStatus::from_raw(0xF4), MacStatus::Unsupported);
    assert_eq!(MacStatus::from_raw(0xDE), MacStatus::Unsupported);
    assert_eq!(MacStatus::from_raw(0xDF), MacStatus::Unsupported);
    assert_eq!(MacStatus::from_raw(0xFE), MacStatus::InternalError);
    assert_eq!(MacStatus::from_raw(0x33), MacStatus::Other(0x33));
    assert_eq!(MacStatus::Success.into_result(), Ok(()));
    assert_eq!(MacStatus::NoAck.into_result(), Err(MacStatus::NoAck));
}

#[test]
fn antenna_interval_types_round_trip_through_raw_codes() {
    for t in [
        AntennaIntervalType::NoType,
        AntennaIntervalType::FixedTime,
        AntennaIntervalType::PacketCount,
    ] {
        assert_eq!(AntennaIntervalType::from_raw(t.to_raw()), t);
    }
    assert_eq!(AntennaIntervalType::from_raw(99), AntennaIntervalType::NoType);
}

#[test]
fn antenna_diversity_config_round_trips_through_the_raw_layout() {
    let config = AntennaDiversityConfig {
        interval_type: AntennaIntervalType::PacketCount,
        interval_value: 250,
        wanted_coord_short_address: 0xBEEF,
        wanted_coord_extended_address: [1, 2, 3, 4, 5, 6, 7, 8],
        max_rx_ack_retries: 3,
    };
    assert_eq!(AntennaDiversityConfig::from_raw(config.to_raw()), config);
    let defaults = AntennaDiversityConfig::default();
    assert_eq!(defaults.interval_type, AntennaIntervalType::NoType);
    assert_eq!(defaults.interval_value, 0);
    assert_eq!(defaults.wanted_coord_extended_address, [0; 8]);
}

#[test]
fn raw_antenna_block_maps_field_for_field() {
    let raw = RawAntennaDiversity {
        ant_intrv_type: 1,
        ant_intrv_value: 42,
        wntd_coord_shrt_addr: 7,
        wntd_coord_ext_addr: [9; 8],
        max_rx_ack_retries: 2,
    };
    let config = AntennaDiversityConfig::from_raw(raw);
    assert_eq!(config.interval_type, AntennaIntervalType::FixedTime);
    assert_eq!(config.interval_value, 42);
    assert_eq!(config.wanted_coord_short_address, 7);
    assert_eq!(config.max_rx_ack_retries, 2);
}

#[test]
fn config_library_params_round_trip_and_defaults() {
    let defaults = ConfigLibraryParams::default();
    assert!(defaults.mac_layer_enabled);
    assert!(defaults.openthread_1_2_support);
    assert!(!defaults.ack_all_frames_with_ar_bit);
    let raw = defaults.to_raw();
    assert_eq!(raw.mac_layer_build, 1);
    assert_eq!(raw.support_openthread_1_2, 1);
    assert_eq!(raw.ack_all_received_frames_with_ar_bit_set, 0);
    assert_eq!(ConfigLibraryParams::from_raw(raw), defaults);
    let nonzero = RawConfigLib {
        mac_layer_build: 0,
        support_openthread_1_2: 5,
        ack_all_received_frames_with_ar_bit_set: 255,
    };
    let parsed = ConfigLibraryParams::from_raw(nonzero);
    assert!(!parsed.mac_layer_enabled);
    assert!(parsed.openthread_1_2_support);
    assert!(parsed.ack_all_frames_with_ar_bit);
}

#[test]
fn shared_config_defaults_on_hosts_without_the_middleware() {
    assert_eq!(shared_config_library_params(), ConfigLibraryParams::default());
}
