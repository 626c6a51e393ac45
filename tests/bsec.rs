use environment_monitor::bsec::{
    bsec_bme_settings_t, bsec_output_t, bsec_sensor_configuration_t, check_input_request,
    forced_heater_conf, output_slot, parallel_heater_conf, profile_part, requested_conf,
    requested_inputs, requested_mode, should_read, subscribe_all_non_scan, to_err, BsecError,
    InputSignal, OutputSlot, SampleRate, StructuredOutputs, VirtualSensorData,
};
use environment_monitor::config::BME68xConf;
use environment_monitor::error::BME68xError;
use environment_monitor::settings::{BME68xFilter, BME68xODR, BME68xOpMode, BME68xOs};

#[test]
fn return_codes_map_to_errors() {
    assert_eq!(BsecError::from_code(0), BsecError::Success);
    assert_eq!(BsecError::from_code(-1), BsecError::DoStepsInvalidInput);
    assert_eq!(BsecError::from_code(100), BsecError::CallTimingViolation);
    assert_eq!(BsecError::from_code(-104), BsecError::SetInvalidLength);
    assert_eq!(BsecError::from_code(12), BsecError::SubscribedOutputGates);
    assert_eq!(BsecError::from_code(-7), BsecError::UnknownError { code: -7 });
    assert_eq!(
        BsecError::from_driver(BME68xError::ComFail),
        BsecError::DriverError { error: BME68xError::ComFail }
    );
    assert_eq!(to_err(0), Ok(()));
    assert_eq!(to_err(-33), Err(-33));
}

#[test]
fn input_request_bits() {
    assert!(check_input_request(0b1, 1));
    assert!(!check_input_request(0b1, 2));
    assert!(check_input_request(1 << 23, 24));
    assert!(check_input_request(1 << 31, 32));
}

#[test]
fn requested_inputs_in_order() {
    let mask: u32 = (1 << 0) | (1 << 2) | (1 << 13) | (1 << 23);
    assert_eq!(
        requested_inputs(mask),
        vec![
            InputSignal::Pressure,
            InputSignal::Temperature,
            InputSignal::HeatSource,
            InputSignal::ProfilePart
        ]
    );
    assert_eq!(requested_inputs(0), vec![]);
    assert_eq!(InputSignal::HeatSource.sensor_id(), 14);
    assert_eq!(profile_part(1, 7), 0);
    assert_eq!(profile_part(2, 7), 7);
}

#[test]
fn output_ids_map_to_slots() {
    assert_eq!(output_slot(1), Some(OutputSlot::Iaq));
    assert_eq!(output_slot(14), Some(OutputSlot::CompensatedTemp));
    assert_eq!(output_slot(26), Some(OutputSlot::RawGasIndex));
    assert_eq!(output_slot(5), None);
    assert_eq!(output_slot(200), None);
}

#[test]
fn outputs_update_their_slots_and_skip_unknown_ids() {
    let mut outs = StructuredOutputs::new();
    assert!(!outs.iaq.valid);
    let o1 = bsec_output_t {
        time_stamp: 5,
        signal_bits: 25.5f32.to_bits(),
        signal_dimensions: 1,
        sensor_id: 1,
        accuracy: 3,
    };
    let unknown = bsec_output_t { sensor_id: 99, ..o1 };
    let o2 = bsec_output_t { sensor_id: 7, signal_bits: 101325.0f32.to_bits(), ..o1 };
    let skipped = outs.update_output_structure(&vec![o1, unknown, o2, o1], 3);
    assert_eq!(skipped, vec![99]);
    assert_eq!(
        outs.iaq,
        VirtualSensorData {
            time_stamp: 5,
            signal_bits: 25.5f32.to_bits(),
            signal_dimensions: 1,
            accuracy: 3,
            valid: true
        }
    );
    assert_eq!(f32::from_bits(outs.raw_pressure.signal_bits), 101325.0);
    assert!(outs.raw_pressure.valid);
    assert!(!outs.static_iaq.valid);
    assert_eq!(outs.static_iaq, VirtualSensorData::new());
}

#[test]
fn zeroed_records() {
    let o = bsec_output_t::new();
    assert_eq!((o.time_stamp, o.signal_bits, o.sensor_id, o.accuracy), (0, 0, 0, 0));
    let c = bsec_sensor_configuration_t::new();
    assert_eq!(c.sensor_id, 0);
    assert_eq!(c.sample_rate, SampleRate::OnDemand);
    let s = bsec_bme_settings_t::new();
    assert_eq!(s.op_mode, 0);
    assert_eq!(s.next_call, 0);
    assert_eq!(s.heater_temperature_profile, [0; 10]);
}

#[test]
fn subscription_of_non_scan_outputs() {
    let v = subscribe_all_non_scan(SampleRate::LowPower);
    let ids: Vec<u8> = v.iter().map(|c| c.sensor_id).collect();
    assert_eq!(ids, vec![6, 7, 8, 9, 1, 2, 3, 4, 14, 15, 12, 13, 21]);
    assert!(v.iter().all(|c| c.sample_rate == SampleRate::LowPower));
}

#[test]
fn requested_mode_refuses_sequential() {
    let mut s = bsec_bme_settings_t::new();
    assert_eq!(requested_mode(&s), Ok(BME68xOpMode::SleepMode));
    s.op_mode = 2;
    assert_eq!(requested_mode(&s), Ok(BME68xOpMode::ParallelMode));
    s.op_mode = 3;
    assert_eq!(
        requested_mode(&s),
        Err(BsecError::DriverError { error: BME68xError::DefineOpMode })
    );
    s.op_mode = 9;
    assert_eq!(requested_mode(&s), Err(BsecError::DriverError { error: BME68xError::CastError }));
    s.op_mode = 1;
    assert!(!should_read(&s));
    s.trigger_measurement = 1;
    assert!(should_read(&s));
    s.op_mode = 0;
    assert!(!should_read(&s));
}

#[test]
fn requested_configuration_and_heater() {
    let current = BME68xConf {
        os_hum: BME68xOs::OsNone,
        os_temp: BME68xOs::OsNone,
        os_pres: BME68xOs::OsNone,
        filter: BME68xFilter::Size3,
        odr: BME68xODR::ODR20Ms,
    };
    let mut s = bsec_bme_settings_t::new();
    s.humidity_oversampling = 1;
    s.temperature_oversampling = 2;
    s.pressure_oversampling = 5;
    s.heater_temperature = 320;
    s.heater_duration = 197;
    let c = requested_conf(&s, &current).unwrap();
    assert_eq!(
        c,
        BME68xConf {
            os_hum: BME68xOs::Os1x,
            os_temp: BME68xOs::Os2x,
            os_pres: BME68xOs::Os16x,
            filter: BME68xFilter::Size3,
            odr: BME68xODR::ODR20Ms
        }
    );
    let h = forced_heater_conf(&s);
    assert!(h.enable);
    assert_eq!((h.heatr_temp, h.heatr_dur), (320, 197));
    s.heater_profile_len = 2;
    s.heater_temperature_profile[0] = 320;
    s.heater_duration_profile[1] = 5;
    let h = parallel_heater_conf(&s, &c);
    assert_eq!(h.profile_len, 2);
    assert_eq!(h.heatr_temp_prof[0], 320);
    assert_eq!(h.heatr_dur_prof[1], 5);
    assert_eq!(h.shared_heatr_dur, 140 - (19 * 1963 + 477 * 9 + 1000) / 1000);
    s.pressure_oversampling = 6;
    assert_eq!(
        requested_conf(&s, &current),
        Err(BsecError::DriverError { error: BME68xError::CastError })
    );
}
