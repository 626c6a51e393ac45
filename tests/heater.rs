use environment_monitor::error::BME68xError;
use environment_monitor::heater::{
    calc_gas_wait, calc_heatr_dur_shared, ctrl_gas_values, heater_registers, heater_temperatures,
    BME68xHeatrConf,
};
use environment_monitor::settings::{BME68xOpMode, BME68xVariant};

#[test]
fn gas_wait_endpoints() {
    assert_eq!(calc_gas_wait(0), 0);
    assert_eq!(calc_gas_wait(0xfc0), 0xff);
    assert!(calc_gas_wait(0xfbf) < 0xff);
    assert_eq!(calc_gas_wait(0xfbf), 254);
    assert_eq!(calc_gas_wait(u16::MAX), 0xff);
}

#[test]
fn gas_wait_exact_codes() {
    let cases: [(u16, u8); 10] = [
        (1, 1),
        (63, 63),
        (64, 80),
        (100, 89),
        (255, 127),
        (256, 144),
        (1000, 190),
        (1023, 191),
        (1024, 208),
        (4031, 254),
    ];
    for (dur, code) in cases.iter() {
        assert_eq!(calc_gas_wait(*dur), *code, "duration {}", dur);
    }
}

#[test]
fn gas_wait_never_decreases() {
    let mut prev = calc_gas_wait(0);
    for d in 1..=u16::MAX {
        let c = calc_gas_wait(d);
        assert!(c >= prev, "duration {}", d);
        prev = c;
    }
}

#[test]
fn shared_heater_duration_saturation() {
    assert_eq!(calc_heatr_dur_shared(0x783), 0xff);
    assert_eq!(calc_heatr_dur_shared(0x782), 254);
    assert_eq!(calc_heatr_dur_shared(u16::MAX), 0xff);
    for d in 0..0x783u16 {
        assert!(calc_heatr_dur_shared(d) < 0xff, "duration {}", d);
    }
    assert_eq!(calc_heatr_dur_shared(0), 0);
    assert_eq!(calc_heatr_dur_shared(1), 2);
    assert_eq!(calc_heatr_dur_shared(100), 116);
}

#[test]
fn new_heater_conf_is_empty() {
    let c = BME68xHeatrConf::new();
    assert!(!c.enable);
    assert_eq!(c.heatr_temp, 0);
    assert_eq!(c.heatr_dur, 0);
    assert_eq!(c.heatr_temp_prof, [0; 10]);
    assert_eq!(c.heatr_dur_prof, [0; 10]);
    assert_eq!(c.profile_len, 0);
    assert_eq!(c.shared_heatr_dur, 0);
}

#[test]
fn forced_heater_registers() {
    let mut c = BME68xHeatrConf::new();
    c.enable = true;
    c.heatr_temp = 300;
    c.heatr_dur = 100;
    assert_eq!(heater_temperatures(&c, BME68xOpMode::ForcedMode), Ok(vec![300]));
    let h = heater_registers(&c, BME68xOpMode::ForcedMode, &vec![0x73]).unwrap();
    assert_eq!(h.shared_dur, None);
    assert_eq!(h.res_heat_addr, vec![0x5a]);
    assert_eq!(h.res_heat_data, vec![0x73]);
    assert_eq!(h.gas_wait_addr, vec![0x64]);
    assert_eq!(h.gas_wait_data, vec![89]);
    assert_eq!(h.nb_conv, 0);
}

#[test]
fn parallel_heater_registers() {
    let mut c = BME68xHeatrConf::new();
    c.enable = true;
    c.profile_len = 3;
    c.heatr_temp_prof[..3].copy_from_slice(&[320, 100, 200]);
    c.heatr_dur_prof[..3].copy_from_slice(&[5, 2, 10]);
    c.shared_heatr_dur = 100;
    assert_eq!(heater_temperatures(&c, BME68xOpMode::ParallelMode), Ok(vec![320, 100, 200]));
    let h = heater_registers(&c, BME68xOpMode::ParallelMode, &vec![1, 2, 3]).unwrap();
    assert_eq!(h.shared_dur, Some(116));
    assert_eq!(h.res_heat_addr, vec![0x5a, 0x5b, 0x5c]);
    assert_eq!(h.res_heat_data, vec![1, 2, 3]);
    assert_eq!(h.gas_wait_addr, vec![0x64, 0x65, 0x66]);
    assert_eq!(h.gas_wait_data, vec![5, 2, 10]);
    assert_eq!(h.nb_conv, 3);
    let h = heater_registers(&c, BME68xOpMode::SequentialMode, &vec![1, 2, 3]).unwrap();
    assert_eq!(h.shared_dur, None);
    assert_eq!(h.nb_conv, 3);
}

#[test]
fn heater_configuration_errors() {
    let mut c = BME68xHeatrConf::new();
    c.profile_len = 2;
    assert_eq!(
        heater_registers(&c, BME68xOpMode::ParallelMode, &vec![1, 2]).err(),
        Some(BME68xError::DefineShdHeatrDur)
    );
    assert_eq!(
        heater_registers(&c, BME68xOpMode::SleepMode, &vec![1]).err(),
        Some(BME68xError::DefineOpMode)
    );
    assert_eq!(
        heater_registers(&c, BME68xOpMode::SequentialMode, &vec![1]).err(),
        Some(BME68xError::InvalidLength)
    );
    c.profile_len = 11;
    assert_eq!(
        heater_temperatures(&c, BME68xOpMode::SequentialMode),
        Err(BME68xError::InvalidLength)
    );
    c.profile_len = 0;
    c.shared_heatr_dur = 10;
    assert_eq!(
        heater_temperatures(&c, BME68xOpMode::ParallelMode),
        Err(BME68xError::InvalidLength)
    );
}

#[test]
fn gas_control_registers() {
    assert_eq!(ctrl_gas_values(0xff, 0x00, true, BME68xVariant::GasLow, 3), (0xf7, 0x13));
    assert_eq!(ctrl_gas_values(0x00, 0xff, true, BME68xVariant::GasHigh, 0), (0x00, 0xe0 | 0x20));
    assert_eq!(ctrl_gas_values(0x00, 0xff, false, BME68xVariant::GasHigh, 10), (0x08, 0xca));
}
