use environment_monitor::driver::{
    check_chip_id, field_poll_action, heater_conf_from_registers, interleave_writes,
    mem_page_of_register, mem_page_register, op_mode_of_register, op_mode_step, page_switch,
    read_address, selftest_conf, selftest_heater_conf, selftest_heater_ok, FieldPoll, ModeStep,
};
use environment_monitor::error::BME68xError;
use environment_monitor::field::BME68xField;
use environment_monitor::settings::{
    BME68xAddr, BME68xIntf, BME68xMemPage, BME68xOpMode, BME68xOs, BME68xRegister,
};

fn field(status: u8, idac: u8) -> BME68xField {
    BME68xField {
        status,
        gas_index: 0,
        meas_index: 0,
        res_heat: 0,
        idac,
        gas_wait: 0,
        adc_pres: 0,
        adc_temp: 0,
        adc_hum: 0,
        adc_gas_res: 0,
        gas_range: 0,
    }
}

#[test]
fn chip_id_check() {
    assert_eq!(check_chip_id(0x61), Ok(()));
    assert_eq!(check_chip_id(0x60), Err(BME68xError::DevNotFound));
}

#[test]
fn register_and_address_codes() {
    assert_eq!(BME68xAddr::HIGH.to_u8(), 0x77);
    assert_eq!(BME68xAddr::LOW.to_u8(), 0x76);
    assert_eq!(BME68xRegister::Coeff2.to_u8(), 0xe1);
    assert_eq!(BME68xRegister::ShdHeatrDur.to_u8(), 0x6e);
}

#[test]
fn write_transaction_interleaves() {
    let b = interleave_writes(&vec![0x71, 0xf2], &vec![1, 2], 2, BME68xIntf::I2CIntf).unwrap();
    assert_eq!(b, vec![0x71, 1, 0xf2, 2]);
    let b = interleave_writes(&vec![0x71, 0xf2], &vec![1, 2], 2, BME68xIntf::SPIIntf).unwrap();
    assert_eq!(b, vec![0x71, 1, 0x72, 2]);
    let b = interleave_writes(&vec![0x71, 0xf2], &vec![1, 2], 1, BME68xIntf::I2CIntf).unwrap();
    assert_eq!(b, vec![0x71, 1]);
}

#[test]
fn write_transaction_length_errors() {
    let addr: Vec<u8> = (0..11).collect();
    assert_eq!(
        interleave_writes(&addr, &addr, 0, BME68xIntf::I2CIntf),
        Err(BME68xError::InvalidLength)
    );
    assert_eq!(
        interleave_writes(&addr, &addr, 11, BME68xIntf::I2CIntf),
        Err(BME68xError::InvalidLength)
    );
    assert_eq!(
        interleave_writes(&addr, &vec![1], 2, BME68xIntf::I2CIntf),
        Err(BME68xError::InvalidLength)
    );
    assert!(interleave_writes(&addr, &addr, 10, BME68xIntf::I2CIntf).is_ok());
}

#[test]
fn spi_paging() {
    assert_eq!(read_address(0x50, BME68xIntf::SPIIntf), 0xd0);
    assert_eq!(read_address(0x50, BME68xIntf::I2CIntf), 0x50);
    assert_eq!(page_switch(BME68xMemPage::Page0, 0x50), None);
    assert_eq!(page_switch(BME68xMemPage::Page0, 0xd0), Some(BME68xMemPage::Page1));
    assert_eq!(page_switch(BME68xMemPage::Page1, 0xd0), None);
    assert_eq!(page_switch(BME68xMemPage::Page1, 0x7f), Some(BME68xMemPage::Page0));
    assert_eq!(mem_page_register(0xff, BME68xMemPage::Page1), 0xef);
    assert_eq!(mem_page_register(0x00, BME68xMemPage::Page0), 0x10);
    assert_eq!(mem_page_of_register(0x10), BME68xMemPage::Page0);
    assert_eq!(mem_page_of_register(0xef), BME68xMemPage::Page1);
}

#[test]
fn mode_switch_goes_through_sleep() {
    assert_eq!(
        op_mode_step(0b1010_0110, BME68xOpMode::ForcedMode, 3),
        Ok(ModeStep::WriteSleep(0b1010_0100))
    );
    assert_eq!(op_mode_step(0b1010_0110, BME68xOpMode::ForcedMode, 0), Err(BME68xError::ComFail));
    assert_eq!(
        op_mode_step(0b1010_0100, BME68xOpMode::ParallelMode, 3),
        Ok(ModeStep::WriteMode(0b1010_0110))
    );
    assert_eq!(op_mode_step(0b1010_0100, BME68xOpMode::SleepMode, 3), Ok(ModeStep::Done));
    assert_eq!(op_mode_of_register(0b1111_1101), BME68xOpMode::ForcedMode);
    assert_eq!(op_mode_of_register(0b1111_1111), BME68xOpMode::SequentialMode);
}

#[test]
fn forced_field_polling() {
    assert_eq!(field_poll_action(&field(0x80, 0), 5), FieldPoll::Ready);
    assert_eq!(field_poll_action(&field(0x30, 0), 4), FieldPoll::PollAgain);
    assert_eq!(field_poll_action(&field(0x30, 0), 5), FieldPoll::GiveUp);
}

#[test]
fn selftest_plan() {
    let c = selftest_conf();
    assert_eq!(c.os_temp, BME68xOs::Os2x);
    assert_eq!(c.os_pres, BME68xOs::Os16x);
    assert_eq!(c.os_hum, BME68xOs::Os1x);
    let h = selftest_heater_conf(None);
    assert!(h.enable);
    assert_eq!((h.heatr_temp, h.heatr_dur), (350, 1000));
    let h = selftest_heater_conf(Some(2));
    assert_eq!((h.heatr_temp, h.heatr_dur), (350, 2000));
    let h = selftest_heater_conf(Some(3));
    assert_eq!((h.heatr_temp, h.heatr_dur), (150, 2000));
    assert!(selftest_heater_ok(&field(0x20, 0x40)));
    assert!(!selftest_heater_ok(&field(0x20, 0xff)));
    assert!(!selftest_heater_ok(&field(0x20, 0x00)));
    assert!(!selftest_heater_ok(&field(0x80, 0x40)));
}

#[test]
fn heater_profile_read_back() {
    let rh: Vec<u8> = (1..=10).collect();
    let gw: Vec<u8> = (101..=110).collect();
    let c = heater_conf_from_registers(&rh, &gw).unwrap();
    assert_eq!(c.heatr_temp_prof, [1, 2, 3, 4, 5, 6, 7, 8, 9, 10]);
    assert_eq!(c.heatr_dur_prof, [101, 102, 103, 104, 105, 106, 107, 108, 109, 110]);
    assert_eq!(heater_conf_from_registers(&rh, &vec![1]).err(), Some(BME68xError::InvalidLength));
}
