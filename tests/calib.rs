use environment_monitor::calib::BME68xCalibData;
use environment_monitor::config::{config_register_values, decode_config, BME68xConf};
use environment_monitor::driver::{collect_fields, field_poll_action, FieldPoll};
use environment_monitor::error::BME68xError;
use environment_monitor::field::parse_field;
use environment_monitor::settings::{
    BME68xFilter, BME68xODR, BME68xOpMode, BME68xOs, BME68xVariant,
};

const BLOCK: [u8; 42] = [
    11, 48, 85, 122, 159, 196, 233, 14, 51, 88, 125, 162, 199, 236, 17, 54, 91, 128, 165, 202,
    239, 20, 57, 94, 131, 168, 205, 242, 23, 60, 97, 134, 171, 208, 245, 26, 63, 100, 137, 174,
    211, 248,
];

#[test]
fn calibration_block_unpacks() {
    let c = BME68xCalibData::from_coefficients(&BLOCK.to_vec()).unwrap();
    assert_eq!(c.par_t1, 43910);
    assert_eq!(c.par_t2, 12299);
    assert_eq!(c.par_t3, 85);
    assert_eq!(c.par_p1, 50335);
    assert_eq!(c.par_p2, 3817);
    assert_eq!(c.par_p3, 51);
    assert_eq!(c.par_p4, -23939);
    assert_eq!(c.par_p5, -4921);
    assert_eq!(c.par_p6, 54);
    assert_eq!(c.par_p7, 17);
    assert_eq!(c.par_p8, -13659);
    assert_eq!(c.par_p9, 5359);
    assert_eq!(c.par_p10, 57);
    assert_eq!(c.par_h1, 2691);
    assert_eq!(c.par_h2, 1512);
    assert_eq!(c.par_h3, -51);
    assert_eq!(c.par_h4, -14);
    assert_eq!(c.par_h5, 23);
    assert_eq!(c.par_h6, 60);
    assert_eq!(c.par_h7, 97);
    assert_eq!(c.par_gh1, 26);
    assert_eq!(c.par_gh2, -2608);
    assert_eq!(c.par_gh3, 63);
    assert_eq!(c.res_heat_range, 2);
    assert_eq!(c.res_heat_val, 100);
    assert_eq!(c.range_sw_err, -1);
}

#[test]
fn calibration_block_of_wrong_length() {
    assert_eq!(
        BME68xCalibData::from_coefficients(&BLOCK[..41].to_vec()),
        Err(BME68xError::InvalidLength)
    );
}

#[test]
fn forced_mode_scenario_register_path() {
    let calib = BME68xCalibData::from_coefficients(&BLOCK.to_vec()).unwrap();
    assert_eq!(calib.par_t1, 43910);
    let conf = BME68xConf {
        os_hum: BME68xOs::Os1x,
        os_temp: BME68xOs::Os2x,
        os_pres: BME68xOs::Os16x,
        filter: BME68xFilter::Off,
        odr: BME68xODR::ODRNone,
    };
    let regs = config_register_values(&vec![0x08, 0x40, 0x00, 0x01, 0x00], &conf);
    assert_eq!(regs, vec![0x88, 0x41, 0x00, 0x55, 0x00]);
    assert_eq!(decode_config(&regs), Ok(conf));
    let buff = vec![
        0x80, 0, 0x65, 0x5a, 0xc0, 0x7e, 0xf4, 0x00, 0x5d, 0xc0, 0, 0, 0, 0x4f, 0xb5, 0, 0,
    ];
    let f = parse_field(&buff, 0, BME68xVariant::GasLow);
    assert_eq!(field_poll_action(&f, 1), FieldPoll::Ready);
    assert_eq!(f.adc_pres, 415148);
    assert_eq!(f.adc_temp, 520000);
    assert_eq!(f.adc_hum, 24000);
    assert_eq!(f.adc_gas_res, 318);
    assert_eq!(f.gas_range, 5);
    let (fields, n) = collect_fields(BME68xOpMode::ForcedMode, vec![f]).unwrap();
    assert_eq!(n, 1);
    assert_eq!(fields[0], f);
}
