use environment_monitor::config::{
    config_register_addresses, config_register_values, decode_config, get_meas_dur, BME68xConf,
};
use environment_monitor::error::BME68xError;
use environment_monitor::settings::{BME68xFilter, BME68xODR, BME68xOpMode, BME68xOs};

fn all_os() -> Vec<BME68xOs> {
    (0u8..6).map(|c| BME68xOs::from_u8(c).unwrap()).collect()
}

#[test]
fn configuration_round_trips_for_every_combination() {
    let backgrounds: [[u8; 5]; 3] = [[0; 5], [0xff; 5], [0x5a, 0xa5, 0x3c, 0xc3, 0x69]];
    for bg in backgrounds.iter() {
        let current = bg.to_vec();
        for os_hum in all_os() {
            for os_temp in all_os() {
                for os_pres in all_os() {
                    for f in 0u8..8 {
                        for o in 0u8..9 {
                            let conf = BME68xConf {
                                os_hum,
                                os_temp,
                                os_pres,
                                filter: BME68xFilter::from_u8(f).unwrap(),
                                odr: BME68xODR::from_u8(o).unwrap(),
                            };
                            let regs = config_register_values(&current, &conf);
                            assert_eq!(regs.len(), 5);
                            assert_eq!(decode_config(&regs), Ok(conf));
                            assert_eq!(regs[0] & 0x7f, current[0] & 0x7f);
                            assert_eq!(regs[1] & 0xf8, current[1] & 0xf8);
                            assert_eq!(regs[2], current[2]);
                            assert_eq!(regs[3] & 0x03, current[3] & 0x03);
                            assert_eq!(regs[4] & 0x03, current[4] & 0x03);
                        }
                    }
                }
            }
        }
    }
}

#[test]
fn forced_configuration_register_bytes() {
    let conf = BME68xConf {
        os_hum: BME68xOs::Os1x,
        os_temp: BME68xOs::Os2x,
        os_pres: BME68xOs::Os16x,
        filter: BME68xFilter::Off,
        odr: BME68xODR::ODRNone,
    };
    let regs = config_register_values(&vec![0, 0, 0, 0, 0], &conf);
    assert_eq!(regs, vec![0x80, 0x01, 0x00, (2 << 5) | (5 << 2), 0x00]);
    assert_eq!(config_register_addresses(), vec![0x71, 0x72, 0x73, 0x74, 0x75]);
}

#[test]
fn set_odr3_bit_reads_as_no_standby() {
    let conf = decode_config(&vec![0x80, 0x00, 0x00, 0x00, 0xe0]).unwrap();
    assert_eq!(conf.odr, BME68xODR::ODRNone);
    let conf = decode_config(&vec![0x00, 0x00, 0x00, 0x00, 0xe0]).unwrap();
    assert_eq!(conf.odr, BME68xODR::ODR20Ms);
}

#[test]
fn unknown_oversampling_code_is_an_error() {
    assert_eq!(decode_config(&vec![0, 0x06, 0, 0, 0]), Err(BME68xError::CastError));
    assert_eq!(decode_config(&vec![0, 0, 0, 0xe0, 0]), Err(BME68xError::CastError));
    assert_eq!(BME68xOs::from_u8(7), Err(BME68xError::CastError));
    assert_eq!(BME68xODR::from_u8(9), Err(BME68xError::CastError));
}

#[test]
fn measurement_duration_formula() {
    let conf = BME68xConf {
        os_hum: BME68xOs::Os1x,
        os_temp: BME68xOs::Os2x,
        os_pres: BME68xOs::Os16x,
        filter: BME68xFilter::Off,
        odr: BME68xODR::ODRNone,
    };
    assert_eq!(get_meas_dur(BME68xOpMode::ForcedMode, &conf), 19 * 1963 + 477 * 9);
    assert_eq!(get_meas_dur(BME68xOpMode::ParallelMode, &conf), 19 * 1963 + 477 * 9 + 1000);
    assert_eq!(BME68xOs::Os16x.get_meas_cycles(), 16);
}
