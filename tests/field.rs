use environment_monitor::driver::collect_fields;
use environment_monitor::error::BME68xError;
use environment_monitor::field::{
    order_fields, parse_all_fields, parse_field, sort_sensor_data, BME68xField,
};
use environment_monitor::settings::{BME68xOpMode, BME68xVariant};

fn field(status: u8, meas_index: u8) -> BME68xField {
    BME68xField {
        status,
        gas_index: 0,
        meas_index,
        res_heat: 0,
        idac: 0,
        gas_wait: 0,
        adc_pres: meas_index as u32,
        adc_temp: 0,
        adc_hum: 0,
        adc_gas_res: 0,
        gas_range: 0,
    }
}

fn indices(v: &[BME68xField]) -> Vec<u8> {
    v.iter().map(|f| f.meas_index).collect()
}

fn sample_field_bytes() -> Vec<u8> {
    vec![
        0x83, 42, 0x12, 0x34, 0x56, 0x7f, 0xff, 0xf0, 0x66, 0x77, 0, 0, 0, 0x80, 0xf5, 0x01, 0x4a,
    ]
}

#[test]
fn parse_field_low_variant() {
    let f = parse_field(&sample_field_bytes(), 0, BME68xVariant::GasLow);
    assert_eq!(f.status, 0xb0);
    assert_eq!(f.gas_index, 3);
    assert_eq!(f.meas_index, 42);
    assert_eq!(f.adc_pres, 0x12345);
    assert_eq!(f.adc_temp, 0x7ffff);
    assert_eq!(f.adc_hum, 0x6677);
    assert_eq!(f.adc_gas_res, 515);
    assert_eq!(f.gas_range, 5);
}

#[test]
fn parse_field_high_variant() {
    let f = parse_field(&sample_field_bytes(), 0, BME68xVariant::GasHigh);
    assert_eq!(f.status, 0x80);
    assert_eq!(f.adc_gas_res, 5);
    assert_eq!(f.gas_range, 0x0a);
}

#[test]
fn parse_all_fields_attaches_heater_settings() {
    let mut buff = Vec::new();
    for _ in 0..3 {
        buff.extend(sample_field_bytes());
    }
    let settings: Vec<u8> = (0..30).map(|i| i + 100).collect();
    let v = parse_all_fields(&buff, &settings, BME68xVariant::GasLow).unwrap();
    assert_eq!(v.len(), 3);
    for f in v.iter() {
        assert_eq!(f.idac, 103);
        assert_eq!(f.res_heat, 113);
        assert_eq!(f.gas_wait, 123);
        assert_eq!(f.adc_pres, 0x12345);
    }
    buff[17] = 0x8c;
    assert_eq!(
        parse_all_fields(&buff, &settings, BME68xVariant::GasLow),
        Err(BME68xError::InvalidLength)
    );
    assert_eq!(
        parse_all_fields(&buff[..50].to_vec(), &settings, BME68xVariant::GasLow),
        Err(BME68xError::InvalidLength)
    );
}

#[test]
fn reorder_five_two_seven() {
    let mut v = vec![field(0x80, 5), field(0x80, 2), field(0x80, 7)];
    let n = order_fields(&mut v);
    assert_eq!(n, 3);
    assert_eq!(indices(&v), vec![5, 7, 2]);
}

#[test]
fn reorder_moves_new_data_first() {
    let mut v = vec![field(0x00, 1), field(0x80, 9), field(0x80, 10)];
    let n = order_fields(&mut v);
    assert_eq!(n, 2);
    assert!(v[0].status & 0x80 != 0);
    assert!(v[1].status & 0x80 != 0);
    assert!(v[2].status & 0x80 == 0);
    assert_eq!(indices(&v), vec![9, 10, 1]);
}

#[test]
fn reorder_handles_index_wrap() {
    let mut v = vec![field(0x80, 254), field(0x80, 255), field(0x80, 0)];
    order_fields(&mut v);
    assert_eq!(indices(&v), vec![254, 255, 0]);
}

#[test]
fn sort_pair_policy() {
    let mut v = vec![field(0x80, 10), field(0x80, 8)];
    sort_sensor_data(0, 1, &mut v);
    assert_eq!(indices(&v), vec![8, 10]);
    let mut v = vec![field(0x80, 10), field(0x80, 7)];
    sort_sensor_data(0, 1, &mut v);
    assert_eq!(indices(&v), vec![10, 7]);
    let mut v = vec![field(0x80, 10), field(0x80, 13)];
    sort_sensor_data(0, 1, &mut v);
    assert_eq!(indices(&v), vec![13, 10]);
    let mut v = vec![field(0x80, 10), field(0x00, 13)];
    sort_sensor_data(0, 1, &mut v);
    assert_eq!(indices(&v), vec![10, 13]);
}

#[test]
fn collect_fields_outcomes() {
    assert_eq!(
        collect_fields(BME68xOpMode::SleepMode, vec![]),
        Err(BME68xError::DefineOpMode)
    );
    assert_eq!(
        collect_fields(BME68xOpMode::ForcedMode, vec![field(0x00, 1)]),
        Err(BME68xError::NoNewData)
    );
    assert_eq!(
        collect_fields(BME68xOpMode::ParallelMode, vec![field(0, 1), field(0, 2), field(0, 3)]),
        Err(BME68xError::NoNewData)
    );
    assert_eq!(
        collect_fields(BME68xOpMode::SequentialMode, vec![field(0x80, 1)]),
        Err(BME68xError::InvalidLength)
    );
    let (v, n) = collect_fields(
        BME68xOpMode::ParallelMode,
        vec![field(0x80, 5), field(0x80, 2), field(0x80, 7)],
    )
    .unwrap();
    assert_eq!(n, 3);
    assert_eq!(indices(&v), vec![5, 7, 2]);
    let (v, n) = collect_fields(BME68xOpMode::ForcedMode, vec![field(0x80, 4)]).unwrap();
    assert_eq!((indices(&v), n), (vec![4], 1));
}
