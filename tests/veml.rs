use environment_monitor::veml::{
    als_scale_factor, interrupt_status, power_save_register, power_saving_enabled,
    power_saving_mode_of, word_from_le, word_to_le, AppError, VemlConfigReg, VemlGain,
    VemlIntegration, VemlPersistence, VemlPowerSavingMode, VemlRegister,
};

#[test]
fn configuration_word_round_trips() {
    let gains = [VemlGain::Gain1, VemlGain::Gain2, VemlGain::Gain1_8, VemlGain::Gain1_4];
    let times = [
        VemlIntegration::Int25,
        VemlIntegration::Int50,
        VemlIntegration::Int100,
        VemlIntegration::Int200,
        VemlIntegration::Int400,
        VemlIntegration::Int800,
    ];
    let persists = [
        VemlPersistence::Persist1,
        VemlPersistence::Persist2,
        VemlPersistence::Persist4,
        VemlPersistence::Persist8,
    ];
    for gain in gains {
        for integration_time in times {
            for persistence in persists {
                for interrupt_enabled in [false, true] {
                    for shutdown in [false, true] {
                        let c = VemlConfigReg {
                            gain,
                            integration_time,
                            persistence,
                            interrupt_enabled,
                            shutdown,
                        };
                        assert_eq!(VemlConfigReg::from_u16(c.to_u16()), Ok(c));
                    }
                }
            }
        }
    }
}

#[test]
fn configuration_word_bits() {
    let c = VemlConfigReg {
        gain: VemlGain::Gain1_4,
        integration_time: VemlIntegration::Int25,
        persistence: VemlPersistence::Persist8,
        interrupt_enabled: true,
        shutdown: true,
    };
    assert_eq!(c.to_u16(), (0b11 << 11) | (0b1100 << 6) | (0b11 << 4) | 0b11);
    let d = VemlConfigReg::from_u16(0).unwrap();
    assert_eq!(d.gain, VemlGain::Gain1);
    assert_eq!(d.integration_time, VemlIntegration::Int100);
    assert!(!d.shutdown);
    assert_eq!(VemlConfigReg::from_u16(0b0100 << 6), Err(AppError::EnumConversionError));
    assert_eq!(VemlIntegration::from_u16(0b1001), Err(AppError::EnumConversionError));
}

#[test]
fn power_saving_register() {
    assert_eq!(power_save_register(VemlPowerSavingMode::Mode3, true), 0b101);
    assert_eq!(power_save_register(VemlPowerSavingMode::Mode4, false), 0b110);
    assert_eq!(power_saving_mode_of(0b101), VemlPowerSavingMode::Mode3);
    assert_eq!(power_saving_mode_of(0xfff8), VemlPowerSavingMode::Mode1);
    assert!(power_saving_enabled(0b101));
    assert!(!power_saving_enabled(0b110));
}

#[test]
fn interrupt_flags() {
    assert_eq!(interrupt_status(0x8000), (true, false));
    assert_eq!(interrupt_status(0x4000), (false, true));
    assert_eq!(interrupt_status(0x3fff), (false, false));
}

#[test]
fn scale_and_words() {
    assert_eq!(als_scale_factor(VemlGain::Gain1_8, VemlIntegration::Int25), 512);
    assert_eq!(als_scale_factor(VemlGain::Gain2, VemlIntegration::Int800), 1);
    assert_eq!(als_scale_factor(VemlGain::Gain1, VemlIntegration::Int100), 16);
    assert_eq!(word_from_le(0x34, 0x12), 0x1234);
    assert_eq!(word_to_le(0x1234), (0x34, 0x12));
    assert_eq!(VemlRegister::ALSInterruptStatus.to_u8(), 0x06);
}
