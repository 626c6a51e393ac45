use environment_monitor::config::{decode_config, BME68xConf};
use environment_monitor::error::BME68xError;
use environment_monitor::session::{BusRequest, ConfigSession};
use environment_monitor::settings::{BME68xFilter, BME68xODR, BME68xOs};

/// A register file whose mode field reaches sleep `lag` polls after sleep
/// was requested.
struct Device {
    regs: [u8; 256],
    lag: u32,
    pending_sleep: Option<u32>,
    log: Vec<(u8, u8)>,
}

impl Device {
    fn new(ctrl_meas: u8, lag: u32) -> Self {
        let mut regs = [0u8; 256];
        regs[0x71] = 0x5a;
        regs[0x72] = 0xa8;
        regs[0x73] = 0x3c;
        regs[0x74] = ctrl_meas;
        regs[0x75] = 0x61;
        Device { regs, lag, pending_sleep: None, log: Vec::new() }
    }

    fn run(&mut self, conf: &BME68xConf) -> Result<(), BME68xError> {
        let (mut session, mut request) = ConfigSession::new(conf);
        for _ in 0..100 {
            let reply = match request {
                BusRequest::Read { reg, len } => {
                    self.regs[reg as usize..reg as usize + len].to_vec()
                }
                BusRequest::Write { reg_addr, reg_data } => {
                    for (a, d) in reg_addr.iter().zip(reg_data.iter()) {
                        self.log.push((*a, *d));
                        if *a == 0x74 && d & 0x03 == 0 && self.regs[0x74] & 0x03 != 0 {
                            self.regs[0x74] = (self.regs[0x74] & 0x03) | (d & !0x03);
                            if self.pending_sleep.is_none() {
                                self.pending_sleep = Some(self.lag);
                            }
                        } else {
                            self.regs[*a as usize] = *d;
                        }
                    }
                    Vec::new()
                }
                BusRequest::Delay { .. } => {
                    if let Some(n) = self.pending_sleep {
                        if n == 0 {
                            self.regs[0x74] &= !0x03;
                            self.pending_sleep = None;
                        } else {
                            self.pending_sleep = Some(n - 1);
                        }
                    }
                    Vec::new()
                }
                BusRequest::Done => return Ok(()),
            };
            request = session.step(&reply)?;
        }
        panic!("session did not end");
    }
}

fn conf() -> BME68xConf {
    BME68xConf {
        os_hum: BME68xOs::Os1x,
        os_temp: BME68xOs::Os2x,
        os_pres: BME68xOs::Os16x,
        filter: BME68xFilter::Size3,
        odr: BME68xODR::ODR125Ms,
    }
}

#[test]
fn configuration_written_in_sleep_and_mode_restored() {
    let mut dev = Device::new(0b0000_0010, 1);
    dev.run(&conf()).unwrap();
    assert_eq!(decode_config(&dev.regs[0x71..0x76].to_vec()), Ok(conf()));
    assert_eq!(dev.regs[0x74] & 0x03, 0b10);
    let first_config_write = dev.log.iter().position(|(a, _)| *a == 0x71).unwrap();
    assert_eq!(dev.log[0], (0x74, 0x00));
    assert!(first_config_write > 0);
    assert_eq!(dev.log.last().map(|(a, d)| (*a, d & 0x03)), Some((0x74, 0b10)));
    assert_eq!(dev.regs[0x73], 0x3c);
    assert_eq!(dev.regs[0x72] & 0xf8, 0xa8);
}

#[test]
fn configuration_from_sleep_needs_no_mode_write() {
    let mut dev = Device::new(0b1010_0000, 0);
    dev.run(&conf()).unwrap();
    assert_eq!(decode_config(&dev.regs[0x71..0x76].to_vec()), Ok(conf()));
    assert_eq!(dev.log.len(), 5);
    assert!(dev.log.iter().all(|(a, d)| *a != 0x74 || d & 0x03 == 0));
    assert_eq!(dev.regs[0x74] & 0x03, 0);
}

#[test]
fn configuration_fails_when_sleep_is_never_reached() {
    let mut dev = Device::new(0b0000_0001, 1000);
    assert_eq!(dev.run(&conf()), Err(BME68xError::ComFail));
    assert!(dev.log.iter().all(|(a, _)| *a == 0x74));
}

#[test]
fn session_rejects_short_reads() {
    let (mut session, _) = ConfigSession::new(&conf());
    assert_eq!(session.step(&vec![]).err(), Some(BME68xError::InvalidLength));
}
