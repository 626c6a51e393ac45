//! The configuration write as a session: the decisions between the bus
//! transactions of a configuration change, which put the device to sleep,
//! merge the new configuration into the configuration registers, and restore
//! the mode the device was in. The caller performs each requested transaction
//! and hands back what it read.
use vstd::prelude::*;
use crate::config::{
    config_register_addresses, config_register_values, registers_with_conf, BME68xConf,
    BME68X_LEN_CONFIG,
};
use crate::driver::{
    op_mode_of_register, op_mode_step, ModeStep, BME68X_MODE_POLL_TRIES, BME68X_PERIOD_POLL,
};
use crate::error::BME68xError;
use crate::settings::{op_mode_of_code, BME68xOpMode, BME68xRegister};

verus! {

/// A bus transaction that a session asks for.
#[derive(Debug)]
pub enum BusRequest {
    /// Read `len` registers from `reg` on, and hand the bytes back
    Read { reg: u8, len: usize },
    /// Write `reg_data[i]` to `reg_addr[i]` for every `i`, and hand back nothing
    Write { reg_addr: Vec<u8>, reg_data: Vec<u8> },
    /// Wait `us` microseconds, and hand back nothing
    Delay { us: u32 },
    /// The session is over
    Done,
}

/// The content of a request, for contracts.
pub enum RequestView {
    /// Read `len` registers from `reg` on
    Read { reg: u8, len: nat },
    /// Write `reg_data[i]` to `reg_addr[i]` for every `i`
    Write { reg_addr: Seq<u8>, reg_data: Seq<u8> },
    /// Wait `us` microseconds
    Delay { us: u32 },
    /// The session is over
    Done,
}

impl View for BusRequest {
    type V = RequestView;

    open spec fn view(&self) -> RequestView {
        match self {
            BusRequest::Read { reg, len } => RequestView::Read { reg: *reg, len: *len as nat },
            BusRequest::Write { reg_addr, reg_data } => RequestView::Write {
                reg_addr: reg_addr@,
                reg_data: reg_data@,
            },
            BusRequest::Delay { us } => RequestView::Delay { us: *us },
            BusRequest::Done => RequestView::Done,
        }
    }
}

/// The content of a step's outcome.
pub open spec fn outcome(r: Result<BusRequest, BME68xError>) -> Result<RequestView, BME68xError> {
    match r {
        Ok(req) => Ok(req@),
        Err(e) => Err(e),
    }
}

/// The request after the device reached the mode of a switch.
pub open spec fn after_switch_view(next: AfterSwitch) -> RequestView {
    if next == AfterSwitch::WriteConfig {
        RequestView::Read { reg: 0x71, len: 5 }
    } else {
        RequestView::Done
    }
}

/// The request after reading the measurement control register `ctrl_meas`
/// during a switch to `target` with `polls_left` polls left.
pub open spec fn mode_switch_view(
    ctrl_meas: u8,
    target: BME68xOpMode,
    polls_left: u8,
    next: AfterSwitch,
) -> Result<RequestView, BME68xError> {
    if ctrl_meas & 0x03 != 0 {
        if polls_left == 0 {
            Err(BME68xError::ComFail)
        } else {
            Ok(RequestView::Write { reg_addr: seq![0x74u8], reg_data: seq![ctrl_meas & !0x03u8] })
        }
    } else if target == BME68xOpMode::SleepMode {
        Ok(after_switch_view(next))
    } else {
        Ok(
            RequestView::Write {
                reg_addr: seq![0x74u8],
                reg_data: seq![(ctrl_meas & !0x03u8) | (target.spec_code() & 0x03)],
            },
        )
    }
}

/// The outcome of a step from `phase` of a session writing `conf`, given the
/// reply to the last request.
pub open spec fn step_view(phase: ConfigPhase, conf: BME68xConf, reply: Seq<u8>) -> Result<
    RequestView,
    BME68xError,
> {
    match phase {
        ConfigPhase::ReadMode => if reply.len() != 1 {
            Err(BME68xError::InvalidLength)
        } else {
            mode_switch_view(reply[0], BME68xOpMode::SleepMode, 10, AfterSwitch::WriteConfig)
        },
        ConfigPhase::ModeCheck { target, polls_left, next } => if reply.len() != 1 {
            Err(BME68xError::InvalidLength)
        } else {
            mode_switch_view(reply[0], target, polls_left, next)
        },
        ConfigPhase::SleepWritten { .. } => Ok(RequestView::Delay { us: 10000 }),
        ConfigPhase::SleepWaited { .. } => Ok(RequestView::Read { reg: 0x74, len: 1 }),
        ConfigPhase::ModeWritten { next } => Ok(after_switch_view(next)),
        ConfigPhase::ReadConfig => if reply.len() != 5 {
            Err(BME68xError::InvalidLength)
        } else {
            Ok(
                RequestView::Write {
                    reg_addr: seq![0x71u8, 0x72u8, 0x73u8, 0x74u8, 0x75u8],
                    reg_data: registers_with_conf(reply, conf),
                },
            )
        },
        ConfigPhase::ConfigWritten => Ok(RequestView::Read { reg: 0x74, len: 1 }),
        ConfigPhase::Finished => Err(BME68xError::DefineOpMode),
    }
}

/// What a session does once the device reached the mode it switches to.
#[derive(Debug, Clone, Copy, PartialEq, Eq, Structural)]
pub enum AfterSwitch {
    /// Read the configuration registers, then write them
    WriteConfig,
    /// End the session
    Finish,
}

/// Where a configuration session stands.
#[derive(Debug, Clone, Copy, PartialEq, Eq, Structural)]
pub enum ConfigPhase {
    /// Waiting for the measurement control register, to learn the current mode
    ReadMode,
    /// Waiting for the measurement control register during a mode switch
    ModeCheck { target: BME68xOpMode, polls_left: u8, next: AfterSwitch },
    /// Waiting for the write that requested sleep during a mode switch
    SleepWritten { target: BME68xOpMode, polls_left: u8, next: AfterSwitch },
    /// Waiting for the poll period to pass during a mode switch
    SleepWaited { target: BME68xOpMode, polls_left: u8, next: AfterSwitch },
    /// Waiting for the write of the target mode
    ModeWritten { next: AfterSwitch },
    /// Waiting for the configuration registers
    ReadConfig,
    /// Waiting for the write of the configuration registers
    ConfigWritten,
    /// Over
    Finished,
}

/// A configuration change in progress.
pub struct ConfigSession {
    /// The configuration to write
    conf: BME68xConf,
    /// The mode to restore
    prev: BME68xOpMode,
    /// Where the session stands
    phase: ConfigPhase,
    /// Whether the device was last seen asleep, with no mode written since
    asleep: Ghost<bool>,
    /// Whether the configuration registers were written
    written: Ghost<bool>,
}

impl ConfigSession {
    /// The configuration the session writes.
    pub closed spec fn conf(self) -> BME68xConf {
        self.conf
    }

    /// The mode the session restores.
    pub closed spec fn prev(self) -> BME68xOpMode {
        self.prev
    }

    /// Where the session stands.
    pub closed spec fn phase(self) -> ConfigPhase {
        self.phase
    }

    /// Whether the device was last seen asleep, with no mode written since.
    pub closed spec fn asleep(self) -> bool {
        self.asleep@
    }

    /// Whether the configuration registers were written.
    pub closed spec fn written(self) -> bool {
        self.written@
    }

    /// The session's own consistency: the configuration is read and written
    /// only while the device is asleep, and the session switches to the
    /// mode to restore only after writing it.
    pub closed spec fn wf(self) -> bool {
        match self.phase {
            ConfigPhase::ReadMode => !self.written@,
            ConfigPhase::ModeCheck { target, next, .. } => self.switch_ok(target, next),
            ConfigPhase::SleepWritten { target, next, .. } => self.switch_ok(target, next),
            ConfigPhase::SleepWaited { target, next, .. } => self.switch_ok(target, next),
            ConfigPhase::ModeWritten { next } => next == AfterSwitch::Finish && self.written@,
            ConfigPhase::ReadConfig => self.asleep@ && !self.written@,
            ConfigPhase::ConfigWritten => self.asleep@ && self.written@,
            ConfigPhase::Finished => self.written@,
        }
    }

    /// A switch to `target` is either the one to sleep before the
    /// configuration is written, or the one back to the previous mode after.
    pub closed spec fn switch_ok(self, target: BME68xOpMode, next: AfterSwitch) -> bool {
        if next == AfterSwitch::WriteConfig {
            target == BME68xOpMode::SleepMode && !self.written@
        } else {
            target == self.prev && self.written@
        }
    }

    /// Start writing `conf`: the session first asks for the measurement
    /// control register.
    pub fn new(conf: &BME68xConf) -> (r: (ConfigSession, BusRequest))
        ensures
            r.0.wf(),
            r.0.conf() == *conf,
            r.0.phase() == ConfigPhase::ReadMode,
            !r.0.written(),
            r.1 matches BusRequest::Read { reg, len } && reg == 0x74 && len == 1,
    {
        (
            ConfigSession {
                conf: *conf,
                prev: BME68xOpMode::SleepMode,
                phase: ConfigPhase::ReadMode,
                asleep: Ghost(false),
                written: Ghost(false),
            },
            BusRequest::Read { reg: BME68xRegister::CtrlMeas.to_u8(), len: 1 },
        )
    }

    /// The request after the device reached the mode of a switch.
    fn after_switch(&mut self, next: AfterSwitch) -> (r: BusRequest)
        requires
            next == AfterSwitch::WriteConfig ==> old(self).asleep() && !old(self).written(),
            next == AfterSwitch::Finish ==> old(self).written(),
            (old(self).phase() is ReadConfig || old(self).phase() is ConfigWritten) ==> old(
                self,
            ).asleep(),
        ensures
            final(self).conf() == old(self).conf(),
            final(self).prev() == old(self).prev(),
            final(self).asleep() == old(self).asleep(),
            final(self).written() == old(self).written(),
            r@ == after_switch_view(next),
            next == AfterSwitch::WriteConfig ==> final(self).phase() == ConfigPhase::ReadConfig
                && (r matches BusRequest::Read { reg, len } && reg == 0x71 && len == 5),
            next == AfterSwitch::Finish ==> final(self).phase() == ConfigPhase::Finished
                && r is Done,
    {
        match next {
            AfterSwitch::WriteConfig => {
                self.phase = ConfigPhase::ReadConfig;
                BusRequest::Read { reg: BME68xRegister::CtrlGas1.to_u8(), len: BME68X_LEN_CONFIG }
            },
            AfterSwitch::Finish => {
                self.phase = ConfigPhase::Finished;
                BusRequest::Done
            },
        }
    }

    /// Check the measurement control register during a switch to `target`.
    fn check_mode(&mut self, ctrl_meas: u8, target: BME68xOpMode, polls_left: u8, next: AfterSwitch) -> (r:
        Result<BusRequest, BME68xError>)
        requires
            old(self).wf(),
            next == AfterSwitch::WriteConfig ==> target == BME68xOpMode::SleepMode && !old(
                self,
            ).written(),
            next == AfterSwitch::Finish ==> target == old(self).prev() && old(self).written(),
        ensures
            r is Ok ==> final(self).wf(),
            final(self).conf() == old(self).conf(),
            final(self).prev() == old(self).prev(),
            final(self).written() == old(self).written(),
            outcome(r) == mode_switch_view(ctrl_meas, target, polls_left, next),
            r matches Ok(BusRequest::Done) ==> final(self).written(),
            r matches Ok(BusRequest::Write { reg_addr, reg_data }) ==> reg_addr@ == seq![0x74u8]
                && reg_data@.len() == 1 && (reg_data@[0] & 0x03 == 0 || (next
                == AfterSwitch::Finish && final(self).phase() == (ConfigPhase::ModeWritten {
                next,
            }) && op_mode_of_code(reg_data@[0] & 0x03) == Some(target))),
    {
        let ghost sleeping = ctrl_meas & 0x03 == 0;
        let step = match op_mode_step(ctrl_meas, target, polls_left) {
            Ok(step) => step,
            Err(e) => {
                return Err(e);
            },
        };
        match step {
            ModeStep::WriteSleep(value) => {
                assert(value & 0x03 == 0) by (bit_vector)
                    requires
                        value == ctrl_meas & !0x03u8,
                ;
                self.asleep = Ghost(false);
                self.phase = ConfigPhase::SleepWritten { target, polls_left, next };
                let reg_addr = vec![BME68xRegister::CtrlMeas.to_u8()];
                let reg_data = vec![value];
                assert(reg_addr@ =~= seq![0x74u8]);
                assert(reg_data@ =~= seq![value]);
                Ok(BusRequest::Write { reg_addr, reg_data })
            },
            ModeStep::WriteMode(value) => {
                let t = target.to_u8();
                assert(t < 4);
                assert(((ctrl_meas & !0x03u8) | (t & 0x03)) & 0x03 == t) by (bit_vector)
                    requires
                        t < 4,
                ;
                self.asleep = Ghost(false);
                self.phase = ConfigPhase::ModeWritten { next };
                let reg_addr = vec![BME68xRegister::CtrlMeas.to_u8()];
                let reg_data = vec![value];
                assert(reg_addr@ =~= seq![0x74u8]);
                assert(reg_data@ =~= seq![value]);
                Ok(BusRequest::Write { reg_addr, reg_data })
            },
            ModeStep::Done => {
                self.asleep = Ghost(sleeping);
                Ok(self.after_switch(next))
            },
        }
    }

    /// Take the reply to the last request, and return the next request.
    /// `reply` holds the bytes read for a `Read`, and is ignored otherwise.
    /// Fails with `InvalidLength` when a read handed back another number of
    /// bytes than asked, `CastError` when the configuration registers hold an
    /// unknown code, `ComFail` when the device does not reach sleep within
    /// the polls allowed; and with `DefineOpMode` when the session is over.
    pub fn step(&mut self, reply: &Vec<u8>) -> (r: Result<BusRequest, BME68xError>)
        requires
            old(self).wf(),
        ensures
            outcome(r) == step_view(old(self).phase(), old(self).conf(), reply@),
            r is Ok ==> final(self).wf(),
            final(self).conf() == old(self).conf(),
            old(self).phase() is ReadMode && reply@.len() == 1 ==> final(self).prev()
                == op_mode_of_code(reply@[0] & 0x03)->0,
            !(old(self).phase() is ReadMode) ==> final(self).prev() == old(self).prev(),
            r matches Ok(BusRequest::Write { reg_addr, reg_data }) ==> (
            // the configuration registers are written only while the device
            // sleeps, exactly once, with the configuration merged into what
            // was read from them
            (reg_addr@ == seq![0x71u8, 0x72u8, 0x73u8, 0x74u8, 0x75u8] && old(self).phase()
                is ReadConfig && old(self).asleep() && !old(self).written() && final(self).written()
                && reply@.len() == 5 && reg_data@ == registers_with_conf(reply@, old(self).conf()))
                ||
            // the mode register is written to request sleep, or, once the
            // configuration is written, to restore the previous mode
            (reg_addr@ == seq![0x74u8] && reg_data@.len() == 1 && (reg_data@[0] & 0x03 == 0 || (
            old(self).written() && op_mode_of_code(reg_data@[0] & 0x03) == Some(
                old(self).prev(),
            ))))),
            r matches Ok(BusRequest::Done) ==> final(self).written(),
    {
        match self.phase {
            ConfigPhase::ReadMode => {
                if reply.len() != 1 {
                    return Err(BME68xError::InvalidLength);
                }
                self.prev = op_mode_of_register(reply[0]);
                self.check_mode(
                    reply[0],
                    BME68xOpMode::SleepMode,
                    BME68X_MODE_POLL_TRIES,
                    AfterSwitch::WriteConfig,
                )
            },
            ConfigPhase::ModeCheck { target, polls_left, next } => {
                if reply.len() != 1 {
                    return Err(BME68xError::InvalidLength);
                }
                self.check_mode(reply[0], target, polls_left, next)
            },
            ConfigPhase::SleepWritten { target, polls_left, next } => {
                self.phase = ConfigPhase::SleepWaited { target, polls_left, next };
                Ok(BusRequest::Delay { us: BME68X_PERIOD_POLL })
            },
            ConfigPhase::SleepWaited { target, polls_left, next } => {
                let left = if polls_left > 0 {
                    polls_left - 1
                } else {
                    0
                };
                self.phase = ConfigPhase::ModeCheck { target, polls_left: left, next };
                Ok(BusRequest::Read { reg: BME68xRegister::CtrlMeas.to_u8(), len: 1 })
            },
            ConfigPhase::ModeWritten { next } => {
                Ok(self.after_switch(next))
            },
            ConfigPhase::ReadConfig => {
                if reply.len() != BME68X_LEN_CONFIG {
                    return Err(BME68xError::InvalidLength);
                }
                let data = config_register_values(reply, &self.conf);
                self.written = Ghost(true);
                self.phase = ConfigPhase::ConfigWritten;
                Ok(BusRequest::Write { reg_addr: config_register_addresses(), reg_data: data })
            },
            ConfigPhase::ConfigWritten => {
                self.phase = ConfigPhase::ModeCheck {
                    target: self.prev,
                    polls_left: BME68X_MODE_POLL_TRIES,
                    next: AfterSwitch::Finish,
                };
                Ok(BusRequest::Read { reg: BME68xRegister::CtrlMeas.to_u8(), len: 1 })
            },
            ConfigPhase::Finished => Err(BME68xError::DefineOpMode),
        }
    }
}

} // verus!
