//! Decisions of the BME68x driver between bus transactions: the register
//! transport (write interleaving, SPI paging), the sleep-first mode switch,
//! device identification and the collection of polled fields.
use vstd::prelude::*;
use crate::error::BME68xError;
use crate::field::{
    count_new, is_new, new_first, order_fields, reorder_from, BME68xField, BME68X_FIELD_POLL_TRIES,
    BME68X_NEW_DATA_MSK,
};
use crate::config::BME68xConf;
use crate::heater::BME68xHeatrConf;
use crate::settings::{
    op_mode_of_code, BME68xFilter, BME68xIntf, BME68xMemPage, BME68xODR, BME68xOpMode, BME68xOs,
};

verus! {

/// Chip unique identifier.
pub const BME68X_CHIP_ID: u8 = 0x61;

/// Soft reset command.
pub const BME68X_SOFT_RESET_CMD: u8 = 0xb6;

/// Wait period after a soft reset, in microseconds.
pub const BME68X_PERIOD_RESET: u32 = 10000;

/// Period between two polls, in microseconds.
pub const BME68X_PERIOD_POLL: u32 = 10000;

/// Number of polls of the mode register while waiting for sleep mode.
pub const BME68X_MODE_POLL_TRIES: u8 = 10;

/// Mask for the operation mode.
pub const BME68X_MODE_MSK: u8 = 0x03;

/// Mask for the SPI memory page.
pub const BME68X_MEM_PAGE_MSK: u8 = 0x10;

/// Mask for reading a register in SPI.
pub const BME68X_SPI_RD_MSK: u8 = 0x80;

/// Mask for writing a register in SPI.
pub const BME68X_SPI_WR_MSK: u8 = 0x7f;

/// Largest number of registers written in one transaction.
pub const BME68X_MAX_WRITE_LEN: usize = 10;

/// Whether the chip-ID register holds the expected identifier.
pub fn check_chip_id(chip_id: u8) -> (r: Result<(), BME68xError>)
    ensures
        chip_id == BME68X_CHIP_ID ==> r == Ok::<(), BME68xError>(()),
        chip_id != BME68X_CHIP_ID ==> r == Err::<(), BME68xError>(BME68xError::DevNotFound),
{
    if chip_id == BME68X_CHIP_ID {
        Ok(())
    } else {
        Err(BME68xError::DevNotFound)
    }
}

/// The address byte sent to read a register over `intf`.
pub fn read_address(reg_addr: u8, intf: BME68xIntf) -> (r: u8)
    ensures
        intf == BME68xIntf::SPIIntf ==> r == reg_addr | 0x80,
        intf == BME68xIntf::I2CIntf ==> r == reg_addr,
{
    match intf {
        BME68xIntf::SPIIntf => reg_addr | BME68X_SPI_RD_MSK,
        BME68xIntf::I2CIntf => reg_addr,
    }
}

/// The address byte sent to write a register over `intf`.
pub open spec fn write_address(reg_addr: u8, intf: BME68xIntf) -> u8 {
    if intf == BME68xIntf::SPIIntf { reg_addr & 0x7f } else { reg_addr }
}

/// The first `n` registers of `addr` and `data` as one write transaction:
/// the address byte and the value of each register, in turn.
pub open spec fn interleaved(addr: Seq<u8>, data: Seq<u8>, intf: BME68xIntf, n: nat) -> Seq<u8>
    decreases n,
{
    if n == 0 {
        seq![]
    } else {
        interleaved(addr, data, intf, (n - 1) as nat).push(
            write_address(addr[n - 1], intf),
        ).push(data[n - 1])
    }
}

/// The bytes of one write transaction: address and value of each register,
/// interleaved. `InvalidLength` unless `len` is between 1 and 10 and both
/// lists hold at least `len` entries.
pub fn interleave_writes(reg_addr: &Vec<u8>, reg_data: &Vec<u8>, len: usize, intf: BME68xIntf) -> (r:
    Result<Vec<u8>, BME68xError>)
    ensures
        (0 < len <= 10 && len <= reg_addr@.len() && len <= reg_data@.len()) ==> r is Ok && r->Ok_0@
            == interleaved(reg_addr@, reg_data@, intf, len as nat),
        !(0 < len <= 10 && len <= reg_addr@.len() && len <= reg_data@.len()) ==> r == Err::<
            Vec<u8>,
            BME68xError,
        >(BME68xError::InvalidLength),
{
    if len == 0 || len > BME68X_MAX_WRITE_LEN || len > reg_addr.len() || len > reg_data.len() {
        return Err(BME68xError::InvalidLength);
    }
    let mut b: Vec<u8> = Vec::new();
    let mut i: usize = 0;
    while i < len
        invariant
            0 < len <= 10,
            len <= reg_addr@.len(),
            len <= reg_data@.len(),
            i <= len,
            b@ == interleaved(reg_addr@, reg_data@, intf, i as nat),
        decreases len - i,
    {
        let a = match intf {
            BME68xIntf::SPIIntf => reg_addr[i] & BME68X_SPI_WR_MSK,
            BME68xIntf::I2CIntf => reg_addr[i],
        };
        b.push(a);
        b.push(reg_data[i]);
        i = i + 1;
    }
    Ok(b)
}

/// The SPI memory page that holds a register.
pub open spec fn page_of(reg_addr: u8) -> BME68xMemPage {
    if reg_addr > 0x7f { BME68xMemPage::Page1 } else { BME68xMemPage::Page0 }
}

/// The page to select before accessing `reg_addr` over SPI, or `None` when the
/// page last selected (`current`) already holds it.
pub fn page_switch(current: BME68xMemPage, reg_addr: u8) -> (r: Option<BME68xMemPage>)
    ensures
        page_of(reg_addr) == current ==> r is None,
        page_of(reg_addr) != current ==> r == Some(page_of(reg_addr)),
{
    let page = if reg_addr > 0x7f {
        BME68xMemPage::Page1
    } else {
        BME68xMemPage::Page0
    };
    if page == current {
        None
    } else {
        Some(page)
    }
}

/// The memory-page register value that selects `page`, merged into the value
/// read from it.
pub fn mem_page_register(current_reg: u8, page: BME68xMemPage) -> (r: u8)
    ensures
        r == (current_reg & !0x10u8) | (page.spec_code() & 0x10),
{
    (current_reg & !BME68X_MEM_PAGE_MSK) | (page.to_u8() & BME68X_MEM_PAGE_MSK)
}

/// The memory page that a memory-page register value selects.
pub fn mem_page_of_register(reg: u8) -> (r: BME68xMemPage)
    ensures
        reg & 0x10 != 0 ==> r == BME68xMemPage::Page0,
        reg & 0x10 == 0 ==> r == BME68xMemPage::Page1,
{
    if reg & BME68X_MEM_PAGE_MSK != 0 {
        BME68xMemPage::Page0
    } else {
        BME68xMemPage::Page1
    }
}

/// The operation mode that the measurement control register holds.
pub fn op_mode_of_register(ctrl_meas: u8) -> (r: BME68xOpMode)
    ensures
        op_mode_of_code(ctrl_meas & 0x03) == Some(r),
{
    let m = ctrl_meas & BME68X_MODE_MSK;
    assert(m < 4) by (bit_vector)
        requires
            m == ctrl_meas & 0x03,
    ;
    match BME68xOpMode::from_u8(m) {
        Ok(mode) => mode,
        Err(_) => BME68xOpMode::SleepMode,
    }
}

/// What to do next while switching the device into a mode.
#[derive(Debug, Clone, Copy, PartialEq, Eq, Structural)]
pub enum ModeStep {
    /// Write this value to the measurement control register to request sleep,
    /// wait a poll period, and read the register again
    WriteSleep(u8),
    /// Write this value to the measurement control register; the switch is then done
    WriteMode(u8),
    /// Nothing to write: the device sleeps and sleep was requested
    Done,
}

/// The next step of a mode switch, given the measurement control register
/// just read and how many polls are left: the device must reach sleep before
/// another mode is written. `ComFail` when it is still awake and no poll is left.
pub fn op_mode_step(ctrl_meas: u8, target: BME68xOpMode, polls_left: u8) -> (r: Result<
    ModeStep,
    BME68xError,
>)
    ensures
        ctrl_meas & 0x03 != 0 && polls_left > 0 ==> r == Ok::<ModeStep, BME68xError>(
            ModeStep::WriteSleep(ctrl_meas & !0x03u8),
        ),
        ctrl_meas & 0x03 != 0 && polls_left == 0 ==> r == Err::<ModeStep, BME68xError>(
            BME68xError::ComFail,
        ),
        ctrl_meas & 0x03 == 0 && target == BME68xOpMode::SleepMode ==> r == Ok::<
            ModeStep,
            BME68xError,
        >(ModeStep::Done),
        ctrl_meas & 0x03 == 0 && target != BME68xOpMode::SleepMode ==> r == Ok::<
            ModeStep,
            BME68xError,
        >(ModeStep::WriteMode((ctrl_meas & !0x03u8) | (target.spec_code() & 0x03))),
{
    if ctrl_meas & BME68X_MODE_MSK != 0 {
        if polls_left == 0 {
            Err(BME68xError::ComFail)
        } else {
            Ok(ModeStep::WriteSleep(ctrl_meas & !BME68X_MODE_MSK))
        }
    } else if target == BME68xOpMode::SleepMode {
        Ok(ModeStep::Done)
    } else {
        Ok(ModeStep::WriteMode((ctrl_meas & !BME68X_MODE_MSK) | (target.to_u8() & BME68X_MODE_MSK)))
    }
}

/// What to do after polling the field of a forced measurement.
#[derive(Debug, Clone, Copy, PartialEq, Eq, Structural)]
pub enum FieldPoll {
    /// The field holds new data
    Ready,
    /// Wait a poll period and read the field again
    PollAgain,
    /// No poll is left: there is no new data
    GiveUp,
}

/// The next step after the `polls_done`-th read of a forced-mode field
/// (counting from 1): at most five reads are made.
pub fn field_poll_action(field: &BME68xField, polls_done: u8) -> (r: FieldPoll)
    ensures
        is_new(*field) ==> r == FieldPoll::Ready,
        !is_new(*field) && polls_done < BME68X_FIELD_POLL_TRIES ==> r == FieldPoll::PollAgain,
        !is_new(*field) && polls_done >= BME68X_FIELD_POLL_TRIES ==> r == FieldPoll::GiveUp,
{
    if field.status & BME68X_NEW_DATA_MSK != 0 {
        FieldPoll::Ready
    } else if polls_done < BME68X_FIELD_POLL_TRIES {
        FieldPoll::PollAgain
    } else {
        FieldPoll::GiveUp
    }
}

/// The fields of a poll in `op_mode`, in temporal order, with the number that
/// carry new data (they come first). Forced mode reads one field, parallel
/// and sequential modes three. `DefineOpMode` in sleep mode, `InvalidLength`
/// for a wrong number of fields, `NoNewData` when no field carries new data.
pub fn collect_fields(op_mode: BME68xOpMode, fields: Vec<BME68xField>) -> (r: Result<
    (Vec<BME68xField>, u8),
    BME68xError,
>)
    ensures
        op_mode == BME68xOpMode::SleepMode ==> r == Err::<(Vec<BME68xField>, u8), BME68xError>(
            BME68xError::DefineOpMode,
        ),
        op_mode == BME68xOpMode::ForcedMode ==> {
            &&& fields@.len() != 1 ==> r == Err::<(Vec<BME68xField>, u8), BME68xError>(
                BME68xError::InvalidLength,
            )
            &&& fields@.len() == 1 && !is_new(fields@[0]) ==> r == Err::<
                (Vec<BME68xField>, u8),
                BME68xError,
            >(BME68xError::NoNewData)
            &&& fields@.len() == 1 && is_new(fields@[0]) ==> (r matches Ok((v, n)) && v@
                == fields@ && n == 1)
        },
        (op_mode == BME68xOpMode::ParallelMode || op_mode == BME68xOpMode::SequentialMode) ==> {
            &&& fields@.len() != 3 ==> r == Err::<(Vec<BME68xField>, u8), BME68xError>(
                BME68xError::InvalidLength,
            )
            &&& fields@.len() == 3 && count_new(fields@) == 0 ==> r == Err::<
                (Vec<BME68xField>, u8),
                BME68xError,
            >(BME68xError::NoNewData)
            &&& fields@.len() == 3 && count_new(fields@) > 0 ==> (r matches Ok((v, n)) && v@
                == reorder_from(fields@, 0) && n == count_new(fields@) && new_first(v@))
        },
{
    match op_mode {
        BME68xOpMode::SleepMode => Err(BME68xError::DefineOpMode),
        BME68xOpMode::ForcedMode => {
            if fields.len() != 1 {
                Err(BME68xError::InvalidLength)
            } else if fields[0].status & BME68X_NEW_DATA_MSK == 0 {
                Err(BME68xError::NoNewData)
            } else {
                Ok((fields, 1))
            }
        },
        _ => {
            if fields.len() != 3 {
                return Err(BME68xError::InvalidLength);
            }
            let mut fields = fields;
            let n = order_fields(&mut fields);
            if n == 0 {
                Err(BME68xError::NoNewData)
            } else {
                Ok((fields, n))
            }
        },
    }
}

/// Self-test heater duration of the first measurement, in milliseconds.
pub const BME68X_HEATR_DUR1: u16 = 1000;

/// Self-test heater duration of the later measurements, in milliseconds.
pub const BME68X_HEATR_DUR2: u16 = 2000;

/// Self-test low heater temperature, in degrees Celsius.
pub const BME68X_LOW_TEMP: u16 = 150;

/// Self-test high heater temperature, in degrees Celsius.
pub const BME68X_HIGH_TEMP: u16 = 350;

/// Number of self-test measurements analysed.
pub const BME68X_N_MEAS: usize = 6;

/// Wait for the first self-test measurement, in microseconds.
pub const BME68X_HEATR_DUR1_DELAY: u32 = 1000000;

/// Wait for each later self-test measurement, in microseconds.
pub const BME68X_HEATR_DUR2_DELAY: u32 = 2000000;

/// The configuration the self test measures with.
pub fn selftest_conf() -> (r: BME68xConf)
    ensures
        r == (BME68xConf {
            os_hum: BME68xOs::Os1x,
            os_temp: BME68xOs::Os2x,
            os_pres: BME68xOs::Os16x,
            filter: BME68xFilter::Off,
            odr: BME68xODR::ODR059Ms,
        }),
{
    BME68xConf {
        os_hum: BME68xOs::Os1x,
        os_temp: BME68xOs::Os2x,
        os_pres: BME68xOs::Os16x,
        filter: BME68xFilter::Off,
        odr: BME68xODR::ODR059Ms,
    }
}

/// The forced-mode heater configuration of a self-test measurement: the first
/// (`None`) heats to the high temperature for the short duration; sample `i`
/// of the analysed series heats for the long duration, to the high
/// temperature when `i` is even and to the low one when it is odd.
pub fn selftest_heater_conf(sample: Option<usize>) -> (r: BME68xHeatrConf)
    ensures
        r.enable,
        r.profile_len == 0,
        r.shared_heatr_dur == 0,
        sample is None ==> r.heatr_dur == BME68X_HEATR_DUR1 && r.heatr_temp == BME68X_HIGH_TEMP,
        sample matches Some(i) ==> r.heatr_dur == BME68X_HEATR_DUR2 && r.heatr_temp == (if i % 2
            == 0 {
            BME68X_HIGH_TEMP
        } else {
            BME68X_LOW_TEMP
        }),
{
    let mut conf = BME68xHeatrConf::new();
    conf.enable = true;
    match sample {
        None => {
            conf.heatr_dur = BME68X_HEATR_DUR1;
            conf.heatr_temp = BME68X_HIGH_TEMP;
        },
        Some(i) => {
            conf.heatr_dur = BME68X_HEATR_DUR2;
            conf.heatr_temp = if i % 2 == 0 {
                BME68X_HIGH_TEMP
            } else {
                BME68X_LOW_TEMP
            };
        },
    }
    conf
}

/// Whether the first self-test measurement shows a working heater: its
/// current DAC is neither 0x00 nor 0xff and the gas measurement is valid.
pub fn selftest_heater_ok(field: &BME68xField) -> (r: bool)
    ensures
        r == (field.idac != 0x00 && field.idac != 0xff && field.status & 0x20 != 0),
{
    field.idac != 0x00 && field.idac != 0xff && (field.status & 0x20) != 0
}

/// The heater profile read back from the ten heater-resistance registers and
/// the ten gas-wait registers, as raw register bytes; `InvalidLength` unless
/// both blocks hold ten bytes.
pub fn heater_conf_from_registers(res_heat: &Vec<u8>, gas_wait: &Vec<u8>) -> (r: Result<
    BME68xHeatrConf,
    BME68xError,
>)
    ensures
        (res_heat@.len() == 10 && gas_wait@.len() == 10) ==> (r matches Ok(c) && !c.enable
            && c.heatr_temp == 0 && c.heatr_dur == 0 && c.profile_len == 0 && c.shared_heatr_dur
            == 0 && forall|i: int|
            0 <= i < 10 ==> c.heatr_temp_prof@[i] == res_heat@[i] && c.heatr_dur_prof@[i]
                == gas_wait@[i]),
        !(res_heat@.len() == 10 && gas_wait@.len() == 10) ==> r == Err::<
            BME68xHeatrConf,
            BME68xError,
        >(BME68xError::InvalidLength),
{
    if res_heat.len() != 10 || gas_wait.len() != 10 {
        return Err(BME68xError::InvalidLength);
    }
    let mut conf = BME68xHeatrConf::new();
    let mut i: usize = 0;
    while i < 10
        invariant
            res_heat@.len() == 10,
            gas_wait@.len() == 10,
            i <= 10,
            !conf.enable,
            conf.heatr_temp == 0,
            conf.heatr_dur == 0,
            conf.profile_len == 0,
            conf.shared_heatr_dur == 0,
            forall|k: int|
                0 <= k < i ==> conf.heatr_temp_prof@[k] == res_heat@[k] && conf.heatr_dur_prof@[k]
                    == gas_wait@[k],
        decreases 10 - i,
    {
        conf.heatr_temp_prof[i] = res_heat[i] as u16;
        conf.heatr_dur_prof[i] = gas_wait[i] as u16;
        i = i + 1;
    }
    Ok(conf)
}

} // verus!
