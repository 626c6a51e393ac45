//! Measurement fields: unpacking the raw field registers, the status bits, and
//! restoring the temporal order of the buffered fields of parallel and
//! sequential mode.
use vstd::prelude::*;
use crate::error::BME68xError;
use crate::settings::{BME68xOpMode, BME68xVariant};

verus! {

/// Length of one field.
pub const BME68X_LEN_FIELD: usize = 17;

/// Number of fields the device buffers.
pub const BME68X_N_FIELDS: usize = 3;

/// Length of the heater settings block read from the current DAC of step 0:
/// ten current DAC bytes, ten heater resistance bytes, ten gas wait bytes.
pub const BME68X_LEN_HEATER_SETTINGS: usize = 30;

/// Mask for new data.
pub const BME68X_NEW_DATA_MSK: u8 = 0x80;

/// Mask for gas index.
pub const BME68X_GAS_INDEX_MSK: u8 = 0x0f;

/// Mask for gas range.
pub const BME68X_GAS_RANGE_MSK: u8 = 0x0f;

/// Mask for gas measurement valid.
pub const BME68X_GASM_VALID_MSK: u8 = 0x20;

/// Mask for heater stability.
pub const BME68X_HEAT_STAB_MSK: u8 = 0x10;

/// Number of polls of a forced-mode field before giving up.
pub const BME68X_FIELD_POLL_TRIES: u8 = 5;

/// One buffered measurement: status, indices and raw ADC counts.
#[derive(Debug, Clone, Copy, PartialEq, Eq, Structural)]
pub struct BME68xField {
    /// Status bits: new data, gas measurement valid, heater stable
    pub status: u8,
    /// Index of the heater profile step in use
    pub gas_index: u8,
    /// Measurement index, to track the order of the fields
    pub meas_index: u8,
    /// Heater resistance byte of the step
    pub res_heat: u8,
    /// Current DAC byte of the step
    pub idac: u8,
    /// Gas wait byte of the step
    pub gas_wait: u8,
    /// Raw pressure count (20 bits)
    pub adc_pres: u32,
    /// Raw temperature count (20 bits)
    pub adc_temp: u32,
    /// Raw humidity count (16 bits)
    pub adc_hum: u32,
    /// Raw gas resistance count (10 bits) of the device's gas variant
    pub adc_gas_res: u16,
    /// Gas range (4 bits) of the device's gas variant
    pub gas_range: u8,
}

/// Whether a field carries new data.
pub open spec fn is_new(f: BME68xField) -> bool {
    f.status & 0x80 != 0
}

/// The field that the 17 bytes of `b` from `off` on hold, before the heater
/// settings of its step are known.
pub open spec fn field_of(b: Seq<u8>, off: int, variant: BME68xVariant) -> BME68xField {
    let g = if variant == BME68xVariant::GasHigh { off + 15 } else { off + 13 };
    BME68xField {
        status: (b[off] & 0x80) | (b[g + 1] & 0x20) | (b[g + 1] & 0x10),
        gas_index: b[off] & 0x0f,
        meas_index: b[off + 1],
        res_heat: 0,
        idac: 0,
        gas_wait: 0,
        adc_pres: (b[off + 2] as int * 4096 + b[off + 3] as int * 16 + b[off + 4] as int / 16) as u32,
        adc_temp: (b[off + 5] as int * 4096 + b[off + 6] as int * 16 + b[off + 7] as int / 16) as u32,
        adc_hum: (b[off + 8] as int * 256 + b[off + 9] as int) as u32,
        adc_gas_res: (b[g] as int * 4 + b[g + 1] as int / 64) as u16,
        gas_range: b[g + 1] & 0x0f,
    }
}

/// Unpack the field whose 17 bytes start at `off` in `buff`.
pub fn parse_field(buff: &Vec<u8>, off: usize, variant: BME68xVariant) -> (r: BME68xField)
    requires
        off + BME68X_LEN_FIELD <= buff@.len(),
    ensures
        r == field_of(buff@, off as int, variant),
{
    let _ = buff.len();
    let _ = buff.len();
    let g = if variant == BME68xVariant::GasHigh {
        off + 15
    } else {
        off + 13
    };
    let gas_lsb = buff[g + 1];
    BME68xField {
        status: (buff[off] & BME68X_NEW_DATA_MSK) | (gas_lsb & BME68X_GASM_VALID_MSK) | (gas_lsb
            & BME68X_HEAT_STAB_MSK),
        gas_index: buff[off] & BME68X_GAS_INDEX_MSK,
        meas_index: buff[off + 1],
        res_heat: 0,
        idac: 0,
        gas_wait: 0,
        adc_pres: (buff[off + 2] as u32) * 4096 + (buff[off + 3] as u32) * 16 + (buff[off + 4]
            as u32) / 16,
        adc_temp: (buff[off + 5] as u32) * 4096 + (buff[off + 6] as u32) * 16 + (buff[off + 7]
            as u32) / 16,
        adc_hum: (buff[off + 8] as u32) * 256 + (buff[off + 9] as u32),
        adc_gas_res: (buff[g] as u16) * 4 + (gas_lsb as u16) / 64,
        gas_range: gas_lsb & BME68X_GAS_RANGE_MSK,
    }
}

/// `f` with the heater settings of its step taken from the 30-byte heater
/// settings block `s`.
pub open spec fn with_heater_settings(f: BME68xField, s: Seq<u8>) -> BME68xField {
    BME68xField {
        idac: s[f.gas_index as int],
        res_heat: s[10 + f.gas_index],
        gas_wait: s[20 + f.gas_index],
        ..f
    }
}

/// Unpack the three buffered fields of a 51-byte burst, each with the heater
/// settings of its step from the 30-byte heater settings block.
/// `InvalidLength` when a block has another length or a field names a
/// heater step beyond the tenth.
pub fn parse_all_fields(buff: &Vec<u8>, settings: &Vec<u8>, variant: BME68xVariant) -> (r:
    Result<Vec<BME68xField>, BME68xError>)
    ensures
        (buff@.len() == 3 * BME68X_LEN_FIELD && settings@.len() == BME68X_LEN_HEATER_SETTINGS
            && forall|i: int| 0 <= i < 3 ==> #[trigger] field_of(buff@, 17 * i, variant).gas_index
            < 10) ==> (r matches Ok(v) && v@.len() == 3 && forall|i: int|
            0 <= i < 3 ==> v@[i] == with_heater_settings(
                field_of(buff@, 17 * i, variant),
                settings@,
            )),
        !(buff@.len() == 3 * BME68X_LEN_FIELD && settings@.len() == BME68X_LEN_HEATER_SETTINGS
            && forall|i: int| 0 <= i < 3 ==> #[trigger] field_of(buff@, 17 * i, variant).gas_index
            < 10) ==> r == Err::<Vec<BME68xField>, BME68xError>(BME68xError::InvalidLength),
{
    if buff.len() != 3 * BME68X_LEN_FIELD || settings.len() != BME68X_LEN_HEATER_SETTINGS {
        return Err(BME68xError::InvalidLength);
    }
    let mut v: Vec<BME68xField> = Vec::new();
    let mut i: usize = 0;
    while i < BME68X_N_FIELDS
        invariant
            buff@.len() == 51,
            settings@.len() == 30,
            i <= 3,
            v@.len() == i,
            forall|k: int| 0 <= k < i ==> (#[trigger] field_of(buff@, 17 * k, variant)).gas_index < 10,
            forall|k: int|
                0 <= k < i ==> v@[k] == with_heater_settings(
                    field_of(buff@, 17 * k, variant),
                    settings@,
                ),
        decreases 3 - i,
    {
        let f = parse_field(buff, i * BME68X_LEN_FIELD, variant);
        if f.gas_index >= 10 {
            assert(field_of(buff@, 17 * i, variant).gas_index >= 10);
            return Err(BME68xError::InvalidLength);
        }
        let step = f.gas_index as usize;
        v.push(
            BME68xField {
                idac: settings[step],
                res_heat: settings[10 + step],
                gas_wait: settings[20 + step],
                ..f
            },
        );
        i = i + 1;
    }
    Ok(v)
}

/// `s` with the entries at `i` and `j` exchanged.
pub open spec fn swapped(s: Seq<BME68xField>, i: int, j: int) -> Seq<BME68xField> {
    s.update(i, s[j]).update(j, s[i])
}

/// Whether the fields at `lo` and `hi` are out of order: either only the later
/// slot holds new data, or both do and the measurement index of the later slot
/// is one or two behind, or more than two ahead (the index wraps at 256).
pub open spec fn out_of_order(a: BME68xField, b: BME68xField) -> bool {
    if is_new(a) && is_new(b) {
        let diff = b.meas_index as int - a.meas_index as int;
        (-3 < diff < 0) || diff > 2
    } else {
        is_new(b)
    }
}

/// One compare-and-exchange of the slots `lo` and `hi`.
pub open spec fn sort_pair(s: Seq<BME68xField>, lo: int, hi: int) -> Seq<BME68xField> {
    if out_of_order(s[lo], s[hi]) {
        swapped(s, lo, hi)
    } else {
        s
    }
}

/// One reordering pass over the pairs of the three slots.
pub open spec fn reorder_pass(s: Seq<BME68xField>) -> Seq<BME68xField> {
    sort_pair(sort_pair(sort_pair(s, 0, 1), 0, 2), 1, 2)
}

/// The reordering of a poll: a pass for every slot, from the first, that holds
/// new data when it is reached.
pub open spec fn reorder_from(s: Seq<BME68xField>, i: nat) -> Seq<BME68xField>
    decreases 3 - i,
{
    if i >= 3 {
        s
    } else if is_new(s[i as int]) {
        reorder_from(reorder_pass(s), i + 1)
    } else {
        reorder_from(s, i + 1)
    }
}

/// The number of fields of `s` that carry new data.
pub open spec fn count_new(s: Seq<BME68xField>) -> nat {
    (if is_new(s[0]) { 1nat } else { 0nat }) + (if is_new(s[1]) { 1nat } else { 0nat }) + (
    if is_new(s[2]) {
        1nat
    } else {
        0nat
    })
}

/// Compare the fields at `low_index` and `high_index` and exchange them when
/// they are out of order.
pub fn sort_sensor_data(low_index: usize, high_index: usize, field: &mut Vec<BME68xField>)
    requires
        low_index < old(field)@.len(),
        high_index < old(field)@.len(),
        low_index != high_index,
    ensures
        final(field)@ == sort_pair(old(field)@, low_index as int, high_index as int),
{
    let a = field[low_index];
    let b = field[high_index];
    let meas_index1 = a.meas_index as i16;
    let meas_index2 = b.meas_index as i16;
    let a_new = (a.status & BME68X_NEW_DATA_MSK) != 0;
    let b_new = (b.status & BME68X_NEW_DATA_MSK) != 0;
    let swap = if a_new && b_new {
        let diff = meas_index2 - meas_index1;
        (diff > -3 && diff < 0) || diff > 2
    } else {
        b_new
    };
    if swap {
        field[low_index] = b;
        field[high_index] = a;
    }
}

/// One reordering pass over the pairs of the three slots.
fn reorder_pass_exec(field: &mut Vec<BME68xField>)
    requires
        old(field)@.len() == 3,
    ensures
        final(field)@ == reorder_pass(old(field)@),
{
    sort_sensor_data(0, 1, field);
    sort_sensor_data(0, 2, field);
    sort_sensor_data(1, 2, field);
}

/// After a reordering pass, no slot without new data precedes one with new data.
proof fn lemma_pass_puts_new_first(s: Seq<BME68xField>)
    requires
        s.len() == 3,
        exists|i: int| 0 <= i < 3 && is_new(#[trigger] s[i]),
    ensures
        reorder_pass(s).len() == 3,
        new_first(reorder_pass(s)),
        count_new(reorder_pass(s)) == count_new(s),
{
}

/// A pass keeps the new-data fields in front and their number.
proof fn lemma_pass_keeps_new_first(s: Seq<BME68xField>)
    requires
        s.len() == 3,
        new_first(s),
    ensures
        reorder_pass(s).len() == 3,
        new_first(reorder_pass(s)),
        count_new(reorder_pass(s)) == count_new(s),
{
}

/// No slot without new data precedes one with new data.
pub open spec fn new_first(s: Seq<BME68xField>) -> bool {
    forall|i: int, j: int| 0 <= i < j < s.len() && is_new(#[trigger] s[j]) ==> is_new(#[trigger] s[i])
}

/// The reordering of a poll leaves the new-data fields in front and keeps
/// their number.
proof fn lemma_reorder_puts_new_first(s: Seq<BME68xField>)
    requires
        s.len() == 3,
    ensures
        reorder_from(s, 0).len() == 3,
        new_first(reorder_from(s, 0)),
        count_new(reorder_from(s, 0)) == count_new(s),
{
    reveal_with_fuel(reorder_from, 4);
    if is_new(s[0]) {
        lemma_pass_puts_new_first(s);
        let p = reorder_pass(s);
        lemma_pass_keeps_new_first(p);
        lemma_pass_keeps_new_first(reorder_pass(p));
    } else if is_new(s[1]) {
        lemma_pass_puts_new_first(s);
        let p = reorder_pass(s);
        lemma_pass_keeps_new_first(p);
    } else if is_new(s[2]) {
        lemma_pass_puts_new_first(s);
    } else {
        assert(new_first(s));
    }
}

/// Restore the temporal order of the three buffered fields of a parallel or
/// sequential poll, and count those that carry new data.
pub fn order_fields(field: &mut Vec<BME68xField>) -> (r: u8)
    requires
        old(field)@.len() == 3,
    ensures
        final(field)@ == reorder_from(old(field)@, 0),
        r == count_new(old(field)@),
        new_first(final(field)@),
{
    let mut i: usize = 0;
    while i < BME68X_N_FIELDS
        invariant
            field@.len() == 3,
            i <= 3,
            reorder_from(field@, i as nat) == reorder_from(old(field)@, 0),
        decreases 3 - i,
    {
        if (field[i].status & BME68X_NEW_DATA_MSK) != 0 {
            reorder_pass_exec(field);
        }
        i = i + 1;
    }
    proof {
        lemma_reorder_puts_new_first(old(field)@);
    }
    let mut new_fields: u8 = 0;
    if (field[0].status & BME68X_NEW_DATA_MSK) != 0 {
        new_fields = new_fields + 1;
    }
    if (field[1].status & BME68X_NEW_DATA_MSK) != 0 {
        new_fields = new_fields + 1;
    }
    if (field[2].status & BME68X_NEW_DATA_MSK) != 0 {
        new_fields = new_fields + 1;
    }
    new_fields
}

} // verus!
