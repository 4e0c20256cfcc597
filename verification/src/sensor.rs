//! The power monitor: register layout, decoding of its measurement
//! registers into physical quantities, calibration offsets and the
//! calibration run.
//!
//! The bus itself is not touched here. A caller performs a transaction and
//! hands over its outcome: the bytes that were read, or nothing where the
//! transaction failed.

use vstd::prelude::*;

verus! {

/// Bus address of the power monitor.
pub const BUS_ADDRESS: u8 = 0x40;

/// Register pointer of the device configuration.
pub const REG_CONFIG: u8 = 0x00;

/// Register pointer of the converter configuration.
pub const REG_ADC_CONFIG: u8 = 0x01;

/// Register pointer of the shunt calibration.
pub const REG_SHUNT_CAL: u8 = 0x02;

/// Register pointer of the shunt temperature coefficient.
pub const REG_SHUNT_TEMPCO: u8 = 0x03;

/// Register pointer of the bus voltage.
pub const REG_VBUS: u8 = 0x05;

/// Register pointer of the die temperature.
pub const REG_DIETEMP: u8 = 0x06;

/// Register pointer of the current.
pub const REG_CURRENT: u8 = 0x07;

/// Register pointer of the power.
pub const REG_POWER: u8 = 0x08;

/// Number of samples that one calibration run averages.
pub const CALIBRATION_SAMPLES: u32 = 300;

/// Pause between two samples of a calibration run, in milliseconds.
pub const CALIBRATION_INTERVAL_MS: u64 = 10;

/// Largest bus voltage the register can express, in nanovolts.
pub const VOLTAGE_LIMIT: i64 = 204_799_804_687;

/// Largest magnitude of current that the register can express at the wide
/// range, in nanoamperes.
pub const CURRENT_LIMIT: i64 = 163_840_000_000;

/// Full-scale selection of the shunt converter.
#[derive(Clone, Copy, Debug, PartialEq, Eq, Structural)]
pub enum AdcRange {
    /// Full scale of 40.96 mV across the shunt.
    Narrow,
    /// Full scale of 163.84 mV across the shunt.
    Wide,
}

/// The quantity whose bus transaction failed.
#[derive(Clone, Copy, Debug, PartialEq, Eq, Structural)]
pub enum SensorError {
    /// The current register could not be read.
    Current,
    /// The bus voltage register could not be read.
    Voltage,
    /// The power register could not be read.
    Power,
}

/// The unsigned number that three register bytes hold, first byte most
/// significant.
pub open spec fn raw24(bytes: [u8; 3]) -> int {
    bytes[0] as int * 65536 + bytes[1] as int * 256 + bytes[2] as int
}

/// The content of the current register: a 20-bit two's-complement number in
/// the upper bits of three bytes, above four bits of padding.
pub open spec fn current_register(bytes: [u8; 3]) -> int {
    if bytes[0] >= 0x80 {
        -(0x100000 - raw24(bytes) / 16)
    } else {
        raw24(bytes) / 16
    }
}

/// The content of the bus voltage register: an unsigned 20-bit number above
/// four bits of padding.
pub open spec fn voltage_register(bytes: [u8; 3]) -> int {
    raw24(bytes) / 16
}

/// The content of the power register: an unsigned 24-bit number.
pub open spec fn power_register(bytes: [u8; 3]) -> int {
    raw24(bytes)
}

/// Nanoamperes per step of the current register.
pub open spec fn current_step(range: AdcRange) -> int {
    match range {
        AdcRange::Narrow => 78_125,
        AdcRange::Wide => 312_500,
    }
}

/// Nanowatts per step of the power register: 3.2 times the current step.
pub open spec fn power_step(range: AdcRange) -> int {
    match range {
        AdcRange::Narrow => 250_000,
        AdcRange::Wide => 1_000_000,
    }
}

/// The current in nanoamperes that the register bytes stand for.
pub open spec fn current_reading(bytes: [u8; 3], range: AdcRange) -> int {
    current_register(bytes) * current_step(range)
}

/// The bus voltage in nanovolts that the register bytes stand for: 195.3125
/// microvolts per step, a half nanovolt dropped.
pub open spec fn voltage_reading(bytes: [u8; 3]) -> int {
    voltage_register(bytes) * 390_625 / 2
}

/// The power in nanowatts that the register bytes stand for.
pub open spec fn power_reading(bytes: [u8; 3], range: AdcRange) -> int {
    power_register(bytes) * power_step(range)
}

/// The value written to the shunt calibration register for a shunt of
/// `shunt_micro_ohm`: 4.096 per micro-ohm, at most what sixteen bits hold.
pub open spec fn shunt_calibration(shunt_micro_ohm: u32) -> int {
    let exact = shunt_micro_ohm as int * 4096 / 1000;
    if exact > 0xFFFF {
        0xFFFF
    } else {
        exact
    }
}

/// The converter configuration word made of its five fields.
pub open spec fn adc_configuration(
    mode: u8,
    vbus_time: u8,
    shunt_time: u8,
    temp_time: u8,
    averaging: u8,
) -> int {
    mode as int * 4096 + vbus_time as int * 512 + shunt_time as int * 64 + temp_time as int * 8
        + averaging as int
}

/// The bytes of a write of `value` to the 16-bit register `reg`: the pointer,
/// then the value, high byte first.
pub open spec fn register_write(reg: u8, value: u16) -> Seq<u8> {
    seq![reg, (value / 256) as u8, (value % 256) as u8]
}

/// The value of a 16-bit register read as two bytes, high byte first.
pub open spec fn register_value(bytes: [u8; 2]) -> int {
    bytes[0] as int * 256 + bytes[1] as int
}

/// The three register bytes as one unsigned number.
pub fn join24(bytes: [u8; 3]) -> (raw: u32)
    ensures
        raw == raw24(bytes),
{
    let b0: u8 = bytes[0];
    let b1: u8 = bytes[1];
    let b2: u8 = bytes[2];
    let raw: u32 = (b0 as u32) << 16 | (b1 as u32) << 8 | (b2 as u32);
    assert(((b0 as u32) << 16 | (b1 as u32) << 8 | (b2 as u32)) == b0 as u32 * 65536 + b1 as u32
        * 256 + b2 as u32) by (bit_vector);
    raw
}

/// Decodes the current register.
pub fn decode_current(bytes: [u8; 3]) -> (reg: i32)
    ensures
        reg == current_register(bytes),
        -0x80000 <= reg < 0x80000,
{
    let raw: u32 = join24(bytes);
    let upper: u32 = raw >> 4;
    assert(raw >> 4 == raw / 16) by (bit_vector);
    if bytes[0] & 0x80 == 0x80 {
        let b0: u8 = bytes[0];
        assert(b0 & 0x80 == 0x80 ==> b0 >= 0x80) by (bit_vector);
        -((0x100000 - upper) as i32)
    } else {
        let b0: u8 = bytes[0];
        assert(b0 & 0x80 != 0x80 ==> b0 < 0x80) by (bit_vector);
        upper as i32
    }
}

/// Decodes the bus voltage register.
pub fn decode_voltage(bytes: [u8; 3]) -> (reg: u32)
    ensures
        reg == voltage_register(bytes),
        reg < 0x100000,
{
    let raw: u32 = join24(bytes);
    assert(raw >> 4 == raw / 16) by (bit_vector);
    raw >> 4
}

/// Decodes the power register.
pub fn decode_power(bytes: [u8; 3]) -> (reg: u32)
    ensures
        reg == power_register(bytes),
        reg < 0x1000000,
{
    join24(bytes)
}

/// Scales the content of the current register to nanoamperes.
pub fn scale_current(reg: i32, range: AdcRange) -> (current: i64)
    ensures
        current == reg * current_step(range),
{
    match range {
        AdcRange::Narrow => reg as i64 * 78_125,
        AdcRange::Wide => reg as i64 * 312_500,
    }
}

/// Scales the content of the bus voltage register to nanovolts.
pub fn scale_voltage(reg: u32) -> (voltage: i64)
    ensures
        voltage == reg * 390_625 / 2,
{
    reg as i64 * 390_625 / 2
}

/// Scales the content of the power register to nanowatts.
pub fn scale_power(reg: u32, range: AdcRange) -> (power: i64)
    ensures
        power == reg * power_step(range),
{
    match range {
        AdcRange::Narrow => reg as i64 * 250_000,
        AdcRange::Wide => reg as i64 * 1_000_000,
    }
}

impl AdcRange {
    /// Nanoamperes per step of the current register at this range.
    pub fn current_lsb(self) -> (step: i64)
        ensures
            step == current_step(self),
    {
        match self {
            AdcRange::Narrow => 78_125,
            AdcRange::Wide => 312_500,
        }
    }

    /// Nanowatts per step of the power register at this range.
    pub fn power_lsb(self) -> (step: i64)
        ensures
            step == power_step(self),
    {
        match self {
            AdcRange::Narrow => 250_000,
            AdcRange::Wide => 1_000_000,
        }
    }

    /// The device configuration word that selects this range, with
    /// temperature compensation switched on.
    pub fn configuration(self) -> (word: u16)
        ensures
            word == match self {
                AdcRange::Narrow => 0x0030u16,
                AdcRange::Wide => 0x0020u16,
            },
    {
        match self {
            AdcRange::Narrow => 0x0030,
            AdcRange::Wide => 0x0020,
        }
    }
}

impl SensorError {
    /// A short text that names the failure.
    pub fn message(self) -> (text: String)
        ensures
            text@ == match self {
                SensorError::Current => "Current Read Error"@,
                SensorError::Voltage => "Voltage Read Error"@,
                SensorError::Power => "Power Read Error"@,
            },
    {
        match self {
            SensorError::Current => "Current Read Error".to_owned(),
            SensorError::Voltage => "Voltage Read Error".to_owned(),
            SensorError::Power => "Power Read Error".to_owned(),
        }
    }
}

/// Computes the shunt calibration register for a shunt of `shunt_micro_ohm`.
pub fn shunt_cal(shunt_micro_ohm: u32) -> (value: u16)
    ensures
        value == shunt_calibration(shunt_micro_ohm),
{
    let exact: u64 = shunt_micro_ohm as u64 * 4096 / 1000;
    if exact > 0xFFFF {
        0xFFFF
    } else {
        exact as u16
    }
}

/// Composes the converter configuration word: operating mode, the three
/// conversion times and the averaging count.
pub fn adc_config(mode: u8, vbus_time: u8, shunt_time: u8, temp_time: u8, averaging: u8) -> (word: u16)
    requires
        mode < 16,
        vbus_time < 8,
        shunt_time < 8,
        temp_time < 8,
        averaging < 8,
    ensures
        word == adc_configuration(mode, vbus_time, shunt_time, temp_time, averaging),
{
    let word: u16 = (mode as u16) << 12 | (vbus_time as u16) << 9 | (shunt_time as u16) << 6 | (
    temp_time as u16) << 3 | (averaging as u16);
    assert(mode < 16 && vbus_time < 8 && shunt_time < 8 && temp_time < 8 && averaging < 8 ==> ((
    mode as u16) << 12 | (vbus_time as u16) << 9 | (shunt_time as u16) << 6 | (temp_time as u16)
        << 3 | (averaging as u16)) == mode as u16 * 4096 + vbus_time as u16 * 512 + shunt_time as u16
        * 64 + temp_time as u16 * 8 + averaging as u16) by (bit_vector);
    word
}

/// The converter configuration that the logger runs with: continuous
/// conversion of all three inputs, 1052 microseconds for bus voltage and
/// temperature, 4120 microseconds for the shunt, 512 samples averaged.
pub fn default_adc_config() -> (word: u16)
    ensures
        word == 0xFBEE,
{
    adc_config(0xF, 0x5, 0x7, 0x5, 0x6)
}

/// The bytes to send for a write of `value` to the 16-bit register `reg`.
pub fn encode_register_write(reg: u8, value: u16) -> (bytes: [u8; 3])
    ensures
        bytes@ == register_write(reg, value),
{
    let high: u8 = (value >> 8) as u8;
    let low: u8 = (value & 0xFF) as u8;
    assert(value >> 8 == value / 256) by (bit_vector);
    assert(value & 0xFF == value % 256) by (bit_vector);
    let bytes: [u8; 3] = [reg, high, low];
    assert(bytes@ =~= register_write(reg, value));
    bytes
}

/// The value of a 16-bit register from the two bytes read.
pub fn decode_register(bytes: [u8; 2]) -> (value: u16)
    ensures
        value == register_value(bytes),
{
    let b0: u8 = bytes[0];
    let b1: u8 = bytes[1];
    assert(((b0 as u16) << 8 | (b1 as u16)) == b0 as u16 * 256 + b1 as u16) by (bit_vector);
    (b0 as u16) << 8 | (b1 as u16)
}

/// The battery voltage in nanovolts for a reading of the battery input in
/// millivolts, which sits behind a divider by two.
pub open spec fn battery_reading(millivolts: u16) -> int {
    millivolts as int * 2_000_000
}

/// The battery voltage for a reading of the battery input.
pub fn battery_from_adc(millivolts: u16) -> (battery: i64)
    ensures
        battery == battery_reading(millivolts),
{
    millivolts as i64 * 2_000_000
}

/// One write to a 16-bit register of the power monitor.
#[derive(Clone, Copy, Debug, PartialEq, Eq, Structural)]
pub struct RegisterWrite {
    /// The register pointer.
    pub reg: u8,
    /// The value to write.
    pub value: u16,
}

/// The writes that set the power monitor up, in their order: device
/// configuration, converter configuration, shunt calibration, temperature
/// coefficient of the shunt.
pub open spec fn startup_sequence(
    range: AdcRange,
    shunt_micro_ohm: u32,
    shunt_tempco: u16,
) -> Seq<RegisterWrite> {
    seq![
        RegisterWrite {
            reg: REG_CONFIG,
            value: match range {
                AdcRange::Narrow => 0x0030u16,
                AdcRange::Wide => 0x0020u16,
            },
        },
        RegisterWrite { reg: REG_ADC_CONFIG, value: 0xFBEEu16 },
        RegisterWrite { reg: REG_SHUNT_CAL, value: shunt_calibration(shunt_micro_ohm) as u16 },
        RegisterWrite { reg: REG_SHUNT_TEMPCO, value: shunt_tempco },
    ]
}

/// The writes that set the power monitor up.
pub fn startup_writes(range: AdcRange, shunt_micro_ohm: u32, shunt_tempco: u16) -> (writes: [RegisterWrite; 4])
    ensures
        writes@ == startup_sequence(range, shunt_micro_ohm, shunt_tempco),
{
    let writes: [RegisterWrite; 4] = [
        RegisterWrite { reg: REG_CONFIG, value: range.configuration() },
        RegisterWrite { reg: REG_ADC_CONFIG, value: default_adc_config() },
        RegisterWrite { reg: REG_SHUNT_CAL, value: shunt_cal(shunt_micro_ohm) },
        RegisterWrite { reg: REG_SHUNT_TEMPCO, value: shunt_tempco },
    ];
    assert(writes@ =~= startup_sequence(range, shunt_micro_ohm, shunt_tempco));
    writes
}

impl RegisterWrite {
    /// The bytes to send for this write.
    pub fn bytes(&self) -> (bytes: [u8; 3])
        ensures
            bytes@ == register_write(self.reg, self.value),
    {
        encode_register_write(self.reg, self.value)
    }

    /// Whether the register, read back as `reply`, holds what was written.
    pub fn confirmed_by(&self, reply: [u8; 2]) -> (confirmed: bool)
        ensures
            confirmed == (register_value(reply) == self.value),
    {
        decode_register(reply) == self.value
    }
}

/// The content of the current register is the two's-complement reading of
/// its upper twenty bits: within twenty bits' signed range, and apart from
/// the unsigned reading by nothing or by two to the power of twenty.
pub proof fn lemma_current_register_is_twos_complement(bytes: [u8; 3])
    ensures
        -0x80000 <= current_register(bytes) < 0x80000,
        current_register(bytes) >= 0 ==> current_register(bytes) == raw24(bytes) / 16,
        current_register(bytes) < 0 ==> current_register(bytes) == raw24(bytes) / 16 - 0x100000,
{
}

/// The four bits of padding have no part in any reading.
pub proof fn lemma_padding_is_dropped(bytes: [u8; 3], other: [u8; 3])
    requires
        bytes[0] == other[0],
        bytes[1] == other[1],
        bytes[2] / 16 == other[2] / 16,
    ensures
        current_register(bytes) == current_register(other),
        voltage_register(bytes) == voltage_register(other),
{
}

/// A register that is written and read back holds what was written.
pub proof fn lemma_register_roundtrip(reg: u8, value: u16, reply: [u8; 2])
    requires
        reply[0] == register_write(reg, value)[1],
        reply[1] == register_write(reg, value)[2],
    ensures
        register_value(reply) == value,
{
}

/// Whether a pair of calibration offsets lies within what the registers can
/// express.
pub open spec fn offsets_in_range(current: int, voltage: int) -> bool {
    -CURRENT_LIMIT <= current <= CURRENT_LIMIT && 0 <= voltage <= VOLTAGE_LIMIT
}

/// What a sensor reader is: its range and the offsets it subtracts.
pub struct SensorModel {
    pub range: AdcRange,
    pub current_offset: int,
    pub voltage_offset: int,
}

/// Turns register bytes into calibrated physical quantities.
pub struct SensorReader {
    range: AdcRange,
    current_offset: i64,
    voltage_offset: i64,
}

impl View for SensorReader {
    type V = SensorModel;

    closed spec fn view(&self) -> SensorModel {
        SensorModel {
            range: self.range,
            current_offset: self.current_offset as int,
            voltage_offset: self.voltage_offset as int,
        }
    }
}

impl SensorReader {
    /// The offsets of a reader are always within range.
    #[verifier::type_invariant]
    pub closed spec fn wf(&self) -> bool {
        offsets_in_range(self.current_offset as int, self.voltage_offset as int)
    }

    /// A reader for the given range, without calibration.
    pub fn new(range: AdcRange) -> (reader: SensorReader)
        ensures
            reader@ == (SensorModel { range, current_offset: 0, voltage_offset: 0 }),
            reader.wf(),
    {
        SensorReader { range, current_offset: 0, voltage_offset: 0 }
    }

    /// The range that the reader decodes for.
    pub fn range(&self) -> (range: AdcRange)
        ensures
            range == self@.range,
    {
        self.range
    }

    /// The offsets that the reader subtracts: current, then voltage.
    pub fn offsets(&self) -> (offsets: (i64, i64))
        ensures
            offsets.0 == self@.current_offset,
            offsets.1 == self@.voltage_offset,
            offsets_in_range(offsets.0 as int, offsets.1 as int),
    {
        proof {
            use_type_invariant(self);
        }
        (self.current_offset, self.voltage_offset)
    }

    /// Takes over a pair of calibration offsets where they are within range,
    /// and says whether it did. Offsets out of range leave the reader as it
    /// was.
    pub fn set_offsets(&mut self, current: i64, voltage: i64) -> (accepted: bool)
        ensures
            accepted == offsets_in_range(current as int, voltage as int),
            accepted ==> final(self)@ == (SensorModel {
                range: old(self)@.range,
                current_offset: current as int,
                voltage_offset: voltage as int,
            }),
            !accepted ==> final(self)@ == old(self)@,
            final(self).wf(),
    {
        proof {
            use_type_invariant(&*self);
        }
        if -CURRENT_LIMIT <= current && current <= CURRENT_LIMIT && 0 <= voltage && voltage
            <= VOLTAGE_LIMIT {
            *self = SensorReader { range: self.range, current_offset: current, voltage_offset: voltage };
            true
        } else {
            false
        }
    }

    /// The calibrated current in nanoamperes from the outcome of a read of
    /// the current register.
    pub fn current_read(&self, reply: Option<[u8; 3]>) -> (result: Result<i64, SensorError>)
        ensures
            result == match reply {
                Some(bytes) => Ok::<i64, SensorError>(
                    (current_reading(bytes, self@.range) - self@.current_offset) as i64,
                ),
                None => Err::<i64, SensorError>(SensorError::Current),
            },
            reply is Some ==> -2 * CURRENT_LIMIT <= current_reading(reply->0, self@.range)
                - self@.current_offset <= 2 * CURRENT_LIMIT,
    {
        proof {
            use_type_invariant(self);
        }
        match reply {
            Some(bytes) => {
                let scaled: i64 = scale_current(decode_current(bytes), self.range);
                Ok(scaled - self.current_offset)
            },
            None => Err(SensorError::Current),
        }
    }

    /// The calibrated bus voltage in nanovolts from the outcome of a read of
    /// the bus voltage register.
    pub fn voltage_read(&self, reply: Option<[u8; 3]>) -> (result: Result<i64, SensorError>)
        ensures
            result == match reply {
                Some(bytes) => Ok::<i64, SensorError>(
                    (voltage_reading(bytes) - self@.voltage_offset) as i64,
                ),
                None => Err::<i64, SensorError>(SensorError::Voltage),
            },
            reply is Some ==> -VOLTAGE_LIMIT <= voltage_reading(reply->0) - self@.voltage_offset
                <= VOLTAGE_LIMIT,
    {
        proof {
            use_type_invariant(self);
        }
        match reply {
            Some(bytes) => {
                let scaled: i64 = scale_voltage(decode_voltage(bytes));
                Ok(scaled - self.voltage_offset)
            },
            None => Err(SensorError::Voltage),
        }
    }

    /// The power in nanowatts from the outcome of a read of the power
    /// register.
    pub fn power_read(&self, reply: Option<[u8; 3]>) -> (result: Result<i64, SensorError>)
        ensures
            result == match reply {
                Some(bytes) => Ok::<i64, SensorError>(power_reading(bytes, self@.range) as i64),
                None => Err::<i64, SensorError>(SensorError::Power),
            },
            reply is Some ==> 0 <= power_reading(reply->0, self@.range) < 0x1000000 * 1_000_000,
    {
        match reply {
            Some(bytes) => Ok(scale_power(decode_power(bytes), self.range)),
            None => Err(SensorError::Power),
        }
    }
}

/// The sum of the numbers in `samples`.
pub open spec fn total(samples: Seq<int>) -> int
    decreases samples.len(),
{
    if samples.len() == 0 {
        0
    } else {
        total(samples.drop_last()) + samples.last()
    }
}

/// `sum` divided by `count`, rounded toward zero.
pub open spec fn mean(sum: int, count: int) -> int {
    if sum >= 0 {
        sum / count
    } else {
        -((-sum) / count)
    }
}

/// What a calibration run is: its range, and the uncalibrated readings it
/// has taken so far.
pub struct CalibrationModel {
    pub range: AdcRange,
    pub currents: Seq<int>,
    pub voltages: Seq<int>,
}

/// A calibration run: the average of 300 uncalibrated readings of current and
/// bus voltage, taken with no load attached.
pub struct Calibration {
    range: AdcRange,
    taken: u32,
    current_sum: i64,
    voltage_sum: i64,
    currents: Ghost<Seq<int>>,
    voltages: Ghost<Seq<int>>,
}

/// What a calibration run asks for after a sample.
pub enum CalibrationStep {
    /// More samples are needed: wait for the sampling interval, read again
    /// and feed the run that is carried here.
    Continue(Calibration),
    /// The run is complete, with these offsets.
    Done { current_offset: i64, voltage_offset: i64 },
    /// A read failed and the run is abandoned.
    Failed,
}

impl View for Calibration {
    type V = CalibrationModel;

    closed spec fn view(&self) -> CalibrationModel {
        CalibrationModel { range: self.range, currents: self.currents@, voltages: self.voltages@ }
    }
}

impl Calibration {
    /// A run holds fewer samples than it needs, and the sums of those it
    /// holds.
    #[verifier::type_invariant]
    pub closed spec fn wf(&self) -> bool {
        &&& self.taken < CALIBRATION_SAMPLES
        &&& self.currents@.len() == self.taken
        &&& self.voltages@.len() == self.taken
        &&& self.current_sum == total(self.currents@)
        &&& self.voltage_sum == total(self.voltages@)
        &&& -CURRENT_LIMIT * self.taken <= self.current_sum <= CURRENT_LIMIT * self.taken
        &&& 0 <= self.voltage_sum <= VOLTAGE_LIMIT * self.taken
    }

    /// A run that has taken no sample yet.
    pub fn new(range: AdcRange) -> (run: Calibration)
        ensures
            run@ == (CalibrationModel {
                range,
                currents: Seq::<int>::empty(),
                voltages: Seq::<int>::empty(),
            }),
            run.wf(),
    {
        Calibration {
            range,
            taken: 0,
            current_sum: 0,
            voltage_sum: 0,
            currents: Ghost(Seq::<int>::empty()),
            voltages: Ghost(Seq::<int>::empty()),
        }
    }

    /// The number of samples taken so far.
    pub fn samples_taken(&self) -> (taken: u32)
        ensures
            taken == self@.currents.len(),
            taken == self@.voltages.len(),
            taken < CALIBRATION_SAMPLES,
    {
        proof {
            use_type_invariant(self);
        }
        self.taken
    }

    /// Takes the outcome of one sample: the bytes of the current register and
    /// of the bus voltage register, or nothing where either read failed.
    ///
    /// A failed read abandons the run. The sample that completes the run
    /// gives the averages of all readings, each rounded toward zero.
    pub fn feed(self, reply: Option<([u8; 3], [u8; 3])>) -> (step: CalibrationStep)
        ensures
            match reply {
                None => step is Failed,
                Some((current, voltage)) => {
                    let currents = self@.currents.push(current_reading(current, self@.range));
                    let voltages = self@.voltages.push(voltage_reading(voltage));
                    if currents.len() < CALIBRATION_SAMPLES {
                        &&& step is Continue
                        &&& step->Continue_0.wf()
                        &&& step->Continue_0@ == (CalibrationModel {
                            range: self@.range,
                            currents,
                            voltages,
                        })
                    } else {
                        &&& step is Done
                        &&& step->current_offset == mean(total(currents), CALIBRATION_SAMPLES as int)
                        &&& step->voltage_offset == mean(total(voltages), CALIBRATION_SAMPLES as int)
                        &&& offsets_in_range(step->current_offset as int, step->voltage_offset as int)
                    }
                },
            },
    {
        proof {
            use_type_invariant(&self);
        }
        match reply {
            None => CalibrationStep::Failed,
            Some((current, voltage)) => {
                let amps: i64 = scale_current(decode_current(current), self.range);
                let volts: i64 = scale_voltage(decode_voltage(voltage));
                let ghost currents = self.currents@.push(amps as int);
                let ghost voltages = self.voltages@.push(volts as int);
                proof {
                    assert(currents.drop_last() =~= self.currents@);
                    assert(voltages.drop_last() =~= self.voltages@);
                }
                let current_sum: i64 = self.current_sum + amps;
                let voltage_sum: i64 = self.voltage_sum + volts;
                let taken: u32 = self.taken + 1;
                if taken < CALIBRATION_SAMPLES {
                    CalibrationStep::Continue(
                        Calibration {
                            range: self.range,
                            taken,
                            current_sum,
                            voltage_sum,
                            currents: Ghost(currents),
                            voltages: Ghost(voltages),
                        },
                    )
                } else {
                    let current_offset: i64 = if current_sum >= 0 {
                        current_sum / 300
                    } else {
                        -((-current_sum) / 300)
                    };
                    let voltage_offset: i64 = voltage_sum / 300;
                    CalibrationStep::Done { current_offset, voltage_offset }
                }
            },
        }
    }
}

} // verus!
