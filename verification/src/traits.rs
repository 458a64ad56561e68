//! The capability traits the driver is generic over: the register bus
//! transport, a millisecond delay, the chip model's measurement registers,
//! typed register bitfields, and unit conversion between register words and
//! physical quantities.

use vstd::prelude::*;

verus! {

/// Bidirectional conversion between 16-bit register words and physical
/// quantities in fixed-point integer units.
///
/// Each quantity category has a pair of spec functions (the mathematical
/// value of the conversion) and a pair of executable functions proved to
/// compute them. Units are chosen so that every conversion is exact integer
/// arithmetic with explicit rounding:
/// capacity in microamp-hours, percentage in thousandths of a percent,
/// voltage in microvolts, current in microamps (signed), temperature in
/// thousandths of a degree Celsius (signed), resistance in microohms, and
/// time in milliseconds.
pub trait RegisterResolver {
    /// Battery capacity, in microamp-hours, read from a capacity register.
    spec fn capacity_uah(&self, register: u16) -> int;

    /// Capacity register word encoding the given microamp-hours, clamped to
    /// the representable range.
    spec fn capacity_register(&self, micro_amp_hours: u32) -> u16;

    /// State of charge, in thousandths of a percent.
    spec fn percentage_mpct(&self, register: u16) -> int;

    /// Percentage register word encoding the given thousandths of a percent.
    spec fn percentage_register(&self, milli_percent: u32) -> u16;

    /// Voltage, in microvolts.
    spec fn voltage_uv(&self, register: u16) -> int;

    /// Voltage register word encoding the given microvolts.
    spec fn voltage_register(&self, micro_volts: u32) -> u16;

    /// Current, in microamps; negative values discharge the cell.
    spec fn current_ua(&self, register: u16) -> int;

    /// Current register word (two's complement) encoding the given microamps.
    spec fn current_register(&self, micro_amps: i32) -> u16;

    /// Temperature, in thousandths of a degree Celsius.
    spec fn temperature_mc(&self, register: u16) -> int;

    /// Temperature register word (two's complement) encoding the given
    /// thousandths of a degree Celsius.
    spec fn temperature_register(&self, milli_celsius: i32) -> u16;

    /// Resistance, in microohms.
    spec fn resistance_uohm(&self, register: u16) -> int;

    /// Resistance register word encoding the given microohms.
    spec fn resistance_register(&self, micro_ohms: u32) -> u16;

    /// Time, in milliseconds.
    spec fn time_ms(&self, register: u16) -> int;

    /// Time register word encoding the given milliseconds.
    spec fn time_register(&self, milliseconds: u32) -> u16;

    /// Converts a capacity register word to microamp-hours.
    fn register_to_capacity(&self, register: u16) -> (r: u32)
        ensures
            r as int == self.capacity_uah(register),
    ;

    /// Converts microamp-hours to a capacity register word, clamping
    /// out-of-range values to the representable extreme.
    fn capacity_to_register(&self, micro_amp_hours: u32) -> (r: u16)
        ensures
            r == self.capacity_register(micro_amp_hours),
    ;

    /// Converts a percentage register word to thousandths of a percent.
    fn register_to_percentage(&self, register: u16) -> (r: u32)
        ensures
            r as int == self.percentage_mpct(register),
    ;

    /// Converts thousandths of a percent to a percentage register word.
    fn percentage_to_register(&self, milli_percent: u32) -> (r: u16)
        ensures
            r == self.percentage_register(milli_percent),
    ;

    /// Converts a voltage register word to microvolts.
    fn register_to_voltage(&self, register: u16) -> (r: u32)
        ensures
            r as int == self.voltage_uv(register),
    ;

    /// Converts microvolts to a voltage register word.
    fn voltage_to_register(&self, micro_volts: u32) -> (r: u16)
        ensures
            r == self.voltage_register(micro_volts),
    ;

    /// Converts a current register word (two's complement) to microamps.
    fn register_to_current(&self, register: u16) -> (r: i32)
        ensures
            r as int == self.current_ua(register),
    ;

    /// Converts microamps to a current register word.
    fn current_to_register(&self, micro_amps: i32) -> (r: u16)
        ensures
            r == self.current_register(micro_amps),
    ;

    /// Converts a temperature register word (two's complement) to
    /// thousandths of a degree Celsius.
    fn register_to_temperature(&self, register: u16) -> (r: i32)
        ensures
            r as int == self.temperature_mc(register),
    ;

    /// Converts thousandths of a degree Celsius to a temperature register
    /// word.
    fn temperature_to_register(&self, milli_celsius: i32) -> (r: u16)
        ensures
            r == self.temperature_register(milli_celsius),
    ;

    /// Converts a resistance register word to microohms.
    fn register_to_resistance(&self, register: u16) -> (r: u32)
        ensures
            r as int == self.resistance_uohm(register),
    ;

    /// Converts microohms to a resistance register word.
    fn resistance_to_register(&self, micro_ohms: u32) -> (r: u16)
        ensures
            r == self.resistance_register(micro_ohms),
    ;

    /// Converts a time register word to milliseconds.
    fn register_to_time(&self, register: u16) -> (r: u32)
        ensures
            r as int == self.time_ms(register),
    ;

    /// Converts milliseconds to a time register word.
    fn time_to_register(&self, milliseconds: u32) -> (r: u16)
        ensures
            r == self.time_register(milliseconds),
    ;
}

/// The measurement register addresses that differ between chip models.
pub trait Model {
    /// VCell register: per-cell battery voltage.
    const V_CELL: u8;

    /// Current register: two's complement voltage across the sense resistor.
    const CURRENT: u8;

    /// Temp register: measured temperature.
    const TEMP: u8;
}

/// A typed view of one 16-bit register. A value of an implementing type
/// carries the full raw word, so decoding and re-encoding preserves every
/// bit, including reserved positions.
pub trait BitField: Sized {
    /// The address of the register this bitfield describes.
    const REGISTER: u8;

    /// The 16-bit word this value encodes.
    spec fn word(&self) -> u16;

    /// Decodes a raw register word.
    fn from_word(word: u16) -> (r: Self)
        ensures
            r.word() == word,
    ;

    /// Re-encodes the value into the raw register word.
    fn to_word(&self) -> (r: u16)
        ensures
            r == self.word(),
    ;
}

/// A register-addressed bus transport. The device answers at one fixed bus
/// address; a transaction either completes or reports the transport's own
/// error. Nothing is assumed about the data a read returns: the driver's
/// contracts hold for every possible device behaviour.
pub trait Transport {
    type Error;

    /// Writes the given bytes to the device in one transaction.
    fn write(&mut self, address: u8, bytes: &[u8]) -> Result<(), Self::Error>;

    /// Writes the given bytes, then reads `read_buffer.len()` bytes back, in
    /// one combined transaction.
    fn write_read(&mut self, address: u8, write_bytes: &[u8], read_buffer: &mut [u8; 2]) -> Result<
        (),
        Self::Error,
    >;
}

/// A blocking millisecond delay.
pub trait Delay {
    /// Blocks for at least the given number of milliseconds.
    fn delay_ms(&mut self, ms: u32);
}

} // verus!
