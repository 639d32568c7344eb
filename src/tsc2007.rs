//! Command protocol of the TSC2007 resistive touch controller.

use vstd::prelude::*;

verus! {

/// Bus address of the controller.
pub const TSC2007_ADDR: u8 = 0x48;

/// Channel function codes of the command byte.
pub const TSC2007_MEASURE_TEMP0: u8 = 0;

pub const TSC2007_MEASURE_AUX: u8 = 2;

pub const TSC2007_MEASURE_TEMP1: u8 = 4;

pub const TSC2007_ACTIVATE_X: u8 = 8;

pub const TSC2007_ACTIVATE_Y: u8 = 9;

pub const TSC2007_ACTIVATE_YPLUS_X: u8 = 10;

pub const TSC2007_SETUP_COMMAND: u8 = 11;

pub const TSC2007_MEASURE_X: u8 = 12;

pub const TSC2007_MEASURE_Y: u8 = 13;

pub const TSC2007_MEASURE_Z1: u8 = 14;

pub const TSC2007_MEASURE_Z2: u8 = 15;

/// Power mode codes of the command byte.
pub const TSC2007_POWERDOWN_IRQON: u8 = 0;

pub const TSC2007_ADON_IRQOFF: u8 = 1;

pub const TSC2007_ADOFF_IRQON: u8 = 2;

/// Resolution codes of the command byte.
pub const TSC2007_ADC_12BIT: u8 = 0;

pub const TSC2007_ADC_8BIT: u8 = 1;

/// Calibration range of the raw X and Y readings, and the least Z1 reading
/// that counts as a touch, in ADC counts.
pub const TS_MINX: u16 = 550;

pub const TS_MINY: u16 = 350;

pub const TS_MAXX: u16 = 3600;

pub const TS_MAXY: u16 = 3700;

pub const TS_MIN_PRESSURE: u16 = 100;

/// The command byte: function in bits 7-4, power mode in bits 3-2,
/// resolution in bit 1, bit 0 clear. Each field keeps only its low bits.
pub open spec fn command_byte_of(function: u8, power: u8, resolution: u8) -> int {
    (function % 16) * 16 + (power % 4) * 4 + (resolution % 2) * 2
}

/// Builds the command byte of one conversion.
pub fn command_byte(function: u8, power: u8, resolution: u8) -> (r: u8)
    ensures
        r == command_byte_of(function, power, resolution),
{
    let r: u8 = ((function & 0x0F) << 4u8) | ((power & 0x03) << 2u8) | ((resolution & 0x01) << 1u8);
    assert(r == (function % 16) * 16 + (power % 4) * 4 + (resolution % 2) * 2) by (bit_vector)
        requires
            r == ((function & 0x0F) << 4u8) | ((power & 0x03) << 2u8) | ((resolution & 0x01) << 1u8),
    ;
    r
}

/// The 12-bit conversion result in the two bytes read back: byte 0 holds the
/// high eight bits, the high nibble of byte 1 the low four.
pub open spec fn sample_of(b: Seq<u8>) -> int
    recommends
        b.len() == 2,
{
    b[0] * 16 + b[1] / 16
}

/// Decodes the two bytes read back after a command.
pub fn decode_sample(buf: &[u8; 2]) -> (r: u16)
    ensures
        r == sample_of(buf@),
        r < 4096,
{
    let b0 = buf[0];
    let b1 = buf[1];
    let r: u16 = ((b0 as u16) << 4u16) | ((b1 as u16) >> 4u16);
    assert(r == b0 * 16 + b1 / 16) by (bit_vector)
        requires
            r == ((b0 as u16) << 4u16) | ((b1 as u16) >> 4u16),
    ;
    r
}

/// The commands of one touch reading, in order: X, Y and Z1 conversions with
/// the converter on and the interrupt off, then a temperature conversion that
/// powers the converter down and arms the interrupt again.
pub open spec fn touch_command_seq() -> Seq<u8> {
    seq![
        command_byte_of(TSC2007_MEASURE_X, TSC2007_ADON_IRQOFF, TSC2007_ADC_12BIT) as u8,
        command_byte_of(TSC2007_MEASURE_Y, TSC2007_ADON_IRQOFF, TSC2007_ADC_12BIT) as u8,
        command_byte_of(TSC2007_MEASURE_Z1, TSC2007_ADON_IRQOFF, TSC2007_ADC_12BIT) as u8,
        command_byte_of(TSC2007_MEASURE_TEMP0, TSC2007_POWERDOWN_IRQON, TSC2007_ADC_12BIT) as u8,
    ]
}

/// The command bytes to send, in order, for one touch reading. The readings
/// of the first three are X, Y and Z1; the last one only returns the
/// controller to its low-power, interrupt-armed idle state, and must be sent.
pub fn touch_commands() -> (r: [u8; 4])
    ensures
        r@ == touch_command_seq(),
{
    let r = [
        command_byte(TSC2007_MEASURE_X, TSC2007_ADON_IRQOFF, TSC2007_ADC_12BIT),
        command_byte(TSC2007_MEASURE_Y, TSC2007_ADON_IRQOFF, TSC2007_ADC_12BIT),
        command_byte(TSC2007_MEASURE_Z1, TSC2007_ADON_IRQOFF, TSC2007_ADC_12BIT),
        command_byte(TSC2007_MEASURE_TEMP0, TSC2007_POWERDOWN_IRQON, TSC2007_ADC_12BIT),
    ];
    assert(r@ =~= touch_command_seq());
    r
}

/// Whether a Z1 reading shows a touch.
pub fn is_pressed(z: u16) -> (r: bool)
    ensures
        r == (z > TS_MIN_PRESSURE),
{
    z > TS_MIN_PRESSURE
}

/// Whether the outcome of a touch reading shows a touch: a reading whose Z1
/// exceeds the minimum pressure does, and a failed reading never does.
pub fn touched_from<E>(reading: Result<(u16, u16, u16), E>) -> (r: bool)
    ensures
        r == (reading matches Ok(p) && p.2 > TS_MIN_PRESSURE),
{
    match reading {
        Ok(p) => is_pressed(p.2),
        Err(_) => false,
    }
}

/// The resistive controller on a bus, which it owns exclusively.
pub struct Tsc2007<I2C> {
    i2c: I2C,
}

impl<I2C> Tsc2007<I2C> {
    /// The bus handle held.
    pub closed spec fn bus_spec(&self) -> I2C {
        self.i2c
    }

    /// A driver for the controller at its fixed address.
    pub fn new(i2c: I2C) -> (r: Self)
        ensures
            r.bus_spec() == i2c,
    {
        Tsc2007 { i2c }
    }

    /// The bus handle, for the transactions that a command makes.
    pub fn bus(&mut self) -> (r: &mut I2C)
        ensures
            *r == old(self).bus_spec(),
            final(self).bus_spec() == *final(r),
    {
        &mut self.i2c
    }

    /// Gives the bus handle back.
    pub fn release(self) -> (r: I2C)
        ensures
            r == self.bus_spec(),
    {
        self.i2c
    }
}

} // verus!
