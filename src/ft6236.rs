//! Register protocol of the FT6236 capacitive touch controller.

use vstd::prelude::*;

verus! {

/// Default bus address of the controller.
pub const FT6236_DEFAULT_ADDR: u8 = 0x38;

/// Chip identification register.
pub const REG_CHIPID: u8 = 0xA3;

/// Vendor identification register.
pub const REG_VENDID: u8 = 0xA8;

/// Firmware version register.
pub const REG_FIRMVERS: u8 = 0xA6;

/// Touch detection threshold register.
pub const REG_THRESHHOLD: u8 = 0x80;

/// Number of active touches register.
pub const REG_NUMTOUCHES: u8 = 0x02;

/// Gesture identifier register.
pub const REG_GEST_ID: u8 = 0x01;

/// First register of the point data blocks.
pub const REG_POINT_BASE: u8 = 0x03;

/// Size in bytes of one point data block.
pub const POINT_BLOCK_LEN: u8 = 6;

/// Chip identifiers of the supported controllers.
pub const CHIPID_FT6206: u8 = 0x06;

pub const CHIPID_FT6236: u8 = 0x36;

pub const CHIPID_FT6236U: u8 = 0x64;

/// A gesture recognised by the controller.
#[derive(Copy, Clone, PartialEq, Eq, Structural, PartialOrd, Ord, Hash, Debug)]
pub enum Gesture {
    MoveUp,
    MoveRight,
    MoveDown,
    MoveLeft,
    ZoomIn,
    ZoomOut,
}

/// The identifier that the gesture register holds for `g`.
pub open spec fn gesture_code(g: Gesture) -> u8 {
    match g {
        Gesture::MoveUp => 0x10,
        Gesture::MoveRight => 0x14,
        Gesture::MoveDown => 0x18,
        Gesture::MoveLeft => 0x1C,
        Gesture::ZoomIn => 0x48,
        Gesture::ZoomOut => 0x49,
    }
}

/// The gesture that a gesture register value stands for, if any.
pub open spec fn gesture_from_code(id: u8) -> Option<Gesture> {
    if id == 0x10 {
        Some(Gesture::MoveUp)
    } else if id == 0x14 {
        Some(Gesture::MoveRight)
    } else if id == 0x18 {
        Some(Gesture::MoveDown)
    } else if id == 0x1C {
        Some(Gesture::MoveLeft)
    } else if id == 0x48 {
        Some(Gesture::ZoomIn)
    } else if id == 0x49 {
        Some(Gesture::ZoomOut)
    } else {
        None
    }
}

impl Gesture {
    /// The register identifier of this gesture.
    pub fn gesture_id(&self) -> (r: u8)
        ensures
            r == gesture_code(*self),
    {
        match self {
            Gesture::MoveUp => 0x10,
            Gesture::MoveRight => 0x14,
            Gesture::MoveDown => 0x18,
            Gesture::MoveLeft => 0x1C,
            Gesture::ZoomIn => 0x48,
            Gesture::ZoomOut => 0x49,
        }
    }

    /// Decodes a gesture register value; unknown identifiers give `None`.
    pub fn from_u8(gesture: u8) -> (r: Option<Gesture>)
        ensures
            r == gesture_from_code(gesture),
    {
        match gesture {
            0x10 => Some(Gesture::MoveUp),
            0x14 => Some(Gesture::MoveRight),
            0x18 => Some(Gesture::MoveDown),
            0x1C => Some(Gesture::MoveLeft),
            0x48 => Some(Gesture::ZoomIn),
            0x49 => Some(Gesture::ZoomOut),
            _ => None,
        }
    }
}

/// Every gesture decodes back from its identifier, and a register value that
/// is no gesture's identifier decodes to no gesture.
pub proof fn lemma_gesture_round_trip(g: Gesture, id: u8)
    ensures
        gesture_from_code(gesture_code(g)) == Some(g),
        (forall|h: Gesture| gesture_code(h) != id) ==> gesture_from_code(id) is None,
{
    if gesture_from_code(id) is Some {
        let h = gesture_from_code(id)->Some_0;
        assert(gesture_code(h) == id);
    }
}

/// The touch event kind reported in a point data block.
#[derive(Copy, Clone, PartialEq, Eq, Structural, PartialOrd, Ord, Hash, Debug)]
pub enum EventType {
    PressDown,
    LiftUp,
    Contact,
}

/// The event kind that a two-bit event flag stands for, if any.
pub open spec fn event_from_bits(bits: u8) -> Option<EventType> {
    if bits == 0 {
        Some(EventType::PressDown)
    } else if bits == 1 {
        Some(EventType::LiftUp)
    } else if bits == 2 {
        Some(EventType::Contact)
    } else {
        None
    }
}

impl EventType {
    /// Decodes an event flag; any value but 0, 1 and 2 gives `None`.
    pub fn from_u8(event: u8) -> (r: Option<EventType>)
        ensures
            r == event_from_bits(event),
    {
        match event {
            0b00 => Some(EventType::PressDown),
            0b01 => Some(EventType::LiftUp),
            0b10 => Some(EventType::Contact),
            _ => None,
        }
    }
}

/// One touch point read from a point data block.
#[derive(Copy, Clone, PartialEq, Eq, Structural, PartialOrd, Ord, Hash, Debug)]
pub struct PointEvent {
    /// Touch X position, 0 to 2047
    pub x: u16,
    /// Touch Y position, 0 to 2047
    pub y: u16,
    /// Touch event flag
    pub event: EventType,
    /// Touch weight, in the point's weight register
    pub weight: u8,
    /// Touch area, 0 to 15, in the point's misc register
    pub area: u8,
    /// Touch identifier, 0 to 14
    pub touch_id: u8,
}

/// The touch identifier that marks a block as holding no valid touch.
pub const INVALID_TOUCH_ID: u8 = 0x0F;

/// What a six-byte point data block `b` holds: the event flag in the top two
/// bits of byte 0, X from the low three bits of byte 0 and byte 1, the touch
/// identifier in the high nibble of byte 2, Y from the low three bits of byte
/// 2 and byte 3, the weight in byte 4 and the area in the low nibble of byte 5.
/// An invalid event flag or touch identifier 15 means no point.
pub open spec fn point_of(b: Seq<u8>) -> Option<PointEvent>
    recommends
        b.len() == 6,
{
    let touch_id = b[2] / 16;
    match event_from_bits(b[0] / 64) {
        Some(event) => if touch_id == INVALID_TOUCH_ID {
            None
        } else {
            Some(
                PointEvent {
                    x: ((b[0] % 8) * 256 + b[1]) as u16,
                    y: ((b[2] % 8) * 256 + b[3]) as u16,
                    event,
                    weight: b[4],
                    area: b[5] % 16,
                    touch_id,
                },
            )
        },
        None => None,
    }
}

/// Decodes a point data block as read from the controller.
pub fn decode_point(buf: &[u8; 6]) -> (r: Option<PointEvent>)
    ensures
        r == point_of(buf@),
{
    let b0 = buf[0];
    let b1 = buf[1];
    let b2 = buf[2];
    let b3 = buf[3];
    let flag = b0 >> 6u8;
    assert(flag == b0 / 64) by (bit_vector)
        requires
            flag == b0 >> 6u8,
    ;
    let event = match EventType::from_u8(flag) {
        Some(e) => e,
        None => {
            return None;
        },
    };
    let x: u16 = (((b0 as u16) & 0b111) << 8u16) | (b1 as u16);
    assert(x == (b0 % 8) * 256 + b1) by (bit_vector)
        requires
            x == (((b0 as u16) & 0b111) << 8u16) | (b1 as u16),
    ;
    let touch_id = b2 >> 4u8;
    assert(touch_id == b2 / 16) by (bit_vector)
        requires
            touch_id == b2 >> 4u8,
    ;
    if touch_id == INVALID_TOUCH_ID {
        return None;
    }
    let y: u16 = (((b2 as u16) & 0b111) << 8u16) | (b3 as u16);
    assert(y == (b2 % 8) * 256 + b3) by (bit_vector)
        requires
            y == (((b2 as u16) & 0b111) << 8u16) | (b3 as u16),
    ;
    let weight = buf[4];
    let b5 = buf[5];
    let area = b5 & 0b1111;
    assert(area == b5 % 16) by (bit_vector)
        requires
            area == b5 & 0b1111,
    ;
    Some(PointEvent { x, y, event, weight, area, touch_id })
}

/// A block whose touch identifier nibble is below 15, and whose event flag is
/// valid, decodes to a point carrying that identifier; a block whose
/// identifier nibble is 15 decodes to no point.
pub proof fn lemma_touch_id_decoding(b: Seq<u8>)
    requires
        b.len() == 6,
    ensures
        b[2] / 16 < 15 && b[0] / 64 != 3 ==> point_of(b) is Some && point_of(b)->Some_0.touch_id == b[2] / 16,
        b[2] / 16 == 15 ==> point_of(b) is None,
{
}

/// A block whose event flag (the top two bits of byte 0) is 0, 1 or 2 decodes
/// to that event kind whenever it decodes to a point, and to a point whenever
/// its touch identifier is valid; a flag of 3 gives no point, whatever the
/// other bits hold.
pub proof fn lemma_event_decoding(b: Seq<u8>)
    requires
        b.len() == 6,
    ensures
        b[0] / 64 < 3 && b[2] / 16 != 15 ==> point_of(b) is Some,
        point_of(b) is Some ==> event_from_bits(b[0] / 64) == Some(point_of(b)->Some_0.event),
        b[0] / 64 == 0 && point_of(b) is Some ==> point_of(b)->Some_0.event == EventType::PressDown,
        b[0] / 64 == 1 && point_of(b) is Some ==> point_of(b)->Some_0.event == EventType::LiftUp,
        b[0] / 64 == 2 && point_of(b) is Some ==> point_of(b)->Some_0.event == EventType::Contact,
        b[0] / 64 == 3 ==> point_of(b) is None,
{
}

/// The touch count that a touch-count register value stands for: the value
/// itself when its low two bits are 0, 1 or 2, and 0 otherwise.
pub open spec fn touches_of(n: u8) -> u8 {
    if n % 4 <= 2 {
        n
    } else {
        0
    }
}

/// Interprets the touch-count register; a garbage value counts as no touch.
pub fn touches_from_reg(n: u8) -> (r: u8)
    ensures
        r == touches_of(n),
{
    let low = n & 0b11;
    assert(low == n % 4) by (bit_vector)
        requires
            low == n & 0b11,
    ;
    if low <= 2 {
        n
    } else {
        0
    }
}

/// Register of the `nth` point data block.
pub open spec fn point_block_reg(nth: u8) -> int {
    REG_POINT_BASE + POINT_BLOCK_LEN * nth
}

/// Decides the second step of reading the `nth` touch point, once the touch
/// count is known: `None` when there is no such point, else the register at
/// which its six-byte block is read.
pub fn point_block_addr(touches: u8, nth: u8) -> (r: Option<u8>)
    requires
        touches <= nth || point_block_reg(nth) <= 0xFF,
    ensures
        touches <= nth ==> r is None,
        touches > nth ==> r == Some(point_block_reg(nth) as u8),
{
    if touches <= nth {
        None
    } else {
        Some(REG_POINT_BASE + POINT_BLOCK_LEN * nth)
    }
}

/// Whether `id` is the chip identifier of a supported controller.
pub open spec fn known_chip_id(id: u8) -> bool {
    id == CHIPID_FT6206 || id == CHIPID_FT6236 || id == CHIPID_FT6236U
}

/// Checks a chip identifier read at initialisation. The result is diagnostic
/// only: initialisation goes on whatever it is.
pub fn is_known_chip_id(id: u8) -> (r: bool)
    ensures
        r == known_chip_id(id),
{
    id == CHIPID_FT6206 || id == CHIPID_FT6236 || id == CHIPID_FT6236U
}

/// The capacitive controller on a bus: the bus handle, owned exclusively,
/// and the controller's address on it.
pub struct FT6236<I2C> {
    i2c: I2C,
    addr: u8,
}

impl<I2C> FT6236<I2C> {
    /// The bus handle held.
    pub closed spec fn bus_spec(&self) -> I2C {
        self.i2c
    }

    /// The controller's bus address.
    pub closed spec fn addr_spec(&self) -> u8 {
        self.addr
    }

    /// A driver for a controller at the default address.
    pub fn new(i2c: I2C) -> (r: Self)
        ensures
            r.bus_spec() == i2c,
            r.addr_spec() == FT6236_DEFAULT_ADDR,
    {
        FT6236 { i2c, addr: FT6236_DEFAULT_ADDR }
    }

    /// A driver for a controller at `addr`.
    pub fn new_with_addr(i2c: I2C, addr: u8) -> (r: Self)
        ensures
            r.bus_spec() == i2c,
            r.addr_spec() == addr,
    {
        FT6236 { i2c, addr }
    }

    /// The controller's bus address.
    pub fn addr(&self) -> (r: u8)
        ensures
            r == self.addr_spec(),
    {
        self.addr
    }

    /// The bus handle, for the transactions that a read or write makes.
    pub fn bus(&mut self) -> (r: &mut I2C)
        ensures
            *r == old(self).bus_spec(),
            final(self).bus_spec() == *final(r),
            final(self).addr_spec() == old(self).addr_spec(),
    {
        &mut self.i2c
    }

    /// Gives the bus handle back.
    pub fn release(self) -> (r: I2C)
        ensures
            r == self.bus_spec(),
    {
        self.i2c
    }
}

/// Controller settings written at initialisation.
#[derive(Copy, Clone, PartialEq, Eq, Structural, PartialOrd, Ord, Hash, Debug)]
pub struct Config {
    /// threshold for touch detection
    pub threshhold: u8,
}

/// Default touch detection threshold.
pub const DEFAULT_THRESHHOLD: u8 = 0x40;

impl Default for Config {
    fn default() -> (r: Config)
        ensures
            r.threshhold == DEFAULT_THRESHHOLD,
    {
        Config { threshhold: DEFAULT_THRESHHOLD }
    }
}

impl Config {
    /// The register write that applies this configuration: the threshold
    /// register followed by the threshold.
    pub fn threshold_write(&self) -> (r: [u8; 2])
        ensures
            r@ == seq![REG_THRESHHOLD, self.threshhold],
    {
        let r = [REG_THRESHHOLD, self.threshhold];
        assert(r@ =~= seq![REG_THRESHHOLD, self.threshhold]);
        r
    }
}

/// One step of the hardware reset sequence.
#[derive(Copy, Clone, PartialEq, Eq, Structural, Debug)]
pub enum ResetStep {
    /// Drive the reset line high.
    SetHigh,
    /// Drive the reset line low.
    SetLow,
    /// Wait for the given number of milliseconds.
    DelayMs(u32),
}

/// The reset sequence: line high, 5 ms, line low for 10 ms (the controller
/// needs at least 5), line high again and 350 ms for the controller to start
/// (it needs at least 300).
pub open spec fn reset_sequence() -> Seq<ResetStep> {
    seq![
        ResetStep::SetHigh,
        ResetStep::DelayMs(5),
        ResetStep::SetLow,
        ResetStep::DelayMs(10),
        ResetStep::SetHigh,
        ResetStep::DelayMs(350),
    ]
}

/// The steps to run, in order, to reset the controller; a failure to drive the
/// line ends the sequence.
pub fn reset_steps() -> (r: Vec<ResetStep>)
    ensures
        r@ == reset_sequence(),
{
    let r = vec![
        ResetStep::SetHigh,
        ResetStep::DelayMs(5),
        ResetStep::SetLow,
        ResetStep::DelayMs(10),
        ResetStep::SetHigh,
        ResetStep::DelayMs(350),
    ];
    assert(r@ =~= reset_sequence());
    r
}

} // verus!
