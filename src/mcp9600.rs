//! Register layout and data decoding of the MCP9600 thermocouple amplifier.
use vstd::prelude::*;

verus! {

/// Base bus address of the MCP9600.
pub const MCP9600_I2C_BASE_ADDR: u8 = 0x60;

/// Hot-junction temperature register.
pub const REG_TH: u8 = 0x00;
/// Temperature delta register.
pub const REG_TD: u8 = 0x01;
/// Cold-junction temperature register.
pub const REG_TC: u8 = 0x02;
/// Status register.
pub const REG_STATUS: u8 = 0x04;
/// Sensor configuration register.
pub const REG_CONFIG: u8 = 0x05;
/// Device id and revision register.
pub const REG_DEVICE_ID: u8 = 0x20;

/// Device id that an MCP9600 reports.
pub const DEVICE_ID: u8 = 0x40;

/// Sensor configuration written at start-up (type K thermocouple).
pub const SENSOR_CONFIG: u8 = 0x01;

/// Fault and alert flags of the status register.
#[derive(Clone, Copy, Debug, PartialEq, Eq, Structural)]
pub struct SensorFault {
    pub bits: u8,
}

/// Mask of the defined status flags.
pub const SENSOR_FAULT_MASK: u8 = 0b0001_1111;

impl SensorFault {
    pub const INPUT_RANGE: u8 = 0b0000_0001;
    pub const ALERT1: u8 = 0b0000_0010;
    pub const ALERT2: u8 = 0b0000_0100;
    pub const ALERT3: u8 = 0b0000_1000;
    pub const ALERT4: u8 = 0b0001_0000;

    /// The defined flags of a status byte; other bits are dropped.
    pub fn from_bits_truncate(bits: u8) -> (r: Self)
        ensures
            r.bits == bits & SENSOR_FAULT_MASK,
    {
        SensorFault { bits: bits & SENSOR_FAULT_MASK }
    }

    /// Whether every flag of `flags` is set.
    pub fn contains(&self, flags: u8) -> (r: bool)
        ensures
            r == (self.bits & flags == flags),
    {
        self.bits & flags == flags
    }

    /// Whether no flag is set.
    pub fn is_empty(&self) -> (r: bool)
        ensures
            r == (self.bits == 0),
    {
        self.bits == 0
    }
}

/// Failure of a sensor operation, over the bus error `E`.
#[derive(Debug)]
pub enum Error<E> {
    I2c(E),
    BadDeviceId,
    SensorFault(SensorFault),
    DataFormat,
}

/// Temperatures in thousandths of a degree Celsius.
#[derive(Clone, Copy, Debug, PartialEq, Eq, Structural)]
pub struct Temps {
    pub th_c: i32,
    pub tc_c: i32,
    pub delta_c: i32,
}

/// Big-endian two's-complement value of two bytes.
pub open spec fn be_i16(hi: u8, lo: u8) -> int {
    let u = hi * 256 + lo;
    if u >= 0x8000 {
        u - 0x10000
    } else {
        u
    }
}

/// A register value in thousandths of a degree: 0.0625 degree per unit,
/// rounded down.
pub open spec fn raw_to_milli(raw: int) -> int {
    raw * 125 / 2
}

/// Driver handle of one MCP9600.
#[derive(Clone, Copy, Debug, PartialEq, Eq, Structural)]
pub struct Mcp9600 {
    pub addr: u8,
}

impl Mcp9600 {
    /// A driver for the device at `addr`.
    pub fn new(addr: u8) -> (r: Self)
        ensures
            r.addr == addr,
    {
        Mcp9600 { addr }
    }

    /// Parses a 16-bit signed temperature register (big-endian, two's
    /// complement); `None` unless exactly two bytes are given.
    pub fn parse_temp16(bytes: &[u8]) -> (r: Option<i16>)
        ensures
            bytes@.len() == 2 <==> r is Some,
            r matches Some(v) ==> v == be_i16(bytes@[0], bytes@[1]),
    {
        if bytes.len() != 2 {
            return None;
        }
        Some(be_pair(bytes[0], bytes[1]))
    }

    /// Checks the device id and revision read from the id register.
    pub fn check_id_revision<E>(bytes: &[u8]) -> (r: Result<(u8, u8), Error<E>>)
        ensures
            bytes@.len() != 2 ==> (r matches Err(e) && e is DataFormat),
            bytes@.len() == 2 && bytes@[0] != DEVICE_ID ==> (r matches Err(e) && e is BadDeviceId),
            bytes@.len() == 2 && bytes@[0] == DEVICE_ID ==> (r matches Ok(p) && p == (
                bytes@[0],
                bytes@[1],
            )),
    {
        if bytes.len() != 2 {
            return Err(Error::DataFormat);
        }
        if bytes[0] != DEVICE_ID {
            return Err(Error::BadDeviceId);
        }
        Ok((bytes[0], bytes[1]))
    }

    /// Decodes the three temperature registers read in one transfer
    /// (hot junction, delta, cold junction).
    pub fn parse_all<E>(bytes: &[u8]) -> (r: Result<Temps, Error<E>>)
        ensures
            bytes@.len() == 6 <==> r is Ok,
            r matches Ok(t) ==> {
                &&& t.th_c == raw_to_milli(be_i16(bytes@[0], bytes@[1]))
                &&& t.delta_c == raw_to_milli(be_i16(bytes@[2], bytes@[3]))
                &&& t.tc_c == raw_to_milli(be_i16(bytes@[4], bytes@[5]))
            },
            r matches Err(e) ==> e is DataFormat,
    {
        if bytes.len() != 6 {
            return Err(Error::DataFormat);
        }
        let th = be_pair(bytes[0], bytes[1]);
        let td = be_pair(bytes[2], bytes[3]);
        let tc = be_pair(bytes[4], bytes[5]);
        Ok(
            Temps {
                th_c: raw_to_millidegrees(th),
                delta_c: raw_to_millidegrees(td),
                tc_c: raw_to_millidegrees(tc),
            },
        )
    }
}

fn be_pair(hi: u8, lo: u8) -> (r: i16)
    ensures
        r == be_i16(hi, lo),
{
    let u: u16 = hi as u16 * 256 + lo as u16;
    if u >= 0x8000 {
        (u as i32 - 0x10000) as i16
    } else {
        u as i16
    }
}

/// Converts a temperature register value to thousandths of a degree.
pub fn raw_to_millidegrees(raw: i16) -> (r: i32)
    ensures
        r == raw_to_milli(raw as int),
{
    let scaled: i32 = raw as i32 * 125;
    if scaled >= 0 {
        scaled / 2
    } else {
        let n: i32 = -scaled;
        let q: i32 = (n + 1) / 2;
        proof {
            assert(scaled / 2 == -((n + 1) / 2)) by (nonlinear_arith)
                requires
                    n > 0,
                    scaled == -n,
            ;
        }
        -q
    }
}

} // verus!
