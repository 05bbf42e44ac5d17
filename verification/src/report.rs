//! The raw on-wire report of the INA219 measurement device and its
//! conversion into calibrated fixed-point measurements.
//!
//! One report is exactly [`REPORT_LEN`] bytes on the wire: four consecutive
//! 16-bit little-endian registers (bus voltage, shunt voltage, current,
//! power) with no padding, framing or checksum.

use vstd::prelude::*;

verus! {

/// Number of bytes of one on-wire report: four 16-bit registers.
pub const REPORT_LEN: usize = 8;

/// Fractional units per volt (and per raw unit) in an [`Ina219Result`]:
/// a stored value `v` stands for the physical value `v / SCALE`.
pub const SCALE: i64 = 100000;

/// One sample as delivered by the device, before unit conversion.
///
/// Field units: `voltage` in 1 mV steps, `shunt_voltage` in 0.01 mV steps,
/// `current` and `power` in unscaled device-specific register units.
#[derive(Clone, Copy, PartialEq, Eq, Structural, Debug)]
pub struct Ina219Report {
    pub voltage: u16,
    pub shunt_voltage: i16,
    pub current: i16,
    pub power: i16,
}

/// One sample after unit conversion, as fixed-point numbers with
/// denominator [`SCALE`]: `voltage` and `shunt_voltage` are in units of
/// 1/100000 V; `current` and `power` carry the raw register value
/// (a deliberate pass-through, as no calibration constant is available).
#[derive(Clone, Copy, PartialEq, Eq, Structural, Debug)]
pub struct Ina219Result {
    pub voltage: i64,
    pub shunt_voltage: i64,
    pub current: i64,
    pub power: i64,
}

/// Why a buffer could not be decoded into an [`Ina219Report`].
#[derive(Clone, Copy, PartialEq, Eq, Structural, Debug)]
pub enum DecodeError {
    /// The byte source delivered a buffer of a length other than
    /// [`REPORT_LEN`]; `actual` is the length that was delivered.
    WrongLength { actual: usize },
    /// The deserialization layer reported a structural mismatch.
    /// Unreachable for this layout: every 8-byte pattern is a valid report.
    Malformed,
}

/// The unsigned 16-bit value stored little-endian as `lo`, `hi`.
pub open spec fn le_u16(lo: u8, hi: u8) -> u16 {
    (lo + hi * 256) as u16
}

/// The signed 16-bit value stored little-endian as `lo`, `hi`
/// (two's complement).
pub open spec fn le_i16(lo: u8, hi: u8) -> i16 {
    let v = lo + hi * 256;
    if v < 32768 {
        v as i16
    } else {
        (v - 65536) as i16
    }
}

/// The report held in the first [`REPORT_LEN`] bytes of `b`: four
/// little-endian 16-bit registers in declaration order.
pub open spec fn spec_decode(b: Seq<u8>) -> Ina219Report {
    Ina219Report {
        voltage: le_u16(b[0], b[1]),
        shunt_voltage: le_i16(b[2], b[3]),
        current: le_i16(b[4], b[5]),
        power: le_i16(b[6], b[7]),
    }
}

/// The measurement record that `rep` converts to: volts are scaled by
/// [`SCALE`] (1 mV = 100 units, 0.01 mV = 1 unit), while `current` and
/// `power` pass through unscaled (stored as raw × [`SCALE`], so that the
/// fixed-point reading equals the raw register value).
pub open spec fn spec_convert(rep: Ina219Report) -> Ina219Result {
    Ina219Result {
        voltage: (rep.voltage * 100) as i64,
        shunt_voltage: rep.shunt_voltage as i64,
        current: (rep.current * 100000) as i64,
        power: (rep.power * 100000) as i64,
    }
}

#[verifier::external_type_specification]
#[verifier::external_body]
pub struct ExSsmarshalError(ssmarshal::Error);

/// Relies on `ssmarshal::deserialize` for `(u16, i16, i16, i16)`: it reads
/// four consecutive little-endian 16-bit values from the start of the
/// buffer, and succeeds whenever at least eight bytes are available.
/// Shorter buffers are excluded: there `ssmarshal` fails, and panics in
/// debug builds.
#[verifier::external_body]
fn deserialize_fields(buf: &[u8]) -> (r: Result<Ina219Report, ssmarshal::Error>)
    requires
        buf@.len() >= 8,
    ensures
        r is Ok,
        r matches Ok(rep) ==> rep == spec_decode(buf@),
{
    match ssmarshal::deserialize::<(u16, i16, i16, i16)>(buf) {
        Ok(((voltage, shunt_voltage, current, power), _)) => {
            Ok(Ina219Report { voltage, shunt_voltage, current, power })
        },
        Err(e) => Err(e),
    }
}

impl Ina219Report {
    /// Deserializes one report from `buf`.
    ///
    /// Succeeds exactly when `buf` holds [`REPORT_LEN`] bytes (every 8-byte
    /// pattern is a valid set of four 16-bit registers); any other length
    /// is a protocol-level contract violation and is rejected.
    pub fn decode(buf: &[u8]) -> (r: Result<Ina219Report, DecodeError>)
        ensures
            buf@.len() == REPORT_LEN ==> r == Ok::<Ina219Report, DecodeError>(spec_decode(buf@)),
            buf@.len() != REPORT_LEN ==> r == Err::<Ina219Report, DecodeError>(
                DecodeError::WrongLength { actual: buf@.len() as usize },
            ),
    {
        if buf.len() != REPORT_LEN {
            return Err(DecodeError::WrongLength { actual: buf.len() });
        }
        match deserialize_fields(buf) {
            Ok(rep) => Ok(rep),
            Err(_) => Err(DecodeError::Malformed),
        }
    }

    /// Converts the raw registers to a fixed-point measurement record.
    /// Pure and total: no 16-bit input can overflow the scaled fields.
    pub fn to_result(&self) -> (r: Ina219Result)
        ensures
            r == spec_convert(*self),
    {
        Ina219Result {
            voltage: self.voltage as i64 * 100,
            shunt_voltage: self.shunt_voltage as i64,
            current: self.current as i64 * 100000,
            power: self.power as i64 * 100000,
        }
    }
}

} // verus!
