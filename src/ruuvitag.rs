use crate::measurement::{
    acceleration_of, be16, get_acceleration, get_measurement_sequence_number, get_movement_counter,
    get_temperature, manufacturer_id, signed_of, temperature_of, DecodeError, DATA_FORMAT,
    MANUFACTURER_ID, PAYLOAD_LEN,
};
use ruuvi_sensor_protocol::{
    Acceleration, BatteryPotential, Humidity, MeasurementSequenceNumber, MovementCounter,
    ParseError, Pressure, Temperature, TransmitterPower,
};
use vstd::prelude::*;

verus! {

#[verifier::external_type_specification]
pub struct ExParseError(ParseError);

/// A radio device address: six bytes, the least significant first.
#[derive(Clone, Copy, Debug, PartialEq, Eq)]
pub struct DeviceAddress {
    pub address: [u8; 6],
}

impl DeviceAddress {
    /// Whether the two addresses hold the same bytes.
    pub fn same_as(&self, other: &DeviceAddress) -> (r: bool)
        ensures
            r == (self.address@ == other.address@),
    {
        let mut i: usize = 0;
        while i < 6
            invariant
                0 <= i <= 6,
                self.address@.len() == 6,
                other.address@.len() == 6,
                forall|j: int| 0 <= j < i ==> self.address@[j] == other.address@[j],
            decreases 6 - i,
        {
            if self.address[i] != other.address[i] {
                return false;
            }
            i = i + 1;
        }
        assert(self.address@ =~= other.address@);
        true
    }
}

/// The measurements of one advertisement in integer units; `None` where the
/// beacon sent its "not available" pattern or its format has no such field.
#[derive(Clone, Copy, Debug, PartialEq, Eq)]
pub struct SensorValues {
    /// thousandths of a degree Celsius
    pub temperature: Option<i32>,
    /// relative humidity in parts per million
    pub humidity: Option<u32>,
    /// pascals
    pub pressure: Option<u32>,
    /// milli-g along x, y and z
    pub acceleration: Option<(i16, i16, i16)>,
    /// millivolts
    pub battery_voltage: Option<u16>,
    /// dBm
    pub tx_power: Option<i8>,
    pub movement_counter: Option<u32>,
    pub measurement_sequence_number: Option<u32>,
}

/// The form in which a tag's values are to be shown: as the integers that were
/// decoded, or in physical units (degrees, percent, volts), which the output
/// computes from the same integers.
#[derive(Clone, Copy, Debug, PartialEq, Eq)]
pub enum SensorValuesType {
    Raw(SensorValues),
    Normalized(SensorValues),
}

impl SensorValuesType {
    pub open spec fn values(self) -> SensorValues {
        match self {
            SensorValuesType::Raw(v) => v,
            SensorValuesType::Normalized(v) => v,
        }
    }

    /// The values, whichever form they are to be shown in.
    pub fn inner(&self) -> (r: SensorValues)
        ensures
            r == self.values(),
    {
        match self {
            SensorValuesType::Raw(v) => *v,
            SensorValuesType::Normalized(v) => *v,
        }
    }
}

/// One reading of one beacon.
#[derive(Clone, Copy, Debug)]
pub struct RuuviTag {
    pub mac: DeviceAddress,
    /// capture time, milliseconds since the Unix epoch
    pub time: i64,
    pub sensor_values: SensorValuesType,
}

/// The payload value lengths, version byte included, of the formats that the
/// protocol parser reads.
pub open spec fn protocol_length(version: u8) -> Option<nat> {
    if version == 3 {
        Some(14)
    } else if version == 5 {
        Some(24)
    } else if version == 6 {
        Some(20)
    } else if version == 0xE1 {
        Some(40)
    } else {
        None
    }
}

/// Format 5 as the protocol parser reads it from `v` (the version byte first):
/// big-endian words, `0x8000` as "not available" for signed ones and all ones
/// for the others.
pub open spec fn protocol_v5_values(v: Seq<u8>) -> SensorValues {
    SensorValues {
        temperature: if be16(v, 1) == 0x8000 {
            None
        } else {
            Some((signed_of(be16(v, 1), 16) * 5) as i32)
        },
        humidity: if be16(v, 3) == 0xFFFF {
            None
        } else {
            Some((be16(v, 3) * 25) as u32)
        },
        pressure: if be16(v, 5) == 0xFFFF {
            None
        } else {
            Some((be16(v, 5) + 50000) as u32)
        },
        acceleration: if be16(v, 7) == 0x8000 || be16(v, 9) == 0x8000 || be16(v, 11) == 0x8000 {
            None
        } else {
            Some(
                (
                    signed_of(be16(v, 7), 16) as i16,
                    signed_of(be16(v, 9), 16) as i16,
                    signed_of(be16(v, 11), 16) as i16,
                ),
            )
        },
        battery_voltage: if be16(v, 13) / 32 == 2047 {
            None
        } else {
            Some((be16(v, 13) / 32 + 1600) as u16)
        },
        tx_power: if be16(v, 13) % 32 == 31 {
            None
        } else {
            Some((be16(v, 13) % 32 * 2 - 40) as i8)
        },
        movement_counter: if v[15] == 0xFF {
            None
        } else {
            Some(v[15] as u32)
        },
        measurement_sequence_number: if be16(v, 16) == 0xFFFF {
            None
        } else {
            Some(be16(v, 16) as u32)
        },
    }
}

/// What the protocol parser makes of a payload value of format 3, 6 or E1.
pub uninterp spec fn protocol_values(v: Seq<u8>) -> SensorValues;

/// The protocol parser's result for manufacturer id `id` and payload value `v`;
/// `other` stands for its reading of a format other than 5.
pub open spec fn protocol_parse(id: u16, v: Seq<u8>, other: SensorValues) -> Result<
    SensorValues,
    ParseError,
> {
    if id != MANUFACTURER_ID {
        Err(ParseError::UnknownManufacturerId(id))
    } else if v.len() == 0 {
        Err(ParseError::EmptyValue)
    } else {
        match protocol_length(v[0]) {
            None => Err(ParseError::UnsupportedFormatVersion(v[0])),
            Some(n) => if v.len() != n {
                Err(ParseError::InvalidValueLength(v[0], v.len() as usize, n as usize))
            } else if v[0] == 5 {
                Ok(protocol_v5_values(v))
            } else {
                Ok(other)
            },
        }
    }
}

/// Relies on ruuvi_sensor_protocol::SensorValues::from_manufacturer_specific_data
/// and the accessors of its result, each moved into the field of the same meaning.
#[verifier::external_body]
fn parse_manufacturer_data(id: u16, value: &[u8]) -> (r: Result<SensorValues, ParseError>)
    ensures
        r == protocol_parse(id, value@, protocol_values(value@)),
{
    match ruuvi_sensor_protocol::SensorValues::from_manufacturer_specific_data(id, value) {
        Ok(v) => Ok(SensorValues {
            temperature: v.temperature_as_millicelsius(),
            humidity: v.humidity_as_ppm(),
            pressure: v.pressure_as_pascals(),
            acceleration: v.acceleration_vector_as_milli_g().map(|a| (a.0, a.1, a.2)),
            battery_voltage: v.battery_potential_as_millivolts(),
            tx_power: v.tx_power_as_dbm(),
            movement_counter: v.movement_counter(),
            measurement_sequence_number: v.measurement_sequence_number(),
        }),
        Err(e) => Err(e),
    }
}

/// Relies on chrono::Utc::now: the time of the call, as milliseconds since the
/// Unix epoch. Nothing is promised of its value.
#[verifier::external_body]
fn capture_time() -> (r: i64) {
    chrono::Utc::now().timestamp_millis()
}

/// Whether the manufacturer data starts with the vendor's id.
pub fn is_ruuvitag(data: &[u8]) -> (r: bool)
    ensures
        r == (data@.len() >= 2 && manufacturer_id(data@) == MANUFACTURER_ID),
{
    if data.len() < 2 {
        return false;
    }
    let manufacturer_id = data[0] as u16 + (data[1] as u16) * 256;
    manufacturer_id == MANUFACTURER_ID
}

/// The payload value that follows the two id bytes.
pub open spec fn payload_value(data: Seq<u8>) -> Seq<u8> {
    data.subrange(2, data.len() as int)
}

/// Whether `data` is a complete format-5 payload behind its id.
pub open spec fn is_format5(data: Seq<u8>) -> bool {
    data.len() == PAYLOAD_LEN && data[2] == DATA_FORMAT
}

/// The values of the format-5 payload `data`, with the decoder's rules for
/// the fields on which the protocol parser differs: a temperature or an
/// acceleration axis of `0x7FFF` is absent, and the movement counter and the
/// sequence number have no absent pattern.
pub open spec fn with_format5_rules(data: Seq<u8>, v: SensorValues) -> SensorValues {
    SensorValues {
        temperature: temperature_of(data),
        acceleration: match acceleration_of(data) {
            Some(a) => Some((a.0 as i16, a.1 as i16, a.2 as i16)),
            None => None,
        },
        movement_counter: Some(data[17] as u32),
        measurement_sequence_number: Some(be16(data, 18) as u32),
        ..v
    }
}

/// What `from_manufacturer_data` returns for `data`, with `other` standing for
/// the protocol parser's reading of a format other than 5.
pub open spec fn manufacturer_data_values(data: Seq<u8>, other: SensorValues) -> Result<
    SensorValues,
    ParseError,
> {
    if data.len() >= 2 {
        match protocol_parse(manufacturer_id(data) as u16, payload_value(data), other) {
            Ok(v) => if is_format5(data) {
                Ok(with_format5_rules(data, v))
            } else {
                Ok(v)
            },
            Err(e) => Err(e),
        }
    } else {
        Err(ParseError::EmptyValue)
    }
}

/// Parses manufacturer-specific data: the little-endian manufacturer id, then
/// the payload value. Data too short to hold an id holds no value. Of a
/// format-5 payload, the temperature, the acceleration, the movement counter
/// and the sequence number are read by the decoder's rules.
pub fn from_manufacturer_data(data: &[u8]) -> (r: Result<SensorValues, ParseError>)
    ensures
        r == manufacturer_data_values(data@, protocol_values(payload_value(data@))),
{
    if data.len() < 2 {
        return Err(ParseError::EmptyValue);
    }
    let id = data[0] as u16 + (data[1] as u16) * 256;
    let value = vstd::slice::slice_subrange(data, 2, data.len());
    match parse_manufacturer_data(id, value) {
        Ok(v) => {
            if data.len() == PAYLOAD_LEN && data[2] == DATA_FORMAT {
                let acceleration = match get_acceleration(data) {
                    Some((x, y, z)) => Some((x as i16, y as i16, z as i16)),
                    None => None,
                };
                Ok(
                    SensorValues {
                        temperature: get_temperature(data),
                        acceleration,
                        movement_counter: Some(get_movement_counter(data) as u32),
                        measurement_sequence_number: Some(
                            get_measurement_sequence_number(data) as u32,
                        ),
                        ..v
                    },
                )
            } else {
                Ok(v)
            }
        },
        Err(e) => Err(e),
    }
}

impl RuuviTag {
    /// A raw reading of the beacon `mac`, stamped with the time of the call.
    pub fn new(mac: DeviceAddress, manufacturer_data: &[u8]) -> (r: Result<RuuviTag, ParseError>)
        ensures
            match manufacturer_data_values(
                manufacturer_data@,
                protocol_values(payload_value(manufacturer_data@)),
            ) {
                Ok(v) => r is Ok && r->Ok_0.mac == mac && r->Ok_0.sensor_values
                    == SensorValuesType::Raw(v),
                Err(e) => r == Err::<RuuviTag, ParseError>(e),
            },
    {
        match from_manufacturer_data(manufacturer_data) {
            Ok(values) => Ok(
                RuuviTag { mac, time: capture_time(), sensor_values: SensorValuesType::Raw(values) },
            ),
            Err(e) => Err(e),
        }
    }

    /// The same reading, to be shown in physical units.
    pub open spec fn normalized(self) -> RuuviTag {
        RuuviTag {
            sensor_values: SensorValuesType::Normalized(self.sensor_values.values()),
            ..self
        }
    }

    /// Marks the values for display in physical units; values already so
    /// marked are left as they are.
    pub fn normalize_sensor_values(self) -> (r: RuuviTag)
        ensures
            r == self.normalized(),
    {
        match self.sensor_values {
            SensorValuesType::Raw(values) => RuuviTag {
                mac: self.mac,
                time: self.time,
                sensor_values: SensorValuesType::Normalized(values),
            },
            _ => self,
        }
    }
}

/// The kind of failure that a parse error stands for: a foreign id; a payload
/// too short for its format (or with no format byte); or one that is of an
/// unknown format or too long.
pub open spec fn decode_error_kind(e: ParseError) -> DecodeError {
    match e {
        ParseError::UnknownManufacturerId(_) => DecodeError::UnrecognizedManufacturer,
        ParseError::EmptyValue => DecodeError::EmptyPayload,
        ParseError::InvalidValueLength(_, length, expected) => if length < expected {
            DecodeError::EmptyPayload
        } else {
            DecodeError::Malformed
        },
        _ => DecodeError::Malformed,
    }
}

/// Sorts a parse error into the decoder's kinds of failure.
pub fn decode_error_of(e: &ParseError) -> (r: DecodeError)
    ensures
        r == decode_error_kind(*e),
{
    match e {
        ParseError::UnknownManufacturerId(_) => DecodeError::UnrecognizedManufacturer,
        ParseError::EmptyValue => DecodeError::EmptyPayload,
        ParseError::InvalidValueLength(_, length, expected) => if *length < *expected {
            DecodeError::EmptyPayload
        } else {
            DecodeError::Malformed
        },
        _ => DecodeError::Malformed,
    }
}

/// Data whose manufacturer id is not the vendor's is rejected with that id,
/// whatever follows it, from two bytes on.
pub proof fn lemma_foreign_manufacturer_data_rejected(data: Seq<u8>, other: SensorValues)
    requires
        data.len() >= 2,
        manufacturer_id(data) != MANUFACTURER_ID,
    ensures
        manufacturer_data_values(data, other) == Err::<SensorValues, ParseError>(
            ParseError::UnknownManufacturerId(manufacturer_id(data) as u16),
        ),
{
}

/// On the event path too, a format-5 temperature of `0x7FFF` is absent and one
/// of zero is zero degrees; the acceleration is absent exactly when an axis is
/// `0x7FFF`; the movement counter and the sequence number are always present.
pub proof fn lemma_format5_sentinels(data: Seq<u8>, other: SensorValues)
    requires
        data.len() == PAYLOAD_LEN,
        manufacturer_id(data) == MANUFACTURER_ID,
        data[2] == DATA_FORMAT,
    ensures
        manufacturer_data_values(data, other) is Ok,
        manufacturer_data_values(data, other)->Ok_0.temperature is None <==> be16(data, 3)
            == 0x7FFF,
        be16(data, 3) == 0 ==> manufacturer_data_values(data, other)->Ok_0.temperature == Some(
            0i32,
        ),
        manufacturer_data_values(data, other)->Ok_0.acceleration is None <==> (be16(data, 9)
            == 0x7FFF || be16(data, 11) == 0x7FFF || be16(data, 13) == 0x7FFF),
        manufacturer_data_values(data, other)->Ok_0.movement_counter == Some(data[17] as u32),
        manufacturer_data_values(data, other)->Ok_0.measurement_sequence_number == Some(
            be16(data, 18) as u32,
        ),
{
    assert(payload_value(data)[0] == data[2]);
    vstd::arithmetic::power2::lemma2_to64();
}

/// Normalizing twice is normalizing once, and keeps the values, the address
/// and the time.
pub proof fn lemma_normalize_idempotent(tag: RuuviTag)
    ensures
        tag.normalized().normalized() == tag.normalized(),
        tag.normalized().sensor_values.values() == tag.sensor_values.values(),
        tag.normalized().mac == tag.mac,
        tag.normalized().time == tag.time,
{
}

} // verus!
