use vstd::arithmetic::power2::pow2;
use vstd::prelude::*;

verus! {

/// The signed value that `val`, read as a `bits`-wide two's-complement word, stands for.
pub open spec fn signed_of(val: int, bits: nat) -> int {
    if val >= pow2((bits - 1) as nat) {
        val - pow2(bits)
    } else {
        val
    }
}

proof fn lemma_shl_one_is_pow2(b: u8)
    requires
        b <= 30,
    ensures
        (1i32 << b) as int == pow2(b as nat),
    decreases b,
{
    if b == 0 {
        assert((1i32 << 0u8) == 1i32) by (bit_vector);
        vstd::arithmetic::power2::lemma2_to64();
    } else {
        lemma_shl_one_is_pow2((b - 1) as u8);
        let c = (b - 1) as u8;
        assert((1i32 << b) == 2 * (1i32 << c)) by (bit_vector)
            requires
                1 <= b <= 30,
                c == b - 1,
        ;
        vstd::arithmetic::power2::lemma_pow2_unfold(b as nat);
    }
}

/// Reads `val` as a `bits`-wide two's-complement word: when its sign bit is set,
/// `2^bits` is subtracted.
pub fn twos_complement(val: i32, bits: u8) -> (r: i32)
    requires
        1 <= bits <= 30,
        0 <= val < pow2(bits as nat),
    ensures
        r == signed_of(val as int, bits as nat),
{
    let sign: u8 = bits - 1;
    proof {
        lemma_shl_one_is_pow2(sign);
        lemma_shl_one_is_pow2(bits);
        let s = 1i32 << sign;
        let w = 1i32 << bits;
        assert((val & s) != 0 <==> val >= s) by (bit_vector)
            requires
                0 <= val < w,
                1 <= bits <= 30,
                sign == bits - 1,
                s == 1i32 << sign,
                w == 1i32 << bits,
        ;
    }
    if (val & (1 << sign)) != 0 {
        return val - (1 << bits);
    }
    val
}

/// The id under which the beacons' vendor tags its manufacturer-specific data.
pub const MANUFACTURER_ID: u16 = 0x0499;

/// The payload layout that the decoder reads.
pub const DATA_FORMAT: u8 = 5;

/// Bytes in a complete payload: the manufacturer id, the format byte and the
/// measurement block up to and including the six bytes of the MAC address.
pub const PAYLOAD_LEN: usize = 26;

/// Why a payload could not be decoded.
#[derive(Clone, Copy, Debug, PartialEq, Eq, Structural)]
pub enum DecodeError {
    /// The payload is too short to hold the fields of the format.
    EmptyPayload,
    /// The manufacturer id is not the vendor's.
    UnrecognizedManufacturer,
    /// The payload does not follow the supported layout.
    Malformed,
}

/// One decoded payload, in integer units; a field whose "not available" bit
/// pattern was sent is `None`.
#[derive(Debug)]
pub struct RuuviMeasurement {
    pub data_format: u8,
    /// thousandths of a degree Celsius
    pub temperature: Option<i32>,
    /// ten-thousandths of a percent of relative humidity
    pub humidity: Option<u32>,
    /// pascals
    pub pressure: Option<u32>,
    /// milli-g along x, y and z
    pub acceleration: Option<(i32, i32, i32)>,
    /// millivolts
    pub battery_voltage: Option<u32>,
    /// dBm
    pub tx_power: Option<i32>,
    pub movement_counter: u8,
    pub sequence_number: u16,
    /// the six bytes of the sender's MAC address, most significant first
    pub mac: Vec<u8>,
}

/// The big-endian 16-bit word at byte `i`.
pub open spec fn be16(s: Seq<u8>, i: int) -> int {
    s[i] * 256 + s[i + 1]
}

/// The little-endian manufacturer id in the first two bytes.
pub open spec fn manufacturer_id(s: Seq<u8>) -> int {
    s[0] + s[1] * 256
}

pub open spec fn temperature_of(s: Seq<u8>) -> Option<i32> {
    if be16(s, 3) == 0x7FFF {
        None
    } else {
        Some((signed_of(be16(s, 3), 16) * 5) as i32)
    }
}

pub open spec fn humidity_of(s: Seq<u8>) -> Option<u32> {
    if be16(s, 5) == 0xFFFF {
        None
    } else {
        Some((be16(s, 5) * 25) as u32)
    }
}

pub open spec fn pressure_of(s: Seq<u8>) -> Option<u32> {
    if be16(s, 7) == 0xFFFF {
        None
    } else {
        Some((be16(s, 7) + 50000) as u32)
    }
}

pub open spec fn acceleration_of(s: Seq<u8>) -> Option<(i32, i32, i32)> {
    if be16(s, 9) == 0x7FFF || be16(s, 11) == 0x7FFF || be16(s, 13) == 0x7FFF {
        None
    } else {
        Some(
            (
                signed_of(be16(s, 9), 16) as i32,
                signed_of(be16(s, 11), 16) as i32,
                signed_of(be16(s, 13), 16) as i32,
            ),
        )
    }
}

/// The upper eleven bits of the power word: battery voltage above 1600 mV.
pub open spec fn battery_bits(s: Seq<u8>) -> int {
    be16(s, 15) / 32
}

/// The lower five bits of the power word: transmit power in 2 dBm steps above -40 dBm.
pub open spec fn tx_power_bits(s: Seq<u8>) -> int {
    be16(s, 15) % 32
}

pub open spec fn battery_voltage_of(s: Seq<u8>) -> Option<u32> {
    if battery_bits(s) == 2047 {
        None
    } else {
        Some((battery_bits(s) + 1600) as u32)
    }
}

pub open spec fn tx_power_of(s: Seq<u8>) -> Option<i32> {
    if tx_power_bits(s) == 31 {
        None
    } else {
        Some((tx_power_bits(s) * 2 - 40) as i32)
    }
}

/// The error that `s` is rejected with, if any.
pub open spec fn decode_error(s: Seq<u8>) -> Option<DecodeError> {
    if s.len() < 2 {
        Some(DecodeError::EmptyPayload)
    } else if manufacturer_id(s) != MANUFACTURER_ID {
        Some(DecodeError::UnrecognizedManufacturer)
    } else if s.len() < PAYLOAD_LEN {
        Some(DecodeError::EmptyPayload)
    } else if s[2] != DATA_FORMAT {
        Some(DecodeError::Malformed)
    } else {
        None
    }
}

impl RuuviMeasurement {
    /// Every field is what the payload `s` holds at its place.
    pub open spec fn read_from(&self, s: Seq<u8>) -> bool {
        &&& self.data_format == s[2]
        &&& self.temperature == temperature_of(s)
        &&& self.humidity == humidity_of(s)
        &&& self.pressure == pressure_of(s)
        &&& self.acceleration == acceleration_of(s)
        &&& self.battery_voltage == battery_voltage_of(s)
        &&& self.tx_power == tx_power_of(s)
        &&& self.movement_counter == s[17]
        &&& self.sequence_number == be16(s, 18)
        &&& self.mac@ == s.subrange(20, 26)
    }
}

/// `val >> n`, widened first.
pub fn rshift(val: u16, n: u8) -> (r: u64)
    requires
        n < 64,
    ensures
        r as int == val as int / pow2(n as nat) as int,
{
    let wide: u64 = val as u64 % 0x100000000;
    proof {
        vstd::bits::lemma_u64_shr_is_div(wide, n as u64);
    }
    wide >> n
}

fn read_be16(data: &[u8], i: usize) -> (r: u16)
    requires
        i + 1 < data@.len(),
    ensures
        r as int == be16(data@, i as int),
{
    (data[i] as u16) * 256 + (data[i + 1] as u16)
}

proof fn lemma_signed16_range(v: int)
    requires
        0 <= v < 0x10000,
    ensures
        -0x8000 <= signed_of(v, 16) < 0x8000,
        pow2(15) == 0x8000,
        pow2(16) == 0x10000,
{
    vstd::arithmetic::power2::lemma2_to64();
}

/// Reads a 16-bit two's-complement word at byte `i`.
fn read_signed16(data: &[u8], i: usize) -> (r: i32)
    requires
        i + 1 < data@.len(),
    ensures
        r as int == signed_of(be16(data@, i as int), 16),
        -0x8000 <= r < 0x8000,
{
    let raw = read_be16(data, i);
    proof {
        lemma_signed16_range(raw as int);
    }
    twos_complement(raw as i32, 16)
}

pub fn get_temperature(data: &[u8]) -> (r: Option<i32>)
    requires
        data@.len() >= PAYLOAD_LEN,
    ensures
        r == temperature_of(data@),
{
    let raw = read_be16(data, 3);
    if raw == 0x7FFF {
        return None;
    }
    let t = read_signed16(data, 3);
    Some(t * 5)
}

pub fn get_humidity(data: &[u8]) -> (r: Option<u32>)
    requires
        data@.len() >= PAYLOAD_LEN,
    ensures
        r == humidity_of(data@),
{
    let raw = read_be16(data, 5);
    if raw == 0xFFFF {
        return None;
    }
    Some(raw as u32 * 25)
}

pub fn get_pressure(data: &[u8]) -> (r: Option<u32>)
    requires
        data@.len() >= PAYLOAD_LEN,
    ensures
        r == pressure_of(data@),
{
    let raw = read_be16(data, 7);
    if raw == 0xFFFF {
        return None;
    }
    Some(raw as u32 + 50000)
}

pub fn get_acceleration(data: &[u8]) -> (r: Option<(i32, i32, i32)>)
    requires
        data@.len() >= PAYLOAD_LEN,
    ensures
        r == acceleration_of(data@),
{
    let x_raw = read_be16(data, 9);
    let y_raw = read_be16(data, 11);
    let z_raw = read_be16(data, 13);
    if x_raw == 0x7FFF || y_raw == 0x7FFF || z_raw == 0x7FFF {
        return None;
    }
    let x = read_signed16(data, 9);
    let y = read_signed16(data, 11);
    let z = read_signed16(data, 13);
    Some((x, y, z))
}

/// Battery voltage and transmit power, from the packed power word.
pub fn get_power_info(data: &[u8]) -> (r: (Option<u32>, Option<i32>))
    requires
        data@.len() >= PAYLOAD_LEN,
    ensures
        r.0 == battery_voltage_of(data@),
        r.1 == tx_power_of(data@),
{
    let power_info = read_be16(data, 15);
    proof {
        vstd::arithmetic::power2::lemma2_to64();
    }
    let battery_raw = rshift(power_info, 5);
    let tx_raw = power_info & 0b11111;
    assert(power_info & 0b11111 == power_info % 32) by (bit_vector);
    let battery = if battery_raw != 0b11111111111 {
        Some(battery_raw as u32 + 1600)
    } else {
        None
    };
    let tx_power = if tx_raw != 0b11111 {
        Some(tx_raw as i32 * 2 - 40)
    } else {
        None
    };
    (battery, tx_power)
}

pub fn get_movement_counter(data: &[u8]) -> (r: u8)
    requires
        data@.len() >= PAYLOAD_LEN,
    ensures
        r == data@[17],
{
    data[17]
}

pub fn get_measurement_sequence_number(data: &[u8]) -> (r: u16)
    requires
        data@.len() >= PAYLOAD_LEN,
    ensures
        r as int == be16(data@, 18),
{
    read_be16(data, 18)
}

/// The six bytes of the MAC address at the end of the payload.
pub fn get_mac(data: &[u8]) -> (r: Vec<u8>)
    requires
        data@.len() >= PAYLOAD_LEN,
    ensures
        r@ == data@.subrange(20, 26),
{
    let mut mac: Vec<u8> = Vec::new();
    let mut i: usize = 20;
    while i < 26
        invariant
            20 <= i <= 26,
            data@.len() >= PAYLOAD_LEN,
            mac@ == data@.subrange(20, i as int),
        decreases 26 - i,
    {
        mac.push(data[i]);
        i = i + 1;
    }
    mac
}

fn read_manufacturer_id(data: &[u8]) -> (r: u16)
    requires
        data@.len() >= 2,
    ensures
        r as int == manufacturer_id(data@),
{
    data[0] as u16 + (data[1] as u16) * 256
}

/// Decodes a payload: the little-endian manufacturer id, the format byte, then
/// the measurement fields at fixed offsets.
pub fn decode(data: &[u8]) -> (r: Result<RuuviMeasurement, DecodeError>)
    ensures
        match decode_error(data@) {
            Some(e) => r == Err::<RuuviMeasurement, DecodeError>(e),
            None => r is Ok && r->Ok_0.read_from(data@),
        },
{
    if data.len() < 2 {
        return Err(DecodeError::EmptyPayload);
    }
    if read_manufacturer_id(data) != MANUFACTURER_ID {
        return Err(DecodeError::UnrecognizedManufacturer);
    }
    if data.len() < PAYLOAD_LEN {
        return Err(DecodeError::EmptyPayload);
    }
    if data[2] != DATA_FORMAT {
        return Err(DecodeError::Malformed);
    }
    let (battery_voltage, tx_power) = get_power_info(data);
    Ok(RuuviMeasurement {
        data_format: data[2],
        temperature: get_temperature(data),
        humidity: get_humidity(data),
        pressure: get_pressure(data),
        acceleration: get_acceleration(data),
        battery_voltage,
        tx_power,
        movement_counter: get_movement_counter(data),
        sequence_number: get_measurement_sequence_number(data),
        mac: get_mac(data),
    })
}

/// A payload whose manufacturer id is not the vendor's is rejected as such,
/// whatever else it holds.
pub proof fn lemma_foreign_manufacturer_rejected(s: Seq<u8>)
    requires
        s.len() >= 2,
        manufacturer_id(s) != MANUFACTURER_ID,
    ensures
        decode_error(s) == Some(DecodeError::UnrecognizedManufacturer),
{
}

/// A payload too short to hold the fields is rejected as empty, unless it is
/// long enough to show a foreign manufacturer id (which is rejected as such).
pub proof fn lemma_short_payload_rejected(s: Seq<u8>)
    requires
        s.len() < PAYLOAD_LEN,
        s.len() < 2 || manufacturer_id(s) == MANUFACTURER_ID,
    ensures
        decode_error(s) == Some(DecodeError::EmptyPayload),
{
}

/// A "not available" bit pattern decodes to `None`, and a real zero to zero:
/// no field is absent unless its sentinel was sent, and a raw zero temperature
/// is 0 degrees.
pub proof fn lemma_sentinels_are_absent(s: Seq<u8>)
    requires
        s.len() >= PAYLOAD_LEN,
    ensures
        temperature_of(s) is None <==> be16(s, 3) == 0x7FFF,
        be16(s, 3) == 0 ==> temperature_of(s) == Some(0i32),
        humidity_of(s) is None <==> be16(s, 5) == 0xFFFF,
        pressure_of(s) is None <==> be16(s, 7) == 0xFFFF,
        acceleration_of(s) is None <==> (be16(s, 9) == 0x7FFF || be16(s, 11) == 0x7FFF || be16(
            s,
            13,
        ) == 0x7FFF),
        battery_voltage_of(s) is None <==> battery_bits(s) == 2047,
        tx_power_of(s) is None <==> tx_power_bits(s) == 31,
{
    vstd::arithmetic::power2::lemma2_to64();
}

/// The value of a hex digit of either case.
pub open spec fn hex_digit(c: char) -> Option<int> {
    if '0' <= c && c <= '9' {
        Some(c as int - '0' as int)
    } else if 'a' <= c && c <= 'f' {
        Some(c as int - 'a' as int + 10)
    } else if 'A' <= c && c <= 'F' {
        Some(c as int - 'A' as int + 10)
    } else {
        None
    }
}

/// An even number of hex digits.
pub open spec fn is_hex_text(t: Seq<char>) -> bool {
    &&& t.len() % 2 == 0
    &&& forall|i: int| 0 <= i < t.len() ==> (#[trigger] hex_digit(t[i])) is Some
}

/// The bytes that hex text spells, two digits each, the high digit first.
pub open spec fn hex_bytes(t: Seq<char>) -> Seq<u8> {
    Seq::new(
        t.len() / 2,
        |i: int| (hex_digit(t[2 * i]).unwrap() * 16 + hex_digit(t[2 * i + 1]).unwrap()) as u8,
    )
}

/// Relies on hex::decode: text of an even number of hex digits (either case)
/// gives one byte per pair of digits, the first digit the high one; any other
/// text is an error.
#[verifier::external_body]
fn bytes_from_hex(text: &str) -> (r: Option<Vec<u8>>)
    ensures
        r is Some <==> is_hex_text(text@),
        r is Some ==> r->Some_0@ == hex_bytes(text@),
{
    hex::decode(text).ok()
}

impl RuuviMeasurement {
    /// Decodes a payload written as hex text; text that is not hex is malformed.
    pub fn from_str(hex_string: &str) -> (r: Result<RuuviMeasurement, DecodeError>)
        ensures
            !is_hex_text(hex_string@) ==> r == Err::<RuuviMeasurement, DecodeError>(
                DecodeError::Malformed,
            ),
            is_hex_text(hex_string@) ==> match decode_error(hex_bytes(hex_string@)) {
                Some(e) => r == Err::<RuuviMeasurement, DecodeError>(e),
                None => r is Ok && r->Ok_0.read_from(hex_bytes(hex_string@)),
            },
    {
        match bytes_from_hex(hex_string) {
            Some(bytes) => decode(bytes.as_slice()),
            None => Err(DecodeError::Malformed),
        }
    }
}

} // verus!
