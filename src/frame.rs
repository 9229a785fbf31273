use vstd::prelude::*;

verus! {

/// The fixed tag `"Htemp99e"` whose nibble-swapped bytes are subtracted from a
/// reassembled frame.
pub open spec fn magic_word() -> Seq<u8> {
    seq![0x48u8, 0x74u8, 0x65u8, 0x6du8, 0x70u8, 0x39u8, 0x39u8, 0x65u8]
}

/// A byte with its high and low nibbles exchanged.
pub open spec fn nibble_swapped(m: u8) -> u8 {
    (m << 4u8) | (m >> 4u8)
}

/// The device's byte permutation: pairs (0,2), (1,4), (3,7) and (5,6) trade places.
pub open spec fn permuted(raw: Seq<u8>) -> Seq<u8> {
    seq![raw[2], raw[4], raw[0], raw[7], raw[1], raw[6], raw[5], raw[3]]
}

/// Each byte XOR-ed with the byte of the key at the same index.
pub open spec fn xored(b: Seq<u8>, key: Seq<u8>) -> Seq<u8> {
    Seq::new(8, |i: int| b[i] ^ key[i])
}

/// Byte `i` is the low three bits of byte `i - 1` (byte 7 for `i == 0`) moved
/// to the top, followed by the high five bits of byte `i`.
pub open spec fn reassembled(b: Seq<u8>) -> Seq<u8> {
    Seq::new(8, |i: int| (b[(i + 7) % 8] << 5u8) | (b[i] >> 3u8))
}

/// Each byte minus the nibble-swapped magic byte at its index, modulo 256.
pub open spec fn deobfuscated(b: Seq<u8>) -> Seq<u8> {
    Seq::new(8, |i: int| ((b[i] - nibble_swapped(magic_word()[i])) % 256) as u8)
}

/// The frame that the device meant to send, recovered from the one it sent.
pub open spec fn descrambled(raw: Seq<u8>, key: Seq<u8>) -> Seq<u8> {
    deobfuscated(reassembled(xored(permuted(raw), key)))
}

/// The key of the supported hardware, which does not XOR its frames.
pub open spec fn zero_key() -> Seq<u8> {
    Seq::new(8, |i: int| 0u8)
}

/// The wrapping sum of bytes 0, 1 and 2 of a descrambled frame equals byte 3.
pub open spec fn checksum_ok(b: Seq<u8>) -> bool {
    ((b[0] + b[1] + b[2]) % 256) as u8 == b[3]
}

fn nibble_swap(m: u8) -> (r: u8)
    ensures
        r == nibble_swapped(m),
{
    (m << 4) | (m >> 4)
}

fn join_bits(prev: u8, cur: u8) -> (r: u8)
    ensures
        r == (prev << 5u8) | (cur >> 3u8),
{
    (prev << 5) | (cur >> 3)
}

fn subtract_magic(b: u8, m: u8) -> (r: u8)
    ensures
        r == ((b - nibble_swapped(m)) % 256) as u8,
{
    b.wrapping_sub(nibble_swap(m))
}

/// Descrambles a frame from the sensor with the given XOR key.
pub fn decode_with_key(encoded: [u8; 8], key: [u8; 8]) -> (r: [u8; 8])
    ensures
        r@ == descrambled(encoded@, key@),
{
    let p0 = encoded[2] ^ key[0];
    let p1 = encoded[4] ^ key[1];
    let p2 = encoded[0] ^ key[2];
    let p3 = encoded[7] ^ key[3];
    let p4 = encoded[1] ^ key[4];
    let p5 = encoded[6] ^ key[5];
    let p6 = encoded[5] ^ key[6];
    let p7 = encoded[3] ^ key[7];

    let magic_word: [u8; 8] = [0x48, 0x74, 0x65, 0x6d, 0x70, 0x39, 0x39, 0x65];
    let r: [u8; 8] = [
        subtract_magic(join_bits(p7, p0), magic_word[0]),
        subtract_magic(join_bits(p0, p1), magic_word[1]),
        subtract_magic(join_bits(p1, p2), magic_word[2]),
        subtract_magic(join_bits(p2, p3), magic_word[3]),
        subtract_magic(join_bits(p3, p4), magic_word[4]),
        subtract_magic(join_bits(p4, p5), magic_word[5]),
        subtract_magic(join_bits(p5, p6), magic_word[6]),
        subtract_magic(join_bits(p6, p7), magic_word[7]),
    ];
    assert(r@ =~= descrambled(encoded@, key@));
    r
}

/// Descrambles a frame from the sensor, which uses no XOR key.
pub fn decode(encoded: [u8; 8]) -> (r: [u8; 8])
    ensures
        r@ == descrambled(encoded@, zero_key()),
{
    let key: [u8; 8] = [0; 8];
    assert(key@ =~= zero_key());
    decode_with_key(encoded, key)
}

/// Checks whether the checksum of a descrambled frame is correct.
pub fn has_ok_checksum(buf: [u8; 8]) -> (r: bool)
    ensures
        r == checksum_ok(buf@),
{
    buf[0].wrapping_add(buf[1]).wrapping_add(buf[2]) == buf[3]
}

/// A reading carried by an accepted frame.
#[derive(Debug, Clone, Copy, PartialEq, Eq, Structural)]
pub enum Message {
    /// CO2 concentration in parts per million.
    Co2Level { ppm: u16 },
    /// Temperature in ten-thousandths of a degree Celsius.
    Temperature { celsius_ten_thousandths: i32 },
}

/// Why a frame was rejected.
#[derive(Debug, Clone, Copy, PartialEq, Eq, Structural)]
pub enum ParseError {
    InvalidChecksum,
    UnrecognizedMessage,
}

impl ParseError {
    /// A short description of the rejection.
    pub fn message(&self) -> (r: String)
        ensures
            r@ == self.message_text(),
    {
        match self {
            ParseError::InvalidChecksum => String::from_str("Data failed checksum check"),
            ParseError::UnrecognizedMessage => String::from_str("Data was not recognized"),
        }
    }

    /// The text that [`ParseError::message`] returns.
    pub open spec fn message_text(&self) -> Seq<char> {
        match self {
            ParseError::InvalidChecksum => "Data failed checksum check"@,
            ParseError::UnrecognizedMessage => "Data was not recognized"@,
        }
    }
}

/// The frame-type byte of a temperature frame.
pub const TEMPERATURE_TAG: u8 = 0x42;

/// The frame-type byte of a CO2 frame.
pub const CO2_TAG: u8 = 0x50;

/// The value that byte 4 of every recognized frame holds.
pub const FRAME_END: u8 = 0x0d;

/// The 16-bit word of bytes 1 (high) and 2 (low).
pub open spec fn payload(b: Seq<u8>) -> u16 {
    (b[1] * 256 + b[2]) as u16
}

/// `w * 0.0625 - 273.15` degrees Celsius, in ten-thousandths of a degree.
pub open spec fn celsius_ten_thousandths_of(w: u16) -> int {
    w * 625 - 2731500
}

/// What a descrambled frame says: a reading, or why it is rejected.
pub open spec fn classify(b: Seq<u8>) -> Result<Message, ParseError> {
    if !checksum_ok(b) {
        Err(ParseError::InvalidChecksum)
    } else if b[4] != FRAME_END {
        Err(ParseError::UnrecognizedMessage)
    } else if b[0] == TEMPERATURE_TAG {
        Ok(Message::Temperature { celsius_ten_thousandths: celsius_ten_thousandths_of(payload(b)) as i32 })
    } else if b[0] == CO2_TAG {
        Ok(Message::Co2Level { ppm: payload(b) })
    } else {
        Err(ParseError::UnrecognizedMessage)
    }
}

/// What a raw frame from the sensor says, descrambled with `key`.
pub open spec fn decoded_message(raw: Seq<u8>, key: Seq<u8>) -> Result<Message, ParseError> {
    classify(descrambled(raw, key))
}

/// Converts the payload word of a temperature frame to ten-thousandths of a
/// degree Celsius.
pub fn temperature_from_word(w: u16) -> (r: i32)
    ensures
        r == celsius_ten_thousandths_of(w),
{
    (w as i32) * 625 - 2731500
}

/// Classifies an already descrambled frame.
pub fn classify_decoded(decoded: [u8; 8]) -> (r: Result<Message, ParseError>)
    ensures
        r == classify(decoded@),
{
    if !has_ok_checksum(decoded) {
        return Err(ParseError::InvalidChecksum);
    }
    if decoded[4] != FRAME_END {
        return Err(ParseError::UnrecognizedMessage);
    }
    let hi = decoded[1];
    let lo = decoded[2];
    let w: u16 = ((hi as u16) << 8) | (lo as u16);
    assert(w == (hi * 256 + lo) as u16) by (bit_vector)
        requires
            w == ((hi as u16) << 8) | (lo as u16),
    ;
    if decoded[0] == TEMPERATURE_TAG {
        Ok(Message::Temperature { celsius_ten_thousandths: temperature_from_word(w) })
    } else if decoded[0] == CO2_TAG {
        Ok(Message::Co2Level { ppm: w })
    } else {
        Err(ParseError::UnrecognizedMessage)
    }
}

/// Descrambles a raw frame with `key` and classifies it.
pub fn decode_and_classify(raw: &[u8; 8], key: &[u8; 8]) -> (r: Result<Message, ParseError>)
    ensures
        r == decoded_message(raw@, key@),
{
    classify_decoded(decode_with_key(*raw, *key))
}

/// Decodes and classifies a frame from the sensor, which uses no XOR key.
impl TryFrom<&[u8; 8]> for Message {
    type Error = ParseError;

    fn try_from(value: &[u8; 8]) -> (r: Result<Message, ParseError>) {
        let key: [u8; 8] = [0; 8];
        proof {
            assert(key@ =~= zero_key());
        }
        decode_and_classify(value, &key)
    }
}

impl vstd::std_specs::convert::TryFromSpecImpl<&[u8; 8]> for Message {
    open spec fn obeys_try_from_spec() -> bool {
        true
    }

    open spec fn try_from_spec(v: &[u8; 8]) -> Result<Message, ParseError> {
        decoded_message(v@, zero_key())
    }
}

/// The frame filled by a read of `data_len` bytes into `buf`, if the read
/// delivered a whole frame.
pub fn complete_frame(buf: [u8; 8], data_len: usize) -> (r: Option<[u8; 8]>)
    ensures
        r == (if data_len == 8 { Some(buf) } else { None::<[u8; 8]> }),
{
    if data_len == buf.len() {
        Some(buf)
    } else {
        None
    }
}

/// Every frame meets exactly one outcome: a checksum failure, an unrecognized
/// frame, a temperature or a CO2 level, each on the conditions stated here.
pub proof fn decoding_is_total(raw: Seq<u8>, key: Seq<u8>)
    ensures
        ({
            let d = descrambled(raw, key);
            let r = decoded_message(raw, key);
            &&& (r == Err::<Message, ParseError>(ParseError::InvalidChecksum) <==> !checksum_ok(d))
            &&& (r == Err::<Message, ParseError>(ParseError::UnrecognizedMessage) <==> checksum_ok(d) && (
            d[4] != FRAME_END || (d[0] != TEMPERATURE_TAG && d[0] != CO2_TAG)))
            &&& (r matches Ok(Message::Temperature { .. }) <==> checksum_ok(d) && d[4] == FRAME_END
                && d[0] == TEMPERATURE_TAG)
            &&& (r matches Ok(Message::Co2Level { .. }) <==> checksum_ok(d) && d[4] == FRAME_END && d[0]
                == CO2_TAG)
        }),
{
}

/// Decoding depends on the frame and the key alone: the same frame decoded
/// twice gives the same result.
pub proof fn decoding_is_deterministic(raw1: Seq<u8>, raw2: Seq<u8>, key: Seq<u8>)
    requires
        raw1 == raw2,
    ensures
        decoded_message(raw1, key) == decoded_message(raw2, key),
{
}

/// A frame whose checksum holds but whose frame-type byte is neither the
/// temperature tag nor the CO2 tag is rejected as unrecognized.
pub proof fn unknown_frame_type_is_unrecognized(d: Seq<u8>)
    requires
        d.len() == 8,
        checksum_ok(d),
        d[0] != TEMPERATURE_TAG,
        d[0] != CO2_TAG,
    ensures
        classify(d) == Err::<Message, ParseError>(ParseError::UnrecognizedMessage),
{
}

} // verus!
