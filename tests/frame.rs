use co2_monitor::frame::{
    classify_decoded, complete_frame, decode, decode_and_classify, decode_with_key,
    has_ok_checksum, temperature_from_word, Message, ParseError,
};

const ZERO_KEY: [u8; 8] = [0; 8];

#[test]
fn decode_works() {
    assert_eq!(
        decode([183, 164, 50, 182, 200, 154, 156, 80]),
        [66, 18, 192, 20, 13, 0, 0, 0]
    );
}

#[test]
fn checksum_works() {
    assert!(has_ok_checksum([66, 18, 192, 20, 13, 0, 0, 0]));
}

#[test]
fn checksum_wraps_modulo_256() {
    // 66 + 18 + 192 = 276, which is 20 modulo 256.
    assert!(!has_ok_checksum([66, 18, 192, 21, 13, 0, 0, 0]));
    assert!(has_ok_checksum([255, 255, 2, 0, 0, 0, 0, 0]));
    assert!(has_ok_checksum([0; 8]));
}

#[test]
fn known_frame_is_temperature() {
    let raw = [183, 164, 50, 182, 200, 154, 156, 80];
    // Word 0x12c0 = 4800: 4800 * 0.0625 - 273.15 = 26.85 degrees Celsius.
    let expected = Message::Temperature { celsius_ten_thousandths: 268500 };
    assert_eq!(decode_and_classify(&raw, &ZERO_KEY), Ok(expected));
    assert_eq!(Message::try_from(&raw), Ok(expected));
    let celsius = 268500.0f64 / 10000.0;
    assert!((celsius - (f64::from(0x12c0u16) * 0.0625 - 273.15)).abs() < 1e-9);
}

#[test]
fn temperature_formula_extremes() {
    assert_eq!(temperature_from_word(0), -2731500);
    assert_eq!(temperature_from_word(4800), 268500);
    assert_eq!(temperature_from_word(65535), 38227875);
    assert_eq!(
        decode_and_classify(&[176, 164, 50, 182, 58, 154, 156, 192], &ZERO_KEY),
        Ok(Message::Temperature { celsius_ten_thousandths: -2731500 })
    );
    assert_eq!(
        decode_and_classify(&[168, 164, 50, 182, 50, 154, 156, 176], &ZERO_KEY),
        Ok(Message::Temperature { celsius_ten_thousandths: 38227875 })
    );
}

#[test]
fn co2_frame_is_read_verbatim() {
    let raw = [199, 164, 162, 182, 64, 154, 156, 72];
    assert_eq!(decode(raw), [80, 1, 194, 19, 13, 0, 0, 0]);
    assert_eq!(decode_and_classify(&raw, &ZERO_KEY), Ok(Message::Co2Level { ppm: 450 }));
}

#[test]
fn bad_checksum_is_rejected() {
    let raw = [183, 164, 50, 182, 200, 154, 156, 88];
    assert_eq!(decode(raw), [66, 18, 192, 21, 13, 0, 0, 0]);
    assert_eq!(decode_and_classify(&raw, &ZERO_KEY), Err(ParseError::InvalidChecksum));
    assert_eq!(decode_and_classify(&[0; 8], &ZERO_KEY), Err(ParseError::InvalidChecksum));
}

#[test]
fn unknown_frame_type_is_rejected() {
    let raw = [80, 164, 34, 180, 204, 154, 156, 224];
    assert_eq!(decode(raw), [0, 18, 52, 70, 13, 0, 0, 0]);
    assert_eq!(decode_and_classify(&raw, &ZERO_KEY), Err(ParseError::UnrecognizedMessage));
    assert_eq!(classify_decoded([0x00, 1, 2, 3, 13, 0, 0, 0]), Err(ParseError::UnrecognizedMessage));
}

#[test]
fn wrong_end_byte_is_rejected() {
    let raw = [199, 156, 162, 182, 64, 154, 156, 72];
    assert_eq!(decode(raw), [80, 1, 194, 19, 12, 0, 0, 0]);
    assert_eq!(decode_and_classify(&raw, &ZERO_KEY), Err(ParseError::UnrecognizedMessage));
}

#[test]
fn every_outcome_comes_from_one_of_four() {
    for seed in 0u32..2000 {
        let mut raw = [0u8; 8];
        for (i, b) in raw.iter_mut().enumerate() {
            *b = (seed.wrapping_mul(2654435761).rotate_left(i as u32 * 4) >> 3) as u8;
        }
        let r = decode_and_classify(&raw, &ZERO_KEY);
        let d = decode(raw);
        match r {
            Err(ParseError::InvalidChecksum) => assert!(!has_ok_checksum(d)),
            Err(ParseError::UnrecognizedMessage) => {
                assert!(has_ok_checksum(d));
                assert!(d[4] != 0x0d || (d[0] != 0x42 && d[0] != 0x50));
            }
            Ok(Message::Temperature { .. }) => assert_eq!(d[0], 0x42),
            Ok(Message::Co2Level { ppm }) => {
                assert_eq!(d[0], 0x50);
                assert_eq!(ppm, u16::from(d[1]) << 8 | u16::from(d[2]));
            }
        }
    }
}

#[test]
fn decoding_twice_gives_the_same_result() {
    let raw = [199, 164, 162, 182, 64, 154, 156, 72];
    assert_eq!(decode_and_classify(&raw, &ZERO_KEY), decode_and_classify(&raw, &ZERO_KEY));
    assert_eq!(decode(raw), decode(raw));
}

#[test]
fn xor_key_is_applied_after_permutation() {
    let key = [1, 2, 3, 4, 5, 6, 7, 8];
    let raw = [180, 161, 51, 190, 202, 157, 154, 84];
    assert_eq!(decode_with_key(raw, key), [66, 18, 192, 20, 13, 0, 0, 0]);
    assert_ne!(decode(raw), [66, 18, 192, 20, 13, 0, 0, 0]);
    assert_eq!(
        decode_and_classify(&raw, &key),
        Ok(Message::Temperature { celsius_ten_thousandths: 268500 })
    );
}

#[test]
fn short_read_gives_no_frame() {
    let buf = [1, 2, 3, 4, 5, 6, 7, 8];
    assert_eq!(complete_frame(buf, 8), Some(buf));
    assert_eq!(complete_frame(buf, 7), None);
    assert_eq!(complete_frame(buf, 0), None);
}

#[test]
fn parse_error_messages() {
    assert_eq!(ParseError::InvalidChecksum.message(), "Data failed checksum check");
    assert_eq!(ParseError::UnrecognizedMessage.message(), "Data was not recognized");
}
