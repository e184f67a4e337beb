use hack_computer::convert_16b::{
    b16_to_byte_string, byte_string_to_b16, from_b16, from_i16, from_string_binary,
    from_string_integer,
};

/// Builds a word from its unsigned 16-bit value, bit 0 least
/// significant.
fn bits(u: u32) -> [bool; 16] {
    let mut w = [false; 16];
    for i in 0..16 {
        w[i] = (u >> i) & 1 == 1;
    }
    w
}

const B16_0: u32 = 0;
const B16_PLUS_1: u32 = 1;
const B16_PLUS_2: u32 = 2;
const B16_PLUS_21845: u32 = 21845;
const B16_PLUS_32767: u32 = 32767;
const B16_MINUS_32768: u32 = 32768;
const B16_MINUS_21846: u32 = 43690;
const B16_MINUS_2: u32 = 65534;
const B16_MINUS_1: u32 = 65535;

#[test]
fn test_from_b16() {
    assert_eq!(from_b16(bits(B16_0)).unwrap().as_integer, 0);
    assert_eq!(from_b16(bits(B16_PLUS_1)).unwrap().as_integer, 1);
    assert_eq!(from_b16(bits(B16_PLUS_2)).unwrap().as_integer, 2);
    assert_eq!(from_b16(bits(B16_PLUS_21845)).unwrap().as_integer, 21845);
    assert_eq!(from_b16(bits(B16_PLUS_32767)).unwrap().as_integer, 32767);
    assert_eq!(from_b16(bits(B16_MINUS_32768)).unwrap().as_integer, -32768);
    assert_eq!(from_b16(bits(B16_MINUS_21846)).unwrap().as_integer, -21846);
    assert_eq!(from_b16(bits(B16_MINUS_2)).unwrap().as_integer, -2);
    assert_eq!(from_b16(bits(B16_MINUS_1)).unwrap().as_integer, -1);
}

#[test]
fn test_from_i16() {
    assert_eq!(from_i16(0).unwrap().as_array_b16, bits(B16_0));
    assert_eq!(from_i16(1).unwrap().as_array_b16, bits(B16_PLUS_1));
    assert_eq!(from_i16(2).unwrap().as_array_b16, bits(B16_PLUS_2));
    assert_eq!(from_i16(21845).unwrap().as_array_b16, bits(B16_PLUS_21845));
    assert_eq!(from_i16(32767).unwrap().as_array_b16, bits(B16_PLUS_32767));
    assert_eq!(from_i16(-32768).unwrap().as_array_b16, bits(B16_MINUS_32768));
    assert_eq!(from_i16(-21846).unwrap().as_array_b16, bits(B16_MINUS_21846));
    assert_eq!(from_i16(-2).unwrap().as_array_b16, bits(B16_MINUS_2));
    assert_eq!(from_i16(-1).unwrap().as_array_b16, bits(B16_MINUS_1));
}

#[test]
fn test_from_string_integer() {
    // Arrange
    let str_zero = String::from("0");
    let str_plus_one = String::from("1");
    let str_plus_two = String::from("2");
    let str_plus_21845 = String::from("21845");
    let str_plus_32767 = String::from("32767");
    let str_minus_32768 = String::from("-32768");
    let str_minus_21846 = String::from("-21846");
    let str_minus_two = String::from("-2");
    let str_minus_one = String::from("-1");

    // Act
    let res_zero = from_string_integer(str_zero).unwrap();
    let res_plus_one = from_string_integer(str_plus_one).unwrap();
    let res_plus_two = from_string_integer(str_plus_two).unwrap();
    let res_plus_21845 = from_string_integer(str_plus_21845).unwrap();
    let res_plus_32767 = from_string_integer(str_plus_32767).unwrap();
    let res_minus_32768 = from_string_integer(str_minus_32768).unwrap();
    let res_minus_21846 = from_string_integer(str_minus_21846).unwrap();
    let res_minus_two = from_string_integer(str_minus_two).unwrap();
    let res_minus_one = from_string_integer(str_minus_one).unwrap();

    // Assert
    assert_eq!(res_zero.as_array_b16, bits(B16_0));
    assert_eq!(res_plus_one.as_array_b16, bits(B16_PLUS_1));
    assert_eq!(res_plus_two.as_array_b16, bits(B16_PLUS_2));
    assert_eq!(res_plus_21845.as_array_b16, bits(B16_PLUS_21845));
    assert_eq!(res_plus_32767.as_array_b16, bits(B16_PLUS_32767));
    assert_eq!(res_minus_32768.as_array_b16, bits(B16_MINUS_32768));
    assert_eq!(res_minus_21846.as_array_b16, bits(B16_MINUS_21846));
    assert_eq!(res_minus_two.as_array_b16, bits(B16_MINUS_2));
    assert_eq!(res_minus_one.as_array_b16, bits(B16_MINUS_1));
}

#[test]
fn test_round_trip_all_representations() {
    for n in [0i16, 1, -1, 2, -2, 21845, -21846, 32767, -32768, 12345, -4096] {
        let cr = from_i16(n).unwrap();
        assert_eq!(cr.as_integer, n);
        let back = from_b16(cr.as_array_b16).unwrap();
        assert_eq!(back.as_integer, n);
        assert_eq!(back.as_array_b16, cr.as_array_b16);
        assert_eq!(back.as_string_bin, cr.as_string_bin);
        assert_eq!(back.as_string_hex, cr.as_string_hex);
        let reparsed = from_string_binary(cr.as_string_bin.clone()).unwrap();
        assert_eq!(reparsed.as_integer, n);
    }
}

#[test]
fn test_string_renderings() {
    let cr = from_i16(-1).unwrap();
    assert_eq!(cr.as_string_hex, "0xFFFF");
    assert_eq!(cr.as_string_bin, "1111111111111111");
    assert_eq!(cr.as_usize, 65535);

    let cr = from_i16(2).unwrap();
    assert_eq!(cr.as_string_hex, "0x0002");
    assert_eq!(cr.as_string_bin, "0000000000000010");
    assert_eq!(cr.as_usize, 2);

    let cr = from_i16(-32768).unwrap();
    assert_eq!(cr.as_string_hex, "0x8000");
    assert_eq!(cr.as_string_bin, "1000000000000000");
    assert_eq!(cr.as_usize, 32768);

    assert_eq!(b16_to_byte_string(bits(43690)), "1010101010101010");
    let w = byte_string_to_b16(String::from("1010101010101010"));
    assert_eq!(w, bits(43690));
}

#[test]
fn test_parse_errors() {
    assert!(from_string_binary(String::from("101")).is_err());
    assert!(from_string_binary(String::from("10101010101010102")).is_err());
    assert!(from_string_binary(String::from("1010101010101012")).is_err());
    assert!(from_string_binary(String::from("0000000000000000")).is_ok());

    assert!(from_string_integer(String::from("")).is_err());
    assert!(from_string_integer(String::from("-")).is_err());
    assert!(from_string_integer(String::from("+")).is_err());
    assert!(from_string_integer(String::from("12a4")).is_err());
    assert!(from_string_integer(String::from("32768")).is_err());
    assert!(from_string_integer(String::from("-32769")).is_err());
    assert!(from_string_integer(String::from("99999999999999999999")).is_err());
    assert_eq!(from_string_integer(String::from("-32768")).unwrap().as_integer, -32768);
    assert_eq!(from_string_integer(String::from("+007")).unwrap().as_integer, 7);
}
