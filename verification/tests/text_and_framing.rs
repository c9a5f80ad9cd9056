use vdmtool::codec::{push_u32_le, u16_from_le, u32_from_le, u32s_to_le};
use vdmtool::error::IntErrorKind;
use vdmtool::i2c::{block_read_payload, block_write_frame};
use vdmtool::text::{find_char, has_prefix, hex_literal_bytes, lower_contains, lower_has_prefix, parse_u16_radix};

#[test]
fn little_endian_codec() {
    assert_eq!(u16_from_le(&[0x34, 0x12]), 0x1234);
    assert_eq!(u32_from_le(&[0x78, 0x56, 0x34, 0x12]), 0x12345678);
    assert_eq!(u32_from_le(b"!CMD"), 0x444d4321);
    let mut v = vec![9u8];
    push_u32_le(&mut v, 0xdeadbeef);
    assert_eq!(v, vec![9, 0xef, 0xbe, 0xad, 0xde]);
    assert_eq!(u32s_to_le(&[]), Vec::<u8>::new());
    assert_eq!(u32s_to_le(&[1, 0x01020304]), vec![1, 0, 0, 0, 4, 3, 2, 1]);
    for x in [0u32, 1, 255, 256, 0x80000000, u32::MAX] {
        assert_eq!(u32_from_le(&u32s_to_le(&[x])), x);
    }
}

#[test]
fn hex_literal_matches_format() {
    for n in [0u32, 1, 9, 10, 15, 16, 0x38, 0xa0, 0xff, 0x100, 0xabcd, 0xffff, u32::MAX] {
        assert_eq!(hex_literal_bytes(n), format!("0x{:x}", n).into_bytes());
    }
}

#[test]
fn parse_matches_std() {
    let inputs = [
        "", "+", "-", "0", "38", "+38", "-38", "0038", "ffff", "FFFF", "10000", "65535",
        "65536", "99999x", "x99999", "12a", "1 2", " 1", "٣", "+-1", "fF", "g",
        "000000000000000000001",
    ];
    for s in inputs {
        for radix in [10u32, 16] {
            let ours = parse_u16_radix(s, radix);
            let theirs = u16::from_str_radix(s, radix);
            match (ours, theirs) {
                (Ok(a), Ok(b)) => assert_eq!(a, b, "{s:?} radix {radix}"),
                (Err(k), Err(e)) => {
                    let want = match e.kind() {
                        std::num::IntErrorKind::Empty => IntErrorKind::Empty,
                        std::num::IntErrorKind::InvalidDigit => IntErrorKind::InvalidDigit,
                        std::num::IntErrorKind::PosOverflow => IntErrorKind::PosOverflow,
                        other => panic!("unexpected {other:?}"),
                    };
                    assert_eq!(k, want, "{s:?} radix {radix}");
                }
                (a, b) => panic!("{s:?} radix {radix}: {a:?} vs {b:?}"),
            }
        }
    }
}

#[test]
fn hex_literal_parses_back() {
    for n in [0u16, 7, 0x38, 0xa0, 0x1234, u16::MAX] {
        let text = String::from_utf8(hex_literal_bytes(n as u32)).unwrap();
        assert_eq!(parse_u16_radix(&text[2..], 16), Ok(n));
    }
}

#[test]
fn prefixes_and_search() {
    assert!(has_prefix("/dev/i2c-0", "/dev/i2c-"));
    assert!(!has_prefix("/dev/i2c", "/dev/i2c-"));
    assert!(has_prefix("abc", ""));
    assert_eq!(find_char("j314s,apple", ','), Some(5));
    assert_eq!(find_char("abc", ','), None);
    assert!(lower_has_prefix("USB-C Back Left", "usb-c "));
    assert!(!lower_has_prefix("USB-A Back Left", "usb-c "));
    assert!(lower_contains("USB-C Back Left", "back LEFT"));
    assert!(lower_contains("USB-C Back Left", ""));
    assert!(!lower_contains("USB-C Back", "back left"));
}

#[test]
fn i2c_frames() {
    assert_eq!(block_write_frame(0x08, b"LOCK"), vec![0x08, 4, b'L', b'O', b'C', b'K']);
    assert_eq!(block_write_frame(0x09, &[]), vec![0x09, 0]);
    let data = vec![7u8; 255];
    let f = block_write_frame(1, &data);
    assert_eq!(f.len(), 257);
    assert_eq!(f[1], 255);
    assert_eq!(block_read_payload(&[4, 1, 2, 3, 4], 4), vec![1, 2, 3, 4]);
    assert_eq!(block_read_payload(&[0], 0), Vec::<u8>::new());
}
