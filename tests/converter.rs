use light_crud_api::converter::{parse_color, ByteRGB};

#[test]
fn from_u32_splits_bytes() {
    let c = ByteRGB::from_u32(0x123456);
    assert_eq!((c.red, c.green, c.blue), (0x12, 0x34, 0x56));
}

#[test]
fn from_u32_ignores_top_byte() {
    let c = ByteRGB::from_u32(0xFF12_3456);
    assert_eq!(c, ByteRGB { red: 0x12, green: 0x34, blue: 0x56 });
    assert_eq!(c.as_u32(), 0x123456);
}

#[test]
fn as_u32_packs_bytes() {
    let c = ByteRGB { red: 255, green: 128, blue: 1 };
    assert_eq!(c.as_u32(), 0xFF8001);
    assert_eq!(ByteRGB::from_u32(c.as_u32()), c);
}

#[test]
fn from_hex_reads_colour() {
    assert_eq!(ByteRGB::from_hex("#ff8000"), Some(ByteRGB { red: 255, green: 128, blue: 0 }));
    assert_eq!(ByteRGB::from_hex("#FF8000"), Some(ByteRGB { red: 255, green: 128, blue: 0 }));
    assert_eq!(ByteRGB::from_hex("#000000"), Some(ByteRGB { red: 0, green: 0, blue: 0 }));
}

#[test]
fn from_hex_rejects_malformed() {
    assert_eq!(ByteRGB::from_hex("ff8000"), None);
    assert_eq!(ByteRGB::from_hex("#ff80"), None);
    assert_eq!(ByteRGB::from_hex("#ff80001"), None);
    assert_eq!(ByteRGB::from_hex("#gg0000"), None);
    assert_eq!(ByteRGB::from_hex(""), None);
    assert_eq!(ByteRGB::from_hex("#\u{e9}\u{e9}\u{e9}"), None);
}

#[test]
fn parse_color_accepts_plus_sign_fields() {
    assert_eq!(parse_color("#+f+f+f"), Some((15, 15, 15)));
    assert_eq!(parse_color("#-f0000"), None);
    assert_eq!(parse_color("#0a0B0c"), Some((10, 11, 12)));
}
