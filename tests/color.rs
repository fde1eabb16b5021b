use foxy::color::{Color, FromHex};

#[test]
fn hex_code_decodes_to_channels() {
    assert_eq!(Color::hex("43bfefff"), Color { r: 0x43, g: 0xbf, b: 0xef, a: 0xff });
}

#[test]
fn hex_code_accepts_upper_case() {
    assert_eq!(Color::hex("0A1B2C3D"), Color { r: 0x0a, g: 0x1b, b: 0x2c, a: 0x3d });
}

#[test]
fn invalid_hex_code_gives_transparent_black() {
    assert_eq!(Color::hex("43bfefgg"), Color { r: 0, g: 0, b: 0, a: 0 });
    assert_eq!(Color::hex("#43bfef0"), Color { r: 0, g: 0, b: 0, a: 0 });
}
