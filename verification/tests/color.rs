use fir::config::{Color, Grid};

#[test]
fn rgb_round_trip() {
    let c = Color::from_rgb(0x12, 0x34, 0x56);
    assert_eq!(c.as_rgb(), (0x12, 0x34, 0x56));
}

#[test]
fn hex_parses_six_digit_colors() {
    assert_eq!(Color::from_hex("#88ff00"), Some(Color::from_rgb(0x88, 0xff, 0x00)));
    assert_eq!(Color::from_hex("#000000"), Some(Color::from_rgb(0, 0, 0)));
    assert_eq!(Color::from_hex("#FFFFFF"), Some(Color::from_rgb(255, 255, 255)));
    assert_eq!(Color::from_hex("#AbCdEf"), Some(Color::from_rgb(0xab, 0xcd, 0xef)));
}

#[test]
fn hex_rejects_malformed_colors() {
    assert_eq!(Color::from_hex(""), None);
    assert_eq!(Color::from_hex("#fff"), None);
    assert_eq!(Color::from_hex("123456"), None);
    assert_eq!(Color::from_hex("#12345g"), None);
    assert_eq!(Color::from_hex("#1234567"), None);
    assert_eq!(Color::from_hex("#12 456"), None);
}

#[test]
fn default_grid_settings() {
    let g = Grid::default();
    assert_eq!(g.size, 16);
    assert_eq!(g.color_dark.as_rgb(), (0x40, 0x40, 0x40));
    assert_eq!(g.color_light.as_rgb(), (0x80, 0x80, 0x80));
}
