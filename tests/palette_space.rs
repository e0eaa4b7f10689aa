use color_palatte_transfer::color::Rgb;
use color_palatte_transfer::error::TransferError;
use color_palatte_transfer::hex::parse_color;
use color_palatte_transfer::hull::{has_volume, signed_volume};
use color_palatte_transfer::space::{Palette, NORD};

#[test]
fn nord_palette_is_solid() {
    let p = Palette::new(&NORD).expect("the Nord palette spans a solid");
    assert_eq!(p.points().len(), 16);
    assert_eq!(p.points()[0], Rgb::new(0x2E, 0x34, 0x40));
    assert_eq!(p.points()[15], Rgb::new(0xB4, 0x8E, 0xAD));
}

#[test]
fn three_colors_are_degenerate() {
    let r = Palette::new(&["#000000", "#ffffff", "#ff0000"]);
    assert!(matches!(r, Err(TransferError::ConvexHullError)));
}

#[test]
fn empty_palette_is_degenerate() {
    let r = Palette::new(&[]);
    assert!(matches!(r, Err(TransferError::ConvexHullError)));
}

#[test]
fn zero_blue_palette_is_degenerate() {
    let r = Palette::new(&["#000000", "#ff0000", "#00ff00", "#ffff00", "#808000"]);
    assert!(matches!(r, Err(TransferError::ConvexHullError)));
}

#[test]
fn repeated_colors_are_degenerate() {
    let r = Palette::new(&["#123456", "#123456", "#123456", "#123456", "#123456"]);
    assert!(matches!(r, Err(TransferError::ConvexHullError)));
}

#[test]
fn tetrahedron_palette_is_solid() {
    let p = Palette::new(&["000000", "#fff", "#ff0000", "00ff00"]).expect("a tetrahedron");
    assert_eq!(
        p.points().clone(),
        vec![
            Rgb::new(0, 0, 0),
            Rgb::new(255, 255, 255),
            Rgb::new(255, 0, 0),
            Rgb::new(0, 255, 0)
        ]
    );
}

#[test]
fn bad_hex_code_is_reported_before_volume() {
    let r = Palette::new(&["#000000", "#12"]);
    assert!(matches!(r, Err(TransferError::HexError(_))));
    let r = Palette::new(&["#000000", "#fff", "#f00", "#0f0", "#gggggg"]);
    assert!(matches!(r, Err(TransferError::HexError(_))));
}

#[test]
fn points_keep_duplicates_and_order() {
    let p = Palette::from_points(vec![
        Rgb::new(0, 0, 0),
        Rgb::new(0, 0, 0),
        Rgb::new(255, 0, 0),
        Rgb::new(0, 255, 0),
        Rgb::new(0, 0, 255),
    ])
    .expect("solid");
    assert_eq!(p.points().len(), 5);
    assert_eq!(p.points()[4], Rgb::new(0, 0, 255));
}

#[test]
fn long_hex_codes_decode() {
    assert_eq!(parse_color("#123456").unwrap(), Rgb::new(18, 52, 86));
    assert_eq!(parse_color("da0bce").unwrap(), Rgb::new(218, 11, 206));
    assert_eq!(parse_color("#FFFFFF").unwrap(), Rgb::new(255, 255, 255));
}

#[test]
fn short_hex_codes_decode() {
    assert_eq!(parse_color("#08f").unwrap(), Rgb::new(0, 136, 255));
    assert_eq!(parse_color("abc").unwrap(), Rgb::new(170, 187, 204));
}

#[test]
fn plus_sign_reads_one_digit() {
    assert_eq!(parse_color("#+f0000").unwrap(), Rgb::new(15, 0, 0));
    assert!(parse_color("#+00").is_err());
}

#[test]
fn malformed_hex_codes_fail() {
    assert!(parse_color("").is_err());
    assert!(parse_color("#").is_err());
    assert!(parse_color("#12").is_err());
    assert!(parse_color("#1234567").is_err());
    assert!(parse_color("#gggggg").is_err());
    assert!(parse_color("##fff").is_err());
    assert!(parse_color("-12345").is_err());
}

#[test]
fn signed_volume_of_unit_corner() {
    let o = Rgb::new(0, 0, 0);
    let x = Rgb::new(255, 0, 0);
    let y = Rgb::new(0, 255, 0);
    let z = Rgb::new(0, 0, 255);
    assert_eq!(signed_volume(o, x, y, z), 255 * 255 * 255);
    assert_eq!(signed_volume(o, y, x, z), -(255 * 255 * 255));
    assert_eq!(signed_volume(o, x, x, z), 0);
    assert_eq!(signed_volume(Rgb::new(1, 2, 3), Rgb::new(4, 6, 3), Rgb::new(1, 7, 5), Rgb::new(9, 2, 8)), 139);
}

#[test]
fn has_volume_needs_four_spread_points() {
    let flat = vec![Rgb::new(0, 0, 7), Rgb::new(9, 0, 7), Rgb::new(0, 9, 7), Rgb::new(9, 9, 7)];
    assert!(!has_volume(&flat));
    let mut solid = flat.clone();
    solid.push(Rgb::new(1, 1, 8));
    assert!(has_volume(&solid));
    assert!(!has_volume(&vec![]));
}
