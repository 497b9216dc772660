use tca::{hex_to_rgb, is_dark, normalize_hex, HexColorError};

#[test]
fn normalize_hex_with_hash() {
    assert_eq!(normalize_hex("#FF5533").unwrap(), "#ff5533");
}

#[test]
fn normalize_hex_without_hash() {
    assert_eq!(normalize_hex("FF5533").unwrap(), "#ff5533");
}

#[test]
fn normalize_hex_wrong_length() {
    assert!(normalize_hex("fff").is_err());
    assert!(normalize_hex("ff553300").is_err());
}

#[test]
fn is_dark_dark_theme() {
    assert!(is_dark("#1e1e2e", "#cdd6f4")); // dark bg, light fg
}

#[test]
fn is_dark_light_theme() {
    assert!(!is_dark("#fdf6e3", "#657b83")); // light bg, dark fg
}

#[test]
fn test_hex_to_rgb_with_hash() {
    let (r, g, b) = hex_to_rgb("#ff5533").unwrap();
    assert_eq!((r, g, b), (255, 85, 51));
}

#[test]
fn test_hex_to_rgb_without_hash() {
    let (r, g, b) = hex_to_rgb("ff5533").unwrap();
    assert_eq!((r, g, b), (255, 85, 51));
}

#[test]
fn test_hex_to_rgb_black() {
    let (r, g, b) = hex_to_rgb("#000000").unwrap();
    assert_eq!((r, g, b), (0, 0, 0));
}

#[test]
fn test_hex_to_rgb_white() {
    let (r, g, b) = hex_to_rgb("#ffffff").unwrap();
    assert_eq!((r, g, b), (255, 255, 255));
}

#[test]
fn test_hex_to_rgb_too_short() {
    assert!(hex_to_rgb("#fff").is_err());
    assert!(hex_to_rgb("abc").is_err());
}

#[test]
fn test_hex_to_rgb_too_long() {
    assert!(hex_to_rgb("#ff5533aa").is_err());
}

#[test]
fn test_hex_to_rgb_invalid_chars() {
    assert!(hex_to_rgb("#gggggg").is_err());
    assert!(hex_to_rgb("#xyz123").is_err());
}

#[test]
fn test_hex_to_rgb_empty() {
    assert!(hex_to_rgb("").is_err());
    assert!(hex_to_rgb("#").is_err());
}

#[test]
fn hex_to_rgb_reports_length_in_bytes() {
    assert_eq!(hex_to_rgb("##abc"), Err(HexColorError::InvalidLength(3)));
    assert_eq!(hex_to_rgb("éabc"), Err(HexColorError::InvalidLength(5)));
    assert!(matches!(hex_to_rgb("ééé"), Err(HexColorError::InvalidHex(_))));
}

#[test]
fn hex_to_rgb_strips_every_leading_hash() {
    assert_eq!(hex_to_rgb("###0a0B0c"), Ok((10, 11, 12)));
}

#[test]
fn hex_to_rgb_rejects_signs() {
    assert!(matches!(hex_to_rgb("+f+f+f"), Err(HexColorError::InvalidHex(_))));
    assert!(matches!(hex_to_rgb("-f0000"), Err(HexColorError::InvalidHex(_))));
}

#[test]
fn normalize_hex_lowercases_and_adds_one_hash() {
    assert_eq!(normalize_hex("##AbCdEf").unwrap(), "#abcdef");
    assert!(matches!(normalize_hex("#12345g"), Err(HexColorError::InvalidHex(_))));
    assert_eq!(normalize_hex("#1234"), Err(HexColorError::InvalidLength(4)));
}

#[test]
fn is_dark_treats_bad_hex_as_black() {
    assert!(is_dark("nothex", "#010000"));
    assert!(!is_dark("#010000", "nothex"));
    assert!(!is_dark("#101010", "#101010"));
}
