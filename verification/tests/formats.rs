use oyasumi_sidecar::logname::{log_file_name, rotated_log_file_name, LocalDateTime, MAX_LOG_TIMESTAMP};
use oyasumi_sidecar::text::{decimal_string, push_signed_decimal};
use oyasumi_sidecar::texture::decode_texture;

#[test]
fn decimal_strings() {
    assert_eq!(decimal_string(0), "0");
    assert_eq!(decimal_string(9), "9");
    assert_eq!(decimal_string(10), "10");
    assert_eq!(decimal_string(18446744073709551615), "18446744073709551615");
    let mut s = String::from("x");
    push_signed_decimal(&mut s, -42);
    push_signed_decimal(&mut s, i64::MIN);
    assert_eq!(s, "x-42-9223372036854775808");
}

#[test]
fn log_file_name_format() {
    let t = LocalDateTime { year: 2024, month: 3, day: 7, hour: 9, minute: 5, second: 0 };
    assert_eq!(log_file_name(&t), "Overlay_2024-3-7_9-5-0.log");
    let old = LocalDateTime { year: -12, month: 12, day: 31, hour: 23, minute: 59, second: 59 };
    assert_eq!(log_file_name(&old), "Overlay_-12-12-31_23-59-59.log");
}

#[test]
fn rotated_log_file_name_for_a_creation_time() {
    let name = rotated_log_file_name(1_700_000_000, 5).unwrap();
    assert!(name.starts_with("Overlay_2023-11-1"));
    assert!(name.ends_with(".log"));
    assert!(rotated_log_file_name(MAX_LOG_TIMESTAMP as u64 - 86_400, 0).unwrap().starts_with("Overlay_26214"));
    assert!(rotated_log_file_name(MAX_LOG_TIMESTAMP as u64 + 1, 0).is_none());
    let before_epoch = rotated_log_file_name(u64::MAX, 0).unwrap();
    assert!(before_epoch.starts_with("Overlay_1969-12-31_") || before_epoch.starts_with("Overlay_1970-1-1_"));
}

const PNG_2X1: [u8; 72] = [
    137, 80, 78, 71, 13, 10, 26, 10, 0, 0, 0, 13, 73, 72, 68, 82, 0, 0, 0, 2, 0, 0, 0, 1, 8, 6, 0,
    0, 0, 244, 34, 127, 138, 0, 0, 0, 15, 73, 68, 65, 84, 120, 156, 99, 248, 207, 192, 240, 31, 8,
    27, 0, 16, 121, 3, 126, 125, 99, 206, 215, 0, 0, 0, 0, 73, 69, 78, 68, 174, 66, 96, 130,
];

#[test]
fn decode_png_texture() {
    let t = decode_texture(&PNG_2X1).unwrap();
    assert_eq!(t.width, 2);
    assert_eq!(t.height, 1);
    assert_eq!(t.pixels, vec![255, 0, 0, 255, 0, 255, 0, 128]);
}

#[test]
fn decode_rejects_garbage() {
    assert!(decode_texture(&[1, 2, 3, 4]).is_none());
    assert!(decode_texture(&[]).is_none());
}
