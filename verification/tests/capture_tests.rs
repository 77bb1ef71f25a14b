use render_core::capture::{
    frame_well_formed, frames_well_formed, padded_bytes_per_row, speed_valid, strip_row_padding,
    unpadded_bytes_per_row, CaptureState, RGBA_BYTES_PER_PIXEL, COPY_BYTES_PER_ROW_ALIGNMENT,
};
use render_core::capture::{capture_file_name, format_decimal, image_file_name};

#[test]
fn row_constants() {
    assert_eq!(RGBA_BYTES_PER_PIXEL, 4);
    assert_eq!(COPY_BYTES_PER_ROW_ALIGNMENT, 256);
}

#[test]
fn unpadded_row_length() {
    assert_eq!(unpadded_bytes_per_row(100), 400);
    assert_eq!(unpadded_bytes_per_row(0), 0);
}

#[test]
fn padded_row_length_aligned_width() {
    // 4 * 256 = 1024 is already a multiple of 256: no padding.
    assert_eq!(padded_bytes_per_row(256), 1024);
}

#[test]
fn padded_row_length_unaligned_width() {
    // 4 * 100 = 400, padded up to 512.
    assert_eq!(padded_bytes_per_row(100), 512);
    // 4 * 1 = 4, padded up to 256.
    assert_eq!(padded_bytes_per_row(1), 256);
}

#[test]
fn zero_width_rows_need_no_padding() {
    assert_eq!(padded_bytes_per_row(0), 0);
}

#[test]
fn strip_padding_of_no_rows_is_empty() {
    let data: Vec<u8> = vec![1, 2, 3, 4];
    let out = strip_row_padding(&data, 4, 2, 0);
    assert_eq!(out, Vec::<u8>::new());
}

#[test]
fn largest_frame_number_renders() {
    assert_eq!(format_decimal(u64::MAX), "18446744073709551615");
    assert_eq!(capture_file_name(u64::MAX), "18446744073709551615.png");
}

#[test]
fn strip_padding_keeps_row_prefixes() {
    let data: Vec<u8> = vec![
        1, 2, 3, 4, 91, 92, 93, 94, // row 0: 4 payload + 4 padding
        5, 6, 7, 8, 95, 96, 97, 98, // row 1
    ];
    let out = strip_row_padding(&data, 8, 4, 2);
    assert_eq!(out, vec![1, 2, 3, 4, 5, 6, 7, 8]);
}

#[test]
fn strip_padding_without_padding() {
    let data: Vec<u8> = vec![9, 8, 7, 6];
    let out = strip_row_padding(&data, 2, 2, 2);
    assert_eq!(out, vec![9, 8, 7, 6]);
}

#[test]
fn capture_toggle_records_first_start() {
    let mut s = CaptureState::new();
    assert!(!s.is_capturing);
    assert_eq!(s.capture_begin_frame, 0);
    s.toggle(5);
    assert!(s.is_capturing);
    assert_eq!(s.capture_begin_frame, 5);
    assert_eq!(s.frame_number(12), 7);
    s.toggle(20);
    assert!(!s.is_capturing);
    assert_eq!(s.capture_begin_frame, 5);
    // A later start keeps the original base frame.
    s.toggle(30);
    assert!(s.is_capturing);
    assert_eq!(s.capture_begin_frame, 5);
}

#[test]
fn decimal_rendering() {
    assert_eq!(format_decimal(0), "0");
    assert_eq!(format_decimal(7), "7");
    assert_eq!(format_decimal(10), "10");
    assert_eq!(format_decimal(987654), "987654");
}

#[test]
fn capture_names_are_zero_padded() {
    assert_eq!(capture_file_name(0), "00000.png");
    assert_eq!(capture_file_name(12), "00012.png");
    assert_eq!(capture_file_name(99999), "99999.png");
    assert_eq!(capture_file_name(123456), "123456.png");
}

#[test]
fn image_names_are_numbered() {
    assert_eq!(image_file_name(0), "image_0.png");
    assert_eq!(image_file_name(9), "image_9.png");
}

#[test]
fn frame_sizes_are_checked() {
    let good: Vec<u8> = vec![0; 16];
    let bad: Vec<u8> = vec![0; 15];
    assert!(frame_well_formed(&good, 2));
    assert!(!frame_well_formed(&bad, 2));
    assert!(frames_well_formed(&vec![good.clone(), good.clone()], 2));
    assert!(!frames_well_formed(&vec![good, bad], 2));
    assert!(frames_well_formed(&vec![], 2));
}

#[test]
fn encoder_speed_range() {
    assert!(speed_valid(1));
    assert!(speed_valid(10));
    assert!(speed_valid(30));
    assert!(!speed_valid(0));
    assert!(!speed_valid(31));
    assert!(!speed_valid(-3));
}
