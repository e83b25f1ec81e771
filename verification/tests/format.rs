use imginfo::exifdata::{format_exif_value, format_longs, format_rationals, format_shorts,
    format_text, exif_rows, ExifField, ExifRational, ExifValue};
use imginfo::text::{format_file_size, u64_to_string};

#[test]
fn decimal_zero() {
    assert_eq!(u64_to_string(0), "0");
}

#[test]
fn decimal_two_digits() {
    assert_eq!(u64_to_string(10), "10");
}

#[test]
fn decimal_max() {
    assert_eq!(u64_to_string(u64::MAX), "18446744073709551615");
}

#[test]
fn file_size_two_mebibytes() {
    assert_eq!(format_file_size(2097152), "2.00 MB");
}

#[test]
fn file_size_zero() {
    assert_eq!(format_file_size(0), "0.00 MB");
}

#[test]
fn file_size_one_and_a_half() {
    assert_eq!(format_file_size(1572864), "1.50 MB");
}

#[test]
fn file_size_rounds_small() {
    // 10486 bytes is just over a hundredth of a mebibyte.
    assert_eq!(format_file_size(10486), "0.01 MB");
    // 10485 bytes is just under it and rounds down.
    assert_eq!(format_file_size(10485), "0.01 MB");
    // 5242 bytes is under half a hundredth and rounds to zero.
    assert_eq!(format_file_size(5242), "0.00 MB");
}

#[test]
fn rational_is_not_reduced() {
    let v = vec![ExifRational { num: 2, denom: 4 }];
    assert_eq!(format_rationals(&v), "2/4");
}

#[test]
fn rationals_join_with_comma() {
    let v = vec![
        ExifRational { num: 1, denom: 2 },
        ExifRational { num: 3, denom: 4 },
    ];
    assert_eq!(format_rationals(&v), "1/2, 3/4");
}

#[test]
fn rational_zero_denominator_is_kept() {
    let v = vec![ExifRational { num: 0, denom: 0 }];
    assert_eq!(format_rationals(&v), "0/0");
}

#[test]
fn shorts_join_with_comma() {
    assert_eq!(format_shorts(&vec![1, 22, 333]), "1, 22, 333");
}

#[test]
fn shorts_empty_is_empty_string() {
    assert_eq!(format_shorts(&vec![]), "");
}

#[test]
fn longs_render_full_range() {
    assert_eq!(format_longs(&vec![4294967295, 0]), "4294967295, 0");
}

#[test]
fn text_joins_pieces() {
    let v = vec![b"Hello".to_vec(), b"World".to_vec()];
    assert_eq!(format_text(&v), "Hello, World");
}

#[test]
fn text_invalid_utf8_piece_renders_empty() {
    let v = vec![b"Hello".to_vec(), vec![0xff], b"World".to_vec()];
    assert_eq!(format_text(&v), "Hello, , World");
}

#[test]
fn text_single_invalid_piece() {
    let v = vec![vec![0xc3, 0x28]];
    assert_eq!(format_text(&v), "");
}

#[test]
fn unsupported_kind_has_fixed_placeholder() {
    assert_eq!(format_exif_value(&ExifValue::Unsupported), "Unsupported EXIF value type");
}

#[test]
fn exif_rows_one_row_per_field() {
    let fields = vec![
        ExifField {
            tag: String::from("Model"),
            value: ExifValue::Text(vec![b"Cam".to_vec()]),
        },
        ExifField {
            tag: String::from("XResolution"),
            value: ExifValue::Rationals(vec![ExifRational { num: 72, denom: 1 }]),
        },
        ExifField {
            tag: String::from("MakerNote"),
            value: ExifValue::Unsupported,
        },
    ];
    let rows = exif_rows(&fields);
    assert_eq!(rows.len(), 3);
    assert_eq!(rows[0], (String::from("Model"), String::from("Cam")));
    assert_eq!(rows[1], (String::from("XResolution"), String::from("72/1")));
    assert_eq!(
        rows[2],
        (String::from("MakerNote"), String::from("Unsupported EXIF value type"))
    );
}
