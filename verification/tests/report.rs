use imginfo::report::{build_report, dimensions_string, exif_heading, extract_exif_fields,
    file_not_found_message, image_dimensions, info_heading, no_exif_message, property_rows,
    report_menu_labels, report_selection_at, top_choice_at, top_menu_labels, ReportSelection,
    TopChoice};
use imginfo::exifdata::ExifValue;
use imginfo::report::path_from_input;

/// A tiny valid PNG with no EXIF data, encoded in memory.
fn plain_png(width: u32, height: u32) -> Vec<u8> {
    let img = image::DynamicImage::ImageRgb8(image::RgbImage::new(width, height));
    let mut bytes: Vec<u8> = Vec::new();
    img.write_to(&mut std::io::Cursor::new(&mut bytes), image::ImageFormat::Png)
        .expect("png encoding");
    bytes
}

/// A minimal little-endian TIFF holding one EXIF field:
/// ImageWidth (tag 0x0100), one SHORT with value 7.
fn tiny_tiff() -> Vec<u8> {
    let mut b: Vec<u8> = Vec::new();
    b.extend_from_slice(b"II*\0");
    b.extend_from_slice(&8u32.to_le_bytes()); // offset of the IFD
    b.extend_from_slice(&1u16.to_le_bytes()); // one entry
    b.extend_from_slice(&0x0100u16.to_le_bytes()); // tag: ImageWidth
    b.extend_from_slice(&3u16.to_le_bytes()); // type: SHORT
    b.extend_from_slice(&1u32.to_le_bytes()); // count
    b.extend_from_slice(&7u16.to_le_bytes()); // the value
    b.extend_from_slice(&0u16.to_le_bytes()); // value padding
    b.extend_from_slice(&0u32.to_le_bytes()); // no further IFD
    b
}

#[test]
fn menu_labels_are_fixed() {
    let top = top_menu_labels();
    assert_eq!(top, vec!["Image processing", "Get image information data"]);
    let report = report_menu_labels();
    assert_eq!(
        report,
        vec!["Show Dimensions and File Size", "Show EXIF Data", "Show Both"]
    );
}

#[test]
fn menu_indices_map_to_choices() {
    assert_eq!(top_choice_at(0), Some(TopChoice::ImageProcessing));
    assert_eq!(top_choice_at(1), Some(TopChoice::ImageInfo));
    assert_eq!(top_choice_at(2), None);
    assert_eq!(report_selection_at(0), Some(ReportSelection::DimensionsAndSize));
    assert_eq!(report_selection_at(1), Some(ReportSelection::ExifData));
    assert_eq!(report_selection_at(2), Some(ReportSelection::Both));
    assert_eq!(report_selection_at(3), None);
}

#[test]
fn selection_flags() {
    assert!(ReportSelection::DimensionsAndSize.includes_dimensions());
    assert!(!ReportSelection::DimensionsAndSize.includes_exif());
    assert!(!ReportSelection::ExifData.includes_dimensions());
    assert!(ReportSelection::ExifData.includes_exif());
    assert!(ReportSelection::Both.includes_dimensions());
    assert!(ReportSelection::Both.includes_exif());
}

#[test]
fn fixed_messages() {
    assert_eq!(no_exif_message(), "No EXIF data found or could not be read.");
    assert_eq!(file_not_found_message(), "Could not found the file");
    assert_eq!(info_heading(), "Image metadata");
    assert_eq!(exif_heading(), "Image EXIF data");
}

#[test]
fn entered_path_is_trimmed() {
    assert_eq!(path_from_input(&String::from("  photo.jpg \n")), "photo.jpg");
    assert_eq!(path_from_input(&String::from("photo.jpg")), "photo.jpg");
    assert_eq!(path_from_input(&String::from("")), "");
}

#[test]
fn dimensions_format() {
    assert_eq!(dimensions_string(1920, 1080), "1920x1080");
    assert_eq!(dimensions_string(1, 1), "1x1");
}

#[test]
fn property_rows_contents() {
    let rows = property_rows(&String::from("photo.jpg"), 1920, 1080, 2097152);
    assert_eq!(rows.len(), 3);
    assert_eq!(rows[0], (String::from("File"), String::from("photo.jpg")));
    assert_eq!(rows[1], (String::from("Dimensions"), String::from("1920x1080")));
    assert_eq!(rows[2], (String::from("File Size"), String::from("2.00 MB")));
}

#[test]
fn png_dimensions_are_probed() {
    let bytes = plain_png(2, 3);
    assert_eq!(image_dimensions(&bytes), Some((2, 3)));
}

#[test]
fn garbage_bytes_are_not_an_image() {
    let bytes = vec![1, 2, 3, 4];
    assert_eq!(image_dimensions(&bytes), None);
}

#[test]
fn plain_png_has_no_exif() {
    let bytes = plain_png(2, 3);
    assert!(extract_exif_fields(&bytes).is_none());
}

#[test]
fn missing_exif_is_reported_not_fatal() {
    let bytes = plain_png(2, 3);
    let report = build_report(&String::from("plain.png"), 2, 3, 100, &bytes,
        ReportSelection::ExifData);
    assert!(report.info_table.is_none());
    assert!(report.exif_table.is_none());
    assert!(report.exif_missing);
}

#[test]
fn tiff_exif_field_is_extracted() {
    let bytes = tiny_tiff();
    let fields = extract_exif_fields(&bytes).expect("exif container");
    assert_eq!(fields.len(), 1);
    assert_eq!(fields[0].tag, "ImageWidth");
    assert_eq!(fields[0].value, ExifValue::Shorts(vec![7]));
}

#[test]
fn full_report_renders_both_tables() {
    let bytes = tiny_tiff();
    let report = build_report(&String::from("tiny.tif"), 640, 480, 1572864, &bytes,
        ReportSelection::Both);
    let info = report.info_table.expect("info table");
    assert!(info.contains("Property"));
    assert!(info.contains("Value"));
    assert!(info.contains("tiny.tif"));
    assert!(info.contains("640x480"));
    assert!(info.contains("1.50 MB"));
    let exif = report.exif_table.expect("exif table");
    assert!(exif.contains("Tag"));
    assert!(exif.contains("ImageWidth"));
    assert!(exif.contains('7'));
    assert!(!report.exif_missing);
}

#[test]
fn dimensions_only_selection_skips_exif() {
    let bytes = tiny_tiff();
    let report = build_report(&String::from("tiny.tif"), 640, 480, 0, &bytes,
        ReportSelection::DimensionsAndSize);
    assert!(report.info_table.is_some());
    assert!(report.exif_table.is_none());
    assert!(!report.exif_missing);
}
