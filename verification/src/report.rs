//! Menu choices, the report selection, and the assembly of the displayed
//! report sections.

use vstd::prelude::*;

use crate::exifdata::{exif_rows, exif_rows_model, ExifField, FieldModel};
use crate::exifdata::value_display;
use crate::external::{exif_parse, image_dims, parse_exif_bytes, parsed_model, probe_dimensions};
use crate::external::{render_table, table_render, trim_string, trimmed};
use crate::text::{dec_str, format_file_size, mb_display, rows_view, u64_to_string};

verus! {

/// The outer menu: either the image-processing stub or the information
/// report.
#[derive(Clone, Copy, PartialEq, Eq, Structural, Debug)]
pub enum TopChoice {
    ImageProcessing,
    ImageInfo,
}

/// The report menu: which sections to display.
#[derive(Clone, Copy, PartialEq, Eq, Structural, Debug)]
pub enum ReportSelection {
    DimensionsAndSize,
    ExifData,
    Both,
}

impl ReportSelection {
    /// Whether the dimensions-and-size section was asked for.
    pub open spec fn spec_includes_dimensions(self) -> bool {
        self == ReportSelection::DimensionsAndSize || self == ReportSelection::Both
    }

    /// Whether the EXIF section was asked for.
    pub open spec fn spec_includes_exif(self) -> bool {
        self == ReportSelection::ExifData || self == ReportSelection::Both
    }

    pub fn includes_dimensions(&self) -> (b: bool)
        ensures
            b == self.spec_includes_dimensions(),
    {
        match self {
            ReportSelection::DimensionsAndSize | ReportSelection::Both => true,
            ReportSelection::ExifData => false,
        }
    }

    pub fn includes_exif(&self) -> (b: bool)
        ensures
            b == self.spec_includes_exif(),
    {
        match self {
            ReportSelection::ExifData | ReportSelection::Both => true,
            ReportSelection::DimensionsAndSize => false,
        }
    }
}

/// The outer menu's entries, in display order; the entry at an index is
/// the one `top_choice_at` maps that index to.
pub fn top_menu_labels() -> (r: Vec<String>)
    ensures
        r@.len() == 2,
        r@[0]@ == ("Image processing")@,
        r@[1]@ == ("Get image information data")@,
{
    let mut v: Vec<String> = Vec::new();
    v.push(String::from_str("Image processing"));
    v.push(String::from_str("Get image information data"));
    v
}

/// The report menu's entries, in display order; the entry at an index is
/// the one `report_selection_at` maps that index to.
pub fn report_menu_labels() -> (r: Vec<String>)
    ensures
        r@.len() == 3,
        r@[0]@ == ("Show Dimensions and File Size")@,
        r@[1]@ == ("Show EXIF Data")@,
        r@[2]@ == ("Show Both")@,
{
    let mut v: Vec<String> = Vec::new();
    v.push(String::from_str("Show Dimensions and File Size"));
    v.push(String::from_str("Show EXIF Data"));
    v.push(String::from_str("Show Both"));
    v
}

/// The outer menu choice at a selected index, `None` past the menu's end.
pub fn top_choice_at(index: usize) -> (r: Option<TopChoice>)
    ensures
        index == 0 ==> r == Some(TopChoice::ImageProcessing),
        index == 1 ==> r == Some(TopChoice::ImageInfo),
        index >= 2 ==> r is None,
{
    if index == 0 {
        Some(TopChoice::ImageProcessing)
    } else if index == 1 {
        Some(TopChoice::ImageInfo)
    } else {
        None
    }
}

/// The report selection at a selected index, `None` past the menu's end.
pub fn report_selection_at(index: usize) -> (r: Option<ReportSelection>)
    ensures
        index == 0 ==> r == Some(ReportSelection::DimensionsAndSize),
        index == 1 ==> r == Some(ReportSelection::ExifData),
        index == 2 ==> r == Some(ReportSelection::Both),
        index >= 3 ==> r is None,
{
    if index == 0 {
        Some(ReportSelection::DimensionsAndSize)
    } else if index == 1 {
        Some(ReportSelection::ExifData)
    } else if index == 2 {
        Some(ReportSelection::Both)
    } else {
        None
    }
}

/// The informational line shown when no EXIF container could be read.
pub fn no_exif_message() -> (r: String)
    ensures
        r@ == ("No EXIF data found or could not be read.")@,
{
    String::from_str("No EXIF data found or could not be read.")
}

/// The message shown for an interactively entered path that does not
/// exist.
pub fn file_not_found_message() -> (r: String)
    ensures
        r@ == ("Could not found the file")@,
{
    String::from_str("Could not found the file")
}

/// The heading printed above the dimensions-and-size table.
pub fn info_heading() -> (r: String)
    ensures
        r@ == ("Image metadata")@,
{
    String::from_str("Image metadata")
}

/// The heading printed above the EXIF table.
pub fn exif_heading() -> (r: String)
    ensures
        r@ == ("Image EXIF data")@,
{
    String::from_str("Image EXIF data")
}

/// The display form of pixel dimensions: width, `'x'`, height, with no
/// padding.
pub open spec fn dims_model(width: u32, height: u32) -> Seq<char> {
    dec_str(width as int) + seq!['x'] + dec_str(height as int)
}

/// Formats pixel dimensions as `width x height` without spaces.
pub fn dimensions_string(width: u32, height: u32) -> (r: String)
    ensures
        r@ == dims_model(width, height),
{
    let sep: &str = "x";
    let mut r = u64_to_string(width as u64);
    r.append(sep);
    let h = u64_to_string(height as u64);
    r.append(h.as_str());
    proof {
        reveal_strlit("x");
        assert(r@ =~= dims_model(width, height));
    }
    r
}

/// The rows of the property table: the file name, the formatted
/// dimensions, and the formatted file size.
pub open spec fn property_rows_model(
    file: Seq<char>,
    width: u32,
    height: u32,
    size_bytes: u64,
) -> Seq<(Seq<char>, Seq<char>)> {
    seq![
        (("File")@, file),
        (("Dimensions")@, dims_model(width, height)),
        (("File Size")@, mb_display(size_bytes)),
    ]
}

/// Builds the three property rows shown for an image file.
pub fn property_rows(file_name: &String, width: u32, height: u32, size_bytes: u64) -> (rows: Vec<
    (String, String),
>)
    ensures
        rows_view(rows@) == property_rows_model(file_name@, width, height, size_bytes),
{
    let mut rows: Vec<(String, String)> = Vec::new();
    rows.push((String::from_str("File"), file_name.clone()));
    rows.push((String::from_str("Dimensions"), dimensions_string(width, height)));
    rows.push((String::from_str("File Size"), format_file_size(size_bytes)));
    proof {
        assert(rows_view(rows@) =~= property_rows_model(file_name@, width, height, size_bytes));
    }
    rows
}

/// Normalizes one interactively entered line into a file path: the
/// surrounding whitespace is dropped, nothing else changes.
pub fn path_from_input(line: &String) -> (r: String)
    ensures
        r@ == trimmed(line@),
{
    trim_string(line)
}

/// Parses the EXIF container out of raw image bytes; `None` when no
/// container is present or it cannot be read, never a failure that stops
/// the caller.
pub fn extract_exif_fields(bytes: &Vec<u8>) -> (r: Option<Vec<ExifField>>)
    ensures
        parsed_model(r) == exif_parse(bytes@),
{
    parse_exif_bytes(bytes)
}

/// Decodes just enough of the image bytes to report `(width, height)`;
/// `None` when the bytes do not decode as an image.
pub fn image_dimensions(bytes: &Vec<u8>) -> (r: Option<(u32, u32)>)
    ensures
        r == image_dims(bytes@),
{
    probe_dimensions(bytes)
}

/// The report sections the presenter prints: each table's rendered text
/// when its section was selected, and whether the selected EXIF section
/// found no data.
pub struct Report {
    pub info_table: Option<String>,
    pub exif_table: Option<String>,
    pub exif_missing: bool,
}

/// Assembles the selected report sections for one image file.
pub fn build_report(
    file_name: &String,
    width: u32,
    height: u32,
    size_bytes: u64,
    image_bytes: &Vec<u8>,
    sel: ReportSelection,
) -> (r: Report)
    ensures
        sel.spec_includes_dimensions() ==> (r.info_table matches Some(t) && t@ == table_render(
            ("Property")@,
            ("Value")@,
            property_rows_model(file_name@, width, height, size_bytes),
        )),
        !sel.spec_includes_dimensions() ==> r.info_table is None,
        sel.spec_includes_exif() ==> (match exif_parse(image_bytes@) {
            Some(fs) => r.exif_table matches Some(t) && t@ == table_render(
                ("Tag")@,
                ("Value")@,
                exif_rows_model(fs),
            ) && !r.exif_missing,
            None => r.exif_table is None && r.exif_missing,
        }),
        !sel.spec_includes_exif() ==> (r.exif_table is None && !r.exif_missing),
{
    let info_table: Option<String> = if sel.includes_dimensions() {
        let rows = property_rows(file_name, width, height, size_bytes);
        Some(render_table("Property", "Value", &rows))
    } else {
        None
    };
    let mut exif_table: Option<String> = None;
    let mut exif_missing: bool = false;
    if sel.includes_exif() {
        match extract_exif_fields(image_bytes) {
            Some(fields) => {
                let rows = exif_rows(&fields);
                exif_table = Some(render_table("Tag", "Value", &rows));
            },
            None => {
                exif_missing = true;
            },
        }
    }
    Report { info_table, exif_table, exif_missing }
}

/// Law: the EXIF table's model holds exactly one row per parsed field, in
/// order — the tag text beside the rendered value — so no field is
/// dropped and unsupported kinds keep their placeholder row.
pub proof fn lemma_exif_row_per_field(fs: Seq<FieldModel>)
    ensures
        exif_rows_model(fs).len() == fs.len(),
        forall|i: int|
            0 <= i < fs.len() ==> #[trigger] exif_rows_model(fs)[i] == (
                fs[i].tag,
                value_display(fs[i].value),
            ),
{
}

} // verus!
