//! Trusted declarations for the outside crates: UTF-8 decoding, EXIF
//! container parsing, image dimension probing and table layout.  Each
//! wrapper's contract is what the verified code relies on; the bodies are
//! not checked.

use vstd::prelude::*;

use crate::exifdata::{ExifField, ExifRational, ExifValue, FieldModel};
use crate::exifdata::fields_model;
use crate::text::rows_view;

verus! {

/// What a byte string decodes to as UTF-8: the characters when the bytes
/// are valid, `None` otherwise.  The outcome depends on the bytes alone.
pub uninterp spec fn utf8_decoded(b: Seq<u8>) -> Option<Seq<char>>;

/// The characters a byte string decodes to, or the empty sequence when it
/// is not valid UTF-8.
pub open spec fn utf8_or_empty(b: Seq<u8>) -> Seq<char> {
    match utf8_decoded(b) {
        Some(cs) => cs,
        None => Seq::empty(),
    }
}

pub open spec fn opt_str_view(r: Option<String>) -> Option<Seq<char>> {
    match r {
        Some(s) => Some(s@),
        None => None,
    }
}

/// Relies on str::from_utf8: whether the bytes decode, and to what,
/// depends on the bytes alone.
#[verifier::external_body]
pub(crate) fn utf8_piece(b: &Vec<u8>) -> (r: Option<String>)
    ensures
        opt_str_view(r) == utf8_decoded(b@),
{
    match str::from_utf8(b.as_slice()) {
        Ok(s) => Some(s.to_string()),
        Err(_) => None,
    }
}

/// What an EXIF parse of the given image bytes yields: the ordered fields
/// of the container, or `None` when no container can be read.  The outcome
/// depends on the bytes alone.
pub uninterp spec fn exif_parse(bytes: Seq<u8>) -> Option<Seq<FieldModel>>;

pub open spec fn parsed_model(r: Option<Vec<ExifField>>) -> Option<Seq<FieldModel>> {
    match r {
        Some(v) => Some(fields_model(v@)),
        None => None,
    }
}

/// Relies on exif::Reader::read_from_container for locating and parsing
/// the EXIF container, and on exif::Tag's display form for the tag text.
/// Parse failure of any kind is `None`, never a panic.
#[verifier::external_body]
pub(crate) fn parse_exif_bytes(bytes: &Vec<u8>) -> (r: Option<Vec<ExifField>>)
    ensures
        parsed_model(r) == exif_parse(bytes@),
{
    let mut cursor = std::io::Cursor::new(bytes.as_slice());
    let exif = exif::Reader::new().read_from_container(&mut cursor).ok()?;
    Some(exif.fields().map(|f| ExifField {
        tag: f.tag.to_string(),
        value: match &f.value {
            exif::Value::Ascii(v) => ExifValue::Text(v.clone()),
            exif::Value::Short(v) => ExifValue::Shorts(v.clone()),
            exif::Value::Long(v) => ExifValue::Longs(v.clone()),
            exif::Value::Rational(v) =>
                ExifValue::Rationals(v.iter().map(|x| ExifRational { num: x.num, denom: x.denom }).collect()),
            _ => ExifValue::Unsupported,
        },
    }).collect())
}

/// What trimming surrounding whitespace from a string leaves.  The
/// outcome depends on the characters alone.
pub uninterp spec fn trimmed(s: Seq<char>) -> Seq<char>;

/// Relies on str::trim: surrounding whitespace is removed, and an empty
/// string stays empty.
#[verifier::external_body]
pub(crate) fn trim_string(s: &String) -> (r: String)
    ensures
        r@ == trimmed(s@),
        s@.len() == 0 ==> r@.len() == 0,
{
    s.trim().to_string()
}

/// The pixel dimensions recorded in the given image bytes: `(width,
/// height)` when the bytes decode as an image, `None` otherwise.  The
/// outcome depends on the bytes alone.
pub uninterp spec fn image_dims(bytes: Seq<u8>) -> Option<(u32, u32)>;

/// Relies on image::load_from_memory and DynamicImage::width / height:
/// decode failure of any kind is `None`, never a panic.
#[verifier::external_body]
pub(crate) fn probe_dimensions(bytes: &Vec<u8>) -> (r: Option<(u32, u32)>)
    ensures
        r == image_dims(bytes@),
{
    match image::load_from_memory(bytes.as_slice()) {
        Ok(img) => Some((img.width(), img.height())),
        Err(_) => None,
    }
}

/// The text prettytable renders for a two-column table with the given
/// title cells and rows, in the no-line-separator, titled preset.  The
/// outcome depends on the titles and rows alone.
pub uninterp spec fn table_render(
    title_left: Seq<char>,
    title_right: Seq<char>,
    rows: Seq<(Seq<char>, Seq<char>)>,
) -> Seq<char>;

/// Relies on prettytable's Table: rows are laid out in order under the
/// title row, with the no-line-separator, titled format preset.
#[verifier::external_body]
pub(crate) fn render_table(title_left: &str, title_right: &str, rows: &Vec<(String, String)>) -> (r:
    String)
    ensures
        r@ == table_render(title_left@, title_right@, rows_view(rows@)),
{
    let mut t = prettytable::Table::init(
        rows.iter().map(|p| prettytable::Row::new(
            vec![prettytable::Cell::new(&p.0), prettytable::Cell::new(&p.1)],
        )).collect(),
    );
    t.set_format(*prettytable::format::consts::FORMAT_NO_LINESEP_WITH_TITLE);
    t.set_titles(prettytable::Row::new(
        vec![prettytable::Cell::new(title_left), prettytable::Cell::new(title_right)],
    ));
    t.to_string()
}

} // verus!
