//! The library's own EXIF field types, their mathematical model, and the
//! display formatting of each value kind.

use vstd::prelude::*;

use crate::external::{utf8_decoded, utf8_or_empty, utf8_piece};
use crate::text::{dec_str, join_strings, joined, sep_comma, u64_to_string};

verus! {

/// A rational value as stored by EXIF: a plain numerator / denominator
/// pair, never reduced.
#[derive(Clone, Debug, PartialEq)]
pub struct ExifRational {
    pub num: u32,
    pub denom: u32,
}

/// The value kinds the formatter renders; anything else a container may
/// hold is carried as `Unsupported`.
#[derive(Clone, Debug, PartialEq)]
pub enum ExifValue {
    /// A sequence of byte strings, each meant to be UTF-8 text.
    Text(Vec<Vec<u8>>),
    /// 16-bit unsigned integers.
    Shorts(Vec<u16>),
    /// 32-bit unsigned integers.
    Longs(Vec<u32>),
    /// Unreduced numerator / denominator pairs.
    Rationals(Vec<ExifRational>),
    /// Any other stored kind.
    Unsupported,
}

/// One EXIF field: the tag's display text and its typed value.
#[derive(Clone, Debug, PartialEq)]
pub struct ExifField {
    pub tag: String,
    pub value: ExifValue,
}

/// The mathematical model of a value: sequences in place of vectors.
pub enum ValueModel {
    Text(Seq<Seq<u8>>),
    Shorts(Seq<u16>),
    Longs(Seq<u32>),
    Rationals(Seq<(u32, u32)>),
    Unsupported,
}

/// The mathematical model of a field.
pub struct FieldModel {
    pub tag: Seq<char>,
    pub value: ValueModel,
}

pub open spec fn value_model(v: ExifValue) -> ValueModel {
    match v {
        ExifValue::Text(ps) => ValueModel::Text(ps@.map_values(|p: Vec<u8>| p@)),
        ExifValue::Shorts(xs) => ValueModel::Shorts(xs@),
        ExifValue::Longs(xs) => ValueModel::Longs(xs@),
        ExifValue::Rationals(rs) => ValueModel::Rationals(
            rs@.map_values(|r: ExifRational| (r.num, r.denom)),
        ),
        ExifValue::Unsupported => ValueModel::Unsupported,
    }
}

pub open spec fn field_model(f: ExifField) -> FieldModel {
    FieldModel { tag: f.tag@, value: value_model(f.value) }
}

pub open spec fn fields_model(fs: Seq<ExifField>) -> Seq<FieldModel> {
    fs.map_values(|f: ExifField| field_model(f))
}

/// The placeholder shown for a value kind the formatter does not render.
pub open spec fn unsupported_text() -> Seq<char> {
    ("Unsupported EXIF value type")@
}

/// The display form of one rational: numerator, `'/'`, denominator, with
/// no reduction and no sign handling.
pub open spec fn rational_str(num: u32, denom: u32) -> Seq<char> {
    dec_str(num as int) + seq!['/'] + dec_str(denom as int)
}

/// The display string of a value: each element rendered, the elements
/// joined with `", "`; text elements that are not valid UTF-8 render as
/// empty; unsupported kinds render as the fixed placeholder.
pub open spec fn value_display(v: ValueModel) -> Seq<char> {
    match v {
        ValueModel::Text(ps) => joined(ps.map_values(|p: Seq<u8>| utf8_or_empty(p)), sep_comma()),
        ValueModel::Shorts(xs) => joined(
            xs.map_values(|x: u16| dec_str(x as int)),
            sep_comma(),
        ),
        ValueModel::Longs(xs) => joined(xs.map_values(|x: u32| dec_str(x as int)), sep_comma()),
        ValueModel::Rationals(rs) => joined(
            rs.map_values(|r: (u32, u32)| rational_str(r.0, r.1)),
            sep_comma(),
        ),
        ValueModel::Unsupported => unsupported_text(),
    }
}

/// The rendered piece of each text element, in order.
pub open spec fn text_pieces(ps: Seq<Seq<u8>>) -> Seq<Seq<char>> {
    ps.map_values(|p: Seq<u8>| utf8_or_empty(p))
}

/// Law: a text value always renders as the join of one piece per element,
/// in order; an element that is not valid UTF-8 contributes an empty
/// piece, and every other element contributes exactly its decoding, so no
/// element is ever dropped from the joined string.
pub proof fn lemma_text_display(ps: Seq<Seq<u8>>)
    ensures
        value_display(ValueModel::Text(ps)) == joined(text_pieces(ps), sep_comma()),
        text_pieces(ps).len() == ps.len(),
        forall|i: int|
            0 <= i < ps.len() ==> #[trigger] text_pieces(ps)[i] == utf8_or_empty(ps[i]),
        forall|i: int|
            0 <= i < ps.len() && utf8_decoded(ps[i]) is None ==> #[trigger] text_pieces(ps)[i]
                == Seq::<char>::empty(),
{
}

fn rational_string(r: &ExifRational) -> (s: String)
    ensures
        s@ == rational_str(r.num, r.denom),
{
    let slash: &str = "/";
    let mut s = u64_to_string(r.num as u64);
    s.append(slash);
    let denom = u64_to_string(r.denom as u64);
    s.append(denom.as_str());
    proof {
        reveal_strlit("/");
        assert(s@ =~= rational_str(r.num, r.denom));
    }
    s
}

fn comma_space() -> (r: &'static str)
    ensures
        r@ == sep_comma(),
{
    let r: &'static str = ", ";
    proof {
        reveal_strlit(", ");
        assert(r@ =~= sep_comma());
    }
    r
}

/// Renders a text value: each element decoded as UTF-8 or replaced by an
/// empty piece, the pieces joined with `", "`.
pub fn format_text(ps: &Vec<Vec<u8>>) -> (r: String)
    ensures
        r@ == value_display(ValueModel::Text(ps@.map_values(|p: Vec<u8>| p@))),
{
    let ghost target = ps@.map_values(|p: Vec<u8>| p@).map_values(|p: Seq<u8>| utf8_or_empty(p));
    let mut parts: Vec<String> = Vec::new();
    let mut i: usize = 0;
    while i < ps.len()
        invariant
            i <= ps.len(),
            parts@.len() == i,
            target == ps@.map_values(|p: Vec<u8>| p@).map_values(|p: Seq<u8>| utf8_or_empty(p)),
            parts@.map_values(|s: String| s@) =~= target.take(i as int),
        decreases ps.len() - i,
    {
        let piece: String = match utf8_piece(&ps[i]) {
            Some(s) => s,
            None => String::new(),
        };
        parts.push(piece);
        proof {
            assert(parts@.map_values(|s: String| s@) =~= target.take(i + 1));
        }
        i = i + 1;
    }
    proof {
        assert(target.take(ps@.len() as int) =~= target);
    }
    join_strings(&parts, comma_space())
}

/// Renders a list of 16-bit integers in base 10, joined with `", "`.
pub fn format_shorts(xs: &Vec<u16>) -> (r: String)
    ensures
        r@ == value_display(ValueModel::Shorts(xs@)),
{
    let ghost target = xs@.map_values(|x: u16| dec_str(x as int));
    let mut parts: Vec<String> = Vec::new();
    let mut i: usize = 0;
    while i < xs.len()
        invariant
            i <= xs.len(),
            parts@.len() == i,
            target == xs@.map_values(|x: u16| dec_str(x as int)),
            parts@.map_values(|s: String| s@) =~= target.take(i as int),
        decreases xs.len() - i,
    {
        parts.push(u64_to_string(xs[i] as u64));
        proof {
            assert(parts@.map_values(|s: String| s@) =~= target.take(i + 1));
        }
        i = i + 1;
    }
    proof {
        assert(target.take(xs@.len() as int) =~= target);
    }
    join_strings(&parts, comma_space())
}

/// Renders a list of 32-bit integers in base 10, joined with `", "`.
pub fn format_longs(xs: &Vec<u32>) -> (r: String)
    ensures
        r@ == value_display(ValueModel::Longs(xs@)),
{
    let ghost target = xs@.map_values(|x: u32| dec_str(x as int));
    let mut parts: Vec<String> = Vec::new();
    let mut i: usize = 0;
    while i < xs.len()
        invariant
            i <= xs.len(),
            parts@.len() == i,
            target == xs@.map_values(|x: u32| dec_str(x as int)),
            parts@.map_values(|s: String| s@) =~= target.take(i as int),
        decreases xs.len() - i,
    {
        parts.push(u64_to_string(xs[i] as u64));
        proof {
            assert(parts@.map_values(|s: String| s@) =~= target.take(i + 1));
        }
        i = i + 1;
    }
    proof {
        assert(target.take(xs@.len() as int) =~= target);
    }
    join_strings(&parts, comma_space())
}

/// Renders a list of rationals as unreduced `numerator/denominator`
/// pairs, joined with `", "`.
pub fn format_rationals(rs: &Vec<ExifRational>) -> (r: String)
    ensures
        r@ == value_display(ValueModel::Rationals(rs@.map_values(|x: ExifRational| (x.num, x.denom)))),
{
    let ghost target = rs@.map_values(|x: ExifRational| (x.num, x.denom)).map_values(
        |p: (u32, u32)| rational_str(p.0, p.1),
    );
    let mut parts: Vec<String> = Vec::new();
    let mut i: usize = 0;
    while i < rs.len()
        invariant
            i <= rs.len(),
            parts@.len() == i,
            target == rs@.map_values(|x: ExifRational| (x.num, x.denom)).map_values(
                |p: (u32, u32)| rational_str(p.0, p.1),
            ),
            parts@.map_values(|s: String| s@) =~= target.take(i as int),
        decreases rs.len() - i,
    {
        parts.push(rational_string(&rs[i]));
        proof {
            assert(parts@.map_values(|s: String| s@) =~= target.take(i + 1));
        }
        i = i + 1;
    }
    proof {
        assert(target.take(rs@.len() as int) =~= target);
    }
    join_strings(&parts, comma_space())
}

/// Renders one EXIF value by its kind, per the display policy.
pub fn format_exif_value(v: &ExifValue) -> (r: String)
    ensures
        r@ == value_display(value_model(*v)),
{
    match v {
        ExifValue::Text(ps) => format_text(ps),
        ExifValue::Shorts(xs) => format_shorts(xs),
        ExifValue::Longs(xs) => format_longs(xs),
        ExifValue::Rationals(rs) => format_rationals(rs),
        ExifValue::Unsupported => String::from_str("Unsupported EXIF value type"),
    }
}

/// The model of the displayed EXIF table: one row per field, the tag text
/// beside the rendered value.
pub open spec fn exif_rows_model(fs: Seq<FieldModel>) -> Seq<(Seq<char>, Seq<char>)> {
    fs.map_values(|f: FieldModel| (f.tag, value_display(f.value)))
}

/// Builds one display row per field, in order: no field is dropped, and
/// unsupported kinds keep their placeholder row.
pub fn exif_rows(fields: &Vec<ExifField>) -> (rows: Vec<(String, String)>)
    ensures
        crate::text::rows_view(rows@) == exif_rows_model(fields_model(fields@)),
        rows@.len() == fields@.len(),
{
    let ghost target = exif_rows_model(fields_model(fields@));
    let mut rows: Vec<(String, String)> = Vec::new();
    let mut i: usize = 0;
    while i < fields.len()
        invariant
            i <= fields.len(),
            rows@.len() == i,
            target == exif_rows_model(fields_model(fields@)),
            crate::text::rows_view(rows@) =~= target.take(i as int),
        decreases fields.len() - i,
    {
        let tag = fields[i].tag.clone();
        let value = format_exif_value(&fields[i].value);
        rows.push((tag, value));
        proof {
            assert(crate::text::rows_view(rows@) =~= target.take(i + 1));
        }
        i = i + 1;
    }
    proof {
        assert(target.take(fields@.len() as int) =~= target);
    }
    rows
}

} // verus!
