//! A font read from an OpenType file that has a table of mathematical
//! metrics.
//!
//! The file is read by the crate `ttf_parser`; what it holds reaches this
//! module as plain numbers in the units of the font, of which 1000 make the
//! size of the font. Everything else is computed here.

use vstd::prelude::*;

use crate::common::construction::{Construction, ConstructionPart};
use crate::common::font_params::{
    FractionParams, FractionPartParams, GeneralParams, ScriptParams, SubScriptParams,
    SuperScriptParams,
};
use crate::common::{Family, FontStyle, Glyph};
use crate::length::{clamp_wide, div_floor};

verus! {

/// The constants of a font by which sizes are scaled, and the height of the
/// axis.
#[derive(Clone, Copy, Debug, PartialEq, Eq, Structural)]
pub struct ScaleConstants {
    pub script_percent_scale_down: i16,
    pub script_script_percent_scale_down: i16,
    pub axis_height: i16,
}

/// The constants of a font for the placement of scripts.
#[derive(Clone, Copy, Debug, PartialEq, Eq, Structural)]
pub struct ScriptConstants {
    pub subscript_shift_down: i16,
    pub subscript_top_max: i16,
    pub subscript_baseline_drop_min: i16,
    pub superscript_shift_up: i16,
    pub superscript_shift_up_cramped: i16,
    pub superscript_bottom_min: i16,
    pub superscript_baseline_drop_max: i16,
    pub sub_superscript_gap_min: i16,
    pub superscript_bottom_max_with_subscript: i16,
}

/// The constants of a font for the layout of fractions.
#[derive(Clone, Copy, Debug, PartialEq, Eq, Structural)]
pub struct FractionConstants {
    pub numerator_shift_up: i16,
    pub numerator_display_style_shift_up: i16,
    pub denominator_shift_down: i16,
    pub denominator_display_style_shift_down: i16,
    pub numerator_gap_min: i16,
    pub num_display_style_gap_min: i16,
    pub rule_thickness: i16,
    pub denominator_gap_min: i16,
    pub denom_display_style_gap_min: i16,
}

/// A larger variant of a glyph: its glyph, and how far it reaches in the
/// direction of growth.
#[derive(Clone, Copy, Debug, PartialEq, Eq, Structural)]
pub struct RawVariant {
    pub glyph_id: u16,
    pub advance_measurement: u16,
}

/// A part of the assembly of a glyph, as the font holds it.
#[derive(Clone, Copy, Debug, PartialEq, Eq, Structural)]
pub struct RawPart {
    pub glyph_id: u16,
    pub start_connector_length: u16,
    pub end_connector_length: u16,
    pub full_advance: u16,
    pub extender: bool,
}

/// The number that a font file gives the glyph of a character.
pub uninterp spec fn font_glyph_index(data: Seq<u8>, ch: char) -> Option<u16>;

/// The horizontal advance that a font file gives a glyph.
pub uninterp spec fn font_hor_advance(data: Seq<u8>, id: u16) -> Option<u16>;

/// The lowest and the highest point of the outline that a font file gives a
/// glyph.
pub uninterp spec fn font_bounds(data: Seq<u8>, id: u16) -> Option<(i16, i16)>;

/// The italic correction that a font file gives a glyph.
pub uninterp spec fn font_italic_correction(data: Seq<u8>, id: u16) -> Option<i16>;

/// The constants for scaling that a font file holds.
pub uninterp spec fn font_scale_constants(data: Seq<u8>) -> Option<ScaleConstants>;

/// The constants for scripts that a font file holds.
pub uninterp spec fn font_script_constants(data: Seq<u8>) -> Option<ScriptConstants>;

/// The constants for fractions that a font file holds.
pub uninterp spec fn font_fraction_constants(data: Seq<u8>) -> Option<FractionConstants>;

/// The larger variants that a font file gives a glyph in the vertical
/// direction.
pub uninterp spec fn font_vertical_variants(data: Seq<u8>, id: u16) -> Option<Seq<RawVariant>>;

/// The larger variants that a font file gives a glyph in the horizontal
/// direction.
pub uninterp spec fn font_horizontal_variants(data: Seq<u8>, id: u16) -> Option<Seq<RawVariant>>;

/// The parts from which a font file assembles a glyph in the vertical
/// direction.
pub uninterp spec fn font_vertical_assembly(data: Seq<u8>, id: u16) -> Option<Seq<RawPart>>;

/// The parts from which a font file assembles a glyph in the horizontal
/// direction.
pub uninterp spec fn font_horizontal_assembly(data: Seq<u8>, id: u16) -> Option<Seq<RawPart>>;

/// The larger variants that a font file gives a glyph, in one direction.
pub open spec fn font_variants(data: Seq<u8>, id: u16, vertical: bool) -> Option<Seq<RawVariant>> {
    if vertical {
        font_vertical_variants(data, id)
    } else {
        font_horizontal_variants(data, id)
    }
}

/// The parts from which a font file assembles a glyph, in one direction.
pub open spec fn font_assembly(data: Seq<u8>, id: u16, vertical: bool) -> Option<Seq<RawPart>> {
    if vertical {
        font_vertical_assembly(data, id)
    } else {
        font_horizontal_assembly(data, id)
    }
}

/// The least overlap of the parts of an assembly that a font file asks for.
pub uninterp spec fn font_min_overlap(data: Seq<u8>) -> Option<u16>;

/// Looks up the glyph of a character.
///
/// This is `ttf_parser::Face::parse` for the first font of the file and
/// `Face::glyph_index`. The contract claims only that the result depends on
/// the bytes and the character alone.
#[verifier::external_body]
fn glyph_index(data: &[u8], ch: char) -> (r: Option<u16>)
    ensures
        r == font_glyph_index(data@, ch),
{
    ttf_parser::Face::parse(data, 0).ok()?.glyph_index(ch).map(|id| id.0)
}

/// Reads the horizontal advance of a glyph.
///
/// This is `ttf_parser::Face::parse` and `Face::glyph_hor_advance`. The
/// contract claims only that the result depends on the bytes and the glyph
/// alone.
#[verifier::external_body]
fn hor_advance(data: &[u8], id: u16) -> (r: Option<u16>)
    ensures
        r == font_hor_advance(data@, id),
{
    ttf_parser::Face::parse(data, 0).ok()?.glyph_hor_advance(ttf_parser::GlyphId(id))
}

/// Reads the lowest and the highest point of the outline of a glyph.
///
/// This is `ttf_parser::Face::parse` and `Face::glyph_bounding_box`, of whose
/// result `y_min` and `y_max` are handed on. The contract claims only that the
/// result depends on the bytes and the glyph alone.
#[verifier::external_body]
fn bounds(data: &[u8], id: u16) -> (r: Option<(i16, i16)>)
    ensures
        r == font_bounds(data@, id),
{
    let face = ttf_parser::Face::parse(data, 0).ok()?;
    face.glyph_bounding_box(ttf_parser::GlyphId(id)).map(|b| (b.y_min, b.y_max))
}

/// Reads the italic correction of a glyph.
///
/// This is `ttf_parser::Face::parse` and, in the table `math`, `get` on the
/// `italic_corrections` of `glyph_info`, of whose result `value` is handed on.
/// The contract claims only that the result depends on the bytes and the
/// glyph alone.
#[verifier::external_body]
fn italic_correction(data: &[u8], id: u16) -> (r: Option<i16>)
    ensures
        r == font_italic_correction(data@, id),
{
    let face = ttf_parser::Face::parse(data, 0).ok()?;
    let values = face.tables().math?.glyph_info?.italic_corrections?;
    values.get(ttf_parser::GlyphId(id)).map(|v| v.value)
}

/// Reads the constants for scaling.
///
/// This is `ttf_parser::Face::parse` and three getters of the `constants` of
/// the table `math`. The contract claims only that the result depends on the
/// bytes alone.
#[verifier::external_body]
fn scale_constants(data: &[u8]) -> (r: Option<ScaleConstants>)
    ensures
        r == font_scale_constants(data@),
{
    let face = ttf_parser::Face::parse(data, 0).ok()?;
    let c = face.tables().math?.constants?;
    Some(ScaleConstants {
        script_percent_scale_down: c.script_percent_scale_down(),
        script_script_percent_scale_down: c.script_script_percent_scale_down(),
        axis_height: c.axis_height().value,
    })
}

/// Reads the constants for scripts.
///
/// This is `ttf_parser::Face::parse` and the getters of the same names of the
/// `constants` of the table `math`, of whose results `value` is handed on.
/// The contract claims only that the result depends on the bytes alone.
#[verifier::external_body]
fn script_constants(data: &[u8]) -> (r: Option<ScriptConstants>)
    ensures
        r == font_script_constants(data@),
{
    let face = ttf_parser::Face::parse(data, 0).ok()?;
    let c = face.tables().math?.constants?;
    Some(ScriptConstants {
        subscript_shift_down: c.subscript_shift_down().value,
        subscript_top_max: c.subscript_top_max().value,
        subscript_baseline_drop_min: c.subscript_baseline_drop_min().value,
        superscript_shift_up: c.superscript_shift_up().value,
        superscript_shift_up_cramped: c.superscript_shift_up_cramped().value,
        superscript_bottom_min: c.superscript_bottom_min().value,
        superscript_baseline_drop_max: c.superscript_baseline_drop_max().value,
        sub_superscript_gap_min: c.sub_superscript_gap_min().value,
        superscript_bottom_max_with_subscript: c.superscript_bottom_max_with_subscript().value,
    })
}

/// Reads the constants for fractions.
///
/// This is `ttf_parser::Face::parse` and the getters of the `constants` of the
/// table `math` whose names begin with `fraction_`, of whose results `value`
/// is handed on. The contract claims only that the result depends on the
/// bytes alone.
#[verifier::external_body]
fn fraction_constants(data: &[u8]) -> (r: Option<FractionConstants>)
    ensures
        r == font_fraction_constants(data@),
{
    let face = ttf_parser::Face::parse(data, 0).ok()?;
    let c = face.tables().math?.constants?;
    Some(FractionConstants {
        numerator_shift_up: c.fraction_numerator_shift_up().value,
        numerator_display_style_shift_up: c.fraction_numerator_display_style_shift_up().value,
        denominator_shift_down: c.fraction_denominator_shift_down().value,
        denominator_display_style_shift_down: c.fraction_denominator_display_style_shift_down().value,
        numerator_gap_min: c.fraction_numerator_gap_min().value,
        num_display_style_gap_min: c.fraction_num_display_style_gap_min().value,
        rule_thickness: c.fraction_rule_thickness().value,
        denominator_gap_min: c.fraction_denominator_gap_min().value,
        denom_display_style_gap_min: c.fraction_denom_display_style_gap_min().value,
    })
}

/// The views of a list of variants that may be missing.
pub open spec fn variants_view(list: Option<Vec<RawVariant>>) -> Option<Seq<RawVariant>> {
    match list {
        Some(v) => Some(v@),
        None => None,
    }
}

/// The views of a list of parts that may be missing.
pub open spec fn parts_view(list: Option<Vec<RawPart>>) -> Option<Seq<RawPart>> {
    match list {
        Some(v) => Some(v@),
        None => None,
    }
}

/// Reads the larger variants of a glyph in the vertical direction.
///
/// This is `ttf_parser::Face::parse` and, in the `variants` of the table
/// `math`, `get` on the `vertical_constructions`; of the `variants` of its
/// result the glyph and the measurement of each are handed on. The contract
/// claims only that the result depends on the arguments alone.
#[verifier::external_body]
fn vertical_variants(data: &[u8], id: u16) -> (r: Option<Vec<RawVariant>>)
    ensures
        variants_view(r) == font_vertical_variants(data@, id),
{
    let face = ttf_parser::Face::parse(data, 0).ok()?;
    let found = face.tables().math?.variants?.vertical_constructions.get(ttf_parser::GlyphId(id))?;
    Some(found.variants.into_iter().map(|v| RawVariant {
        glyph_id: v.variant_glyph.0,
        advance_measurement: v.advance_measurement,
    }).collect())
}

/// Reads the larger variants of a glyph in the horizontal direction.
///
/// This is `ttf_parser::Face::parse` and, in the `variants` of the table
/// `math`, `get` on the `horizontal_constructions`; of the `variants` of its
/// result the glyph and the measurement of each are handed on. The contract
/// claims only that the result depends on the arguments alone.
#[verifier::external_body]
fn horizontal_variants(data: &[u8], id: u16) -> (r: Option<Vec<RawVariant>>)
    ensures
        variants_view(r) == font_horizontal_variants(data@, id),
{
    let face = ttf_parser::Face::parse(data, 0).ok()?;
    let found = face.tables().math?.variants?.horizontal_constructions.get(ttf_parser::GlyphId(id))?;
    Some(found.variants.into_iter().map(|v| RawVariant {
        glyph_id: v.variant_glyph.0,
        advance_measurement: v.advance_measurement,
    }).collect())
}

/// Reads the parts of the assembly of a glyph in the vertical direction.
///
/// This is `ttf_parser::Face::parse` and, in the `variants` of the table
/// `math`, `get` on the `vertical_constructions`; of the `parts` of the
/// `assembly` of its result the fields of each are handed on, and of its
/// flags whether it is an extender. The contract claims only that the result
/// depends on the arguments alone.
#[verifier::external_body]
fn vertical_assembly(data: &[u8], id: u16) -> (r: Option<Vec<RawPart>>)
    ensures
        parts_view(r) == font_vertical_assembly(data@, id),
{
    let face = ttf_parser::Face::parse(data, 0).ok()?;
    let found = face.tables().math?.variants?.vertical_constructions.get(ttf_parser::GlyphId(id))?;
    Some(found.assembly?.parts.into_iter().map(|p| RawPart {
        glyph_id: p.glyph_id.0,
        start_connector_length: p.start_connector_length,
        end_connector_length: p.end_connector_length,
        full_advance: p.full_advance,
        extender: p.part_flags.extender(),
    }).collect())
}

/// Reads the parts of the assembly of a glyph in the horizontal direction.
///
/// This is `ttf_parser::Face::parse` and, in the `variants` of the table
/// `math`, `get` on the `horizontal_constructions`; of the `parts` of the
/// `assembly` of its result the fields of each are handed on, and of its
/// flags whether it is an extender. The contract claims only that the result
/// depends on the arguments alone.
#[verifier::external_body]
fn horizontal_assembly(data: &[u8], id: u16) -> (r: Option<Vec<RawPart>>)
    ensures
        parts_view(r) == font_horizontal_assembly(data@, id),
{
    let face = ttf_parser::Face::parse(data, 0).ok()?;
    let found = face.tables().math?.variants?.horizontal_constructions.get(ttf_parser::GlyphId(id))?;
    Some(found.assembly?.parts.into_iter().map(|p| RawPart {
        glyph_id: p.glyph_id.0,
        start_connector_length: p.start_connector_length,
        end_connector_length: p.end_connector_length,
        full_advance: p.full_advance,
        extender: p.part_flags.extender(),
    }).collect())
}

/// The larger variants of a glyph in one direction.
fn variants(data: &[u8], id: u16, vertical: bool) -> (r: Option<Vec<RawVariant>>)
    ensures
        variants_view(r) == font_variants(data@, id, vertical),
{
    if vertical {
        vertical_variants(data, id)
    } else {
        horizontal_variants(data, id)
    }
}

/// The parts of the assembly of a glyph in one direction.
fn assembly(data: &[u8], id: u16, vertical: bool) -> (r: Option<Vec<RawPart>>)
    ensures
        parts_view(r) == font_assembly(data@, id, vertical),
{
    if vertical {
        vertical_assembly(data, id)
    } else {
        horizontal_assembly(data, id)
    }
}

/// Reads the least overlap of the parts of an assembly.
///
/// This is `ttf_parser::Face::parse` and the field `min_connector_overlap` of
/// the `variants` of the table `math`. The contract claims only that the
/// result depends on the bytes alone.
#[verifier::external_body]
fn min_overlap(data: &[u8]) -> (r: Option<u16>)
    ensures
        r == font_min_overlap(data@),
{
    Some(ttf_parser::Face::parse(data, 0).ok()?.tables().math?.variants?.min_connector_overlap)
}

/// A length of the font at a size: 1000 units of the font make the size.
pub open spec fn scaled(value: int, size: i64) -> i64 {
    crate::length::clamp((value * size) / 1000)
}

/// The size at which the glyphs of a style are set: the size itself for
/// display and text, and the part of it that the font gives for scripts and
/// for scripts of scripts.
pub open spec fn style_size(constants: ScaleConstants, size: i64, style: FontStyle) -> i64 {
    match style {
        FontStyle::Display | FontStyle::Text => size,
        FontStyle::Script => crate::length::clamp(
            (size * constants.script_percent_scale_down) / 100,
        ),
        FontStyle::SuperScript => crate::length::clamp(
            (size * constants.script_script_percent_scale_down) / 100,
        ),
    }
}

/// The glyph of a number at a size, where the font has its metrics: its
/// height is how far the outline rises above the baseline and its depth how
/// far it falls below.
pub open spec fn glyph_at(data: Seq<u8>, id: u16, size: i64) -> Option<Glyph> {
    match (font_hor_advance(data, id), font_bounds(data, id)) {
        (Some(advance), Some((y_min, y_max))) => Some(
            Glyph {
                id: id as u32,
                size,
                height: scaled(crate::length::max(y_max as int, 0), size),
                depth: scaled(crate::length::max(-y_min, 0), size),
                advance: scaled(advance as int, size),
                italic_correction: scaled(
                    match font_italic_correction(data, id) {
                        Some(value) => value as int,
                        None => 0,
                    },
                    size,
                ),
            },
        ),
        _ => None,
    }
}

/// The glyph of a character at a size.
pub open spec fn glyph_of(data: Seq<u8>, ch: char, size: i64) -> Option<Glyph> {
    match font_glyph_index(data, ch) {
        Some(id) => glyph_at(data, id, size),
        None => None,
    }
}

/// A larger glyph as it is set: the advance of a larger glyph holds its
/// italic correction, so either the correction counts as none, or it is
/// taken off the advance.
pub open spec fn adjusted(glyph: Glyph, include_italic_correction: bool) -> Glyph {
    if include_italic_correction {
        Glyph { italic_correction: 0, ..glyph }
    } else {
        Glyph {
            advance: crate::length::clamp(glyph.advance - glyph.italic_correction),
            ..glyph
        }
    }
}

/// The larger glyph of a character: the second of its vertical variants.
pub open spec fn larger_glyph_of(
    data: Seq<u8>,
    ch: char,
    size: i64,
    include_italic_correction: bool,
) -> Option<Glyph> {
    match font_glyph_index(data, ch) {
        Some(id) => match font_variants(data, id, true) {
            Some(list) => if list.len() >= 2 {
                match glyph_at(data, list[1].glyph_id, size) {
                    Some(glyph) => Some(adjusted(glyph, include_italic_correction)),
                    None => None,
                }
            } else {
                None
            },
            None => None,
        },
        None => None,
    }
}

/// A length in the units of the font, rounded to the nearest unit and down
/// from the middle between two, and kept within what a font can hold.
pub open spec fn in_units(length: i64, size: i64) -> int {
    let exact = (2 * (length * 1000) + size - 1) / (2 * size);
    if exact < 0 {
        0
    } else if exact > 0xffff {
        0xffff
    } else {
        exact
    }
}

/// The first variant that reaches at least `min_units`, among those from
/// `from` on.
pub open spec fn first_variant(list: Seq<RawVariant>, min_units: int, from: int) -> Option<
    RawVariant,
>
    decreases list.len() - from,
{
    if !(0 <= from < list.len()) {
        None
    } else if list[from].advance_measurement >= min_units {
        Some(list[from])
    } else {
        first_variant(list, min_units, from + 1)
    }
}

/// The variant of the glyph of a character that reaches at least `min_size`
/// in one direction: the first of the variants of the font that does. None
/// for a size that is not positive.
pub open spec fn glyph_minsize_of(
    data: Seq<u8>,
    ch: char,
    size: i64,
    min_size: i64,
    vertical: bool,
) -> Option<Glyph> {
    match font_glyph_index(data, ch) {
        Some(id) => match font_variants(data, id, vertical) {
            Some(list) => if size > 0 {
                match first_variant(list, in_units(min_size, size), 0) {
                    Some(variant) => glyph_at(data, variant.glyph_id, size),
                    None => None,
                }
            } else {
                None
            },
            None => None,
        },
        None => None,
    }
}

/// The part of a construction that a part of the font makes at a size, where
/// the font has the metrics of its glyph.
pub open spec fn part_of(data: Seq<u8>, part: RawPart, size: i64) -> Option<ConstructionPart> {
    match glyph_at(data, part.glyph_id, size) {
        Some(glyph) => Some(
            ConstructionPart {
                glyph,
                size: scaled(part.full_advance as int, size),
                max_start_overlap: scaled(part.start_connector_length as int, size),
                max_end_overlap: scaled(part.end_connector_length as int, size),
                is_extender: part.extender,
            },
        ),
        None => None,
    }
}

/// The construction of the glyph of a character in one direction at a size:
/// the parts of the font, each at the size. None where the font has no
/// assembly for the character or lacks the metrics of a part.
pub open spec fn construction_of(data: Seq<u8>, ch: char, size: i64, vertical: bool) -> Option<
    crate::common::construction::ConstructionView,
> {
    match (font_glyph_index(data, ch), font_min_overlap(data)) {
        (Some(id), Some(overlap)) => match font_assembly(data, id, vertical) {
            Some(parts) => if forall|i: int|
                0 <= i < parts.len() ==> part_of(data, #[trigger] parts[i], size) is Some {
                Some(
                    crate::common::construction::ConstructionView {
                        min_overlap: scaled(overlap as int, size),
                        parts: Seq::new(parts.len(), |i: int| part_of(data, parts[i], size)->0),
                    },
                )
            } else {
                None
            },
            None => None,
        },
        _ => None,
    }
}

/// The parameters for scripts at a size.
pub open spec fn script_params_of(constants: ScriptConstants, size: i64, cramped: bool) -> ScriptParams {
    ScriptParams {
        subscript: SubScriptParams {
            shift_down: scaled(constants.subscript_shift_down as int, size),
            top_max: scaled(constants.subscript_top_max as int, size),
            baseline_drop_min: scaled(constants.subscript_baseline_drop_min as int, size),
        },
        superscript: SuperScriptParams {
            shift_up: if cramped {
                scaled(constants.superscript_shift_up_cramped as int, size)
            } else {
                scaled(constants.superscript_shift_up as int, size)
            },
            bottom_min: scaled(constants.superscript_bottom_min as int, size),
            baseline_drop_max: scaled(constants.superscript_baseline_drop_max as int, size),
        },
        sub_super_gap_min: scaled(constants.sub_superscript_gap_min as int, size),
        super_bottom_max_with_subscript: scaled(
            constants.superscript_bottom_max_with_subscript as int,
            size,
        ),
    }
}

/// The parameters for fractions at a size: those for display style in
/// display style.
pub open spec fn fraction_params_of(constants: FractionConstants, size: i64, display: bool) -> FractionParams {
    FractionParams {
        numerator: FractionPartParams {
            shift: if display {
                scaled(constants.numerator_display_style_shift_up as int, size)
            } else {
                scaled(constants.numerator_shift_up as int, size)
            },
            gap_min: if display {
                scaled(constants.num_display_style_gap_min as int, size)
            } else {
                scaled(constants.numerator_gap_min as int, size)
            },
        },
        denominator: FractionPartParams {
            shift: if display {
                scaled(constants.denominator_display_style_shift_down as int, size)
            } else {
                scaled(constants.denominator_shift_down as int, size)
            },
            gap_min: if display {
                scaled(constants.denom_display_style_gap_min as int, size)
            } else {
                scaled(constants.denominator_gap_min as int, size)
            },
        },
        rule_thickness: scaled(constants.rule_thickness as int, size),
    }
}

/// Whether a font file can be used: it holds the constants, and a glyph for
/// the question mark, which stands in for the glyphs that it lacks.
pub open spec fn usable(data: Seq<u8>) -> bool {
    &&& font_scale_constants(data) is Some
    &&& font_script_constants(data) is Some
    &&& font_fraction_constants(data) is Some
    &&& font_glyph_index(data, '?') is Some
    &&& font_hor_advance(data, font_glyph_index(data, '?')->0) is Some
    &&& font_bounds(data, font_glyph_index(data, '?')->0) is Some
}

/// A length of the font at a size.
pub fn scale(value: i32, size: i64) -> (r: i64)
    ensures
        r == scaled(value as int, size),
{
    assert(-0x4000_0000_0000_0000_0000_0000 <= (value as int) * (size as int)
        <= 0x4000_0000_0000_0000_0000_0000) by (nonlinear_arith)
        requires
            -0x8000_0000 <= value <= 0x7fff_ffff,
            -0x8000_0000_0000_0000 <= size <= 0x7fff_ffff_ffff_ffff,
    ;
    let product: i128 = value as i128 * size as i128;
    clamp_wide(div_floor(product, 1000))
}

/// A size times a percentage.
fn percent_of(size: i64, percent: i16) -> (r: i64)
    ensures
        r == crate::length::clamp((size * percent) / 100),
{
    assert(-0x4000_0000_0000_0000_0000_0000 <= (size as int) * (percent as int)
        <= 0x4000_0000_0000_0000_0000_0000) by (nonlinear_arith)
        requires
            -0x8000 <= percent <= 0x7fff,
            -0x8000_0000_0000_0000 <= size <= 0x7fff_ffff_ffff_ffff,
    ;
    let product: i128 = size as i128 * percent as i128;
    clamp_wide(div_floor(product, 100))
}

/// A length in the units of the font.
fn to_units(length: i64, size: i64) -> (r: u16)
    requires
        size > 0,
    ensures
        r == in_units(length, size),
{
    let twice: i128 = 2 * (length as i128 * 1000) + size as i128 - 1;
    let exact: i128 = div_floor(twice, 2 * (size as i128));
    if exact < 0 {
        0
    } else if exact > 0xffff {
        0xffff
    } else {
        exact as u16
    }
}

/// The first variant that reaches at least `min_units`.
fn find_variant(list: &Vec<RawVariant>, min_units: u16) -> (r: Option<RawVariant>)
    ensures
        r == first_variant(list@, min_units as int, 0),
{
    let n: usize = list.len();
    let mut i: usize = 0;
    while i < n
        invariant
            i <= n,
            n == list@.len(),
            first_variant(list@, min_units as int, 0) == first_variant(
                list@,
                min_units as int,
                i as int,
            ),
        decreases n - i,
    {
        let variant: RawVariant = list[i];
        if variant.advance_measurement >= min_units {
            return Some(variant);
        }
        i = i + 1;
    }
    None
}

/// A larger glyph as it is set.
pub fn adjust(glyph: Glyph, include_italic_correction: bool) -> (r: Glyph)
    ensures
        r == adjusted(glyph, include_italic_correction),
{
    if include_italic_correction {
        Glyph { italic_correction: 0, ..glyph }
    } else {
        Glyph {
            advance: clamp_wide(glyph.advance as i128 - glyph.italic_correction as i128),
            ..glyph
        }
    }
}

/// The parameters for scripts at a size.
pub fn script_params_at(constants: &ScriptConstants, size: i64, cramped: bool) -> (r: ScriptParams)
    ensures
        r == script_params_of(*constants, size, cramped),
{
    ScriptParams {
        subscript: SubScriptParams {
            shift_down: scale(constants.subscript_shift_down as i32, size),
            top_max: scale(constants.subscript_top_max as i32, size),
            baseline_drop_min: scale(constants.subscript_baseline_drop_min as i32, size),
        },
        superscript: SuperScriptParams {
            shift_up: if cramped {
                scale(constants.superscript_shift_up_cramped as i32, size)
            } else {
                scale(constants.superscript_shift_up as i32, size)
            },
            bottom_min: scale(constants.superscript_bottom_min as i32, size),
            baseline_drop_max: scale(constants.superscript_baseline_drop_max as i32, size),
        },
        sub_super_gap_min: scale(constants.sub_superscript_gap_min as i32, size),
        super_bottom_max_with_subscript: scale(
            constants.superscript_bottom_max_with_subscript as i32,
            size,
        ),
    }
}

/// The parameters for fractions at a size.
pub fn fraction_params_at(constants: &FractionConstants, size: i64, display: bool) -> (r:
    FractionParams)
    ensures
        r == fraction_params_of(*constants, size, display),
{
    let (numerator, denominator): (FractionPartParams, FractionPartParams) = if display {
        (
            FractionPartParams {
                shift: scale(constants.numerator_display_style_shift_up as i32, size),
                gap_min: scale(constants.num_display_style_gap_min as i32, size),
            },
            FractionPartParams {
                shift: scale(constants.denominator_display_style_shift_down as i32, size),
                gap_min: scale(constants.denom_display_style_gap_min as i32, size),
            },
        )
    } else {
        (
            FractionPartParams {
                shift: scale(constants.numerator_shift_up as i32, size),
                gap_min: scale(constants.numerator_gap_min as i32, size),
            },
            FractionPartParams {
                shift: scale(constants.denominator_shift_down as i32, size),
                gap_min: scale(constants.denominator_gap_min as i32, size),
            },
        )
    };
    FractionParams {
        numerator,
        denominator,
        rule_thickness: scale(constants.rule_thickness as i32, size),
    }
}

/// The size at which the glyphs of a style are set.
pub fn size_for_style(constants: &ScaleConstants, size: i64, style: FontStyle) -> (r: i64)
    ensures
        r == style_size(*constants, size, style),
{
    match style {
        FontStyle::Display | FontStyle::Text => size,
        FontStyle::Script => percent_of(size, constants.script_percent_scale_down),
        FontStyle::SuperScript => percent_of(size, constants.script_script_percent_scale_down),
    }
}

/// The glyph of a number at a size.
pub fn new_from_id(data: &[u8], id: u16, size: i64) -> (r: Option<Glyph>)
    ensures
        r == glyph_at(data@, id, size),
{
    let advance: u16 = match hor_advance(data, id) {
        Some(a) => a,
        None => {
            return None;
        },
    };
    let (y_min, y_max): (i16, i16) = match bounds(data, id) {
        Some(b) => b,
        None => {
            return None;
        },
    };
    let italic: i16 = match italic_correction(data, id) {
        Some(value) => value,
        None => 0,
    };
    let top: i32 = if y_max > 0 {
        y_max as i32
    } else {
        0
    };
    let bottom: i32 = if y_min < 0 {
        -(y_min as i32)
    } else {
        0
    };
    Some(
        Glyph {
            id: id as u32,
            size,
            height: scale(top, size),
            depth: scale(bottom, size),
            advance: scale(advance as i32, size),
            italic_correction: scale(italic as i32, size),
        },
    )
}

/// The variant of the glyph of a character that reaches at least `min_size`.
fn get_glyph_minsize(data: &[u8], ch: char, size: i64, min_size: i64, vertical: bool) -> (r:
    Option<Glyph>)
    ensures
        r == glyph_minsize_of(data@, ch, size, min_size, vertical),
{
    let id: u16 = match glyph_index(data, ch) {
        Some(id) => id,
        None => {
            return None;
        },
    };
    let list: Vec<RawVariant> = match variants(data, id, vertical) {
        Some(list) => list,
        None => {
            return None;
        },
    };
    if size <= 0 {
        return None;
    }
    match find_variant(&list, to_units(min_size, size)) {
        Some(variant) => new_from_id(data, variant.glyph_id, size),
        None => None,
    }
}

/// The construction of the glyph of a character in one direction.
fn get_glyph_construction(data: &[u8], ch: char, size: i64, vertical: bool) -> (r: Option<
    Construction,
>)
    ensures
        crate::common::construction::view_of(r) == construction_of(data@, ch, size, vertical),
{
    let id: u16 = match glyph_index(data, ch) {
        Some(id) => id,
        None => {
            return None;
        },
    };
    let overlap: u16 = match min_overlap(data) {
        Some(o) => o,
        None => {
            return None;
        },
    };
    let raw: Vec<RawPart> = match assembly(data, id, vertical) {
        Some(parts) => parts,
        None => {
            return None;
        },
    };
    let n: usize = raw.len();
    let mut parts: Vec<ConstructionPart> = Vec::new();
    let mut i: usize = 0;
    while i < n
        invariant
            i <= n,
            n == raw@.len(),
            parts@.len() == i,
            font_glyph_index(data@, ch) == Some(id),
            font_min_overlap(data@) == Some(overlap),
            font_assembly(data@, id, vertical) == Some(raw@),
            forall|k: int| 0 <= k < i ==> part_of(data@, #[trigger] raw@[k], size) == Some(parts@[k]),
        decreases n - i,
    {
        let part: RawPart = raw[i];
        match new_from_id(data, part.glyph_id, size) {
            Some(glyph) => {
                parts.push(
                    ConstructionPart {
                        glyph,
                        size: scale(part.full_advance as i32, size),
                        max_start_overlap: scale(part.start_connector_length as i32, size),
                        max_end_overlap: scale(part.end_connector_length as i32, size),
                        is_extender: part.extender,
                    },
                );
            },
            None => {
                assert(part_of(data@, raw@[i as int], size) is None);
                return None;
            },
        }
        i = i + 1;
    }
    let found: Construction = Construction { min_overlap: scale(overlap as i32, size), parts };
    proof {
        assert(found@.parts =~= Seq::new(raw@.len(), |k: int| part_of(data@, raw@[k], size)->0));
    }
    Some(found)
}

/// A font of an OpenType file.
pub struct Font {
    data: Vec<u8>,
}

impl Font {
    /// The bytes of the file.
    pub closed spec fn bytes(&self) -> Seq<u8> {
        self.data@
    }

    #[verifier::type_invariant]
    spec fn file_usable(self) -> bool {
        usable(self.data@)
    }

    /// The constants for scaling of the font.
    pub open spec fn scale_constants(&self) -> ScaleConstants {
        font_scale_constants(self.bytes())->0
    }

    /// The font of a file, where the file can be used.
    pub fn new(data: Vec<u8>) -> (r: Option<Font>)
        ensures
            match r {
                Some(font) => usable(data@) && font.bytes() == data@,
                None => !usable(data@),
            },
    {
        if scale_constants(data.as_slice()).is_none() || script_constants(data.as_slice()).is_none()
            || fraction_constants(data.as_slice()).is_none() {
            return None;
        }
        let id: u16 = match glyph_index(data.as_slice(), '?') {
            Some(id) => id,
            None => {
                return None;
            },
        };
        if hor_advance(data.as_slice(), id).is_none() || bounds(data.as_slice(), id).is_none() {
            return None;
        }
        Some(Font { data })
    }

    /// The size at which the glyphs of a style are set.
    fn size_for(&self, size: i64, style: FontStyle) -> (r: i64)
        ensures
            r == style_size(self.scale_constants(), size, style),
    {
        proof {
            use_type_invariant(self);
        }
        match scale_constants(self.data.as_slice()) {
            Some(constants) => size_for_style(&constants, size, style),
            None => size,
        }
    }
}

impl crate::common::Font for Font {
    open spec fn fallback_glyph(&self, size: i64, style: FontStyle) -> Glyph {
        glyph_of(self.bytes(), '?', style_size(self.scale_constants(), size, style))->0
    }

    open spec fn glyph(&self, ch: char, size: i64, style: FontStyle) -> Option<Glyph> {
        glyph_of(self.bytes(), ch, style_size(self.scale_constants(), size, style))
    }

    open spec fn larger_glyph(
        &self,
        ch: char,
        size: i64,
        style: FontStyle,
        include_italic_correction: bool,
    ) -> Option<Glyph> {
        larger_glyph_of(
            self.bytes(),
            ch,
            style_size(self.scale_constants(), size, style),
            include_italic_correction,
        )
    }

    open spec fn glyph_minwidth(&self, ch: char, size: i64, style: FontStyle, min_width: i64) -> Option<
        Glyph,
    > {
        glyph_minsize_of(
            self.bytes(),
            ch,
            style_size(self.scale_constants(), size, style),
            min_width,
            false,
        )
    }

    open spec fn glyph_minheight(
        &self,
        ch: char,
        size: i64,
        style: FontStyle,
        min_height: i64,
    ) -> Option<Glyph> {
        glyph_minsize_of(
            self.bytes(),
            ch,
            style_size(self.scale_constants(), size, style),
            min_height,
            true,
        )
    }

    open spec fn glyph_hor_construction(&self, ch: char, size: i64, style: FontStyle) -> Option<
        crate::common::construction::ConstructionView,
    > {
        construction_of(self.bytes(), ch, style_size(self.scale_constants(), size, style), false)
    }

    open spec fn glyph_vert_construction(&self, ch: char, size: i64, style: FontStyle) -> Option<
        crate::common::construction::ConstructionView,
    > {
        construction_of(self.bytes(), ch, style_size(self.scale_constants(), size, style), true)
    }

    open spec fn script_params(&self, size: i64, style: FontStyle, cramped: bool) -> ScriptParams {
        script_params_of(
            font_script_constants(self.bytes())->0,
            style_size(self.scale_constants(), size, style),
            cramped,
        )
    }

    open spec fn general_params(&self, size: i64, style: FontStyle, cramped: bool) -> GeneralParams {
        GeneralParams {
            axis_height: scaled(
                self.scale_constants().axis_height as int,
                style_size(self.scale_constants(), size, style),
            ),
        }
    }

    open spec fn fraction_params(&self, size: i64, style: FontStyle, cramped: bool) -> FractionParams {
        fraction_params_of(
            font_fraction_constants(self.bytes())->0,
            style_size(self.scale_constants(), size, style),
            style is Display,
        )
    }

    fn get_fallback_glyph(&self, size: i64, style: FontStyle) -> (r: Glyph) {
        proof {
            use_type_invariant(self);
        }
        let at: i64 = self.size_for(size, style);
        let found: Option<Glyph> = match glyph_index(self.data.as_slice(), '?') {
            Some(id) => new_from_id(self.data.as_slice(), id, at),
            None => None,
        };
        match found {
            Some(glyph) => glyph,
            None => Glyph { id: 0, size: at, height: 0, depth: 0, advance: 0, italic_correction: 0 },
        }
    }

    fn get_glyph(&self, ch: char, size: i64, style: FontStyle) -> (r: Option<Glyph>) {
        let at: i64 = self.size_for(size, style);
        match glyph_index(self.data.as_slice(), ch) {
            Some(id) => new_from_id(self.data.as_slice(), id, at),
            None => None,
        }
    }

    fn get_larger_glyph(
        &self,
        ch: char,
        size: i64,
        style: FontStyle,
        include_italic_correction: bool,
    ) -> (r: Option<Glyph>) {
        let at: i64 = self.size_for(size, style);
        let id: u16 = match glyph_index(self.data.as_slice(), ch) {
            Some(id) => id,
            None => {
                return None;
            },
        };
        let list: Vec<RawVariant> = match variants(self.data.as_slice(), id, true) {
            Some(list) => list,
            None => {
                return None;
            },
        };
        if list.len() < 2 {
            return None;
        }
        match new_from_id(self.data.as_slice(), list[1].glyph_id, at) {
            Some(glyph) => Some(adjust(glyph, include_italic_correction)),
            None => None,
        }
    }

    fn get_glyph_minwidth(&self, ch: char, size: i64, style: FontStyle, min_width: i64) -> (r:
        Option<Glyph>) {
        let at: i64 = self.size_for(size, style);
        get_glyph_minsize(self.data.as_slice(), ch, at, min_width, false)
    }

    fn get_glyph_minheight(&self, ch: char, size: i64, style: FontStyle, min_height: i64) -> (r:
        Option<Glyph>) {
        let at: i64 = self.size_for(size, style);
        get_glyph_minsize(self.data.as_slice(), ch, at, min_height, true)
    }

    fn get_glyph_hor_construction(&self, ch: char, size: i64, style: FontStyle) -> (r: Option<
        Construction,
    >) {
        let at: i64 = self.size_for(size, style);
        get_glyph_construction(self.data.as_slice(), ch, at, false)
    }

    fn get_glyph_vert_construction(&self, ch: char, size: i64, style: FontStyle) -> (r: Option<
        Construction,
    >) {
        let at: i64 = self.size_for(size, style);
        get_glyph_construction(self.data.as_slice(), ch, at, true)
    }

    fn calculate_script_params(&self, size: i64, style: FontStyle, cramped: bool) -> (r:
        ScriptParams) {
        proof {
            use_type_invariant(self);
        }
        let at: i64 = self.size_for(size, style);
        match script_constants(self.data.as_slice()) {
            Some(constants) => script_params_at(&constants, at, cramped),
            None => ScriptParams {
                subscript: SubScriptParams { shift_down: 0, top_max: 0, baseline_drop_min: 0 },
                superscript: SuperScriptParams { shift_up: 0, bottom_min: 0, baseline_drop_max: 0 },
                sub_super_gap_min: 0,
                super_bottom_max_with_subscript: 0,
            },
        }
    }

    fn calculate_general_params(&self, size: i64, style: FontStyle, cramped: bool) -> (r:
        GeneralParams) {
        proof {
            use_type_invariant(self);
        }
        let at: i64 = self.size_for(size, style);
        match scale_constants(self.data.as_slice()) {
            Some(constants) => GeneralParams { axis_height: scale(constants.axis_height as i32, at) },
            None => GeneralParams { axis_height: 0 },
        }
    }

    fn calculate_fraction_params(&self, size: i64, style: FontStyle, cramped: bool) -> (r:
        FractionParams) {
        proof {
            use_type_invariant(self);
        }
        let at: i64 = self.size_for(size, style);
        let display: bool = match style {
            FontStyle::Display => true,
            _ => false,
        };
        match fraction_constants(self.data.as_slice()) {
            Some(constants) => fraction_params_at(&constants, at, display),
            None => FractionParams {
                numerator: FractionPartParams { shift: 0, gap_min: 0 },
                denominator: FractionPartParams { shift: 0, gap_min: 0 },
                rule_thickness: 0,
            },
        }
    }
}

/// The fonts of a layout: one font for every family.
pub struct FontBackend {
    pub font: Font,
}

impl FontBackend {
    /// The backend of a font file, where the file can be used.
    pub fn new(data: Vec<u8>) -> (r: Option<FontBackend>)
        ensures
            match r {
                Some(backend) => usable(data@) && backend.font.bytes() == data@,
                None => !usable(data@),
            },
    {
        match Font::new(data) {
            Some(font) => Some(FontBackend { font }),
            None => None,
        }
    }
}

impl crate::common::FontBackend for FontBackend {
    type Font = Font;

    open spec fn font(&self, family: Family) -> Font {
        self.font
    }

    fn get_font(&self, family: Family) -> (r: &Font) {
        &self.font
    }
}

} // verus!
