use rustmath::backend::opentype::{
    adjust, fraction_params_at, new_from_id, scale, script_params_at, size_for_style, Font,
    FontBackend, FractionConstants, ScaleConstants, ScriptConstants,
};
use rustmath::common::construction::ConstructionPart;
use rustmath::common::font_params::{FractionPartParams, GeneralParams};
use rustmath::common::{Color, Family, Font as _, FontBackend as _, FontStyle, Glyph};
use rustmath::layout::Node;
use rustmath::mathlist::Style;

fn u16s(out: &mut Vec<u8>, values: &[u16]) {
    for v in values {
        out.extend_from_slice(&v.to_be_bytes());
    }
}

fn i16s(out: &mut Vec<u8>, values: &[i16]) {
    for v in values {
        out.extend_from_slice(&v.to_be_bytes());
    }
}

fn u32s(out: &mut Vec<u8>, values: &[u32]) {
    for v in values {
        out.extend_from_slice(&v.to_be_bytes());
    }
}

/// A triangle that reaches from `y_min` to `y_max`.
fn triangle(y_min: i16, y_max: i16) -> Vec<u8> {
    let mut g = Vec::new();
    i16s(&mut g, &[1, 0, y_min, 200, y_max]);
    u16s(&mut g, &[2, 0]);
    g.extend_from_slice(&[1, 1, 1]);
    i16s(&mut g, &[0, 100, 100]);
    i16s(&mut g, &[y_min, y_max - y_min, y_min - y_max]);
    while g.len() % 4 != 0 {
        g.push(0);
    }
    g
}

fn head() -> Vec<u8> {
    let mut t = vec![0u8; 54];
    t[0..4].copy_from_slice(&0x0001_0000u32.to_be_bytes());
    t[12..16].copy_from_slice(&0x5f0f_3cf5u32.to_be_bytes());
    t[18..20].copy_from_slice(&1000u16.to_be_bytes());
    t[50..52].copy_from_slice(&1u16.to_be_bytes());
    t
}

fn hhea(glyphs: u16) -> Vec<u8> {
    let mut t = vec![0u8; 36];
    t[0..4].copy_from_slice(&0x0001_0000u32.to_be_bytes());
    t[34..36].copy_from_slice(&glyphs.to_be_bytes());
    t
}

fn maxp(glyphs: u16) -> Vec<u8> {
    let mut t = vec![0u8; 32];
    t[0..4].copy_from_slice(&0x0001_0000u32.to_be_bytes());
    t[4..6].copy_from_slice(&glyphs.to_be_bytes());
    t
}

fn cmap(groups: &[(u32, u32, u32)]) -> Vec<u8> {
    let mut t = Vec::new();
    u16s(&mut t, &[0, 1, 3, 10]);
    u32s(&mut t, &[12]);
    u16s(&mut t, &[12, 0]);
    u32s(&mut t, &[16 + 12 * groups.len() as u32, 0, groups.len() as u32]);
    for (start, end, glyph) in groups {
        u32s(&mut t, &[*start, *end, *glyph]);
    }
    t
}

fn constants() -> Vec<u8> {
    let mut t = vec![0u8; 214];
    let mut set = |offset: usize, value: i16| t[offset..offset + 2].copy_from_slice(&value.to_be_bytes());
    set(0, 70);
    set(2, 50);
    set(12, 250);
    set(24, 210);
    set(28, 350);
    set(32, 50);
    set(36, 360);
    set(40, 290);
    set(44, 110);
    set(48, 220);
    set(52, 160);
    set(56, 351);
    set(120, 390);
    set(124, 680);
    set(128, 340);
    set(132, 690);
    set(136, 40);
    set(140, 120);
    set(144, 41);
    set(148, 42);
    set(152, 121);
    t
}

fn glyph_info() -> Vec<u8> {
    let mut t = Vec::new();
    u16s(&mut t, &[8, 0, 0, 0]);
    // the italic corrections: one glyph, 30
    u16s(&mut t, &[8, 1]);
    i16s(&mut t, &[30, 0]);
    u16s(&mut t, &[1, 1, 2]);
    t
}

fn variants() -> Vec<u8> {
    let mut t = Vec::new();
    // the least overlap, the two coverages, the two counts, one construction
    u16s(&mut t, &[20, 12, 0, 1, 0, 18]);
    u16s(&mut t, &[1, 1, 2]);
    // the construction: the assembly, three variants
    u16s(&mut t, &[16, 3, 2, 1000, 3, 1400, 4, 1800]);
    // the assembly: no italic correction, three parts
    u16s(&mut t, &[0, 0, 3]);
    u16s(&mut t, &[7, 0, 100, 500, 0]);
    u16s(&mut t, &[6, 100, 100, 300, 1]);
    u16s(&mut t, &[5, 100, 0, 500, 0]);
    t
}

fn math() -> Vec<u8> {
    let (c, g, v) = (constants(), glyph_info(), variants());
    let mut t = Vec::new();
    u16s(&mut t, &[1, 0, 10, 10 + c.len() as u16, (10 + c.len() + g.len()) as u16]);
    t.extend(c);
    t.extend(g);
    t.extend(v);
    t
}

/// A font of eight glyphs: none, `?`, `(`, two larger variants of `(`, and the
/// three parts of its assembly.
fn font_with(with_math: bool) -> Vec<u8> {
    let outlines = [
        Vec::new(),
        triangle(-50, 700),
        triangle(-200, 800),
        triangle(-400, 1000),
        triangle(-600, 1200),
        triangle(0, 500),
        triangle(0, 300),
        triangle(0, 500),
    ];
    let mut glyf = Vec::new();
    let mut loca = Vec::new();
    for outline in &outlines {
        u32s(&mut loca, &[glyf.len() as u32]);
        glyf.extend_from_slice(outline);
    }
    u32s(&mut loca, &[glyf.len() as u32]);
    let mut hmtx = Vec::new();
    for advance in [0u16, 500, 400, 450, 500, 500, 500, 500] {
        u16s(&mut hmtx, &[advance, 0]);
    }
    let mut tables: Vec<(&[u8; 4], Vec<u8>)> = vec![
        (b"cmap", cmap(&[(0x28, 0x28, 2), (0x3f, 0x3f, 1), (0x6e, 0x6e, 0)])),
        (b"glyf", glyf),
        (b"head", head()),
        (b"hhea", hhea(8)),
        (b"hmtx", hmtx),
        (b"loca", loca),
        (b"maxp", maxp(8)),
    ];
    if with_math {
        tables.insert(0, (b"MATH", math()));
    }
    let mut font = Vec::new();
    u32s(&mut font, &[0x0001_0000]);
    u16s(&mut font, &[tables.len() as u16, 0, 0, 0]);
    let mut offset = 12 + 16 * tables.len();
    for (tag, data) in &tables {
        font.extend_from_slice(*tag);
        u32s(&mut font, &[0, offset as u32, data.len() as u32]);
        offset += (data.len() + 3) / 4 * 4;
    }
    for (_, data) in &tables {
        font.extend_from_slice(data);
        while font.len() % 4 != 0 {
            font.push(0);
        }
    }
    font
}

fn font() -> Font {
    Font::new(font_with(true)).unwrap()
}

fn glyph(id: u32, size: i64, height: i64, depth: i64, advance: i64, italic_correction: i64) -> Glyph {
    Glyph { id, size, height, depth, advance, italic_correction }
}

#[test]
fn font_needs_its_constants_and_a_question_mark() {
    assert!(Font::new(font_with(true)).is_some());
    assert!(Font::new(font_with(false)).is_none());
    assert!(Font::new(Vec::new()).is_none());
    assert!(Font::new(b"no font at all".to_vec()).is_none());
    let mut cut = font_with(true);
    cut.truncate(cut.len() / 2);
    assert!(Font::new(cut).is_none());
    assert!(FontBackend::new(font_with(true)).is_some());
    assert!(FontBackend::new(font_with(false)).is_none());
}

#[test]
fn glyphs_are_scaled_to_the_size() {
    let f = font();
    assert_eq!(f.get_glyph('(', 1000, FontStyle::Text), Some(glyph(2, 1000, 800, 200, 400, 30)));
    assert_eq!(f.get_glyph('(', 2000, FontStyle::Display), Some(glyph(2, 2000, 1600, 400, 800, 60)));
    assert_eq!(f.get_glyph('(', 36, FontStyle::Text), Some(glyph(2, 36, 28, 7, 14, 1)));
    assert_eq!(f.get_glyph('(', -1000, FontStyle::Text), Some(glyph(2, -1000, -800, -200, -400, -30)));
    // scripts are set at 70 and at 50 of 100
    assert_eq!(f.get_glyph('(', 1000, FontStyle::Script), Some(glyph(2, 700, 560, 140, 280, 21)));
    assert_eq!(f.get_glyph('(', 1000, FontStyle::SuperScript), Some(glyph(2, 500, 400, 100, 200, 15)));
    assert_eq!(f.get_glyph('?', 1000, FontStyle::Text), Some(glyph(1, 1000, 700, 50, 500, 0)));
    // a character without a glyph, and a glyph without an outline
    assert_eq!(f.get_glyph('z', 1000, FontStyle::Text), None);
    assert_eq!(f.get_glyph('n', 1000, FontStyle::Text), None);
    assert_eq!(f.get_fallback_glyph(1000, FontStyle::Text), glyph(1, 1000, 700, 50, 500, 0));
    assert_eq!(f.get_fallback_glyph(1000, FontStyle::Script), glyph(1, 700, 490, 35, 350, 0));
}

#[test]
fn glyph_of_a_number() {
    let data = font_with(true);
    assert_eq!(new_from_id(&data, 4, 1000), Some(glyph(4, 1000, 1200, 600, 500, 0)));
    assert_eq!(new_from_id(&data, 0, 1000), None);
    assert_eq!(new_from_id(&data, 8, 1000), None);
    assert_eq!(new_from_id(&[], 1, 1000), None);
}

#[test]
fn larger_glyph_is_the_second_variant() {
    let f = font();
    assert_eq!(f.get_larger_glyph('(', 1000, FontStyle::Display, true), Some(glyph(3, 1000, 1000, 400, 450, 0)));
    assert_eq!(f.get_larger_glyph('(', 1000, FontStyle::Display, false), Some(glyph(3, 1000, 1000, 400, 450, 0)));
    assert_eq!(f.get_larger_glyph('?', 1000, FontStyle::Display, true), None);
    assert_eq!(f.get_larger_glyph('z', 1000, FontStyle::Display, true), None);
}

#[test]
fn italic_correction_of_a_larger_glyph() {
    let g = glyph(1, 10, 5, 1, 20, 3);
    assert_eq!(adjust(g, true), glyph(1, 10, 5, 1, 20, 0));
    assert_eq!(adjust(g, false), glyph(1, 10, 5, 1, 17, 3));
    let far = glyph(1, 10, 5, 1, i64::MIN, 3);
    assert_eq!(adjust(far, false).advance, i64::MIN);
}

#[test]
fn variant_that_is_large_enough() {
    let f = font();
    let id = |min_height: i64, size: i64| f.get_glyph_minheight('(', size, FontStyle::Text, min_height).map(|g| g.id);
    assert_eq!(id(0, 1000), Some(2));
    assert_eq!(id(-5, 1000), Some(2));
    assert_eq!(id(1000, 1000), Some(2));
    assert_eq!(id(1001, 1000), Some(3));
    assert_eq!(id(1400, 1000), Some(3));
    assert_eq!(id(1800, 1000), Some(4));
    assert_eq!(id(1801, 1000), None);
    // at size 10 a unit of the font is a hundredth: 10.005 is 1000 units and a half
    assert_eq!(id(10, 10), Some(2));
    assert_eq!(id(11, 10), Some(3));
    assert_eq!(id(i64::MAX, 1000), None);
    assert_eq!(id(5, 0), None);
    assert_eq!(id(5, -10), None);
    assert_eq!(f.get_glyph_minheight('?', 1000, FontStyle::Text, 0), None);
    // the font has variants in one direction only
    assert_eq!(f.get_glyph_minwidth('(', 1000, FontStyle::Text, 0), None);
}

#[test]
fn construction_of_the_font() {
    let f = font();
    let c = f.get_glyph_vert_construction('(', 1000, FontStyle::Text).unwrap();
    assert_eq!(c.min_overlap, 20);
    let part = |id: u32, height: i64, size: i64, start: i64, end: i64, is_extender: bool| ConstructionPart {
        glyph: glyph(id, 1000, height, 0, 500, 0),
        size,
        max_start_overlap: start,
        max_end_overlap: end,
        is_extender,
    };
    assert_eq!(
        c.parts,
        vec![
            part(7, 500, 500, 0, 100, false),
            part(6, 300, 300, 100, 100, true),
            part(5, 500, 500, 100, 0, false),
        ]
    );
    assert!(c.is_wf());
    let half = f.get_glyph_vert_construction('(', 1000, FontStyle::SuperScript).unwrap();
    assert_eq!((half.min_overlap, half.parts[1].size, half.parts[1].glyph.size), (10, 150, 500));
    assert_eq!(f.get_glyph_vert_construction('?', 1000, FontStyle::Text), None);
    assert_eq!(f.get_glyph_hor_construction('(', 1000, FontStyle::Text), None);
}

#[test]
fn parameters_of_the_font() {
    let f = font();
    assert_eq!(f.calculate_general_params(1000, FontStyle::Text, false), GeneralParams { axis_height: 250 });
    assert_eq!(f.calculate_general_params(1000, FontStyle::SuperScript, true), GeneralParams { axis_height: 125 });
    let s = f.calculate_script_params(1000, FontStyle::Text, false);
    assert_eq!((s.subscript.shift_down, s.subscript.top_max, s.subscript.baseline_drop_min), (210, 350, 50));
    assert_eq!((s.superscript.shift_up, s.superscript.bottom_min, s.superscript.baseline_drop_max), (360, 110, 220));
    assert_eq!((s.sub_super_gap_min, s.super_bottom_max_with_subscript), (160, 351));
    let cramped = f.calculate_script_params(2000, FontStyle::Text, true);
    assert_eq!(cramped.superscript.shift_up, 580);
    assert_eq!(cramped.subscript.shift_down, 420);
    let text = f.calculate_fraction_params(1000, FontStyle::Text, false);
    assert_eq!(text.numerator, FractionPartParams { shift: 390, gap_min: 40 });
    assert_eq!(text.denominator, FractionPartParams { shift: 340, gap_min: 42 });
    assert_eq!(text.rule_thickness, 41);
    let display = f.calculate_fraction_params(1000, FontStyle::Display, false);
    assert_eq!(display.numerator, FractionPartParams { shift: 680, gap_min: 120 });
    assert_eq!(display.denominator, FractionPartParams { shift: 690, gap_min: 121 });
    let script = f.calculate_fraction_params(1000, FontStyle::Script, false);
    assert_eq!(script.numerator, FractionPartParams { shift: 273, gap_min: 28 });
}

#[test]
fn lengths_of_the_font_are_scaled() {
    assert_eq!(scale(500, 1000), 500);
    assert_eq!(scale(500, 36), 18);
    assert_eq!(scale(1, 999), 0);
    assert_eq!(scale(-1, 999), -1);
    assert_eq!(scale(0, i64::MAX), 0);
    assert_eq!(scale(i32::MAX, i64::MAX), i64::MAX);
    assert_eq!(scale(i32::MIN, i64::MAX), i64::MIN);
    assert_eq!(scale(1000, i64::MIN), i64::MIN);
    assert_eq!(scale(999, i64::MAX), 9214148664817921031);
}

#[test]
fn sizes_of_the_styles() {
    let c = ScaleConstants { script_percent_scale_down: 70, script_script_percent_scale_down: 55, axis_height: 0 };
    assert_eq!(size_for_style(&c, 36, FontStyle::Display), 36);
    assert_eq!(size_for_style(&c, 36, FontStyle::Text), 36);
    assert_eq!(size_for_style(&c, 36, FontStyle::Script), 25);
    assert_eq!(size_for_style(&c, 36, FontStyle::SuperScript), 19);
    assert_eq!(size_for_style(&c, i64::MAX, FontStyle::Script), 6456360425798343064);
    let odd = ScaleConstants { script_percent_scale_down: -300, script_script_percent_scale_down: 0, axis_height: 0 };
    assert_eq!(size_for_style(&odd, 36, FontStyle::Script), -108);
    assert_eq!(size_for_style(&odd, i64::MAX, FontStyle::Script), i64::MIN);
    assert_eq!(size_for_style(&odd, 36, FontStyle::SuperScript), 0);
}

#[test]
fn parameters_from_constants() {
    let s = ScriptConstants {
        subscript_shift_down: 1,
        subscript_top_max: 2,
        subscript_baseline_drop_min: 3,
        superscript_shift_up: 4,
        superscript_shift_up_cramped: 5,
        superscript_bottom_min: 6,
        superscript_baseline_drop_max: 7,
        sub_superscript_gap_min: 8,
        superscript_bottom_max_with_subscript: -9,
    };
    let p = script_params_at(&s, 3000, false);
    assert_eq!((p.subscript.shift_down, p.subscript.top_max, p.subscript.baseline_drop_min), (3, 6, 9));
    assert_eq!((p.superscript.shift_up, p.superscript.bottom_min, p.superscript.baseline_drop_max), (12, 18, 21));
    assert_eq!((p.sub_super_gap_min, p.super_bottom_max_with_subscript), (24, -27));
    assert_eq!(script_params_at(&s, 3000, true).superscript.shift_up, 15);
    let f = FractionConstants {
        numerator_shift_up: 1,
        numerator_display_style_shift_up: 2,
        denominator_shift_down: 3,
        denominator_display_style_shift_down: 4,
        numerator_gap_min: 5,
        num_display_style_gap_min: 6,
        rule_thickness: 7,
        denominator_gap_min: 8,
        denom_display_style_gap_min: 9,
    };
    let text = fraction_params_at(&f, 2000, false);
    assert_eq!((text.numerator.shift, text.numerator.gap_min), (2, 10));
    assert_eq!((text.denominator.shift, text.denominator.gap_min), (6, 16));
    assert_eq!(text.rule_thickness, 14);
    let display = fraction_params_at(&f, 2000, true);
    assert_eq!((display.numerator.shift, display.numerator.gap_min), (4, 12));
    assert_eq!((display.denominator.shift, display.denominator.gap_min), (8, 18));
}

#[test]
fn formula_is_laid_out_with_the_font() {
    let backend = FontBackend::new(font_with(true)).unwrap();
    assert_eq!(backend.get_font(Family::Roman).get_fallback_glyph(1000, FontStyle::Text).id, 1);
    let row = rustmath::parser::parse("(^(").unwrap().translate(&backend, 1000, Style::Text);
    let items = match row {
        Node::HBox { children, .. } => children,
        other => panic!("{:?}", other),
    };
    assert_eq!(items.len(), 2);
    assert_eq!(items[0], (0, Node::Glyph { glyph: glyph(2, 1000, 800, 200, 400, 30), color: Color::Normal }));
    // the superscript rises to where the nucleus is 220 higher than its baseline
    assert_eq!(items[1].0, 580);
    // a letter that the font lacks is the question mark in the colour of errors
    let row = rustmath::parser::parse("a").unwrap().translate(&backend, 1000, Style::Text);
    match row {
        Node::HBox { children, .. } => {
            assert_eq!(children, vec![(0, Node::Glyph { glyph: glyph(1, 1000, 700, 50, 500, 0), color: Color::Error })])
        }
        other => panic!("{:?}", other),
    }
    // a delimiter that has to be 2400 high is assembled of its parts
    let row = rustmath::parser::parse("\\left( \\frac{(}{(} \\right.").unwrap().translate(&backend, 1000, Style::Display);
    assert!(row.height(false) > 1000);
}
