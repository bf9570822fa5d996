use rustmath::backend::svg::svg_core::{write_points, Element, Image};
use rustmath::backend::svg::{draw_image, parse_metadata, SvgRenderer};
use rustmath::common::construction::Construction;
use rustmath::common::font_params::{
    FractionParams, FractionPartParams, GeneralParams, ScriptParams, SubScriptParams,
    SuperScriptParams,
};
use rustmath::common::{Color, Drawn, Family, Font, FontBackend, FontStyle, Glyph, Renderer};
use rustmath::{get_source_from_metadata, render_svg};

struct TestFont;

impl FontBackend for TestFont {
    type Font = TestFont;

    fn get_font(&self, _family: Family) -> &TestFont {
        self
    }
}

fn glyph(ch: char, size: i64) -> Glyph {
    Glyph { id: ch as u32, size, height: 7, depth: 2, advance: 5, italic_correction: 0 }
}

impl Font for TestFont {
    fn get_fallback_glyph(&self, size: i64, _style: FontStyle) -> Glyph {
        glyph('?', size)
    }

    fn get_glyph(&self, ch: char, size: i64, _style: FontStyle) -> Option<Glyph> {
        Some(glyph(ch, size))
    }

    fn get_larger_glyph(&self, _ch: char, _size: i64, _style: FontStyle, _ic: bool) -> Option<Glyph> {
        None
    }

    fn get_glyph_minwidth(&self, _ch: char, _size: i64, _style: FontStyle, _w: i64) -> Option<Glyph> {
        None
    }

    fn get_glyph_minheight(&self, _ch: char, _size: i64, _style: FontStyle, _h: i64) -> Option<Glyph> {
        None
    }

    fn get_glyph_hor_construction(&self, _ch: char, _size: i64, _style: FontStyle) -> Option<Construction> {
        None
    }

    fn get_glyph_vert_construction(&self, _ch: char, _size: i64, _style: FontStyle) -> Option<Construction> {
        None
    }

    fn calculate_script_params(&self, _size: i64, _style: FontStyle, _cramped: bool) -> ScriptParams {
        ScriptParams {
            subscript: SubScriptParams { shift_down: 2, top_max: 4, baseline_drop_min: 0 },
            superscript: SuperScriptParams { shift_up: 8, bottom_min: 1, baseline_drop_max: 100 },
            sub_super_gap_min: 0,
            super_bottom_max_with_subscript: 0,
        }
    }

    fn calculate_general_params(&self, _size: i64, _style: FontStyle, _cramped: bool) -> GeneralParams {
        GeneralParams { axis_height: 3 }
    }

    fn calculate_fraction_params(&self, _size: i64, _style: FontStyle, _cramped: bool) -> FractionParams {
        FractionParams {
            numerator: FractionPartParams { shift: 10, gap_min: 1 },
            denominator: FractionPartParams { shift: 10, gap_min: 1 },
            rule_thickness: 2,
        }
    }
}

fn points(value: i64, unit: i64) -> String {
    let mut out = String::new();
    write_points(value, unit, &mut out);
    out
}

fn line(element: Element, unit: i64) -> String {
    let mut out = String::new();
    element.write(unit, &mut out);
    out
}

#[test]
fn lengths_are_written_in_points() {
    assert_eq!(points(2359296, 65536), "36");
    assert_eq!(points(98304, 65536), "1.5");
    assert_eq!(points(-98304, 65536), "-1.5");
    assert_eq!(points(0, 65536), "0");
    assert_eq!(points(1, 65536), "0");
    assert_eq!(points(7, 65536), "0.0001");
    assert_eq!(points(-7, 65536), "-0.0001");
    assert_eq!(points(65536 * 554 + 15100, 65536), "554.2304");
    assert_eq!(points(65535, 65536), "0.9999");
    assert_eq!(points(5, 1), "5");
    assert_eq!(points(1234, 1000), "1.234");
    assert_eq!(points(1230, 1000), "1.23");
    assert_eq!(points(1200, 1000), "1.2");
    assert_eq!(points(1020, 1000), "1.02");
    assert_eq!(points(1002, 1000), "1.002");
    assert_eq!(points(10, 100000), "0.0001");
    assert_eq!(points(9, 100000), "0");
    assert_eq!(points(i64::MAX, 1), "9223372036854775807");
    assert_eq!(points(i64::MIN, 1), "-9223372036854775808");
    assert_eq!(points(i64::MIN, i64::MAX), "-1");
    assert_eq!(points(i64::MAX - 1, i64::MAX), "0.9999");
}

#[test]
fn elements_are_written_as_lines() {
    assert_eq!(
        line(Element::Rect { x0: 10, y0: -25, width: 1000, height: 5 }, 10),
        "    <rect x=\"1\" y=\"-2.5\" width=\"100\" height=\"0.5\" />\n"
    );
    let path = |x: i64, y: i64, color: Color| Element::Path { x, y, data: " M 0 0z".to_owned(), color };
    assert_eq!(line(path(0, 0, Color::Normal), 10), "    <path d=\" M 0 0z\" />\n");
    assert_eq!(line(path(15, 0, Color::Normal), 10), "    <path transform=\"translate(1.5)\" d=\" M 0 0z\" />\n");
    assert_eq!(
        line(path(15, -20, Color::Error), 10),
        "    <path transform=\"translate(1.5, -2)\" fill=\"red\" d=\" M 0 0z\" />\n"
    );
    assert_eq!(
        line(path(0, 3, Color::Error), 10),
        "    <path transform=\"translate(0, 0.3)\" fill=\"red\" d=\" M 0 0z\" />\n"
    );
}

#[test]
fn image_is_written_with_its_metadata() {
    let mut image = Image::new(5542304, 971920, 10000);
    image.draw_rect(0, 10000, 20000, 5000);
    image.draw_path(100000, 50000, "M 1 2z".to_owned(), Color::Normal);
    assert_eq!(image.elements.len(), 2);
    let metadata = vec![
        ("source".to_owned(), "rustmath".to_owned()),
        ("rustmath_src".to_owned(), "a < b & c".to_owned()),
    ];
    let mut text = String::new();
    image.write(&metadata, &mut text);
    let expected = "<svg version=\"1.1\" width=\"554.2304pt\" height=\"97.192pt\" viewBox=\"0 0 554.2304 97.192\" xmlns=\"http://www.w3.org/2000/svg\">\n  <metadata id=\"source\">rustmath</metadata>\n  <metadata id=\"rustmath_src\">a &#60; b &#38; c</metadata>\n  <g transform=\"translate(0.0,97.192) scale(1.0,-1.0)\">\n    <rect x=\"0\" y=\"1\" width=\"2\" height=\"0.5\" />\n    <path transform=\"translate(10, 5)\" d=\"M 1 2z\" />\n  </g>\n</svg>\n";
    assert_eq!(text, expected);
    // what was written is read back
    assert_eq!(parse_metadata(&text), Some(metadata));
    assert_eq!(get_source_from_metadata(text.as_bytes()), Some("a < b & c".to_owned()));
}

#[test]
fn image_without_metadata_and_elements() {
    let image = Image::new(10, 20, 1);
    let mut text = String::from("<!-- -->");
    image.write(&vec![], &mut text);
    assert_eq!(
        text,
        "<!-- --><svg version=\"1.1\" width=\"10pt\" height=\"20pt\" viewBox=\"0 0 10 20\" xmlns=\"http://www.w3.org/2000/svg\">\n  <g transform=\"translate(0.0,20) scale(1.0,-1.0)\">\n  </g>\n</svg>\n"
    );
    assert_eq!(parse_metadata(&text[8..]), Some(vec![]));
}

#[test]
fn formula_is_rendered_as_a_vector_image() {
    let paths = vec![
        (glyph('\u{1d44e}', 18), "M a".to_owned()),
        (glyph('2', 18), "M 2".to_owned()),
        (glyph('\u{1d44e}', 18), "M other".to_owned()),
    ];
    let text = render_svg(&TestFont, &paths, "a^2 b", true, 18, 10, 5, 1).unwrap();
    // a is 5 wide, the superscript 5 and b 5; b has no path
    let expected = "<svg version=\"1.1\" width=\"35pt\" height=\"27pt\" viewBox=\"0 0 35 27\" xmlns=\"http://www.w3.org/2000/svg\">\n  <metadata id=\"source\">rustmath</metadata>\n  <metadata id=\"rustmath_src\">a^2 b</metadata>\n  <g transform=\"translate(0.0,27) scale(1.0,-1.0)\">\n    <path transform=\"translate(10, 7)\" d=\"M a\" />\n    <path transform=\"translate(15, 15)\" d=\"M 2\" />\n  </g>\n</svg>\n";
    assert_eq!(text, expected);
    assert_eq!(get_source_from_metadata(text.as_bytes()), Some("a^2 b".to_owned()));
    let bare = render_svg(&TestFont, &paths, "a^2 b", false, 18, 10, 5, 1).unwrap();
    assert_eq!(get_source_from_metadata(bare.as_bytes()), None);
    assert!(!bare.contains("metadata"));
    assert_eq!(render_svg(&TestFont, &paths, "a", true, 18, 10, 5, 0), None);
    assert_eq!(render_svg(&TestFont, &paths, "a", true, 18, 10, 5, -1), None);
}

#[test]
fn source_is_read_back_from_the_image() {
    for src in ["x < y & z > 0", "\\frac{a}{b} \"quoted\"", "", "\u{3b1}\t\u{1d6fc}\n\u{7f}\u{0}"] {
        let text = render_svg(&TestFont, &vec![], src, true, 18, 0, 0, 3).unwrap();
        assert_eq!(get_source_from_metadata(text.as_bytes()), Some(src.to_owned()), "{:?}", src);
    }
    // a character that is written as a reference above 255 is not read back
    let text = render_svg(&TestFont, &vec![], "\u{fdd0}", true, 18, 0, 0, 3).unwrap();
    assert_eq!(get_source_from_metadata(text.as_bytes()), Some("&#64976;".to_owned()));
}

#[test]
fn sink_draws_what_it_has_paths_for() {
    let a = glyph('a', 10);
    let b = glyph('b', 10);
    let mut sink = SvgRenderer::new(100, 50, 10, vec![(a, "A".to_owned())]);
    sink.render_glyph(&a, 1, 2, Color::Normal);
    sink.render_glyph(&b, 3, 4, Color::Normal);
    sink.render_box(5, 6, 7, 8);
    sink.render_glyph(&a, 9, 0, Color::Error);
    assert_eq!(sink.items.len(), 4);
    let image = sink.finish();
    assert_eq!((image.width, image.height, image.unit), (100, 50, 10));
    assert_eq!(
        image.elements,
        vec![
            Element::Path { x: 1, y: 2, data: "A".to_owned(), color: Color::Normal },
            Element::Rect { x0: 5, y0: 6, width: 7, height: 8 },
            Element::Path { x: 9, y: 0, data: "A".to_owned(), color: Color::Error },
        ]
    );
    let items = vec![Drawn::Rect { x: 1, y: 1, width: 1, height: 1 }];
    assert_eq!(draw_image(&items, &vec![], 2, 3, 4).elements.len(), 1);
}
