use rustmath::backend::svg::xml::{must_escape, skip_attrs, write_decimal};
use rustmath::backend::svg::{parse_metadata, write_escaped_string};

#[test]
fn test_skip_attrs() {
    let src = "  version=\"1.1\" xy=\"hello world\"  > 12";
    let src = skip_attrs(src);
    assert_eq!(src, "> 12");
}

#[test]
fn test_parse_metadata() {
    let source = "<svg version=\"1.1\" width=\"554.2304pt\" height=\"97.192pt\" viewBox=\"0 0 554.2304 97.192\" xmlns=\"...\">\n  <metadata id=\"source\">rustmath</metadata>\n  <metadata id=\"rustmath_src\">...</metadata>\n";

    let metadata = parse_metadata(source).unwrap();
    assert_eq!(metadata.len(), 2);
    assert_eq!(metadata[0], ("source".to_owned(), "rustmath".to_owned()));
    assert_eq!(metadata[1], ("rustmath_src".to_owned(), "...".to_owned()));
}

#[test]
fn metadata_needs_the_opening_tag() {
    assert_eq!(parse_metadata("<metadata id=\"a\">b</metadata>"), None);
    assert_eq!(parse_metadata("<svg version=\"1.1\""), None);
    assert_eq!(parse_metadata(""), None);
    assert_eq!(parse_metadata("<svg >"), Some(vec![]));
    assert_eq!(parse_metadata("  <svg a=\"1\" > <g/>"), Some(vec![]));
}

#[test]
fn metadata_stops_at_what_is_no_metadata_element() {
    let src = "<svg x=\"1\"><metadata id=\"a\">1</metadata><metadata name=\"b\">2</metadata><metadata id=\"c\">3</metadata>";
    assert_eq!(parse_metadata(src), Some(vec![("a".to_owned(), "1".to_owned())]));
    let open = "<svg x=\"1\"><metadata id=\"a\">1</metadata><metadata id=\"b\">2";
    assert_eq!(parse_metadata(open), Some(vec![("a".to_owned(), "1".to_owned())]));
}

#[test]
fn metadata_text_is_unescaped() {
    let src = "<svg x=\"1\">\n<metadata id=\"k\">a&#60;b&#38;c &#300; &#; &#07;</metadata>";
    let metadata = parse_metadata(src).unwrap();
    assert_eq!(metadata, vec![("k".to_owned(), "a<b&c &#300; &#; \u{7}".to_owned())]);
}

#[test]
fn escaping_writes_references() {
    let mut out = String::from("[");
    write_escaped_string("a<b>&c\td\u{0}\u{7f}\u{85}\u{fdd0}\u{1fffe}é", &mut out);
    assert_eq!(out, "[a&#60;b&#62;&#38;c\td&#0;&#127;\u{85}&#64976;&#131070;é");
}

#[test]
fn escaping_chooses_the_characters() {
    for ch in ['<', '>', '&', '\u{0}', '\u{1a}', '\u{7f}', '\u{9f}', '\u{fdef}', '\u{ffff}', '\u{10fffe}'] {
        assert!(must_escape(ch), "{:?}", ch);
    }
    for ch in ['\t', '\n', '\r', '\u{1b}', ' ', 'a', '\u{85}', '\u{a0}', '\u{fdcf}', '\u{fdf0}', '\u{fffd}'] {
        assert!(!must_escape(ch), "{:?}", ch);
    }
}

#[test]
fn decimal_digits() {
    for (n, text) in [(0u64, "0"), (7, "7"), (10, "10"), (255, "255"), (1114111, "1114111"), (u64::MAX, "18446744073709551615")] {
        let mut out = String::new();
        write_decimal(n, &mut out);
        assert_eq!(out, text);
    }
}

#[test]
fn escaped_text_is_read_back() {
    let text = "x < y & \"z\" > 0";
    let mut image = String::from("<svg a=\"b\">\n  <metadata id=\"rustmath_src\">");
    write_escaped_string(text, &mut image);
    image.push_str("</metadata>\n");
    assert_eq!(parse_metadata(&image), Some(vec![("rustmath_src".to_owned(), text.to_owned())]));
}
