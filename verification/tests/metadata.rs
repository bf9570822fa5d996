use rustmath::{
    get_source_from_metadata, get_source_from_png_metadata, get_source_from_svg_metadata,
    source_from_chunks, source_from_pairs,
};

fn pair(key: &str, value: &str) -> (String, String) {
    (key.to_owned(), value.to_owned())
}

fn chunk(key: &str, value: Option<&str>) -> (String, Option<String>) {
    (key.to_owned(), value.map(|v| v.to_owned()))
}

fn png_with(chunks: &[(&str, &str)]) -> Vec<u8> {
    let mut data = Vec::new();
    {
        let mut encoder = png::Encoder::new(&mut data, 1, 1);
        encoder.set_color(png::ColorType::Rgba);
        encoder.set_depth(png::BitDepth::Eight);
        for (key, value) in chunks {
            encoder.add_itxt_chunk((*key).to_owned(), (*value).to_owned()).unwrap();
        }
        let mut writer = encoder.write_header().unwrap();
        writer.write_image_data(&[0, 0, 0, 255]).unwrap();
    }
    data
}

#[test]
fn source_is_read_from_a_png_image() {
    let image = png_with(&[("source", "rustmath"), ("rustmath_src", "x^2 + \u{3b1}")]);
    assert!(image.starts_with(b"\x89PNG"));
    assert_eq!(get_source_from_metadata(&image), Some("x^2 + \u{3b1}".to_owned()));
    assert_eq!(get_source_from_png_metadata(&image), Some("x^2 + \u{3b1}".to_owned()));
    assert_eq!(get_source_from_svg_metadata(&image), None);
}

#[test]
fn png_image_of_another_program_holds_no_source() {
    let other = png_with(&[("source", "another"), ("rustmath_src", "x^2")]);
    assert_eq!(get_source_from_metadata(&other), None);
    let unnamed = png_with(&[("rustmath_src", "x^2")]);
    assert_eq!(get_source_from_metadata(&unnamed), None);
    let without_text = png_with(&[("source", "rustmath")]);
    assert_eq!(get_source_from_metadata(&without_text), None);
    let plain = png_with(&[]);
    assert_eq!(get_source_from_metadata(&plain), None);
}

#[test]
fn what_is_no_image_holds_no_source() {
    assert_eq!(get_source_from_metadata(b""), None);
    assert_eq!(get_source_from_metadata(b"\x89PNG"), None);
    assert_eq!(get_source_from_metadata(b"\x89PNG\r\n\x1a\nnothing more"), None);
    assert_eq!(get_source_from_metadata(b"hello"), None);
    assert_eq!(get_source_from_metadata(&[0xff, 0xfe, 0x00]), None);
    let mut cut = png_with(&[("source", "rustmath"), ("rustmath_src", "x")]);
    cut.truncate(20);
    assert_eq!(get_source_from_metadata(&cut), None);
}

#[test]
fn source_is_read_from_a_vector_image() {
    let image = "<svg version=\"1.1\" width=\"10pt\" height=\"10pt\">\n  <metadata id=\"source\">rustmath</metadata>\n  <metadata id=\"rustmath_src\">a &#60; b</metadata>\n  <g/>\n</svg>\n";
    assert_eq!(get_source_from_metadata(image.as_bytes()), Some("a < b".to_owned()));
    assert_eq!(get_source_from_svg_metadata(image.as_bytes()), Some("a < b".to_owned()));
    assert_eq!(get_source_from_png_metadata(image.as_bytes()), None);
    let other = image.replace(">rustmath<", ">other<");
    assert_eq!(get_source_from_metadata(other.as_bytes()), None);
    let mut broken = image.as_bytes().to_vec();
    broken.push(0xff);
    assert_eq!(get_source_from_metadata(&broken), None);
}

#[test]
fn last_entry_of_a_key_counts() {
    let pairs = vec![
        pair("source", "other"),
        pair("rustmath_src", "first"),
        pair("title", "x"),
        pair("source", "rustmath"),
        pair("rustmath_src", "second"),
    ];
    assert_eq!(source_from_pairs(&pairs), Some("second".to_owned()));
    let ends_with_other = vec![pair("source", "rustmath"), pair("rustmath_src", "a"), pair("source", "other")];
    assert_eq!(source_from_pairs(&ends_with_other), None);
    assert_eq!(source_from_pairs(&vec![]), None);
    assert_eq!(source_from_pairs(&vec![pair("source", "rustmath")]), None);
    assert_eq!(source_from_pairs(&vec![pair("Source", "rustmath"), pair("rustmath_src", "a")]), None);
}

#[test]
fn chunk_that_cannot_be_read_hides_the_source() {
    let good = vec![chunk("source", Some("rustmath")), chunk("other", None), chunk("rustmath_src", Some("x"))];
    assert_eq!(source_from_chunks(&good), Some("x".to_owned()));
    let bad_text = vec![chunk("source", Some("rustmath")), chunk("rustmath_src", Some("x")), chunk("rustmath_src", None)];
    assert_eq!(source_from_chunks(&bad_text), None);
    let bad_name = vec![chunk("source", None), chunk("source", Some("rustmath")), chunk("rustmath_src", Some("x"))];
    assert_eq!(source_from_chunks(&bad_name), None);
    assert_eq!(source_from_chunks(&vec![]), None);
}
