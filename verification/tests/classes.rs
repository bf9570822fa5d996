use rustmath::classes::{
    classification_text, name_of, parse_math_class_txt, write_hex, Data, MathClass, MathListEntry,
    Selector,
};
use rustmath::parser::tables::CharClassification;

fn entry(selector: Selector, math_class: MathClass) -> Option<MathListEntry> {
    Some(MathListEntry { selector, math_class })
}

#[test]
fn selectors_begin_and_end() {
    assert_eq!(Selector::CodePoint('a').start(), 'a');
    assert_eq!(Selector::CodePoint('a').stop(), 'a');
    assert_eq!(Selector::Range('a', 'f').start(), 'a');
    assert_eq!(Selector::Range('a', 'f').stop(), 'f');
}

#[test]
fn letters_of_the_classes() {
    let all = [
        ('N', MathClass::Normal, "Normal", CharClassification::Normal),
        ('A', MathClass::Alphabetic, "Alphabetic", CharClassification::Alphabetic),
        ('B', MathClass::Binary, "Binary", CharClassification::Binary),
        ('C', MathClass::Closing, "Closing", CharClassification::Closing),
        ('D', MathClass::Diacritic, "Diacritic", CharClassification::Diacritic),
        ('F', MathClass::Fence, "Fence", CharClassification::Fence),
        ('G', MathClass::GlyphPart, "GlyphPart", CharClassification::GlyphPart),
        ('L', MathClass::Large, "Large", CharClassification::Large),
        ('O', MathClass::Opening, "Opening", CharClassification::Opening),
        ('P', MathClass::Punct, "Punct", CharClassification::Punct),
        ('R', MathClass::Relation, "Relation", CharClassification::Relation),
        ('S', MathClass::Space, "Space", CharClassification::Space),
        ('U', MathClass::Unary, "Unary", CharClassification::Unary),
        ('V', MathClass::Vary, "Vary", CharClassification::Vary),
        ('X', MathClass::Special, "Special", CharClassification::Special),
    ];
    for (letter, class, name, classification) in all {
        assert_eq!(MathClass::parse(letter), class);
        assert_eq!(MathClass::from_letter(letter), Some(class));
        assert_eq!(class.classify(), name);
        assert_eq!(class.to_classification(), classification);
        assert_eq!(name_of(classification), name);
    }
    assert_eq!(MathClass::Ignore.classify(), "Ignore");
    assert_eq!(MathClass::Ignore.to_classification(), CharClassification::Ignore);
    for letter in ['I', 'n', ';', ' ', 'Z'] {
        assert_eq!(MathClass::from_letter(letter), None);
    }
}

#[test]
fn lines_of_the_list() {
    assert_eq!(MathListEntry::parse("0021;N"), entry(Selector::CodePoint('!'), MathClass::Normal));
    assert_eq!(MathListEntry::parse("0023..0026;N"), entry(Selector::Range('#', '&'), MathClass::Normal));
    assert_eq!(
        MathListEntry::parse("1D400..1d433;A;rest of the line"),
        entry(Selector::Range('\u{1d400}', '\u{1d433}'), MathClass::Alphabetic)
    );
    assert_eq!(MathListEntry::parse("2b;V"), entry(Selector::CodePoint('+'), MathClass::Vary));
    assert_eq!(MathListEntry::parse("10FFFF;X"), entry(Selector::CodePoint('\u{10ffff}'), MathClass::Special));
    assert_eq!(MathListEntry::parse("00000000041;A"), entry(Selector::CodePoint('A'), MathClass::Alphabetic));
    assert_eq!(MathListEntry::parse("0042..0041;A"), entry(Selector::Range('B', 'A'), MathClass::Alphabetic));
}

#[test]
fn lines_that_are_none() {
    for line in ["", ";N", "zz;N", "0021", "0021;", "0021;Q", "0021:N", " 0021;N", "110000;N", "D800;N", "FFFFFFFFF;N", "0041..;A", "0041..D800;A", "0041...0042;A"] {
        assert_eq!(MathListEntry::parse(line), None, "{:?}", line);
    }
}

#[test]
fn rows_of_the_classes() {
    let mut d = Data::new();
    assert_eq!(d.rows(), vec![(0, CharClassification::Ignore)]);
    d.add_range(Selector::CodePoint('!'), MathClass::Normal);
    d.add_range(Selector::Range('#', '&'), MathClass::Normal);
    assert_eq!(
        d.rows(),
        vec![
            (0, CharClassification::Ignore),
            (0x21, CharClassification::Normal),
            (0x22, CharClassification::Ignore),
            (0x23, CharClassification::Normal),
            (0x27, CharClassification::Ignore),
        ]
    );
    // a later line counts before an earlier one, and what touches is one range
    d.add_range(Selector::CodePoint('"'), MathClass::Normal);
    d.add_range(Selector::Range('$', '('), MathClass::Opening);
    assert_eq!(
        d.rows(),
        vec![
            (0, CharClassification::Ignore),
            (0x21, CharClassification::Normal),
            (0x24, CharClassification::Opening),
            (0x29, CharClassification::Ignore),
        ]
    );
    d.add_range(Selector::Range('\u{0}', '\u{10ffff}'), MathClass::Space);
    assert_eq!(d.rows(), vec![(0, CharClassification::Space), (0x110000, CharClassification::Ignore)]);
}

#[test]
fn text_of_the_table() {
    let mut d = Data::new();
    d.add_range(Selector::CodePoint('!'), MathClass::Normal);
    d.add_range(Selector::Range('\u{1d400}', '\u{10ffff}'), MathClass::Alphabetic);
    let expected = "pub const CHAR_CLASSIFICATION: [(u32, CharClassification); 5] = [\n    (0x0000, CharClassification::Ignore),\n    (0x0021, CharClassification::Normal),\n    (0x0022, CharClassification::Ignore),\n    (0x1d400, CharClassification::Alphabetic),\n    (0x110000, CharClassification::Ignore),\n];\n";
    assert_eq!(d.print_classification(), expected);
    assert_eq!(classification_text(&d.rows()), expected);
    assert_eq!(
        classification_text(&vec![]),
        "pub const CHAR_CLASSIFICATION: [(u32, CharClassification); 0] = [\n];\n"
    );
}

#[test]
fn numbers_to_the_base_sixteen() {
    for (n, text) in [(0u32, "0"), (9, "9"), (10, "a"), (15, "f"), (16, "10"), (0x1d400, "1d400"), (u32::MAX, "ffffffff")] {
        let mut out = String::from(">");
        write_hex(n, &mut out);
        assert_eq!(out, format!(">{}", text));
    }
}

#[test]
fn list_is_read_line_by_line() {
    let list = "# a list\n\n0021;N\r\n0023..0026;N\n0028;O\n0029;C\n# the end";
    let mut d = Data::new();
    assert!(parse_math_class_txt(list, &mut d));
    assert_eq!(
        d.rows(),
        vec![
            (0, CharClassification::Ignore),
            (0x21, CharClassification::Normal),
            (0x22, CharClassification::Ignore),
            (0x23, CharClassification::Normal),
            (0x27, CharClassification::Ignore),
            (0x28, CharClassification::Opening),
            (0x29, CharClassification::Closing),
            (0x2a, CharClassification::Ignore),
        ]
    );
    let mut empty = Data::new();
    assert!(parse_math_class_txt("", &mut empty));
    assert!(parse_math_class_txt("\n\n", &mut empty));
    assert_eq!(empty.rows(), vec![(0, CharClassification::Ignore)]);
}

#[test]
fn list_with_a_line_that_cannot_be_read() {
    let mut d = Data::new();
    assert!(!parse_math_class_txt("0021;N\nnonsense\n0028;O\n", &mut d));
    // the lines before it count, the lines after it do not
    assert_eq!(
        d.rows(),
        vec![
            (0, CharClassification::Ignore),
            (0x21, CharClassification::Normal),
            (0x22, CharClassification::Ignore),
        ]
    );
    let mut d = Data::new();
    assert!(!parse_math_class_txt("0042..0041;A", &mut d));
    assert_eq!(d.rows().len(), 1);
    let mut d = Data::new();
    // a carriage return at the end of the last line belongs to the line
    assert!(parse_math_class_txt("0021;N\r", &mut d));
    assert!(!parse_math_class_txt("\r", &mut d));
}
