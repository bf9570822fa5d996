use rustmath::mathlist::AtomType;
use rustmath::parser::tables::generated::{CHAR_CLASSIFICATION, CHAR_COMMANDS};
use rustmath::parser::tables::{command_to_char, CharClassification};

#[test]
fn classes_of_characters() {
    let cases = [
        ('a', CharClassification::Alphabetic),
        ('2', CharClassification::Normal),
        ('+', CharClassification::Vary),
        ('=', CharClassification::Relation),
        ('(', CharClassification::Opening),
        (')', CharClassification::Closing),
        ('|', CharClassification::Fence),
        (',', CharClassification::Punct),
        ('/', CharClassification::Binary),
        (' ', CharClassification::Space),
        ('\u{301}', CharClassification::Diacritic),
        ('\u{2211}', CharClassification::Large),
        ('\u{239b}', CharClassification::GlyphPart),
        ('\u{1d465}', CharClassification::Alphabetic),
        ('"', CharClassification::Ignore),
    ];
    for (ch, class) in cases {
        assert_eq!(CharClassification::classify(ch), class, "{:?}", ch);
    }
}

#[test]
fn classes_at_the_ends_of_the_rows() {
    assert_eq!(CharClassification::classify('\u{0}'), CharClassification::Ignore);
    assert_eq!(CharClassification::classify('\u{1f}'), CharClassification::Ignore);
    assert_eq!(CharClassification::classify('!'), CharClassification::Normal);
    assert_eq!(CharClassification::classify('#'), CharClassification::Normal);
    assert_eq!(CharClassification::classify('&'), CharClassification::Normal);
    assert_eq!(CharClassification::classify('\''), CharClassification::Ignore);
    assert_eq!(CharClassification::classify('\u{10ffff}'), CharClassification::Ignore);
    let last = CHAR_CLASSIFICATION[CHAR_CLASSIFICATION.len() - 1];
    assert_eq!(CharClassification::classify(char::from_u32(last.0).unwrap()), last.1);
    assert_eq!(
        CharClassification::classify(char::from_u32(last.0 - 1).unwrap()),
        CHAR_CLASSIFICATION[CHAR_CLASSIFICATION.len() - 2].1
    );
}

#[test]
fn every_row_is_found_by_its_first_code_point() {
    let mut before = None;
    for (code, class) in CHAR_CLASSIFICATION {
        if let Some(b) = before {
            assert!(b < code);
        }
        before = Some(code);
        if let Some(ch) = char::from_u32(code) {
            assert_eq!(CharClassification::classify(ch), class);
        }
    }
}

#[test]
fn kinds_of_atoms() {
    let cases = [
        (CharClassification::Normal, Some(AtomType::Ord)),
        (CharClassification::Alphabetic, Some(AtomType::Ord)),
        (CharClassification::Binary, Some(AtomType::Bin)),
        (CharClassification::Closing, Some(AtomType::Close)),
        (CharClassification::Diacritic, Some(AtomType::Ord)),
        (CharClassification::Fence, Some(AtomType::Ord)),
        (CharClassification::GlyphPart, None),
        (CharClassification::Large, Some(AtomType::Op)),
        (CharClassification::Opening, Some(AtomType::Open)),
        (CharClassification::Punct, Some(AtomType::Punct)),
        (CharClassification::Relation, Some(AtomType::Rel)),
        (CharClassification::Space, None),
        (CharClassification::Unary, Some(AtomType::Ord)),
        (CharClassification::Vary, Some(AtomType::Bin)),
        (CharClassification::Special, Some(AtomType::Ord)),
        (CharClassification::Ignore, None),
    ];
    for (class, atom_type) in cases {
        assert_eq!(class.to_atom_type(), atom_type);
    }
}

#[test]
fn commands_for_characters() {
    assert_eq!(command_to_char("alpha"), Some('\u{1d6fc}'));
    assert_eq!(command_to_char("sum"), Some('\u{2211}'));
    assert_eq!(command_to_char("leq"), Some('\u{2264}'));
    assert_eq!(command_to_char("infty"), Some('\u{221e}'));
    assert_eq!(command_to_char("Omega"), Some('\u{3a9}'));
    assert_eq!(command_to_char("bogus"), None);
    assert_eq!(command_to_char("Alpha"), None);
    assert_eq!(command_to_char("su"), None);
    assert_eq!(command_to_char("summ"), None);
    assert_eq!(command_to_char(""), None);
}

#[test]
fn every_command_is_found_and_makes_an_atom() {
    let mut before = "";
    for (name, ch) in CHAR_COMMANDS {
        assert!(before < name);
        before = name;
        assert_eq!(command_to_char(name), Some(ch));
        assert!(CharClassification::classify(ch).to_atom_type().is_some(), "{}", name);
        assert!(name.chars().all(|c| c.is_ascii_alphabetic()));
    }
}
