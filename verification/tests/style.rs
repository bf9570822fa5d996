use rustmath::common::FontStyle;
use rustmath::mathlist::{AtomType, Style};

const ALL: [Style; 8] = [
    Style::SuperScriptCramped,
    Style::SuperScript,
    Style::ScriptCramped,
    Style::Script,
    Style::TextCramped,
    Style::Text,
    Style::DisplayCramped,
    Style::Display,
];

#[test]
fn styles_are_ordered_by_size() {
    for (i, a) in ALL.iter().enumerate() {
        assert_eq!(a.index() as usize, i);
        for (j, b) in ALL.iter().enumerate() {
            assert_eq!(a < b, i < j);
            assert_eq!(a <= b, i <= j);
            assert_eq!(a == b, i == j);
            assert_eq!(a.cmp(b), i.cmp(&j));
            assert_eq!(a.partial_cmp(b), Some(i.cmp(&j)));
        }
    }
}

#[test]
fn cramped_styles() {
    let expected = [0, 0, 2, 2, 4, 4, 6, 6];
    for (s, e) in ALL.iter().zip(expected) {
        assert_eq!(s.to_cramped(), ALL[e]);
        assert_eq!(s.to_cramped().to_cramped(), s.to_cramped());
        assert!(s.to_cramped().is_cramped());
    }
    let cramped = [true, false, true, false, true, false, true, false];
    for (s, e) in ALL.iter().zip(cramped) {
        assert_eq!(s.is_cramped(), e);
    }
}

#[test]
fn styles_of_scripts() {
    let sub = [0, 0, 0, 0, 2, 2, 2, 2];
    let sup = [0, 1, 0, 1, 2, 3, 2, 3];
    for (i, s) in ALL.iter().enumerate() {
        assert_eq!(s.to_subscript(), ALL[sub[i]]);
        assert_eq!(s.to_superscript(), ALL[sup[i]]);
    }
}

#[test]
fn styles_of_fractions() {
    let num = [0, 1, 0, 1, 2, 3, 4, 5];
    let denom = [0, 0, 0, 0, 2, 2, 4, 4];
    for (i, s) in ALL.iter().enumerate() {
        assert_eq!(s.to_numerator(), ALL[num[i]]);
        assert_eq!(s.to_denominator(), ALL[denom[i]]);
    }
}

#[test]
fn font_styles() {
    let expected = [
        FontStyle::SuperScript,
        FontStyle::SuperScript,
        FontStyle::Script,
        FontStyle::Script,
        FontStyle::Text,
        FontStyle::Text,
        FontStyle::Display,
        FontStyle::Display,
    ];
    for (s, e) in ALL.iter().zip(expected) {
        assert_eq!(FontStyle::from(*s), e);
        let converted: FontStyle = (*s).into();
        assert_eq!(converted, e);
    }
}

#[test]
fn atoms_before_a_binary_operator() {
    for t in [AtomType::Bin, AtomType::Rel, AtomType::Open, AtomType::Punct] {
        assert!(!t.might_precede_bin());
    }
    for t in [AtomType::Acc, AtomType::Close, AtomType::Inner, AtomType::Op, AtomType::Ord] {
        assert!(t.might_precede_bin());
    }
}
