use rustmath::common::Color;
use rustmath::mathlist::{Atom, AtomType, Delimiter, Field, MathList, Node};
use rustmath::parser::{atom, field, handle_char, make_error_field, parse, parse_list, to_math_char, ListEnd};

fn symbol(atom_type: AtomType, ch: char) -> Atom {
    Atom { atom_type, nucleus: Field::Symbol(Color::Normal, ch), subscript: Field::Empty, superscript: Field::Empty }
}

fn error(ch: char) -> Atom {
    Atom { atom_type: AtomType::Ord, nucleus: Field::Symbol(Color::Error, ch), subscript: Field::Empty, superscript: Field::Empty }
}

fn ord(ch: char) -> Atom {
    symbol(AtomType::Ord, ch)
}

fn list(atoms: Vec<Atom>) -> MathList {
    MathList(atoms.into_iter().map(Node::Atom).collect())
}

fn group(atoms: Vec<Atom>) -> Field {
    Field::MathList(None, list(atoms), None)
}

fn with(atom_type: AtomType, nucleus: Field) -> Atom {
    Atom { atom_type, nucleus, subscript: Field::Empty, superscript: Field::Empty }
}

fn parsed(src: &str) -> MathList {
    parse(src).unwrap()
}

const X: char = '\u{1d465}';
const A: char = '\u{1d44e}';
const B: char = '\u{1d44f}';

#[test]
fn unknown_command_becomes_its_text_and_parsing_goes_on() {
    let expected = list(vec![
        with(AtomType::Ord, group("\\bogus".chars().map(error).collect())),
        ord(X),
    ]);
    assert_eq!(parsed("\\bogus x"), expected);
    assert_eq!(parsed("\\bogus x").0.len(), 2);
}

#[test]
fn characters_become_symbols() {
    assert_eq!(
        parsed("a+b=2"),
        list(vec![ord(A), symbol(AtomType::Bin, '+'), ord(B), symbol(AtomType::Rel, '='), ord('2')])
    );
    assert_eq!(
        parsed("(x,-*)"),
        list(vec![
            symbol(AtomType::Open, '('),
            ord(X),
            symbol(AtomType::Punct, ','),
            symbol(AtomType::Bin, '\u{2212}'),
            symbol(AtomType::Bin, '\u{2217}'),
            symbol(AtomType::Close, ')'),
        ])
    );
}

#[test]
fn letters_become_italic() {
    assert_eq!(to_math_char('A'), '\u{1d434}');
    assert_eq!(to_math_char('Z'), '\u{1d44d}');
    assert_eq!(to_math_char('a'), '\u{1d44e}');
    assert_eq!(to_math_char('g'), '\u{1d454}');
    assert_eq!(to_math_char('h'), '\u{210e}');
    assert_eq!(to_math_char('i'), '\u{1d456}');
    assert_eq!(to_math_char('z'), '\u{1d467}');
    assert_eq!(to_math_char('-'), '\u{2212}');
    assert_eq!(to_math_char('*'), '\u{2217}');
    for ch in ['0', '9', '+', '@', '[', '`', '{', 'é', '\u{1d44e}'] {
        assert_eq!(to_math_char(ch), ch);
    }
    for (i, ch) in ('A'..='Z').enumerate() {
        assert_eq!(to_math_char(ch) as u32, 0x1d434 + i as u32);
    }
    for (i, ch) in ('a'..='z').enumerate() {
        if ch != 'h' {
            assert_eq!(to_math_char(ch) as u32, 0x1d44e + i as u32);
        }
    }
}

#[test]
fn white_space_separates() {
    assert_eq!(parsed("  a \t\n b\u{a0}\u{2003} "), list(vec![ord(A), ord(B)]));
    assert_eq!(parsed(""), list(vec![]));
    assert_eq!(parsed(" \n "), list(vec![]));
}

#[test]
fn scripts_in_any_order() {
    let both = Atom {
        atom_type: AtomType::Ord,
        nucleus: Field::Symbol(Color::Normal, X),
        subscript: Field::Symbol(Color::Normal, '1'),
        superscript: Field::Symbol(Color::Normal, '2'),
    };
    assert_eq!(parsed("x_1^2"), list(vec![Atom { ..parsed_atom("x_1^2") }]));
    for src in ["x_1^2", "x^2_1", "x _1 ^2", "x^ 2_ 1", "x_3^4_1^2"] {
        assert_eq!(parsed(src).0, vec![Node::Atom(Atom {
            atom_type: AtomType::Ord,
            nucleus: Field::Symbol(Color::Normal, X),
            subscript: Field::Symbol(Color::Normal, '1'),
            superscript: Field::Symbol(Color::Normal, '2'),
        })]);
    }
    assert_eq!(both.atom_type, AtomType::Ord);
}

fn parsed_atom(src: &str) -> Atom {
    match parsed(src).0.into_iter().next().unwrap() {
        Node::Atom(atom) => atom,
    }
}

#[test]
fn later_script_of_a_kind_counts() {
    let a = parsed_atom("x_1_2");
    assert_eq!(a.subscript, Field::Symbol(Color::Normal, '2'));
    assert_eq!(a.superscript, Field::Empty);
}

#[test]
fn script_without_a_field_is_a_character() {
    assert_eq!(parsed("x^"), list(vec![ord(X), ord('^')]));
    assert_eq!(parsed("x_"), list(vec![ord(X), ord('_')]));
    assert_eq!(parsed("{x^}"), list(vec![with(AtomType::Ord, group(vec![ord(X), ord('^')]))]));
    // a script alone has an empty nucleus
    let a = parsed_atom("^2");
    assert_eq!(a.nucleus, Field::Symbol(Color::Normal, '^'));
    assert_eq!(parsed("^2").0.len(), 2);
}

#[test]
fn groups_are_lists() {
    assert_eq!(parsed("{a b}"), list(vec![with(AtomType::Ord, group(vec![ord(A), ord(B)]))]));
    assert_eq!(parsed("{}"), list(vec![with(AtomType::Ord, group(vec![]))]));
    assert_eq!(parsed("{ }"), list(vec![with(AtomType::Ord, group(vec![]))]));
    assert_eq!(
        parsed("{a{b}}"),
        list(vec![with(AtomType::Ord, group(vec![ord(A), with(AtomType::Ord, group(vec![ord(B)]))]))])
    );
    let a = parsed_atom("x^{a b}");
    assert_eq!(a.superscript, group(vec![ord(A), ord(B)]));
}

#[test]
fn stray_braces_are_errors_and_parsing_goes_on() {
    assert_eq!(parsed("a}b"), list(vec![ord(A), error('}'), ord(B)]));
    assert_eq!(parsed("}"), list(vec![error('}')]));
    assert_eq!(parsed("{a"), list(vec![error('{'), ord(A)]));
    assert_eq!(parsed("{"), list(vec![error('{')]));
    assert_eq!(parsed("{{a}"), list(vec![error('{'), with(AtomType::Ord, group(vec![ord(A)]))]));
}

#[test]
fn commands_are_read_as_their_characters() {
    assert_eq!(parsed("\\alpha"), list(vec![ord('\u{1d6fc}')]));
    assert_eq!(parsed("\\sum x"), list(vec![symbol(AtomType::Op, '\u{2211}'), ord(X)]));
    assert_eq!(parsed("\\leq\\infty"), list(vec![symbol(AtomType::Rel, '\u{2264}'), ord('\u{221e}')]));
    assert_eq!(parsed("\\sum_a"), list(vec![Atom {
        atom_type: AtomType::Op,
        nucleus: Field::Symbol(Color::Normal, '\u{2211}'),
        subscript: Field::Symbol(Color::Normal, A),
        superscript: Field::Empty,
    }]));
    // in the place of a script too
    let a = parsed_atom("x^\\alpha");
    assert_eq!(a.superscript, Field::Symbol(Color::Normal, '\u{1d6fc}'));
    // a command ends with its letters
    assert_eq!(parsed("\\alpha2"), list(vec![ord('\u{1d6fc}'), ord('2')]));
}

#[test]
fn commands_of_one_character() {
    assert_eq!(parsed("\\{"), list(vec![symbol(AtomType::Open, '{')]));
    assert_eq!(parsed("\\}"), list(vec![symbol(AtomType::Close, '}')]));
    assert_eq!(parsed("\\\\"), list(vec![symbol(AtomType::Bin, '\\')]));
    assert_eq!(parsed("\\%\\$\\_\\^"), list(vec![ord('%'), ord('$'), ord('_'), ord('^')]));
    // a space makes no atom and is shown as an error
    assert_eq!(parsed("\\ "), list(vec![with(AtomType::Ord, Field::Fallback(Color::Error))]));
    // another character is no command
    assert_eq!(parsed("\\!"), list(vec![with(AtomType::Ord, group(vec![error('\\'), error('!')]))]));
    // nothing behind the backslash
    assert_eq!(parsed("\\"), list(vec![symbol(AtomType::Bin, '\\')]));
}

#[test]
fn fractions() {
    let half = Field::Fraction(Box::new(group(vec![ord('1')])), Box::new(group(vec![ord('2')])));
    assert_eq!(parsed("\\frac{1}{2}"), list(vec![with(AtomType::Inner, half)]));
    let bare = Field::Fraction(
        Box::new(Field::Symbol(Color::Normal, '1')),
        Box::new(Field::Symbol(Color::Normal, '2')),
    );
    assert_eq!(parsed("\\frac12"), list(vec![with(AtomType::Inner, bare)]));
    assert_eq!(parsed("\\frac 1 2").0.len(), 1);
    let a = parsed_atom("\\frac{1}{2}^2");
    assert_eq!(a.superscript, Field::Symbol(Color::Normal, '2'));
}

#[test]
fn command_that_lacks_an_argument_is_read_as_characters() {
    let letters = |s: &str| s.chars().map(|c| ord(to_math_char(c))).collect::<Vec<Atom>>();
    let mut expected = vec![symbol(AtomType::Bin, '\\')];
    expected.extend(letters("frac"));
    expected.push(ord('1'));
    assert_eq!(parsed("\\frac1"), list(expected));
    let mut expected = vec![symbol(AtomType::Bin, '\\')];
    expected.extend(letters("mathop"));
    assert_eq!(parsed("\\mathop"), list(expected));
    // in the place of a script a command reads no argument
    let a = parsed_atom("x^\\frac12");
    assert_eq!(a.superscript, Field::Symbol(Color::Normal, '\\'));
    assert_eq!(parsed("x^\\frac12").0.len(), 7);
}

#[test]
fn operators_by_command() {
    let lim = group(vec![ord('\u{1d459}'), ord('\u{1d456}'), ord('\u{1d45a}')]);
    assert_eq!(parsed("\\mathop{lim}"), list(vec![with(AtomType::Op, lim)]));
    assert_eq!(parsed("\\mathop x"), list(vec![symbol(AtomType::Op, X)]));
    assert_eq!(parsed("\\mathop+"), list(vec![symbol(AtomType::Op, '+')]));
}

#[test]
fn delimited_lists() {
    let paren = |ch: char| Some(Delimiter { ch, color: Color::Normal });
    assert_eq!(
        parsed("\\left( x \\right)"),
        list(vec![with(AtomType::Inner, Field::MathList(paren('('), list(vec![ord(X)]), paren(')')))])
    );
    assert_eq!(
        parsed("\\left.x\\right|"),
        list(vec![with(AtomType::Inner, Field::MathList(None, list(vec![ord(X)]), paren('|')))])
    );
    assert_eq!(
        parsed("\\left\\{ \\right\\rangle"),
        list(vec![with(AtomType::Inner, Field::MathList(paren('{'), list(vec![]), paren('\u{27e9}')))])
    );
    assert_eq!(
        parsed("\\left{}x\\right{}"),
        list(vec![with(AtomType::Inner, Field::MathList(None, list(vec![ord(X)]), None))])
    );
    // a command that begins like the end of the list
    assert_eq!(
        parsed("\\left(\\rightarrow\\right)"),
        list(vec![with(
            AtomType::Inner,
            Field::MathList(paren('('), list(vec![symbol(AtomType::Rel, '\u{2192}')]), paren(')'))
        )])
    );
    // one inside the other
    let inner = with(AtomType::Inner, Field::MathList(paren('['), list(vec![ord(X)]), paren(']')));
    assert_eq!(
        parsed("\\left(\\left[x\\right]\\right)"),
        list(vec![with(AtomType::Inner, Field::MathList(paren('('), list(vec![inner]), paren(')')))])
    );
}

#[test]
fn delimited_list_that_is_not_closed_is_read_as_characters() {
    let first = parsed_atom("\\left( x");
    assert_eq!(first, symbol(AtomType::Bin, '\\'));
    assert_eq!(parsed("\\left( x").0.len(), 7);
    // what is no delimiter
    assert_eq!(parsed_atom("\\left{ab} x \\right)"), symbol(AtomType::Bin, '\\'));
    // a command in the place of a delimiter reads no argument
    let odd = parsed_atom("\\left\\frac12 x \\right)");
    assert_eq!(odd.atom_type, AtomType::Inner);
    assert!(matches!(odd.nucleus, Field::MathList(Some(Delimiter { ch: '\\', .. }), _, _)));
    // a brace ends the list before its end, and closes its group
    let items = parsed("{\\left( x } \\right)").0;
    assert_eq!(items.len(), 3);
    match &items[0] {
        Node::Atom(Atom { nucleus: Field::MathList(None, inner, None), .. }) => {
            assert_eq!(inner.0.len(), 7);
            assert_eq!(inner.0[0], Node::Atom(symbol(AtomType::Bin, '\\')));
        }
        other => panic!("{:?}", other),
    }
    assert_eq!(items[1], Node::Atom(with(AtomType::Ord, group("\\right".chars().map(error).collect()))));
    assert_eq!(items[2], Node::Atom(symbol(AtomType::Close, ')')));
}

#[test]
fn characters_without_a_class_are_left_out() {
    assert_eq!(parsed("a\"b"), list(vec![ord(A), ord(B)]));
    assert_eq!(parsed("\u{301}"), list(vec![]));
    assert_eq!(parsed("é'"), list(vec![]));
    // with a script the atom stays
    let a = parsed_atom("\"^2");
    assert_eq!(a.nucleus, Field::Empty);
    assert_eq!(a.superscript, Field::Symbol(Color::Normal, '2'));
    // a part of a glyph makes no atom and is shown as an error
    assert_eq!(parsed("\u{239b}"), list(vec![with(AtomType::Ord, Field::Fallback(Color::Error))]));
}

#[test]
fn single_characters() {
    assert_eq!(handle_char('x'), (AtomType::Ord, Field::Symbol(Color::Normal, X)));
    assert_eq!(handle_char('+'), (AtomType::Bin, Field::Symbol(Color::Normal, '+')));
    assert_eq!(handle_char('"'), (AtomType::Ord, Field::Empty));
    assert_eq!(handle_char(' '), (AtomType::Ord, Field::Fallback(Color::Error)));
}

#[test]
fn error_fields() {
    assert_eq!(make_error_field(&vec![]), Field::Empty);
    assert_eq!(make_error_field(&vec!['{']), Field::Symbol(Color::Error, '{'));
    assert_eq!(make_error_field(&vec!['a', 'b']), group(vec![error('a'), error('b')]));
}

#[test]
fn pieces_of_the_grammar() {
    let src: Vec<char> = " x_1 }y".chars().collect();
    let (first, end) = atom(&src, 0).unwrap();
    assert_eq!(end, 5);
    assert_eq!(first.unwrap().subscript, Field::Symbol(Color::Normal, '1'));
    assert_eq!(atom(&src, 5), None);
    assert_eq!(field(&src, 5, true), None);
    assert_eq!(field(&src, 7, true), None);
    assert_eq!(field(&src, 6, false), Some((AtomType::Ord, Field::Symbol(Color::Normal, '\u{1d466}'), 7)));
    let (items, end) = parse_list(&src, 0, ListEnd::Brace);
    assert_eq!((items.0.len(), end), (1, 5));
    let (items, end) = parse_list(&src, 0, ListEnd::Never);
    assert_eq!((items.0.len(), end), (3, 7));
    let right: Vec<char> = "a \\right b".chars().collect();
    assert_eq!(parse_list(&right, 0, ListEnd::Right).1, 2);
    assert_eq!(parse_list(&right, 0, ListEnd::Brace).1, 10);
}
