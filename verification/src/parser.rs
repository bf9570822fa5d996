//! The parser of the notation: from a source text to a math list.
//!
//! A list is a sequence of atoms. An atom is a field, followed by any number
//! of scripts: `_` and a field for a subscript, `^` and a field for a
//! superscript, the last of each kind counting. A field is a list in braces,
//! a command, or a single character. White space separates and is never an
//! atom. Nothing makes the parser give up: what it cannot read it turns into
//! a field in the colour of errors and goes on behind it.

use vstd::prelude::*;

use crate::common::Color;
use crate::mathlist::{Atom, AtomType, Builder, Delimiter, Field, MathList};
use crate::parser::tables::{command_to_chars, CharClassification};
use crate::text::{char_at, chars_of, is_alpha, same_chars, skip_letters, skip_whitespace};

pub mod tables;

verus! {

/// Where a list ends, besides at the end of the text.
#[derive(Clone, Copy, Debug, PartialEq, Eq, Structural)]
pub enum ListEnd {
    /// Only at the end of the text; a closing brace is an error and is read
    /// on behind.
    Never,
    /// At a closing brace.
    Brace,
    /// At a closing brace or at the command `\right`.
    Right,
}

/// The character of the mathematical alphabets that a character of the text
/// stands for: the italic letter for a letter, the minus sign for a hyphen,
/// the asterisk operator for an asterisk, and else the character itself.
pub open spec fn math_char(ch: char) -> char {
    if ch == '-' {
        '\u{2212}'
    } else if ch == '*' {
        '\u{2217}'
    } else if ch == 'h' {
        '\u{210e}'
    } else if 'A' <= ch && ch <= 'Z' {
        ((ch as u32 - 0x41) + 0x1d434) as char
    } else if 'a' <= ch && ch <= 'z' {
        ((ch as u32 - 0x61) + 0x1d44e) as char
    } else {
        ch
    }
}

/// Whether a character of this class is left out of the list without a
/// trace: a diacritic, and a character that has no class.
pub open spec fn is_ignored(class: CharClassification) -> bool {
    class is Diacritic || class is Ignore
}

/// What a character of the text becomes: the kind of its atom and its field.
/// A character that is left out becomes the empty field; one whose class
/// makes no atom becomes the fallback field in the colour of errors.
pub open spec fn char_field(ch: char) -> (AtomType, crate::mathlist::FieldView) {
    let ch = math_char(ch);
    let class = crate::parser::tables::class_of(ch);
    if is_ignored(class) {
        (AtomType::Ord, crate::mathlist::FieldView::Empty)
    } else {
        match crate::parser::tables::atom_type_of(class) {
            Some(atom_type) => (atom_type, crate::mathlist::FieldView::Symbol(Color::Normal, ch)),
            None => (AtomType::Ord, crate::mathlist::FieldView::Fallback(Color::Error)),
        }
    }
}

/// An ordinary atom without scripts that holds a symbol in the colour of
/// errors.
pub open spec fn error_atom(ch: char) -> crate::mathlist::AtomView {
    crate::mathlist::AtomView {
        atom_type: AtomType::Ord,
        nucleus: crate::mathlist::FieldView::Symbol(Color::Error, ch),
        subscript: crate::mathlist::FieldView::Empty,
        superscript: crate::mathlist::FieldView::Empty,
    }
}

/// The field that shows a piece of the text that could not be read: its
/// characters as symbols in the colour of errors; a single symbol for a
/// single character, and the empty field for no character.
pub open spec fn error_field(text: Seq<char>) -> crate::mathlist::FieldView {
    if text.len() == 0 {
        crate::mathlist::FieldView::Empty
    } else if text.len() == 1 {
        crate::mathlist::FieldView::Symbol(Color::Error, text[0])
    } else {
        crate::mathlist::FieldView::MathList(
            None,
            Seq::new(text.len(), |i: int| error_atom(text[i])),
            None,
        )
    }
}

/// Whether the command `\right` stands at `pos`: the name, and no letter
/// behind it.
pub open spec fn at_right(src: Seq<char>, pos: int) -> bool {
    &&& 0 <= pos
    &&& pos + 6 <= src.len()
    &&& src.subrange(pos, pos + 6) == seq!['\\', 'r', 'i', 'g', 'h', 't']
    &&& (pos + 6 == src.len() || !crate::text::is_letter(src[pos + 6]))
}

/// The name of the command whose backslash stands at `pos`, and the place
/// behind it: the letters behind the backslash, or the one character behind
/// it where that is no letter.
pub open spec fn command_name(src: Seq<char>, pos: int) -> (Seq<char>, int) {
    let end = crate::text::letters_end(src, pos + 1);
    if end > pos + 1 {
        (src.subrange(pos + 1, end), end)
    } else {
        (seq![src[pos + 1]], pos + 2)
    }
}

/// Whether a name of one character is that of a command that stands for the
/// character itself.
pub open spec fn is_escape(name: Seq<char>) -> bool {
    name.len() == 1 && (name[0] == '\\' || name[0] == ' ' || name[0] == '%' || name[0] == '$'
        || name[0] == '_' || name[0] == '^' || name[0] == '{' || name[0] == '}')
}

/// The delimiter that a field in the place of a delimiter gives: none for an
/// empty field, an empty list or a full stop, the symbol for another symbol.
/// Anything else is no delimiter, and the result is `None`.
pub open spec fn delimiter_of(field: crate::mathlist::FieldView) -> Option<Option<Delimiter>> {
    match field {
        crate::mathlist::FieldView::Empty => Some(None),
        crate::mathlist::FieldView::Symbol(color, ch) => if ch == '.' {
            Some(None)
        } else {
            Some(Some(Delimiter { ch, color }))
        },
        crate::mathlist::FieldView::MathList(None, list, None) => if list.len() == 0 {
            Some(None)
        } else {
            None
        },
        _ => None,
    }
}

/// The atom of a nucleus and its scripts; none where all three are empty.
pub open spec fn atom_of(
    atom_type: AtomType,
    nucleus: crate::mathlist::FieldView,
    subscript: crate::mathlist::FieldView,
    superscript: crate::mathlist::FieldView,
) -> Option<crate::mathlist::AtomView> {
    if nucleus is Empty && subscript is Empty && superscript is Empty {
        None
    } else {
        Some(crate::mathlist::AtomView { atom_type, nucleus, subscript, superscript })
    }
}

/// The value of an atom that may have been left out.
pub open spec fn found_view(found: Option<Atom>) -> Option<crate::mathlist::AtomView> {
    match found {
        Some(atom) => Some(atom@),
        None => None,
    }
}

/// A list with an item in front, where there is one.
pub open spec fn with_front(
    first: Option<crate::mathlist::AtomView>,
    rest: Seq<crate::mathlist::AtomView>,
) -> Seq<crate::mathlist::AtomView> {
    match first {
        Some(atom) => seq![atom] + rest,
        None => rest,
    }
}

/// The list that begins at `pos`, and the place where it ends.
pub open spec fn list_at(src: Seq<char>, pos: int, end: ListEnd) -> (
    Seq<crate::mathlist::AtomView>,
    int,
)
    decreases src.len() - pos, 5nat,
{
    let p = crate::text::skip_spaces(src, pos);
    if !(0 <= pos <= p < src.len()) {
        (Seq::empty(), p)
    } else if src[p] == '}' {
        if end is Never {
            let (rest, e) = list_at(src, p + 1, end);
            (seq![error_atom('}')] + rest, e)
        } else {
            (Seq::empty(), p)
        }
    } else if end is Right && at_right(src, p) {
        (Seq::empty(), p)
    } else {
        match atom_at(src, p) {
            Some((atom, q)) => if p < q <= src.len() {
                let (rest, e) = list_at(src, q, end);
                (with_front(atom, rest), e)
            } else {
                (Seq::empty(), p)
            },
            None => (Seq::empty(), p),
        }
    }
}

/// The atom that begins at `pos`, and the place behind it: a field and its
/// scripts. `None` where no field begins at `pos`.
pub open spec fn atom_at(src: Seq<char>, pos: int) -> Option<
    (Option<crate::mathlist::AtomView>, int),
>
    decreases src.len() - pos, 4nat,
{
    match field_at(src, pos, true) {
        Some((atom_type, nucleus, q)) => if pos < q <= src.len() {
            let (subscript, superscript, e) = scripts_at(
                src,
                q,
                crate::mathlist::FieldView::Empty,
                crate::mathlist::FieldView::Empty,
            );
            Some((atom_of(atom_type, nucleus, subscript, superscript), e))
        } else {
            None
        },
        None => None,
    }
}

/// The scripts that begin at `pos`, after the ones read already, and the
/// place behind them.
pub open spec fn scripts_at(
    src: Seq<char>,
    pos: int,
    subscript: crate::mathlist::FieldView,
    superscript: crate::mathlist::FieldView,
) -> (crate::mathlist::FieldView, crate::mathlist::FieldView, int)
    decreases src.len() - pos, 4nat,
{
    let p = crate::text::skip_spaces(src, pos);
    if !(0 <= pos <= p < src.len()) {
        (subscript, superscript, p)
    } else if src[p] == '_' || src[p] == '^' {
        match field_at(src, p + 1, false) {
            Some((_, field, q)) => if p < q <= src.len() {
                if src[p] == '_' {
                    scripts_at(src, q, field, superscript)
                } else {
                    scripts_at(src, q, subscript, field)
                }
            } else {
                (subscript, superscript, p)
            },
            None => (subscript, superscript, p),
        }
    } else {
        (subscript, superscript, p)
    }
}

/// The field that begins at `pos`, with the kind of atom that it makes and
/// the place behind it. `None` at the end of the text and at a closing brace.
///
/// A command reads its arguments only where `with_args` holds, which it does
/// not in the place of a script.
pub open spec fn field_at(src: Seq<char>, pos: int, with_args: bool) -> Option<
    (AtomType, crate::mathlist::FieldView, int),
>
    decreases src.len() - pos, 3nat,
{
    let p = crate::text::skip_spaces(src, pos);
    if !(0 <= pos <= p < src.len()) {
        None
    } else if src[p] == '}' {
        None
    } else if src[p] == '{' {
        let (list, q) = list_at(src, p + 1, ListEnd::Brace);
        if p < q < src.len() && src[q] == '}' {
            Some((AtomType::Ord, crate::mathlist::FieldView::MathList(None, list, None), q + 1))
        } else {
            Some((AtomType::Ord, error_field(seq!['{']), p + 1))
        }
    } else if src[p] == '\\' {
        match command_at(src, p, with_args) {
            Some(found) => Some(found),
            None => Some((char_field('\\').0, char_field('\\').1, p + 1)),
        }
    } else {
        Some((char_field(src[p]).0, char_field(src[p]).1, p + 1))
    }
}

/// What a command that takes no argument stands for: the character that the
/// table of commands gives its name, or the character behind the backslash
/// where the command stands for that. `None` for any other name.
pub open spec fn simple_command(name: Seq<char>) -> Option<(AtomType, crate::mathlist::FieldView)> {
    if crate::parser::tables::command_char(name) is Some {
        Some(char_field(crate::parser::tables::command_char(name)->0))
    } else if is_escape(name) {
        Some(char_field(name[0]))
    } else {
        None
    }
}

/// Whether a name is that of a command that takes arguments: `mathop`, `left`
/// or `frac`.
pub open spec fn takes_arguments(name: Seq<char>) -> bool {
    name == seq!['m', 'a', 't', 'h', 'o', 'p'] || name == seq!['l', 'e', 'f', 't'] || name
        == seq!['f', 'r', 'a', 'c']
}

/// The field of the command whose backslash stands at `pos`. `None` where
/// nothing follows the backslash, and where the command lacks an argument or
/// has one that it cannot take. A command that is not known becomes its own
/// text in the colour of errors.
pub open spec fn command_at(src: Seq<char>, pos: int, with_args: bool) -> Option<
    (AtomType, crate::mathlist::FieldView, int),
>
    decreases src.len() - pos, 2nat,
{
    if !(0 <= pos && pos + 1 < src.len()) {
        None
    } else {
        let (name, after) = command_name(src, pos);
        if !(pos < after <= src.len()) {
            None
        } else if simple_command(name) is Some {
            let found = simple_command(name)->0;
            Some((found.0, found.1, after))
        } else if takes_arguments(name) {
            if with_args {
                arguments_at(src, name, after)
            } else {
                None
            }
        } else {
            Some((AtomType::Ord, error_field(seq!['\\'] + name), after))
        }
    }
}

/// The field of a command that takes arguments, whose arguments begin at
/// `pos`.
pub open spec fn arguments_at(src: Seq<char>, name: Seq<char>, pos: int) -> Option<
    (AtomType, crate::mathlist::FieldView, int),
>
    decreases src.len() - pos, 5nat,
{
    if name == seq!['m', 'a', 't', 'h', 'o', 'p'] {
        match field_at(src, pos, false) {
            Some((_, field, q)) => Some((AtomType::Op, field, q)),
            None => None,
        }
    } else if name == seq!['l', 'e', 'f', 't'] {
        left_at(src, pos)
    } else {
        frac_at(src, pos)
    }
}

/// What follows the command `\frac`: the numerator and the denominator.
pub open spec fn frac_at(src: Seq<char>, pos: int) -> Option<
    (AtomType, crate::mathlist::FieldView, int),
>
    decreases src.len() - pos, 4nat,
{
    match field_at(src, pos, false) {
        Some((_, num, q)) => if pos < q <= src.len() {
            match field_at(src, q, false) {
                Some((_, denom, e)) => Some(
                    (
                        AtomType::Inner,
                        crate::mathlist::FieldView::Fraction(Box::new(num), Box::new(denom)),
                        e,
                    ),
                ),
                None => None,
            }
        } else {
            None
        },
        None => None,
    }
}

/// What follows the command `\left`: a delimiter, a list up to the command
/// `\right`, and a delimiter.
pub open spec fn left_at(src: Seq<char>, pos: int) -> Option<
    (AtomType, crate::mathlist::FieldView, int),
>
    decreases src.len() - pos, 4nat,
{
    match field_at(src, pos, false) {
        Some((_, first, q)) => match delimiter_of(first) {
            Some(left) => if pos < q <= src.len() {
                let (list, r) = list_at(src, q, ListEnd::Right);
                if q <= r <= src.len() && at_right(src, r) {
                    match field_at(src, r + 6, false) {
                        Some((_, second, e)) => match delimiter_of(second) {
                            Some(right) => Some(
                                (
                                    AtomType::Inner,
                                    crate::mathlist::FieldView::MathList(left, list, right),
                                    e,
                                ),
                            ),
                            None => None,
                        },
                        None => None,
                    }
                } else {
                    None
                }
            } else {
                None
            },
            None => None,
        },
        None => None,
    }
}

/// The math list that a text is read as.
pub open spec fn parsed(src: Seq<char>) -> Seq<crate::mathlist::AtomView> {
    list_at(src, 0, ListEnd::Never).0
}

/// White space is skipped towards the end of the text, and what follows it
/// is no white space.
pub proof fn lemma_skip_spaces(src: Seq<char>, pos: int)
    requires
        0 <= pos <= src.len(),
    ensures
        pos <= crate::text::skip_spaces(src, pos) <= src.len(),
        crate::text::skip_spaces(src, pos) < src.len() ==> !crate::text::is_space(
            src[crate::text::skip_spaces(src, pos)],
        ),
        pos < src.len() && !crate::text::is_space(src[pos]) ==> crate::text::skip_spaces(src, pos)
            == pos,
    decreases src.len() - pos,
{
    if pos < src.len() && crate::text::is_space(src[pos]) {
        lemma_skip_spaces(src, pos + 1);
    }
}

/// A field ends behind where it begins, within the text.
pub proof fn lemma_field_ends(src: Seq<char>, pos: int, with_args: bool)
    requires
        0 <= pos <= src.len(),
    ensures
        field_at(src, pos, with_args) matches Some((_, _, q)) ==> pos < q <= src.len(),
        field_at(src, pos, with_args) is None <==> crate::text::skip_spaces(src, pos) >= src.len()
            || src[crate::text::skip_spaces(src, pos)] == '}',
    decreases src.len() - pos, 3nat,
{
    lemma_skip_spaces(src, pos);
    let p = crate::text::skip_spaces(src, pos);
    if p < src.len() && src[p] == '\\' {
        lemma_command_ends(src, p, with_args);
    }
}

/// A command ends behind its backslash, within the text.
pub proof fn lemma_command_ends(src: Seq<char>, pos: int, with_args: bool)
    requires
        0 <= pos < src.len(),
    ensures
        command_at(src, pos, with_args) matches Some((_, _, q)) ==> pos < q <= src.len(),
    decreases src.len() - pos, 2nat,
{
    if pos + 1 < src.len() {
        let (name, after) = command_name(src, pos);
        if pos < after <= src.len() && simple_command(name) is None && takes_arguments(name)
            && with_args {
            lemma_field_ends(src, after, false);
            if name == seq!['m', 'a', 't', 'h', 'o', 'p'] {
            } else if name == seq!['l', 'e', 'f', 't'] {
                match field_at(src, after, false) {
                    Some((_, first, q)) => {
                        if delimiter_of(first) is Some && after < q <= src.len() {
                            let (list, stop) = list_at(src, q, ListEnd::Right);
                            if q <= stop <= src.len() && at_right(src, stop) {
                                lemma_field_ends(src, stop + 6, false);
                            }
                        }
                    },
                    None => {},
                }
            } else {
                match field_at(src, after, false) {
                    Some((_, num, q)) => {
                        if after < q <= src.len() {
                            lemma_field_ends(src, q, false);
                        }
                    },
                    None => {},
                }
            }
        }
    }
}

/// The scripts of an atom end within the text.
pub proof fn lemma_scripts_end(
    src: Seq<char>,
    pos: int,
    subscript: crate::mathlist::FieldView,
    superscript: crate::mathlist::FieldView,
)
    requires
        0 <= pos <= src.len(),
    ensures
        pos <= scripts_at(src, pos, subscript, superscript).2 <= src.len(),
    decreases src.len() - pos,
{
    lemma_skip_spaces(src, pos);
    let p = crate::text::skip_spaces(src, pos);
    if p < src.len() && (src[p] == '_' || src[p] == '^') {
        lemma_field_ends(src, p + 1, false);
        match field_at(src, p + 1, false) {
            Some((_, field, q)) => {
                if src[p] == '_' {
                    lemma_scripts_end(src, q, field, superscript);
                } else {
                    lemma_scripts_end(src, q, subscript, field);
                }
            },
            None => {},
        }
    }
}

/// An atom is read wherever a character stands that is no closing brace, and
/// it ends behind where it begins, within the text.
pub proof fn lemma_atom_ends(src: Seq<char>, pos: int)
    requires
        0 <= pos <= src.len(),
    ensures
        atom_at(src, pos) matches Some((_, q)) ==> pos < q <= src.len(),
        atom_at(src, pos) is None <==> crate::text::skip_spaces(src, pos) >= src.len()
            || src[crate::text::skip_spaces(src, pos)] == '}',
{
    lemma_field_ends(src, pos, true);
    match field_at(src, pos, true) {
        Some((_, _, q)) => {
            lemma_scripts_end(
                src,
                q,
                crate::mathlist::FieldView::Empty,
                crate::mathlist::FieldView::Empty,
            );
        },
        None => {},
    }
}

/// A list ends within the text: at its end, at a closing brace, or at the
/// command `\right` where the list is one that ends there.
pub proof fn lemma_list_ends(src: Seq<char>, pos: int, end: ListEnd)
    requires
        0 <= pos <= src.len(),
    ensures
        ({
            let stop = list_at(src, pos, end).1;
            &&& pos <= stop <= src.len()
            &&& stop == src.len() || (!(end is Never) && src[stop] == '}') || (end is Right
                && at_right(src, stop))
        }),
    decreases src.len() - pos,
{
    lemma_skip_spaces(src, pos);
    let p = crate::text::skip_spaces(src, pos);
    if p < src.len() {
        if src[p] == '}' {
            if end is Never {
                lemma_list_ends(src, p + 1, end);
            }
        } else if end is Right && at_right(src, p) {
        } else {
            lemma_atom_ends(src, p);
            match atom_at(src, p) {
                Some((_, q)) => {
                    lemma_list_ends(src, q, end);
                },
                None => {},
            }
        }
    }
}

/// The field that shows a piece of the text holds no layout.
pub proof fn lemma_error_field_wf(text: Seq<char>)
    ensures
        crate::mathlist::field_wf(error_field(text)),
{
    if text.len() >= 2 {
        let list = Seq::new(text.len(), |i: int| error_atom(text[i]));
        assert forall|i: int| 0 <= i < list.len() implies crate::mathlist::atom_wf(
            #[trigger] list[i],
        ) by {
            assert(list[i] == error_atom(text[i]));
            assert(crate::mathlist::field_wf(list[i].nucleus));
            assert(crate::mathlist::field_wf(list[i].subscript));
        }
        assert(crate::mathlist::atoms_wf(list));
        assert(error_field(text) == crate::mathlist::FieldView::MathList(None, list, None));
    } else if text.len() == 1 {
        assert(error_field(text) == crate::mathlist::FieldView::Symbol(Color::Error, text[0]));
    } else {
        assert(error_field(text) == crate::mathlist::FieldView::Empty);
    }
}

/// A field that is read holds no layout that is not well-formed.
pub proof fn lemma_field_wf(src: Seq<char>, pos: int, with_args: bool)
    requires
        0 <= pos <= src.len(),
    ensures
        field_at(src, pos, with_args) matches Some((_, field, _)) ==> crate::mathlist::field_wf(
            field,
        ),
    decreases src.len() - pos, 3nat,
{
    lemma_skip_spaces(src, pos);
    let p = crate::text::skip_spaces(src, pos);
    if p < src.len() {
        if src[p] == '{' {
            lemma_list_wf(src, p + 1, ListEnd::Brace);
            lemma_error_field_wf(seq!['{']);
        } else if src[p] == '\\' {
            lemma_command_wf(src, p, with_args);
        }
    }
}

/// The field of a command holds no layout that is not well-formed.
pub proof fn lemma_command_wf(src: Seq<char>, pos: int, with_args: bool)
    requires
        0 <= pos < src.len(),
    ensures
        command_at(src, pos, with_args) matches Some((_, field, _)) ==> crate::mathlist::field_wf(
            field,
        ),
    decreases src.len() - pos, 2nat,
{
    if pos + 1 < src.len() {
        let (name, after) = command_name(src, pos);
        if pos < after <= src.len() {
            if simple_command(name) is Some {
            } else if takes_arguments(name) {
                if with_args {
                    lemma_field_wf(src, after, false);
                    lemma_field_ends(src, after, false);
                    match field_at(src, after, false) {
                        Some((_, first, q)) => {
                            if name == seq!['m', 'a', 't', 'h', 'o', 'p'] {
                            } else if name == seq!['l', 'e', 'f', 't'] {
                                if delimiter_of(first) is Some {
                                    lemma_list_wf(src, q, ListEnd::Right);
                                    let (list, stop) = list_at(src, q, ListEnd::Right);
                                    if q <= stop <= src.len() && at_right(src, stop) {
                                        lemma_field_wf(src, stop + 6, false);
                                    }
                                }
                            } else {
                                lemma_field_wf(src, q, false);
                            }
                        },
                        None => {},
                    }
                }
            } else {
                lemma_error_field_wf(seq!['\\'] + name);
            }
        }
    }
}

/// The scripts that are read hold no layout that is not well-formed.
pub proof fn lemma_scripts_wf(
    src: Seq<char>,
    pos: int,
    subscript: crate::mathlist::FieldView,
    superscript: crate::mathlist::FieldView,
)
    requires
        0 <= pos <= src.len(),
        crate::mathlist::field_wf(subscript),
        crate::mathlist::field_wf(superscript),
    ensures
        crate::mathlist::field_wf(scripts_at(src, pos, subscript, superscript).0),
        crate::mathlist::field_wf(scripts_at(src, pos, subscript, superscript).1),
    decreases src.len() - pos, 4nat,
{
    lemma_skip_spaces(src, pos);
    let p = crate::text::skip_spaces(src, pos);
    if p < src.len() && (src[p] == '_' || src[p] == '^') {
        lemma_field_wf(src, p + 1, false);
        lemma_field_ends(src, p + 1, false);
        match field_at(src, p + 1, false) {
            Some((_, field, q)) => {
                if src[p] == '_' {
                    lemma_scripts_wf(src, q, field, superscript);
                } else {
                    lemma_scripts_wf(src, q, subscript, field);
                }
            },
            None => {},
        }
    }
}

/// A list that is read holds no layout that is not well-formed.
pub proof fn lemma_list_wf(src: Seq<char>, pos: int, end: ListEnd)
    requires
        0 <= pos <= src.len(),
    ensures
        crate::mathlist::atoms_wf(list_at(src, pos, end).0),
    decreases src.len() - pos, 5nat,
{
    lemma_skip_spaces(src, pos);
    let p = crate::text::skip_spaces(src, pos);
    let list = list_at(src, pos, end).0;
    if p < src.len() {
        if src[p] == '}' {
            if end is Never {
                lemma_list_wf(src, p + 1, end);
                let rest = list_at(src, p + 1, end).0;
                assert forall|i: int| 0 <= i < list.len() implies crate::mathlist::atom_wf(
                    #[trigger] list[i],
                ) by {
                    if i > 0 {
                        assert(list[i] == rest[i - 1]);
                    }
                }
            }
        } else if end is Right && at_right(src, p) {
        } else {
            lemma_atom_ends(src, p);
            lemma_field_wf(src, p, true);
            lemma_field_ends(src, p, true);
            match atom_at(src, p) {
                Some((first, q)) => {
                    let nucleus = field_at(src, p, true)->0;
                    let after = nucleus.2;
                    lemma_scripts_wf(
                        src,
                        after,
                        crate::mathlist::FieldView::Empty,
                        crate::mathlist::FieldView::Empty,
                    );
                    lemma_list_wf(src, q, end);
                    let rest = list_at(src, q, end).0;
                    assert forall|i: int| 0 <= i < list.len() implies crate::mathlist::atom_wf(
                        #[trigger] list[i],
                    ) by {
                        if first is Some {
                            if i > 0 {
                                assert(list[i] == rest[i - 1]);
                            }
                        } else {
                            assert(list[i] == rest[i]);
                        }
                    }
                },
                None => {},
            }
        }
    }
}

/// The list that a text is read as holds no layout, so that every box of its
/// translation has the metrics that its children give it.
pub proof fn lemma_parsed_wf(src: Seq<char>)
    ensures
        crate::mathlist::atoms_wf(parsed(src)),
{
    lemma_list_wf(src, 0, ListEnd::Never);
}

/// Reading a text never stops before its end.
pub proof fn lemma_parse_reaches_end(src: Seq<char>)
    ensures
        list_at(src, 0, ListEnd::Never).1 == src.len(),
{
    lemma_list_ends(src, 0, ListEnd::Never);
}

/// The italic capital letters, from `A` to `Z`.
pub const ITALIC_CAPITALS: [char; 26] = [
    '\u{1d434}', '\u{1d435}', '\u{1d436}', '\u{1d437}', '\u{1d438}', '\u{1d439}',
    '\u{1d43a}', '\u{1d43b}', '\u{1d43c}', '\u{1d43d}', '\u{1d43e}', '\u{1d43f}',
    '\u{1d440}', '\u{1d441}', '\u{1d442}', '\u{1d443}', '\u{1d444}', '\u{1d445}',
    '\u{1d446}', '\u{1d447}', '\u{1d448}', '\u{1d449}', '\u{1d44a}', '\u{1d44b}',
    '\u{1d44c}', '\u{1d44d}',
];

/// The italic small letters, from `a` to `z`.
pub const ITALIC_SMALL: [char; 26] = [
    '\u{1d44e}', '\u{1d44f}', '\u{1d450}', '\u{1d451}', '\u{1d452}', '\u{1d453}',
    '\u{1d454}', '\u{210e}', '\u{1d456}', '\u{1d457}', '\u{1d458}', '\u{1d459}',
    '\u{1d45a}', '\u{1d45b}', '\u{1d45c}', '\u{1d45d}', '\u{1d45e}', '\u{1d45f}',
    '\u{1d460}', '\u{1d461}', '\u{1d462}', '\u{1d463}', '\u{1d464}', '\u{1d465}',
    '\u{1d466}', '\u{1d467}',
];

/// The character of the mathematical alphabets that a character of the text
/// stands for.
pub fn to_math_char(ch: char) -> (r: char)
    ensures
        r == math_char(ch),
{
    if ch == '-' {
        '\u{2212}'
    } else if ch == '*' {
        '\u{2217}'
    } else if ch == 'h' {
        '\u{210e}'
    } else if 'A' <= ch && ch <= 'Z' {
        let i: usize = (ch as u32 - 0x41) as usize;
        assert(forall|k: int| 0 <= k < 26 ==> (#[trigger] ITALIC_CAPITALS[k]) as u32 == 0x1d434 + k);
        ITALIC_CAPITALS[i]
    } else if 'a' <= ch && ch <= 'z' {
        let i: usize = (ch as u32 - 0x61) as usize;
        assert(forall|k: int|
            0 <= k < 26 && k != 7 ==> (#[trigger] ITALIC_SMALL[k]) as u32 == 0x1d44e + k);
        ITALIC_SMALL[i]
    } else {
        ch
    }
}

/// What a character of the text becomes: the kind of its atom and its field.
pub fn handle_char(ch: char) -> (r: (AtomType, Field))
    ensures
        (r.0, r.1@) == char_field(ch),
{
    let ch: char = to_math_char(ch);
    let class: CharClassification = CharClassification::classify(ch);
    match class {
        CharClassification::Diacritic | CharClassification::Ignore => (AtomType::Ord, Field::Empty),
        _ => match class.to_atom_type() {
            Some(atom_type) => (atom_type, Field::Symbol(Color::Normal, ch)),
            None => (AtomType::Ord, Field::Fallback(Color::Error)),
        },
    }
}

/// The field that shows a piece of the text that could not be read.
pub fn make_error_field(text: &Vec<char>) -> (r: Field)
    ensures
        r@ == error_field(text@),
{
    let n: usize = text.len();
    if n == 0 {
        Field::Empty
    } else if n == 1 {
        Field::Symbol(Color::Error, char_at(text, 0))
    } else {
        let mut builder: Builder = Builder::default();
        let mut i: usize = 0;
        while i < n
            invariant
                i <= n,
                n == text@.len(),
                builder@.len() == i,
                forall|k: int| 0 <= k < i ==> builder@[k] == error_atom(text@[k]),
            decreases n - i,
        {
            builder.add_symbol(char_at(text, i), Color::Error);
            i = i + 1;
        }
        let list: MathList = builder.finish();
        let shown: Field = Field::MathList(None, list, None);
        proof {
            assert(list@ =~= Seq::new(text@.len(), |k: int| error_atom(text@[k])));
            assert(shown@ == crate::mathlist::FieldView::MathList(None, list@, None));
        }
        shown
    }
}

/// Whether the command `\right` stands at `pos`.
fn is_at_right(src: &Vec<char>, pos: usize) -> (r: bool)
    requires
        pos <= src@.len(),
    ensures
        r == at_right(src@, pos as int),
{
    if src.len() - pos < 6 {
        return false;
    }
    if src[pos] == '\\' && src[pos + 1] == 'r' && src[pos + 2] == 'i' && src[pos + 3] == 'g'
        && src[pos + 4] == 'h' && src[pos + 5] == 't' {
        assert(src@.subrange(pos as int, pos + 6) =~= seq!['\\', 'r', 'i', 'g', 'h', 't']);
        pos + 6 == src.len() || !is_alpha(src[pos + 6])
    } else {
        let ghost word = seq!['\\', 'r', 'i', 'g', 'h', 't'];
        assert(src@.subrange(pos as int, pos + 6) != word) by {
            let part = src@.subrange(pos as int, pos + 6);
            assert(part[0] == src@[pos as int]);
            assert(part[1] == src@[pos + 1]);
            assert(part[2] == src@[pos + 2]);
            assert(part[3] == src@[pos + 3]);
            assert(part[4] == src@[pos + 4]);
            assert(part[5] == src@[pos + 5]);
        }
        false
    }
}

/// The name of the command whose backslash stands at `pos`, and the place
/// behind it.
fn read_command_name(src: &Vec<char>, pos: usize) -> (r: (Vec<char>, usize))
    requires
        pos + 1 < src@.len(),
    ensures
        (r.0@, r.1 as int) == command_name(src@, pos as int),
        pos < r.1 <= src@.len(),
        r.0@.len() >= 1,
{
    let n: usize = src.len();
    let end: usize = skip_letters(src, pos + 1);
    let mut name: Vec<char> = Vec::new();
    if end > pos + 1 {
        let mut i: usize = pos + 1;
        while i < end
            invariant
                pos + 1 <= i <= end <= src@.len(),
                name@ == src@.subrange(pos + 1, i as int),
            decreases end - i,
        {
            name.push(src[i]);
            i = i + 1;
            assert(name@ =~= src@.subrange(pos + 1, i as int));
        }
        (name, end)
    } else {
        name.push(src[pos + 1]);
        assert(name@ =~= seq![src@[pos + 1]]);
        (name, pos + 2)
    }
}

/// Whether a name of one character is that of a command that stands for the
/// character itself.
fn is_escape_name(name: &Vec<char>) -> (r: bool)
    ensures
        r == is_escape(name@),
{
    if name.len() != 1 {
        return false;
    }
    let c: char = name[0];
    c == '\\' || c == ' ' || c == '%' || c == '$' || c == '_' || c == '^' || c == '{' || c == '}'
}

/// The delimiter that a field in the place of a delimiter gives.
fn to_delimiter(field: &Field) -> (r: Option<Option<Delimiter>>)
    ensures
        r == delimiter_of(field@),
{
    match field {
        Field::Empty => Some(None),
        Field::Symbol(color, ch) => if *ch == '.' {
            Some(None)
        } else {
            Some(Some(Delimiter { ch: *ch, color: *color }))
        },
        Field::MathList(left, list, right) => {
            proof {
                assert(field@ == crate::mathlist::FieldView::MathList(*left, list@, *right));
                assert(list@.len() == list.0@.len());
            }
            if left.is_none() && right.is_none() && list.0.len() == 0 {
                Some(None)
            } else {
                None
            }
        },
        Field::Fallback(_) => None,
        Field::Fraction(_, _) => None,
        Field::Layout { .. } => None,
    }
}

/// Reads the list that begins at `pos`.
pub fn parse_list(src: &Vec<char>, pos: usize, end: ListEnd) -> (r: (MathList, usize))
    requires
        pos <= src@.len(),
    ensures
        (r.0@, r.1 as int) == list_at(src@, pos as int, end),
        pos <= r.1 <= src@.len(),
    decreases src@.len() - pos, 5nat,
{
    let mut builder: Builder = Builder::default();
    let mut cur: usize = pos;
    loop
        invariant
            pos <= cur <= src@.len(),
            list_at(src@, pos as int, end) == (
                builder@ + list_at(src@, cur as int, end).0,
                list_at(src@, cur as int, end).1,
            ),
        decreases src@.len() - cur,
    {
        let p: usize = skip_whitespace(src, cur);
        if p >= src.len() {
            let list: MathList = builder.finish();
            assert(list@ + Seq::<crate::mathlist::AtomView>::empty() =~= list@);
            return (list, p);
        }
        if src[p] == '}' {
            match end {
                ListEnd::Never => {
                    let ghost before = builder@;
                    builder.add_symbol('}', Color::Error);
                    proof {
                        let rest = list_at(src@, p + 1, end);
                        assert(before + (seq![error_atom('}')] + rest.0) =~= before.push(
                            error_atom('}'),
                        ) + rest.0);
                    }
                    cur = p + 1;
                    continue ;
                },
                _ => {
                    let list: MathList = builder.finish();
                    assert(list@ + Seq::<crate::mathlist::AtomView>::empty() =~= list@);
                    return (list, p);
                },
            }
        }
        let stop: bool = match end {
            ListEnd::Right => is_at_right(src, p),
            _ => false,
        };
        if stop {
            let list: MathList = builder.finish();
            assert(list@ + Seq::<crate::mathlist::AtomView>::empty() =~= list@);
            return (list, p);
        }
        match atom(src, p) {
            Some((found, q)) => {
                let ghost before = builder@;
                let ghost first = found_view(found);
                if let Some(a) = found {
                    builder.add_atom(a);
                }
                proof {
                    let rest = list_at(src@, q as int, end);
                    assert(before + with_front(first, rest.0) =~= builder@ + rest.0);
                }
                cur = q;
            },
            None => {
                let list: MathList = builder.finish();
                assert(list@ + Seq::<crate::mathlist::AtomView>::empty() =~= list@);
                return (list, p);
            },
        }
    }
}

/// Reads the atom that begins at `pos`: a field and its scripts. The atom is
/// left out where all of it is empty.
pub fn atom(src: &Vec<char>, pos: usize) -> (r: Option<(Option<Atom>, usize)>)
    requires
        pos <= src@.len(),
    ensures
        match r {
            Some((found, q)) => atom_at(src@, pos as int) == Some((found_view(found), q as int))
                && pos < q <= src@.len(),
            None => atom_at(src@, pos as int) is None,
        },
    decreases src@.len() - pos, 4nat,
{
    let (atom_type, nucleus, q): (AtomType, Field, usize) = match field(src, pos, true) {
        Some(found) => found,
        None => {
            return None;
        },
    };
    let mut subscript: Field = Field::Empty;
    let mut superscript: Field = Field::Empty;
    let mut cur: usize = q;
    loop
        invariant_except_break
            scripts_at(
                src@,
                q as int,
                crate::mathlist::FieldView::Empty,
                crate::mathlist::FieldView::Empty,
            ) == scripts_at(src@, cur as int, subscript@, superscript@),
        invariant
            pos < q <= cur <= src@.len(),
        ensures
            q <= cur <= src@.len(),
            scripts_at(
                src@,
                q as int,
                crate::mathlist::FieldView::Empty,
                crate::mathlist::FieldView::Empty,
            ) == (subscript@, superscript@, cur as int),
        decreases src@.len() - cur,
    {
        let p: usize = skip_whitespace(src, cur);
        if p >= src.len() {
            cur = p;
            break ;
        }
        let mark: char = src[p];
        if mark != '_' && mark != '^' {
            cur = p;
            break ;
        }
        match field(src, p + 1, false) {
            Some((_, script, e)) => {
                if mark == '_' {
                    subscript = script;
                } else {
                    superscript = script;
                }
                cur = e;
            },
            None => {
                cur = p;
                break ;
            },
        }
    }
    if nucleus.is_empty() && subscript.is_empty() && superscript.is_empty() {
        Some((None, cur))
    } else {
        Some((Some(Atom { atom_type, nucleus, subscript, superscript }), cur))
    }
}

/// Reads the field that begins at `pos`.
pub fn field(src: &Vec<char>, pos: usize, with_args: bool) -> (r: Option<(AtomType, Field, usize)>)
    requires
        pos <= src@.len(),
    ensures
        match r {
            Some((atom_type, found, q)) => field_at(src@, pos as int, with_args) == Some(
                (atom_type, found@, q as int),
            ) && pos < q <= src@.len(),
            None => field_at(src@, pos as int, with_args) is None,
        },
    decreases src@.len() - pos, 3nat,
{
    let p: usize = skip_whitespace(src, pos);
    if p >= src.len() {
        return None;
    }
    let c: char = src[p];
    if c == '}' {
        None
    } else if c == '{' {
        let (list, q): (MathList, usize) = parse_list(src, p + 1, ListEnd::Brace);
        if q < src.len() && src[q] == '}' {
            Some((AtomType::Ord, Field::MathList(None, list, None), q + 1))
        } else {
            let mut text: Vec<char> = Vec::new();
            text.push('{');
            assert(text@ =~= seq!['{']);
            Some((AtomType::Ord, make_error_field(&text), p + 1))
        }
    } else if c == '\\' {
        match command(src, p, with_args) {
            Some(found) => Some(found),
            None => {
                let (atom_type, found): (AtomType, Field) = handle_char('\\');
                Some((atom_type, found, p + 1))
            },
        }
    } else {
        let (atom_type, found): (AtomType, Field) = handle_char(c);
        Some((atom_type, found, p + 1))
    }
}

/// Reads the command whose backslash stands at `pos`.
fn command(src: &Vec<char>, pos: usize, with_args: bool) -> (r: Option<(AtomType, Field, usize)>)
    requires
        pos < src@.len(),
    ensures
        match r {
            Some((atom_type, found, q)) => command_at(src@, pos as int, with_args) == Some(
                (atom_type, found@, q as int),
            ) && pos < q <= src@.len(),
            None => command_at(src@, pos as int, with_args) is None,
        },
    decreases src@.len() - pos, 2nat,
{
    if src.len() - pos < 2 {
        return None;
    }
    let (name, after): (Vec<char>, usize) = read_command_name(src, pos);
    if let Some((atom_type, found)) = simple(&name) {
        return Some((atom_type, found, after));
    }
    match argument_command(&name) {
        Some(which) => {
            if !with_args {
                return None;
            }
            match which {
                ArgumentCommand::MathOp => match field(src, after, false) {
                    Some((_, found, q)) => Some((AtomType::Op, found, q)),
                    None => None,
                },
                ArgumentCommand::Left => left_right(src, after),
                ArgumentCommand::Frac => fraction(src, after),
            }
        },
        None => {
            let mut text: Vec<char> = Vec::new();
            text.push('\\');
            let ghost name_before = name@;
            let mut name = name;
            text.append(&mut name);
            assert(text@ =~= seq!['\\'] + name_before);
            Some((AtomType::Ord, make_error_field(&text), after))
        },
    }
}

/// What a command that takes no argument stands for.
fn simple(name: &Vec<char>) -> (r: Option<(AtomType, Field)>)
    requires
        name@.len() >= 1,
    ensures
        match r {
            Some((atom_type, found)) => simple_command(name@) == Some((atom_type, found@)),
            None => simple_command(name@) is None,
        },
{
    if let Some(ch) = command_to_chars(name) {
        return Some(handle_char(ch));
    }
    if is_escape_name(name) {
        return Some(handle_char(name[0]));
    }
    None
}

/// The commands that take arguments.
#[derive(Clone, Copy, Debug, PartialEq, Eq, Structural)]
pub enum ArgumentCommand {
    MathOp,
    Left,
    Frac,
}

/// Which of the commands that take arguments a name is that of.
fn argument_command(name: &Vec<char>) -> (r: Option<ArgumentCommand>)
    ensures
        r is Some == takes_arguments(name@),
        r == Some(ArgumentCommand::MathOp) <==> name@ == seq!['m', 'a', 't', 'h', 'o', 'p'],
        r == Some(ArgumentCommand::Left) <==> name@ == seq!['l', 'e', 'f', 't'],
        r == Some(ArgumentCommand::Frac) <==> name@ == seq!['f', 'r', 'a', 'c'],
{
    let mathop: Vec<char> = vec!['m', 'a', 't', 'h', 'o', 'p'];
    let left: Vec<char> = vec!['l', 'e', 'f', 't'];
    let frac: Vec<char> = vec!['f', 'r', 'a', 'c'];
    proof {
        assert(mathop@ =~= seq!['m', 'a', 't', 'h', 'o', 'p']);
        assert(left@ =~= seq!['l', 'e', 'f', 't']);
        assert(frac@ =~= seq!['f', 'r', 'a', 'c']);
        assert(mathop@.len() == 6 && left@.len() == 4 && frac@.len() == 4);
        assert(left@[0] == 'l' && frac@[0] == 'f');
    }
    if same_chars(name, &mathop) {
        Some(ArgumentCommand::MathOp)
    } else if same_chars(name, &left) {
        Some(ArgumentCommand::Left)
    } else if same_chars(name, &frac) {
        Some(ArgumentCommand::Frac)
    } else {
        None
    }
}

/// Reads what follows the command `\frac`.
fn fraction(src: &Vec<char>, pos: usize) -> (r: Option<(AtomType, Field, usize)>)
    requires
        pos <= src@.len(),
    ensures
        match r {
            Some((atom_type, found, q)) => frac_at(src@, pos as int) == Some(
                (atom_type, found@, q as int),
            ) && pos < q <= src@.len(),
            None => frac_at(src@, pos as int) is None,
        },
    decreases src@.len() - pos, 4nat,
{
    let (num, q): (Field, usize) = match field(src, pos, false) {
        Some((_, found, q)) => (found, q),
        None => {
            return None;
        },
    };
    match field(src, q, false) {
        Some((_, denom, e)) => {
            let both: Field = Field::Fraction(Box::new(num), Box::new(denom));
            assert(both@ == crate::mathlist::FieldView::Fraction(Box::new(num@), Box::new(denom@)));
            Some((AtomType::Inner, both, e))
        },
        None => None,
    }
}

/// Reads what follows the command `\left`.
fn left_right(src: &Vec<char>, pos: usize) -> (r: Option<(AtomType, Field, usize)>)
    requires
        pos <= src@.len(),
    ensures
        match r {
            Some((atom_type, found, q)) => left_at(src@, pos as int) == Some(
                (atom_type, found@, q as int),
            ) && pos < q <= src@.len(),
            None => left_at(src@, pos as int) is None,
        },
    decreases src@.len() - pos, 4nat,
{
    let (first, q): (Field, usize) = match field(src, pos, false) {
        Some((_, found, q)) => (found, q),
        None => {
            return None;
        },
    };
    let left: Option<Delimiter> = match to_delimiter(&first) {
        Some(d) => d,
        None => {
            return None;
        },
    };
    let (list, stop): (MathList, usize) = parse_list(src, q, ListEnd::Right);
    if !is_at_right(src, stop) {
        return None;
    }
    let n: usize = src.len();
    assert(stop + 6 <= n);
    let (second, e): (Field, usize) = match field(src, stop + 6, false) {
        Some((_, found, e)) => (found, e),
        None => {
            return None;
        },
    };
    match to_delimiter(&second) {
        Some(right) => {
            let found: Field = Field::MathList(left, list, right);
            assert(found@ == crate::mathlist::FieldView::MathList(left, list@, right));
            Some((AtomType::Inner, found, e))
        },
        None => None,
    }
}

/// Reads a text as a math list. The result is never `None`.
pub fn parse(src: &str) -> (r: Option<MathList>)
    ensures
        r matches Some(list) && list@ == parsed(src@),
        crate::mathlist::atoms_wf(parsed(src@)),
{
    proof {
        lemma_parsed_wf(src@);
    }
    let text: Vec<char> = chars_of(src);
    let (list, _end): (MathList, usize) = parse_list(&text, 0, ListEnd::Never);
    Some(list)
}

} // verus!
