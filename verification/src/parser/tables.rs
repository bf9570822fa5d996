//! The mathematical classes of characters, and the characters that commands
//! stand for.

use vstd::prelude::*;

use crate::mathlist::AtomType;
use crate::parser::tables::generated::{CHAR_CLASSIFICATION, CHAR_COMMANDS};
use crate::text::chars_of;
use vstd::string::StrSliceExecFns;

pub mod generated;

verus! {

/// The mathematical class of a character.
#[derive(Clone, Copy, Debug, PartialEq, Eq, Structural)]
pub enum CharClassification {
    Normal,
    Alphabetic,
    Binary,
    Closing,
    Diacritic,
    Fence,
    GlyphPart,
    Large,
    Opening,
    Punct,
    Relation,
    Space,
    Unary,
    Vary,
    Special,
    Ignore,
}

/// The rows of a table are in the strict order of their code points.
#[verifier::opaque]
pub open spec fn sorted(table: Seq<(u32, CharClassification)>) -> bool {
    forall|i: int, j: int|
        0 <= i < j < table.len() ==> (#[trigger] table[i]).0 < (#[trigger] table[j]).0
}

/// The row of a table that holds for a code point: the last one that begins
/// at or below it, and -1 where there is none.
pub open spec fn row_for(table: Seq<(u32, CharClassification)>, code: u32) -> int
    decreases table.len(),
{
    if table.len() == 0 {
        -1
    } else if table.last().0 <= code {
        table.len() - 1
    } else {
        row_for(table.drop_last(), code)
    }
}

/// The class that a table gives a code point.
pub open spec fn class_in(table: Seq<(u32, CharClassification)>, code: u32) -> CharClassification {
    if row_for(table, code) >= 0 {
        table[row_for(table, code)].1
    } else {
        CharClassification::Ignore
    }
}

/// The class of a character.
pub open spec fn class_of(ch: char) -> CharClassification {
    class_in(CHAR_CLASSIFICATION@, ch as u32)
}

/// The character that the first row of this name gives, where there is
/// such a row.
pub open spec fn command_in(table: Seq<(&'static str, char)>, cmd: Seq<char>) -> Option<char>
    decreases table.len(),
{
    if table.len() == 0 {
        None
    } else if table[0].0@ == cmd {
        Some(table[0].1)
    } else {
        command_in(table.drop_first(), cmd)
    }
}

/// The character that a command stands for.
pub open spec fn command_char(cmd: Seq<char>) -> Option<char> {
    command_in(CHAR_COMMANDS@, cmd)
}

/// The kind of atom that a character of a class makes, where it makes one.
pub open spec fn atom_type_of(class: CharClassification) -> Option<AtomType> {
    match class {
        CharClassification::Normal
        | CharClassification::Alphabetic
        | CharClassification::Diacritic
        | CharClassification::Unary
        | CharClassification::Special
        | CharClassification::Fence => Some(AtomType::Ord),
        CharClassification::Binary | CharClassification::Vary => Some(AtomType::Bin),
        CharClassification::Closing => Some(AtomType::Close),
        CharClassification::Large => Some(AtomType::Op),
        CharClassification::Opening => Some(AtomType::Open),
        CharClassification::Punct => Some(AtomType::Punct),
        CharClassification::Relation => Some(AtomType::Rel),
        CharClassification::GlyphPart
        | CharClassification::Space
        | CharClassification::Ignore => None,
    }
}

/// The rows from `from` up to `to` of a table are each below the row after
/// them.
#[verifier::opaque]
pub open spec fn rising(table: Seq<(u32, CharClassification)>, from: int, to: int) -> bool {
    forall|i: int| from <= i < to && 0 <= i < table.len() - 1 ==> (#[trigger] table[i]).0 < table[i
        + 1].0
}

/// Two stretches of rising rows that meet are one.
pub proof fn lemma_rising_join(table: Seq<(u32, CharClassification)>, from: int, mid: int, to: int)
    requires
        rising(table, from, mid),
        rising(table, mid, to),
    ensures
        rising(table, from, to),
{
    reveal(rising);
}

/// In a table whose rows are each below the row after them, all rows are in
/// order.
pub proof fn lemma_sorted_from_rising(table: Seq<(u32, CharClassification)>)
    requires
        rising(table, 0, table.len() as int),
    ensures
        sorted(table),
{
    reveal(sorted);
    assert forall|i: int, j: int| 0 <= i < j < table.len() implies (#[trigger] table[i]).0 < (
    #[trigger] table[j]).0 by {
        lemma_sorted_step(table, i, j);
    }
}

proof fn lemma_sorted_step(table: Seq<(u32, CharClassification)>, i: int, j: int)
    requires
        rising(table, 0, table.len() as int),
        0 <= i < j < table.len(),
    ensures
        table[i].0 < table[j].0,
    decreases j - i,
{
    reveal(rising);
    if i + 1 < j {
        lemma_sorted_step(table, i, j - 1);
        assert(table[j - 1].0 < table[j - 1 + 1].0);
    } else {
        assert(table[i].0 < table[i + 1].0);
    }
}

/// In a sorted table the row for a code point is the one that begins at or
/// below it while the next one, if there is one, begins above it.
pub proof fn lemma_row_for(table: Seq<(u32, CharClassification)>, code: u32, row: int)
    requires
        sorted(table),
        0 <= row < table.len(),
        table[row].0 <= code,
        row + 1 < table.len() ==> code < table[row + 1].0,
    ensures
        row_for(table, code) == row,
    decreases table.len(),
{
    reveal(sorted);
    if row < table.len() - 1 {
        assert(table[row + 1].0 <= table.last().0);
        let rest = table.drop_last();
        assert(sorted(rest)) by {
            assert forall|i: int, j: int| 0 <= i < j < rest.len() implies (#[trigger] rest[i]).0 < (
            #[trigger] rest[j]).0 by {
                assert(rest[i] == table[i]);
                assert(rest[j] == table[j]);
            }
        }
        assert(rest[row] == table[row]);
        if row + 1 < rest.len() {
            assert(rest[row + 1] == table[row + 1]);
        }
        lemma_row_for(rest, code, row);
    }
}

/// The rows from 0 up to 75 of the table of classes are rising.
proof fn lemma_rising_0()
    ensures
        rising(CHAR_CLASSIFICATION@, 0, 75),
{
    reveal(rising);
}

/// The rows from 75 up to 150 of the table of classes are rising.
proof fn lemma_rising_1()
    ensures
        rising(CHAR_CLASSIFICATION@, 75, 150),
{
    reveal(rising);
}

/// The rows from 150 up to 225 of the table of classes are rising.
proof fn lemma_rising_2()
    ensures
        rising(CHAR_CLASSIFICATION@, 150, 225),
{
    reveal(rising);
}

/// The rows from 225 up to 300 of the table of classes are rising.
proof fn lemma_rising_3()
    ensures
        rising(CHAR_CLASSIFICATION@, 225, 300),
{
    reveal(rising);
}

/// The rows from 300 up to 375 of the table of classes are rising.
proof fn lemma_rising_4()
    ensures
        rising(CHAR_CLASSIFICATION@, 300, 375),
{
    reveal(rising);
}

/// The rows from 375 up to 450 of the table of classes are rising.
proof fn lemma_rising_5()
    ensures
        rising(CHAR_CLASSIFICATION@, 375, 450),
{
    reveal(rising);
}

/// The rows from 450 up to 525 of the table of classes are rising.
proof fn lemma_rising_6()
    ensures
        rising(CHAR_CLASSIFICATION@, 450, 525),
{
    reveal(rising);
}

/// The rows from 525 up to 597 of the table of classes are rising.
proof fn lemma_rising_7()
    ensures
        rising(CHAR_CLASSIFICATION@, 525, 597),
{
    reveal(rising);
}

/// The table of classes is sorted and begins at code point 0.
pub proof fn lemma_classification_sorted()
    ensures
        sorted(CHAR_CLASSIFICATION@),
        CHAR_CLASSIFICATION@.len() == 597,
        CHAR_CLASSIFICATION@[0].0 == 0,
{
    let table = CHAR_CLASSIFICATION@;
    lemma_rising_0();
    lemma_rising_1();
    lemma_rising_join(table, 0, 75, 150);
    lemma_rising_2();
    lemma_rising_join(table, 0, 150, 225);
    lemma_rising_3();
    lemma_rising_join(table, 0, 225, 300);
    lemma_rising_4();
    lemma_rising_join(table, 0, 300, 375);
    lemma_rising_5();
    lemma_rising_join(table, 0, 375, 450);
    lemma_rising_6();
    lemma_rising_join(table, 0, 450, 525);
    lemma_rising_7();
    lemma_rising_join(table, 0, 525, 597);
    lemma_sorted_from_rising(table);
}

/// Looks a code point up in a sorted table that begins at code point 0, by
/// halving.
fn lookup(table: &[(u32, CharClassification)], code: u32) -> (r: CharClassification)
    requires
        sorted(table@),
        table@.len() > 0,
        table@[0].0 == 0,
    ensures
        r == class_in(table@, code),
{
    let mut lo: usize = 1;
    let mut hi: usize = table.len();
    proof {
        reveal(sorted);
    }
    while lo < hi
        invariant
            1 <= lo <= hi <= table@.len(),
            sorted(table@),
            table@[lo - 1].0 <= code,
            hi < table@.len() ==> code < table@[hi as int].0,
        decreases hi - lo,
    {
        let mid: usize = lo + (hi - lo) / 2;
        if table[mid].0 <= code {
            lo = mid + 1;
        } else {
            hi = mid;
        }
    }
    proof {
        lemma_row_for(table@, code, lo - 1);
    }
    table[lo - 1].1
}

/// Whether a name and a text hold the same characters.
fn name_matches(name: &str, text: &Vec<char>) -> (r: bool)
    ensures
        r == (name@ == text@),
{
    let n: usize = name.unicode_len();
    if n != text.len() {
        return false;
    }
    let mut i: usize = 0;
    while i < n
        invariant
            i <= n,
            n == name@.len(),
            n == text@.len(),
            forall|j: int| 0 <= j < i ==> name@[j] == text@[j],
        decreases n - i,
    {
        if name.get_char(i) != text[i] {
            return false;
        }
        i = i + 1;
    }
    assert(name@ =~= text@);
    true
}

/// Looks a name up in a table of commands, row by row.
fn lookup_command(table: &[(&'static str, char)], cmd: &Vec<char>) -> (r: Option<char>)
    ensures
        r == command_in(table@, cmd@),
{
    let n: usize = table.len();
    let mut i: usize = 0;
    assert(table@.skip(0) == table@);
    while i < n
        invariant
            i <= n,
            n == table@.len(),
            command_in(table@, cmd@) == command_in(table@.skip(i as int), cmd@),
        decreases n - i,
    {
        if name_matches(table[i].0, cmd) {
            assert(table@.skip(i as int)[0] == table@[i as int]);
            return Some(table[i].1);
        }
        proof {
            assert(table@.skip(i as int)[0] == table@[i as int]);
            assert(table@.skip(i as int).drop_first() == table@.skip(i + 1));
        }
        i = i + 1;
    }
    None
}

impl CharClassification {
    /// The class of a character.
    pub fn classify(ch: char) -> (r: CharClassification)
        ensures
            r == class_of(ch),
    {
        proof {
            lemma_classification_sorted();
        }
        lookup(&CHAR_CLASSIFICATION, ch as u32)
    }

    /// The kind of atom that a character of this class makes, where it makes
    /// one: none for a part of a glyph, for a space, and for a character
    /// without a class.
    pub fn to_atom_type(self) -> (r: Option<AtomType>)
        ensures
            r == atom_type_of(self),
    {
        match self {
            CharClassification::Normal
            | CharClassification::Alphabetic
            | CharClassification::Diacritic
            | CharClassification::Unary
            | CharClassification::Special => Some(AtomType::Ord),
            CharClassification::Binary => Some(AtomType::Bin),
            CharClassification::Closing => Some(AtomType::Close),
            CharClassification::Fence => Some(AtomType::Ord),
            CharClassification::GlyphPart => None,
            CharClassification::Large => Some(AtomType::Op),
            CharClassification::Opening => Some(AtomType::Open),
            CharClassification::Punct => Some(AtomType::Punct),
            CharClassification::Relation => Some(AtomType::Rel),
            CharClassification::Space => None,
            CharClassification::Vary => Some(AtomType::Bin),
            CharClassification::Ignore => None,
        }
    }
}

/// The character that a command stands for, where the name is that of a
/// command for a character.
pub fn command_to_char(cmd: &str) -> (r: Option<char>)
    ensures
        r == command_char(cmd@),
{
    let text: Vec<char> = chars_of(cmd);
    lookup_command(&CHAR_COMMANDS, &text)
}

/// The character that a command stands for, for a name given by its
/// characters.
pub fn command_to_chars(cmd: &Vec<char>) -> (r: Option<char>)
    ensures
        r == command_char(cmd@),
{
    lookup_command(&CHAR_COMMANDS, cmd)
}

} // verus!
