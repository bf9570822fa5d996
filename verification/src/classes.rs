//! The table of the classes of the characters, made from a list of classes:
//! every line of the list gives one code point or a range of code points
//! its class, and a later line counts before an earlier one.

use vstd::prelude::*;

use crate::backend::svg::xml::write_decimal;
use crate::parser::tables::CharClassification;
use crate::text::{char_at, char_from_code, chars_of, has_word_at, push_char};
use rangemap::RangeInclusiveMap;
use vstd::string::StringExecFns;

verus! {

/// The code points that a line of the list speaks of.
#[derive(Clone, Copy, Debug, PartialEq, Eq, Structural)]
pub enum Selector {
    CodePoint(char),
    Range(char, char),
}

/// The class that a line of the list gives.
#[derive(Clone, Copy, Debug, PartialEq, Eq, Structural)]
pub enum MathClass {
    Normal,
    Alphabetic,
    Binary,
    Closing,
    Diacritic,
    Fence,
    GlyphPart,
    Large,
    Opening,
    Punct,
    Relation,
    Space,
    Unary,
    Vary,
    Special,
    Ignore,
}

#[verifier::external_type_specification]
#[verifier::external_body]
#[verifier::reject_recursive_types(K)]
#[verifier::reject_recursive_types(V)]
#[verifier::reject_recursive_types(StepFnsT)]
pub struct ExRangeInclusiveMap<K, V, StepFnsT>(RangeInclusiveMap<K, V, StepFnsT>);

/// The class that a map of ranges gives each code point that it holds.
pub uninterp spec fn class_map(m: RangeInclusiveMap<u32, MathClass, u32>) -> Map<u32, MathClass>;

/// The map that gives no code point a class.
pub open spec fn no_classes() -> Map<u32, MathClass> {
    Map::empty()
}

/// A map in which the code points from `start` to `end` have a class, and
/// every other code point is as it was.
pub open spec fn with_range(classes: Map<u32, MathClass>, start: u32, end: u32, class: MathClass) -> Map<
    u32,
    MathClass,
> {
    Map::new(
        |k: u32| (start <= k <= end) || classes.dom().contains(k),
        |k: u32|
            if start <= k <= end {
                class
            } else {
                classes[k]
            },
    )
}

/// Whether ranges, each with its class, are the ranges of a map: they follow
/// each other without meeting, every code point of a range has the class of
/// the range, every code point of the map lies in a range, and two ranges
/// that touch have different classes.
pub open spec fn ranges_of(ranges: Seq<(u32, u32, MathClass)>, classes: Map<u32, MathClass>) -> bool {
    &&& forall|i: int| 0 <= i < ranges.len() ==> (#[trigger] ranges[i]).0 <= ranges[i].1
    &&& forall|i: int, j: int|
        0 <= i < j < ranges.len() ==> (#[trigger] ranges[i]).1 < (#[trigger] ranges[j]).0
    &&& forall|i: int, k: u32|
        0 <= i < ranges.len() && (#[trigger] ranges[i]).0 <= k <= ranges[i].1
            ==> classes.dom().contains(k) && #[trigger] classes[k] == ranges[i].2
    &&& forall|k: u32| #[trigger]
        classes.dom().contains(k) ==> exists|i: int|
            0 <= i < ranges.len() && (#[trigger] ranges[i]).0 <= k <= ranges[i].1
    &&& forall|i: int|
        0 <= i < ranges.len() - 1 && (#[trigger] ranges[i]).1 + 1 == ranges[i + 1].0 ==> ranges[i].2
            != ranges[i + 1].2
}

/// A map of ranges that holds nothing.
///
/// This is `RangeInclusiveMap::new` of the crate `rangemap`, which makes an
/// empty map.
#[verifier::external_body]
fn new_map() -> (r: RangeInclusiveMap<u32, MathClass, u32>)
    ensures
        class_map(r) == no_classes(),
{
    RangeInclusiveMap::new()
}

/// Gives the code points of a range a class.
///
/// This is `RangeInclusiveMap::insert` of the crate `rangemap`: the range
/// replaces what the map held of it. It panics for a range that ends before
/// it begins, which the contract leaves out.
#[verifier::external_body]
fn insert_range(m: &mut RangeInclusiveMap<u32, MathClass, u32>, start: u32, end: u32, class: MathClass)
    requires
        start <= end,
    ensures
        class_map(*final(m)) == with_range(class_map(*old(m)), start, end, class),
{
    m.insert(start..=end, class);
}

/// The ranges of a map, each with its class, in their order.
///
/// This is `RangeInclusiveMap::iter` of the crate `rangemap`, which walks the
/// ranges in the order of their keys; the map holds ranges that do not meet,
/// and joins a range to one that it touches where both have the same class.
#[verifier::external_body]
fn ranges(m: &RangeInclusiveMap<u32, MathClass, u32>) -> (r: Vec<(u32, u32, MathClass)>)
    ensures
        ranges_of(r@, class_map(*m)),
{
    m.iter().map(|(range, class)| (*range.start(), *range.end(), *class)).collect()
}

impl Selector {
    /// The first code point.
    pub fn start(&self) -> (r: char)
        ensures
            r == self.first(),
    {
        match self {
            Selector::CodePoint(ch) => *ch,
            Selector::Range(ch, _) => *ch,
        }
    }

    /// The last code point.
    pub fn stop(&self) -> (r: char)
        ensures
            r == self.last(),
    {
        match self {
            Selector::CodePoint(ch) => *ch,
            Selector::Range(_, ch) => *ch,
        }
    }

    /// The first code point.
    pub open spec fn first(self) -> char {
        match self {
            Selector::CodePoint(ch) => ch,
            Selector::Range(ch, _) => ch,
        }
    }

    /// The last code point.
    pub open spec fn last(self) -> char {
        match self {
            Selector::CodePoint(ch) => ch,
            Selector::Range(_, ch) => ch,
        }
    }
}

impl MathClass {
    /// The class that a letter of the list stands for.
    pub open spec fn of_letter(ch: char) -> Option<MathClass> {
        if ch == 'N' {
            Some(MathClass::Normal)
        } else if ch == 'A' {
            Some(MathClass::Alphabetic)
        } else if ch == 'B' {
            Some(MathClass::Binary)
        } else if ch == 'C' {
            Some(MathClass::Closing)
        } else if ch == 'D' {
            Some(MathClass::Diacritic)
        } else if ch == 'F' {
            Some(MathClass::Fence)
        } else if ch == 'G' {
            Some(MathClass::GlyphPart)
        } else if ch == 'L' {
            Some(MathClass::Large)
        } else if ch == 'O' {
            Some(MathClass::Opening)
        } else if ch == 'P' {
            Some(MathClass::Punct)
        } else if ch == 'R' {
            Some(MathClass::Relation)
        } else if ch == 'S' {
            Some(MathClass::Space)
        } else if ch == 'U' {
            Some(MathClass::Unary)
        } else if ch == 'V' {
            Some(MathClass::Vary)
        } else if ch == 'X' {
            Some(MathClass::Special)
        } else {
            None
        }
    }

    /// The name of the class.
    pub open spec fn name(self) -> Seq<char> {
        match self {
            MathClass::Normal => "Normal"@,
            MathClass::Alphabetic => "Alphabetic"@,
            MathClass::Binary => "Binary"@,
            MathClass::Closing => "Closing"@,
            MathClass::Diacritic => "Diacritic"@,
            MathClass::Fence => "Fence"@,
            MathClass::GlyphPart => "GlyphPart"@,
            MathClass::Large => "Large"@,
            MathClass::Opening => "Opening"@,
            MathClass::Punct => "Punct"@,
            MathClass::Relation => "Relation"@,
            MathClass::Space => "Space"@,
            MathClass::Unary => "Unary"@,
            MathClass::Vary => "Vary"@,
            MathClass::Special => "Special"@,
            MathClass::Ignore => "Ignore"@,
        }
    }

    /// The class of the same name, as the table holds it.
    pub open spec fn classification(self) -> CharClassification {
        match self {
            MathClass::Normal => CharClassification::Normal,
            MathClass::Alphabetic => CharClassification::Alphabetic,
            MathClass::Binary => CharClassification::Binary,
            MathClass::Closing => CharClassification::Closing,
            MathClass::Diacritic => CharClassification::Diacritic,
            MathClass::Fence => CharClassification::Fence,
            MathClass::GlyphPart => CharClassification::GlyphPart,
            MathClass::Large => CharClassification::Large,
            MathClass::Opening => CharClassification::Opening,
            MathClass::Punct => CharClassification::Punct,
            MathClass::Relation => CharClassification::Relation,
            MathClass::Space => CharClassification::Space,
            MathClass::Unary => CharClassification::Unary,
            MathClass::Vary => CharClassification::Vary,
            MathClass::Special => CharClassification::Special,
            MathClass::Ignore => CharClassification::Ignore,
        }
    }

    /// The class that a letter of the list stands for, where it stands for
    /// one.
    pub fn from_letter(ch: char) -> (r: Option<MathClass>)
        ensures
            r == MathClass::of_letter(ch),
    {
        match ch {
            'N' => Some(MathClass::Normal),
            'A' => Some(MathClass::Alphabetic),
            'B' => Some(MathClass::Binary),
            'C' => Some(MathClass::Closing),
            'D' => Some(MathClass::Diacritic),
            'F' => Some(MathClass::Fence),
            'G' => Some(MathClass::GlyphPart),
            'L' => Some(MathClass::Large),
            'O' => Some(MathClass::Opening),
            'P' => Some(MathClass::Punct),
            'R' => Some(MathClass::Relation),
            'S' => Some(MathClass::Space),
            'U' => Some(MathClass::Unary),
            'V' => Some(MathClass::Vary),
            'X' => Some(MathClass::Special),
            _ => None,
        }
    }

    /// The class that a letter of the list stands for.
    pub fn parse(ch: char) -> (r: MathClass)
        requires
            MathClass::of_letter(ch) is Some,
        ensures
            Some(r) == MathClass::of_letter(ch),
    {
        match MathClass::from_letter(ch) {
            Some(class) => class,
            None => MathClass::Ignore,
        }
    }

    /// The name of the class.
    pub fn classify(self) -> (r: &'static str)
        ensures
            r@ == self.name(),
    {
        match self {
            MathClass::Normal => "Normal",
            MathClass::Alphabetic => "Alphabetic",
            MathClass::Binary => "Binary",
            MathClass::Closing => "Closing",
            MathClass::Diacritic => "Diacritic",
            MathClass::Fence => "Fence",
            MathClass::GlyphPart => "GlyphPart",
            MathClass::Large => "Large",
            MathClass::Opening => "Opening",
            MathClass::Punct => "Punct",
            MathClass::Relation => "Relation",
            MathClass::Space => "Space",
            MathClass::Unary => "Unary",
            MathClass::Vary => "Vary",
            MathClass::Special => "Special",
            MathClass::Ignore => "Ignore",
        }
    }

    /// The class of the same name, as the table holds it.
    pub fn to_classification(self) -> (r: CharClassification)
        ensures
            r == self.classification(),
    {
        match self {
            MathClass::Normal => CharClassification::Normal,
            MathClass::Alphabetic => CharClassification::Alphabetic,
            MathClass::Binary => CharClassification::Binary,
            MathClass::Closing => CharClassification::Closing,
            MathClass::Diacritic => CharClassification::Diacritic,
            MathClass::Fence => CharClassification::Fence,
            MathClass::GlyphPart => CharClassification::GlyphPart,
            MathClass::Large => CharClassification::Large,
            MathClass::Opening => CharClassification::Opening,
            MathClass::Punct => CharClassification::Punct,
            MathClass::Relation => CharClassification::Relation,
            MathClass::Space => CharClassification::Space,
            MathClass::Unary => CharClassification::Unary,
            MathClass::Vary => CharClassification::Vary,
            MathClass::Special => CharClassification::Special,
            MathClass::Ignore => CharClassification::Ignore,
        }
    }
}

/// The classes of the code points, as the lines of a list give them.
pub struct Data {
    m: RangeInclusiveMap<u32, MathClass, u32>,
}

impl Data {
    /// The class of every code point.
    pub closed spec fn classes(&self) -> Map<u32, MathClass> {
        class_map(self.m)
    }

    /// Every code point has a class.
    pub open spec fn wf(&self) -> bool {
        forall|k: u32| #[trigger] self.classes().dom().contains(k)
    }

    /// The classes before the first line of a list: no code point has one
    /// but that of being left out.
    pub fn new() -> (r: Data)
        ensures
            r.wf(),
            forall|k: u32| #[trigger] r.classes()[k] == MathClass::Ignore,
    {
        let mut m = new_map();
        insert_range(&mut m, 0, u32::MAX, MathClass::Ignore);
        Data { m }
    }

    /// Gives the code points of a line their class.
    pub fn add_range(&mut self, sel: Selector, mathclass: MathClass)
        requires
            old(self).wf(),
            sel.first() as u32 <= sel.last() as u32,
        ensures
            final(self).wf(),
            final(self).classes() == with_range(
                old(self).classes(),
                sel.first() as u32,
                sel.last() as u32,
                mathclass,
            ),
    {
        let start: u32 = sel.start() as u32;
        let end: u32 = sel.stop() as u32;
        let ghost before = self.classes();
        insert_range(&mut self.m, start, end, mathclass);
        proof {
            assert forall|k: u32| #[trigger] self.classes().dom().contains(k) by {
                assert(before.dom().contains(k));
            }
        }
    }

    /// The rows of the table: for every range of code points of one class
    /// the first code point and the class. The table is sorted, begins at
    /// code point 0, gives every code point its class, and has no row more
    /// than that takes.
    pub fn rows(&self) -> (r: Vec<(u32, CharClassification)>)
        requires
            self.wf(),
        ensures
            is_table_of(r@, self.classes()),
    {
        let list: Vec<(u32, u32, MathClass)> = ranges(&self.m);
        let ghost classes = self.classes();
        let n: usize = list.len();
        let mut out: Vec<(u32, CharClassification)> = Vec::new();
        let mut i: usize = 0;
        while i < n
            invariant
                i <= n,
                n == list@.len(),
                out@.len() == i,
                forall|j: int|
                    0 <= j < i ==> (#[trigger] out@[j]) == (list@[j].0, list@[j].2.classification()),
            decreases n - i,
        {
            let range: (u32, u32, MathClass) = list[i];
            out.push((range.0, range.2.to_classification()));
            i = i + 1;
        }
        proof {
            lemma_rows(list@, out@, classes);
        }
        out
    }
}

/// The rows made of the ranges of a map that holds every code point are a
/// table that gives every code point the class that the map gives it.
pub proof fn lemma_rows(
    ranges: Seq<(u32, u32, MathClass)>,
    rows: Seq<(u32, CharClassification)>,
    classes: Map<u32, MathClass>,
)
    requires
        ranges_of(ranges, classes),
        forall|k: u32| #[trigger] classes.dom().contains(k),
        rows.len() == ranges.len(),
        forall|j: int|
            0 <= j < rows.len() ==> (#[trigger] rows[j]) == (ranges[j].0, ranges[j].2.classification()),
    ensures
        is_table_of(rows, classes),
{
    reveal(crate::parser::tables::sorted);
    assert forall|i: int, j: int| 0 <= i < j < rows.len() implies (#[trigger] rows[i]).0 < (
    #[trigger] rows[j]).0 by {
        assert(ranges[i].0 <= ranges[i].1 < ranges[j].0);
    }
    assert(classes.dom().contains(0u32));
    let first = choose|i: int| 0 <= i < ranges.len() && (#[trigger] ranges[i]).0 <= 0u32 <= ranges[i].1;
    if first > 0 {
        assert(ranges[0].0 <= ranges[0].1 < ranges[first].0);
    }
    assert(rows[0] == (ranges[0].0, ranges[0].2.classification()));
    assert forall|code: u32| #[trigger]
        crate::parser::tables::class_in(rows, code) == classes[code].classification() by {
        assert(classes.dom().contains(code));
        let i = choose|i: int| 0 <= i < ranges.len() && (#[trigger] ranges[i]).0 <= code <= ranges[i].1;
        assert(rows[i] == (ranges[i].0, ranges[i].2.classification()));
        if i + 1 < rows.len() {
            assert(rows[i + 1] == (ranges[i + 1].0, ranges[i + 1].2.classification()));
            assert(ranges[i].1 < ranges[i + 1].0);
        }
        crate::parser::tables::lemma_row_for(rows, code, i);
        assert(classes[code] == ranges[i].2);
    }
    assert forall|i: int| 0 <= i < rows.len() - 1 implies (#[trigger] rows[i]).1 != rows[i + 1].1 by {
        assert(ranges[i].0 <= ranges[i].1 < ranges[i + 1].0);
        let next: u32 = (ranges[i].1 + 1) as u32;
        assert(classes.dom().contains(next));
        let j = choose|j: int| 0 <= j < ranges.len() && (#[trigger] ranges[j]).0 <= next <= ranges[j].1;
        if j <= i {
            if j < i {
                assert(ranges[j].1 < ranges[i].0);
            }
        } else if j > i + 1 {
            assert(ranges[i + 1].0 <= ranges[i + 1].1 < ranges[j].0);
        }
        assert(j == i + 1);
        assert(ranges[i].1 + 1 == ranges[i + 1].0);
        assert(rows[i] == (ranges[i].0, ranges[i].2.classification()));
        assert(rows[i + 1] == (ranges[i + 1].0, ranges[i + 1].2.classification()));
    }
}

/// A line of the list: the code points that it speaks of, and their class.
#[derive(Clone, Copy, Debug, PartialEq, Eq, Structural)]
pub struct MathListEntry {
    pub selector: Selector,
    pub math_class: MathClass,
}

/// Whether a character is a digit to the base 16.
pub open spec fn is_hex_digit(c: char) -> bool {
    ('0' <= c && c <= '9') || ('a' <= c && c <= 'f') || ('A' <= c && c <= 'F')
}

/// The number that a digit to the base 16 stands for.
pub open spec fn hex_digit_value(c: char) -> nat {
    if '0' <= c && c <= '9' {
        (c as nat - '0' as nat) as nat
    } else if 'a' <= c && c <= 'f' {
        (c as nat - 'a' as nat + 10) as nat
    } else {
        (c as nat - 'A' as nat + 10) as nat
    }
}

/// The place behind the digits to the base 16 that begin at `pos`.
pub open spec fn hex_end(src: Seq<char>, pos: int) -> int
    decreases src.len() - pos,
{
    if 0 <= pos < src.len() && is_hex_digit(src[pos]) {
        hex_end(src, pos + 1)
    } else {
        pos
    }
}

/// The number that digits to the base 16 stand for.
pub open spec fn hex_value(digits: Seq<char>) -> nat
    decreases digits.len(),
{
    if digits.len() == 0 {
        0
    } else {
        hex_value(digits.drop_last()) * 16 + hex_digit_value(digits.last())
    }
}

/// The code point that is written at `pos` in digits to the base 16, and
/// the place behind it.
pub open spec fn code_point_at(src: Seq<char>, pos: int) -> Option<(char, int)> {
    let end = hex_end(src, pos);
    let value = hex_value(src.subrange(pos, end));
    if 0 <= pos < end <= src.len() && value <= 0x10ffff && crate::text::is_char_code(value as u32) {
        Some((value as u32 as char, end))
    } else {
        None
    }
}

/// The code points that a line begins with, and the place behind them: one
/// code point, or two with `..` between them.
pub open spec fn selector_at(src: Seq<char>) -> Option<(Selector, int)> {
    match code_point_at(src, 0) {
        Some((first, p)) => if crate::text::starts_with(src, p, seq!['.', '.']) {
            match code_point_at(src, p + 2) {
                Some((last, q)) => Some((Selector::Range(first, last), q)),
                None => Some((Selector::CodePoint(first), p)),
            }
        } else {
            Some((Selector::CodePoint(first), p))
        },
        None => None,
    }
}

/// What a line of the list says: its code points, `;`, and the letter of
/// their class. `None` for a line that is not of this form.
pub open spec fn entry_of(src: Seq<char>) -> Option<MathListEntry> {
    match selector_at(src) {
        Some((selector, p)) => if 0 <= p && p + 1 < src.len() && src[p] == ';'
            && MathClass::of_letter(src[p + 1]) is Some {
            Some(MathListEntry { selector, math_class: MathClass::of_letter(src[p + 1])->0 })
        } else {
            None
        },
        None => None,
    }
}

/// Whether a character is a digit to the base 16.
fn is_hex(c: char) -> (r: bool)
    ensures
        r == is_hex_digit(c),
{
    ('0' <= c && c <= '9') || ('a' <= c && c <= 'f') || ('A' <= c && c <= 'F')
}

/// The number that a digit to the base 16 stands for.
fn hex_digit_of(c: char) -> (r: u32)
    requires
        is_hex_digit(c),
    ensures
        r == hex_digit_value(c),
        r < 16,
{
    if '0' <= c && c <= '9' {
        c as u32 - 0x30
    } else if 'a' <= c && c <= 'f' {
        c as u32 - 0x61 + 10
    } else {
        c as u32 - 0x41 + 10
    }
}

/// A longer number in digits to the base 16 is not smaller.
proof fn lemma_hex_value_grows(digits: Seq<char>, n: int)
    requires
        0 <= n <= digits.len(),
    ensures
        hex_value(digits.take(n)) <= hex_value(digits),
    decreases digits.len() - n,
{
    if n < digits.len() {
        lemma_hex_value_grows(digits, n + 1);
        assert(digits.take(n + 1).drop_last() == digits.take(n));
    } else {
        assert(digits.take(n) == digits);
    }
}

/// What lies before the end of the digits that begin at `pos` are digits.
proof fn lemma_hex_end(src: Seq<char>, pos: int, i: int)
    requires
        0 <= pos <= i < hex_end(src, pos),
    ensures
        i < src.len(),
        is_hex_digit(src[i]),
    decreases i - pos,
{
    if pos < i {
        lemma_hex_end(src, pos + 1, i);
    }
}

/// The code point that is written at `pos`.
fn parse_code_point(src: &Vec<char>, pos: usize) -> (r: Option<(char, usize)>)
    requires
        pos <= src@.len(),
    ensures
        match r {
            Some((ch, end)) => code_point_at(src@, pos as int) == Some((ch, end as int)) && pos
                < end <= src@.len(),
            None => code_point_at(src@, pos as int) is None,
        },
{
    let len: usize = src.len();
    let mut end: usize = pos;
    while end < len && is_hex(src[end])
        invariant
            pos <= end <= len,
            len == src@.len(),
            hex_end(src@, pos as int) == hex_end(src@, end as int),
        decreases len - end,
    {
        end = end + 1;
    }
    if end == pos {
        return None;
    }
    let ghost digits = src@.subrange(pos as int, end as int);
    let mut value: u32 = 0;
    let mut i: usize = pos;
    assert(digits.take(0) =~= Seq::<char>::empty());
    while i < end
        invariant
            pos <= i <= end <= src@.len(),
            end == hex_end(src@, pos as int),
            digits == src@.subrange(pos as int, end as int),
            value <= 0x10ffff,
            value == hex_value(digits.take(i - pos)),
        decreases end - i,
    {
        let c: char = char_at(src, i);
        proof {
            lemma_hex_end(src@, pos as int, i as int);
            assert(digits.take(i - pos + 1).drop_last() == digits.take(i - pos));
            assert(digits.take(i - pos + 1).last() == c);
        }
        value = value * 16 + hex_digit_of(c);
        assert(value == hex_value(digits.take(i - pos + 1)));
        if value > 0x10ffff {
            proof {
                lemma_hex_value_grows(digits, i - pos + 1);
            }
            return None;
        }
        i = i + 1;
    }
    proof {
        assert(digits.take(end - pos) == digits);
    }
    match char_from_code(value) {
        Some(ch) => Some((ch, end)),
        None => None,
    }
}

/// The code points that a line begins with.
fn parse_selector(src: &Vec<char>) -> (r: Option<(Selector, usize)>)
    ensures
        match r {
            Some((selector, end)) => selector_at(src@) == Some((selector, end as int)) && end
                <= src@.len(),
            None => selector_at(src@) is None,
        },
{
    let (first, p): (char, usize) = match parse_code_point(src, 0) {
        Some(found) => found,
        None => {
            return None;
        },
    };
    let dots: Vec<char> = vec!['.', '.'];
    proof {
        assert(dots@ =~= seq!['.', '.']);
    }
    let len: usize = src.len();
    if has_word_at(src, p, &dots) {
        assert(p + 2 <= len);
        match parse_code_point(src, p + 2) {
            Some((last, q)) => Some((Selector::Range(first, last), q)),
            None => Some((Selector::CodePoint(first), p)),
        }
    } else {
        Some((Selector::CodePoint(first), p))
    }
}

/// What a line of the list says.
fn parse_entry(src: &Vec<char>) -> (r: Option<MathListEntry>)
    ensures
        r == entry_of(src@),
{
    let (selector, p): (Selector, usize) = match parse_selector(src) {
        Some(found) => found,
        None => {
            return None;
        },
    };
    let len: usize = src.len();
    if len - p < 2 || src[p] != ';' {
        return None;
    }
    match MathClass::from_letter(char_at(src, p + 1)) {
        Some(math_class) => Some(MathListEntry { selector, math_class }),
        None => None,
    }
}

impl MathListEntry {
    /// What a line of the list says.
    pub fn parse(src: &str) -> (r: Option<MathListEntry>)
        ensures
            r == entry_of(src@),
    {
        let text: Vec<char> = chars_of(src);
        parse_entry(&text)
    }
}

/// The digit to the base 16 of a number below 16.
pub open spec fn hex_char(d: nat) -> char {
    if d < 10 {
        ('0' as u8 + d as u8) as char
    } else {
        ('a' as u8 + (d - 10) as u8) as char
    }
}

/// A number in digits to the base 16.
pub open spec fn hex(n: nat) -> Seq<char>
    decreases n,
{
    if n < 16 {
        seq![hex_char(n)]
    } else {
        hex(n / 16).push(hex_char(n % 16))
    }
}

/// Digits with zeros in front of them up to a width.
pub open spec fn padded(digits: Seq<char>, width: nat) -> Seq<char> {
    if digits.len() < width {
        Seq::new((width - digits.len()) as nat, |i: int| '0') + digits
    } else {
        digits
    }
}

/// The name of a class of the table.
pub open spec fn class_name(class: CharClassification) -> Seq<char> {
    match class {
        CharClassification::Normal => "Normal"@,
        CharClassification::Alphabetic => "Alphabetic"@,
        CharClassification::Binary => "Binary"@,
        CharClassification::Closing => "Closing"@,
        CharClassification::Diacritic => "Diacritic"@,
        CharClassification::Fence => "Fence"@,
        CharClassification::GlyphPart => "GlyphPart"@,
        CharClassification::Large => "Large"@,
        CharClassification::Opening => "Opening"@,
        CharClassification::Punct => "Punct"@,
        CharClassification::Relation => "Relation"@,
        CharClassification::Space => "Space"@,
        CharClassification::Unary => "Unary"@,
        CharClassification::Vary => "Vary"@,
        CharClassification::Special => "Special"@,
        CharClassification::Ignore => "Ignore"@,
    }
}

/// The line of a row of the table.
pub open spec fn row_text(row: (u32, CharClassification)) -> Seq<char> {
    "    (0x"@ + padded(hex(row.0 as nat), 4) + ", CharClassification::"@ + class_name(row.1)
        + "),\n"@
}

/// The lines of the rows of the table.
pub open spec fn rows_text(rows: Seq<(u32, CharClassification)>) -> Seq<char>
    decreases rows.len(),
{
    if rows.len() == 0 {
        Seq::empty()
    } else {
        rows_text(rows.drop_last()) + row_text(rows.last())
    }
}

/// The text of the table: a constant that holds the rows.
pub open spec fn table_text(rows: Seq<(u32, CharClassification)>) -> Seq<char> {
    "pub const CHAR_CLASSIFICATION: [(u32, CharClassification); "@
        + crate::backend::svg::xml::decimal(rows.len()) + "] = [\n"@ + rows_text(rows) + "];\n"@
}

/// Whether rows are the table of the classes of a map: sorted, from code
/// point 0 on, with the class of the map for every code point, and with no
/// row of the class of the row before it.
pub open spec fn is_table_of(rows: Seq<(u32, CharClassification)>, classes: Map<u32, MathClass>) -> bool {
    &&& crate::parser::tables::sorted(rows)
    &&& rows.len() > 0
    &&& rows[0].0 == 0
    &&& forall|code: u32| #[trigger]
        crate::parser::tables::class_in(rows, code) == classes[code].classification()
    &&& forall|i: int| 0 <= i < rows.len() - 1 ==> (#[trigger] rows[i]).1 != rows[i + 1].1
}

/// Writes a number in digits to the base 16.
pub fn write_hex(n: u32, out: &mut String)
    ensures
        final(out)@ == old(out)@ + hex(n as nat),
    decreases n,
{
    if n >= 16 {
        write_hex(n / 16, out);
    }
    let d: u8 = (n % 16) as u8;
    let digit: char = if d < 10 {
        (0x30u8 + d) as char
    } else {
        (0x61u8 + (d - 10)) as char
    };
    push_char(out, digit);
    proof {
        if n < 16 {
            assert(old(out)@.push(digit) =~= old(out)@ + hex(n as nat));
        } else {
            assert((old(out)@ + hex((n / 16) as nat)).push(digit) =~= old(out)@ + hex(n as nat));
        }
    }
}

/// How many digits to the base 16 a number has.
fn hex_len(n: u32) -> (r: usize)
    ensures
        r == hex(n as nat).len(),
        1 <= r <= 8,
    decreases n,
{
    if n < 16 {
        1
    } else {
        let rest: usize = hex_len(n / 16);
        assert(rest <= 7) by {
            lemma_hex_short((n / 16) as nat);
        }
        rest + 1
    }
}

/// A number below 16 to the power of 7 has at most 7 digits to the base 16.
proof fn lemma_hex_short(n: nat)
    requires
        n < 0x1000_0000,
    ensures
        hex(n).len() <= 7,
{
    reveal_with_fuel(hex, 8);
}

/// The name of a class of the table.
pub fn name_of(class: CharClassification) -> (r: &'static str)
    ensures
        r@ == class_name(class),
{
    match class {
        CharClassification::Normal => "Normal",
        CharClassification::Alphabetic => "Alphabetic",
        CharClassification::Binary => "Binary",
        CharClassification::Closing => "Closing",
        CharClassification::Diacritic => "Diacritic",
        CharClassification::Fence => "Fence",
        CharClassification::GlyphPart => "GlyphPart",
        CharClassification::Large => "Large",
        CharClassification::Opening => "Opening",
        CharClassification::Punct => "Punct",
        CharClassification::Relation => "Relation",
        CharClassification::Space => "Space",
        CharClassification::Unary => "Unary",
        CharClassification::Vary => "Vary",
        CharClassification::Special => "Special",
        CharClassification::Ignore => "Ignore",
    }
}

/// Writes the line of a row of the table.
fn write_row(row: (u32, CharClassification), out: &mut String)
    ensures
        final(out)@ == old(out)@ + row_text(row),
{
    out.append("    (0x");
    let digits: usize = hex_len(row.0);
    let ghost before = out@;
    let mut i: usize = digits;
    while i < 4
        invariant
            digits <= i,
            digits < 4 ==> i <= 4,
            digits >= 4 ==> i == digits,
            out@ == before + Seq::new((i - digits) as nat, |k: int| '0'),
        decreases 4 - i,
    {
        push_char(out, '0');
        i = i + 1;
        assert(out@ =~= before + Seq::new((i - digits) as nat, |k: int| '0'));
    }
    let ghost zeros = Seq::new((i - digits) as nat, |k: int| '0');
    write_hex(row.0, out);
    proof {
        assert(out@ == before + zeros + hex(row.0 as nat));
        if digits < 4 {
            assert(zeros =~= Seq::new((4 - digits) as nat, |k: int| '0'));
        } else {
            assert(zeros =~= Seq::<char>::empty());
        }
        assert(out@ =~= before + padded(hex(row.0 as nat), 4));
    }
    out.append(", CharClassification::");
    out.append(name_of(row.1));
    out.append("),\n");
    assert(out@ =~= old(out)@ + row_text(row));
}

/// The text of the table with these rows.
pub fn classification_text(rows: &Vec<(u32, CharClassification)>) -> (r: String)
    ensures
        r@ == table_text(rows@),
{
    let mut out: String = String::new();
    out.append("pub const CHAR_CLASSIFICATION: [(u32, CharClassification); ");
    write_decimal(rows.len() as u64, &mut out);
    out.append("] = [\n");
    let ghost head = out@;
    let n: usize = rows.len();
    let mut i: usize = 0;
    assert(head + rows_text(rows@.take(0)) =~= head);
    while i < n
        invariant
            i <= n,
            n == rows@.len(),
            out@ == head + rows_text(rows@.take(i as int)),
        decreases n - i,
    {
        proof {
            assert(rows@.take(i + 1).drop_last() == rows@.take(i as int));
            assert(rows@.take(i + 1).last() == rows@[i as int]);
        }
        write_row(rows[i], &mut out);
        i = i + 1;
        assert(out@ =~= head + rows_text(rows@.take(i as int)));
    }
    proof {
        assert(rows@.take(n as int) == rows@);
    }
    out.append("];\n");
    assert(out@ =~= table_text(rows@));
    out
}

impl Data {
    /// The text of the table of the classes.
    pub fn print_classification(&self) -> (r: String)
        requires
            self.wf(),
        ensures
            exists|rows: Seq<(u32, CharClassification)>|
                is_table_of(rows, self.classes()) && r@ == #[trigger] table_text(rows),
    {
        let rows: Vec<(u32, CharClassification)> = self.rows();
        classification_text(&rows)
    }
}

/// The place of the line feed that ends the line that begins at `pos`, or
/// the end of the text.
pub open spec fn line_end(src: Seq<char>, pos: int) -> int
    decreases src.len() - pos,
{
    if 0 <= pos < src.len() && src[pos] != '\n' {
        line_end(src, pos + 1)
    } else {
        pos
    }
}

/// The line that begins at `pos`, without its line feed and without a
/// carriage return before that.
pub open spec fn line_at(src: Seq<char>, pos: int) -> Seq<char> {
    let end = line_end(src, pos);
    if pos < end < src.len() && src[end - 1] == '\r' {
        src.subrange(pos, end - 1)
    } else {
        src.subrange(pos, end)
    }
}

/// Where the line after the one that begins at `pos` begins.
pub open spec fn next_line(src: Seq<char>, pos: int) -> int {
    let end = line_end(src, pos);
    if end < src.len() {
        end + 1
    } else {
        end
    }
}

/// Whether a line says nothing: an empty line, and one that begins with `#`.
pub open spec fn is_comment(line: Seq<char>) -> bool {
    line.len() == 0 || line[0] == '#'
}

/// The classes after the lines of a list from `pos` on, each line counting
/// before those above it, and whether every line could be read. Reading ends
/// at the first line that is not of the form of a line, or speaks of a range
/// that ends before it begins: the lines before it have counted, that line
/// and those after it do not.
pub open spec fn after_lines(classes: Map<u32, MathClass>, src: Seq<char>, pos: int) -> (
    Map<u32, MathClass>,
    bool,
)
    decreases src.len() - pos,
{
    if !(0 <= pos < src.len()) {
        (classes, true)
    } else {
        let line = line_at(src, pos);
        let next = next_line(src, pos);
        if !(pos < next <= src.len()) {
            (classes, true)
        } else if is_comment(line) {
            after_lines(classes, src, next)
        } else {
            match entry_of(line) {
                Some(entry) => if entry.selector.first() as u32 <= entry.selector.last() as u32 {
                    after_lines(
                        with_range(
                            classes,
                            entry.selector.first() as u32,
                            entry.selector.last() as u32,
                            entry.math_class,
                        ),
                        src,
                        next,
                    )
                } else {
                    (classes, false)
                },
                None => (classes, false),
            }
        }
    }
}

/// Reads a list of classes line by line into the classes, up to the first
/// line that cannot be read. The result says whether every line could be
/// read; the lines before one that could not count all the same.
pub fn parse_math_class_txt(text: &str, d: &mut Data) -> (ok: bool)
    requires
        old(d).wf(),
    ensures
        final(d).wf(),
        final(d).classes() == after_lines(old(d).classes(), text@, 0).0,
        ok == after_lines(old(d).classes(), text@, 0).1,
{
    let src: Vec<char> = chars_of(text);
    let len: usize = src.len();
    let mut pos: usize = 0;
    while pos < len
        invariant
            pos <= len,
            len == src@.len(),
            src@ == text@,
            d.wf(),
            after_lines(old(d).classes(), src@, 0) == after_lines(d.classes(), src@, pos as int),
        decreases len - pos,
    {
        let mut end: usize = pos;
        while end < len && src[end] != '\n'
            invariant
                pos <= end <= len,
                len == src@.len(),
                line_end(src@, pos as int) == line_end(src@, end as int),
            decreases len - end,
        {
            end = end + 1;
        }
        let stop: usize = if end < len && end > pos && src[end - 1] == '\r' {
            end - 1
        } else {
            end
        };
        let next: usize = if end < len {
            end + 1
        } else {
            end
        };
        let mut line: Vec<char> = Vec::new();
        let mut i: usize = pos;
        while i < stop
            invariant
                pos <= i <= stop <= len,
                len == src@.len(),
                line@ == src@.subrange(pos as int, i as int),
            decreases stop - i,
        {
            line.push(src[i]);
            i = i + 1;
            assert(line@ =~= src@.subrange(pos as int, i as int));
        }
        assert(line@ == line_at(src@, pos as int));
        if line.len() > 0 && line[0] != '#' {
            match parse_entry(&line) {
                Some(entry) => {
                    if entry.selector.start() as u32 > entry.selector.stop() as u32 {
                        return false;
                    }
                    d.add_range(entry.selector, entry.math_class);
                },
                None => {
                    return false;
                },
            }
        }
        pos = next;
    }
    true
}

} // verus!
