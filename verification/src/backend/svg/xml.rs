//! The metadata of a vector image: how a text is written into an element of
//! the image, and how the metadata elements of an image are read.

use vstd::prelude::*;

use crate::text::{
    char_at, chars_of, has_word_at, push_char, skip_digits, skip_letters, skip_whitespace, text_of,
};

verus! {

/// Whether a character is written as a character reference: the control
/// characters but tab, line feed, carriage return and next line; `<`, `>` and
/// `&`; and the code points that are no characters.
pub open spec fn needs_escape(ch: char) -> bool {
    let code = ch as u32;
    if code == 0x09 || code == 0x0a || code == 0x0d {
        false
    } else if code <= 0x1a {
        true
    } else if ch == '<' || ch == '>' || ch == '&' {
        true
    } else if code == 0x85 {
        false
    } else if 0x7f <= code <= 0x9f {
        true
    } else if 0xfdd0 <= code <= 0xfdef {
        true
    } else {
        code % 0x10000 == 0xfffe || code % 0x10000 == 0xffff
    }
}

/// The digit of a number below 10.
pub open spec fn digit_char(d: nat) -> char {
    ('0' as u8 + d as u8) as char
}

/// A number in decimal digits.
pub open spec fn decimal(n: nat) -> Seq<char>
    decreases n,
{
    if n < 10 {
        seq![digit_char(n)]
    } else {
        decimal(n / 10).push(digit_char(n % 10))
    }
}

/// How a character is written: as itself, or as the reference `&#`, its code
/// point in decimal digits, and `;`.
pub open spec fn escaped_char(ch: char) -> Seq<char> {
    if needs_escape(ch) {
        seq!['&', '#'] + decimal(ch as nat) + seq![';']
    } else {
        seq![ch]
    }
}

/// How a text is written: character by character.
pub open spec fn escaped(text: Seq<char>) -> Seq<char>
    decreases text.len(),
{
    if text.len() == 0 {
        Seq::empty()
    } else {
        escaped(text.drop_last()) + escaped_char(text.last())
    }
}

/// The number that decimal digits stand for.
pub open spec fn decimal_value(digits: Seq<char>) -> nat
    decreases digits.len(),
{
    if digits.len() == 0 {
        0
    } else {
        decimal_value(digits.drop_last()) * 10 + (digits.last() as nat - '0' as nat) as nat
    }
}

/// The place of the first `"` at or after `pos`, or the end of the text.
pub open spec fn quote_at(src: Seq<char>, pos: int) -> int
    decreases src.len() - pos,
{
    if 0 <= pos < src.len() && src[pos] != '"' {
        quote_at(src, pos + 1)
    } else {
        pos
    }
}

/// The attribute that begins at `pos`: its name, its value and the place
/// behind it. An attribute is a name of letters, `=`, and a value between
/// two `"`, with any white space around each of them.
pub open spec fn attr_at(src: Seq<char>, pos: int) -> Option<(Seq<char>, Seq<char>, int)> {
    let start = crate::text::skip_spaces(src, pos);
    let end = crate::text::letters_end(src, start);
    let equals = crate::text::skip_spaces(src, end);
    let open = crate::text::skip_spaces(src, equals + 1);
    let close = quote_at(src, open + 1);
    if 0 <= pos <= start < end <= equals < open < close < src.len() && src[equals] == '='
        && src[open] == '"' {
        Some(
            (
                src.subrange(start, end),
                src.subrange(open + 1, close),
                crate::text::skip_spaces(src, close + 1),
            ),
        )
    } else {
        None
    }
}

/// The place behind the attributes that begin at `pos`.
pub open spec fn attrs_end(src: Seq<char>, pos: int) -> int
    decreases src.len() - pos,
{
    match attr_at(src, pos) {
        Some((_, _, end)) => if pos < end <= src.len() {
            attrs_end(src, end)
        } else {
            pos
        },
        None => pos,
    }
}

/// The character reference that begins at `pos`, and the place behind it:
/// `&#`, the decimal digits of a code point up to 255, and `;`.
pub open spec fn reference_at(src: Seq<char>, pos: int) -> Option<(char, int)> {
    let end = crate::text::digits_end(src, pos + 2);
    if crate::text::starts_with(src, pos, seq!['&', '#']) && pos + 2 < end < src.len() && src[end]
        == ';' && decimal_value(src.subrange(pos + 2, end)) <= 255 {
        Some((decimal_value(src.subrange(pos + 2, end)) as u8 as char, end + 1))
    } else {
        None
    }
}

/// The text written from `pos` up to the next `<`, and the place where it
/// ends. A character reference stands for its character; what does not make
/// a reference stands for itself.
pub open spec fn unescaped_at(src: Seq<char>, pos: int) -> (Seq<char>, int)
    decreases src.len() - pos,
{
    if !(0 <= pos < src.len()) {
        (Seq::empty(), pos)
    } else {
        match reference_at(src, pos) {
            Some((ch, end)) => if pos < end <= src.len() {
                (seq![ch] + unescaped_at(src, end).0, unescaped_at(src, end).1)
            } else {
                (Seq::empty(), pos)
            },
            None => if src[pos] == '<' {
                (Seq::empty(), pos)
            } else {
                (seq![src[pos]] + unescaped_at(src, pos + 1).0, unescaped_at(src, pos + 1).1)
            },
        }
    }
}

/// The opening of a metadata element.
pub open spec fn metadata_open() -> Seq<char> {
    seq!['<', 'm', 'e', 't', 'a', 'd', 'a', 't', 'a', ' ']
}

/// The closing of a metadata element.
pub open spec fn metadata_close() -> Seq<char> {
    seq!['<', '/', 'm', 'e', 't', 'a', 'd', 'a', 't', 'a', '>']
}

/// The opening of the image.
pub open spec fn svg_open() -> Seq<char> {
    seq!['<', 's', 'v', 'g', ' ']
}

/// The metadata element that begins at `pos`: the value of its attribute
/// `id`, its text, and the place behind it.
pub open spec fn metadata_tag_at(src: Seq<char>, pos: int) -> Option<(Seq<char>, Seq<char>, int)> {
    let start = crate::text::skip_spaces(src, pos);
    if 0 <= pos && crate::text::starts_with(src, start, metadata_open()) {
        match attr_at(src, start + 10) {
            Some((name, value, behind)) => {
                let close = crate::text::skip_spaces(src, behind);
                let (content, end) = unescaped_at(src, close + 1);
                if name == seq!['i', 'd'] && 0 <= close < src.len() && src[close] == '>'
                    && crate::text::starts_with(src, end, metadata_close()) {
                    Some((value, content, end + 11))
                } else {
                    None
                }
            },
            None => None,
        }
    } else {
        None
    }
}

/// The metadata elements that begin at `pos`, one after the other.
pub open spec fn metadata_tags_at(src: Seq<char>, pos: int) -> Seq<(Seq<char>, Seq<char>)>
    decreases src.len() - pos,
{
    match metadata_tag_at(src, pos) {
        Some((key, value, end)) => if pos < end <= src.len() {
            seq![(key, value)] + metadata_tags_at(src, end)
        } else {
            Seq::empty()
        },
        None => Seq::empty(),
    }
}

/// The metadata of an image: the elements that follow the opening tag of the
/// image. `None` where the text does not begin with the opening tag of an
/// image.
pub open spec fn metadata_of(src: Seq<char>) -> Option<Seq<(Seq<char>, Seq<char>)>> {
    let start = crate::text::skip_spaces(src, 0);
    if crate::text::starts_with(src, start, svg_open()) {
        let close = crate::text::skip_spaces(src, attrs_end(src, start + 5));
        if 0 <= close < src.len() && src[close] == '>' {
            Some(metadata_tags_at(src, close + 1))
        } else {
            None
        }
    } else {
        None
    }
}

/// The views of a list of pairs of texts.
pub open spec fn pairs_view(pairs: Seq<(String, String)>) -> Seq<(Seq<char>, Seq<char>)> {
    Seq::new(pairs.len(), |i: int| (pairs[i].0@, pairs[i].1@))
}

/// The text of an attribute: its name, `=`, and its value between two `"`.
pub open spec fn attr_text(name: Seq<char>, value: Seq<char>) -> Seq<char> {
    name + seq!['=', '"'] + value + seq!['"']
}

/// The texts of attributes with a space between each two of them.
pub open spec fn attrs_text(attrs: Seq<(Seq<char>, Seq<char>)>) -> Seq<char>
    decreases attrs.len(),
{
    if attrs.len() == 0 {
        Seq::empty()
    } else if attrs.len() == 1 {
        attr_text(attrs[0].0, attrs[0].1)
    } else {
        attr_text(attrs[0].0, attrs[0].1) + seq![' '] + attrs_text(attrs.drop_first())
    }
}

/// Whether attributes can be read as they are written: every name is made
/// of letters, and no value holds a `"`.
pub open spec fn attrs_plain(attrs: Seq<(Seq<char>, Seq<char>)>) -> bool {
    forall|i: int|
        0 <= i < attrs.len() ==> {
            &&& (#[trigger] attrs[i]).0.len() >= 1
            &&& forall|k: int|
                0 <= k < attrs[i].0.len() ==> crate::text::is_letter(#[trigger] attrs[i].0[k])
            &&& forall|k: int| 0 <= k < attrs[i].1.len() ==> #[trigger] attrs[i].1[k] != '"'
        }
}

/// The first `"` at or after `pos` is where no `"` stands before it.
pub proof fn lemma_quote_at(src: Seq<char>, pos: int, end: int)
    requires
        0 <= pos <= end <= src.len(),
        forall|k: int| pos <= k < end ==> #[trigger] src[k] != '"',
        end == src.len() || src[end] == '"',
    ensures
        quote_at(src, pos) == end,
    decreases end - pos,
{
    if pos < end {
        assert(src[pos] != '"');
        lemma_quote_at(src, pos + 1, end);
    }
}

/// An attribute that is written with a name of letters and a value without
/// `"` is read as it was written.
pub proof fn lemma_attr_read(src: Seq<char>, pos: int, name: Seq<char>, value: Seq<char>)
    requires
        0 <= pos,
        pos + attr_text(name, value).len() <= src.len(),
        src.subrange(pos, pos + attr_text(name, value).len()) == attr_text(name, value),
        name.len() >= 1,
        forall|k: int| 0 <= k < name.len() ==> crate::text::is_letter(#[trigger] name[k]),
        forall|k: int| 0 <= k < value.len() ==> #[trigger] value[k] != '"',
    ensures
        attr_at(src, pos) == Some(
            (
                name,
                value,
                crate::text::skip_spaces(src, pos + attr_text(name, value).len()),
            ),
        ),
{
    let text = attr_text(name, value);
    let len = text.len() as int;
    assert forall|k: int| 0 <= k < len implies src[pos + k] == text[k] by {
        assert(src.subrange(pos, pos + len)[k] == src[pos + k]);
    }
    let end = pos + name.len();
    let open = end + 1;
    let close = open + 1 + value.len();
    assert(close == pos + len - 1);
    assert forall|k: int| pos <= k < end implies crate::text::is_letter(#[trigger] src[k]) by {
        assert(src[k] == text[k - pos]);
        assert(text[k - pos] == name[k - pos]);
    }
    assert(src[end] == text[name.len() as int]);
    assert(src[end] == '=');
    assert(src[open] == text[name.len() as int + 1]);
    assert(src[open] == '"');
    assert(src[close] == text[len - 1]);
    assert(src[close] == '"');
    assert(crate::text::is_letter(src[pos]));
    crate::text::lemma_skip_spaces_to(src, pos, pos);
    crate::text::lemma_letters_end_at(src, pos, end);
    crate::text::lemma_skip_spaces_to(src, end, end);
    crate::text::lemma_skip_spaces_to(src, open, open);
    assert forall|k: int| open + 1 <= k < close implies #[trigger] src[k] != '"' by {
        assert(src[k] == text[k - pos]);
        assert(text[k - pos] == value[k - open - 1]);
    }
    lemma_quote_at(src, open + 1, close);
    assert(src.subrange(pos, end) =~= name);
    assert forall|k: int| 0 <= k < value.len() implies src.subrange(open + 1, close)[k]
        == value[k] by {
        assert(src[open + 1 + k] == text[open + 1 + k - pos]);
        assert(text[open + 1 + k - pos] == value[k]);
    }
    assert(src.subrange(open + 1, close) =~= value);
}

/// Attributes that are written with a space between each two of them, and
/// with a `>` behind the last, end at the `>`.
pub proof fn lemma_attrs_read(src: Seq<char>, pos: int, attrs: Seq<(Seq<char>, Seq<char>)>)
    requires
        0 <= pos,
        attrs_plain(attrs),
        pos + attrs_text(attrs).len() < src.len(),
        src.subrange(pos, pos + attrs_text(attrs).len()) == attrs_text(attrs),
        src[pos + attrs_text(attrs).len()] == '>',
    ensures
        attrs_end(src, pos) == pos + attrs_text(attrs).len(),
    decreases attrs.len(),
{
    let text = attrs_text(attrs);
    let len = text.len() as int;
    assert forall|k: int| 0 <= k < len implies src[pos + k] == text[k] by {
        assert(src.subrange(pos, pos + len)[k] == src[pos + k]);
    }
    if attrs.len() == 0 {
        crate::text::lemma_skip_spaces_to(src, pos, pos);
        crate::text::lemma_letters_end_at(src, pos, pos);
        assert(attr_at(src, pos) is None);
    } else {
        let first = attr_text(attrs[0].0, attrs[0].1);
        let n = first.len() as int;
        assert forall|k: int| 0 <= k < n implies src.subrange(pos, pos + n)[k] == first[k] by {
            assert(src[pos + k] == text[k]);
        }
        assert(src.subrange(pos, pos + n) =~= first);
        lemma_attr_read(src, pos, attrs[0].0, attrs[0].1);
        if attrs.len() == 1 {
            crate::text::lemma_skip_spaces_to(src, pos + n, pos + n);
            let none = attrs.drop_first();
            assert(attrs_text(none) =~= Seq::<char>::empty());
            assert(src.subrange(pos + n, pos + n) =~= attrs_text(none));
            lemma_attrs_read(src, pos + n, none);
        } else {
            let rest = attrs.drop_first();
            let more = attrs_text(rest);
            assert(text == first + seq![' '] + more);
            assert(attrs_plain(rest)) by {
                assert forall|i: int| 0 <= i < rest.len() implies {
                    &&& (#[trigger] rest[i]).0.len() >= 1
                    &&& forall|k: int|
                        0 <= k < rest[i].0.len() ==> crate::text::is_letter(#[trigger] rest[i].0[k])
                    &&& forall|k: int| 0 <= k < rest[i].1.len() ==> #[trigger] rest[i].1[k] != '"'
                } by {
                    assert(rest[i] == attrs[i + 1]);
                }
            }
            assert(rest[0] == attrs[1]);
            assert(more.len() >= 1) by {
                assert(attr_text(rest[0].0, rest[0].1).len() >= 1);
            }
            assert(src[pos + n] == text[n]);
            assert(text[n] == ' ');
            let next = pos + n + 1;
            assert(src[next] == text[n + 1]);
            assert(text[n + 1] == more[0]);
            assert(more[0] == rest[0].0[0]) by {
                let a = attr_text(rest[0].0, rest[0].1);
                assert(a[0] == rest[0].0[0]);
                if rest.len() > 1 {
                    assert(more == a + seq![' '] + attrs_text(rest.drop_first()));
                }
            }
            assert(crate::text::is_letter(rest[0].0[0]));
            crate::text::lemma_skip_spaces_to(src, pos + n, next);
            assert forall|k: int| 0 <= k < more.len() implies src.subrange(next, next + more.len())[k]
                == more[k] by {
                assert(src[next + k] == text[n + 1 + k]);
            }
            assert(src.subrange(next, next + more.len()) =~= more);
            lemma_attrs_read(src, next, rest);
        }
    }
}

/// The texts of attributes with one more attribute behind them.
pub proof fn lemma_attrs_text_push(attrs: Seq<(Seq<char>, Seq<char>)>, last: (Seq<char>, Seq<char>))
    ensures
        attrs_text(attrs.push(last)) == (if attrs.len() == 0 {
            attr_text(last.0, last.1)
        } else {
            attrs_text(attrs) + seq![' '] + attr_text(last.0, last.1)
        }),
    decreases attrs.len(),
{
    let all = attrs.push(last);
    if attrs.len() == 0 {
        assert(all[0] == last);
    } else {
        let rest = attrs.drop_first();
        lemma_attrs_text_push(rest, last);
        assert(all.drop_first() =~= rest.push(last));
        assert(all[0] == attrs[0]);
        if attrs.len() == 1 {
            assert(rest.len() == 0);
            assert(attrs_text(all) =~= attrs_text(attrs) + seq![' '] + attr_text(last.0, last.1));
        } else {
            assert(attrs_text(all) =~= attrs_text(attrs) + seq![' '] + attr_text(last.0, last.1));
        }
    }
}

/// Whether a character can be read back from what is written for it: one
/// that is written as itself, and one that is written as a reference and has
/// a code point up to 255.
pub open spec fn reads_back(ch: char) -> bool {
    !needs_escape(ch) || ch as u32 <= 255
}

/// The digits of a number are digits.
pub proof fn lemma_decimal_digits(n: nat)
    ensures
        decimal(n).len() >= 1,
        forall|k: int| 0 <= k < decimal(n).len() ==> crate::text::is_digit(#[trigger] decimal(n)[k]),
        decimal_value(decimal(n)) == n,
    decreases n,
{
    let last = digit_char(n % 10);
    assert(last as nat == 48 + n % 10);
    assert('0' as nat == 48);
    assert(crate::text::is_digit(last));
    if n >= 10 {
        lemma_decimal_digits(n / 10);
        assert(decimal(n).drop_last() == decimal(n / 10));
        assert(decimal(n).last() == last);
        assert forall|k: int| 0 <= k < decimal(n).len() implies crate::text::is_digit(
            #[trigger] decimal(n)[k],
        ) by {
            if k < decimal(n).len() - 1 {
                assert(decimal(n)[k] == decimal(n / 10)[k]);
            }
        }
    } else {
        assert(decimal(n) =~= seq![last]);
        assert(decimal(n).drop_last() =~= Seq::<char>::empty());
        assert(decimal_value(decimal(n).drop_last()) == 0);
    }
}

/// The digits that begin at `pos` end where a character follows that is no
/// digit.
pub proof fn lemma_digits_end_at(src: Seq<char>, pos: int, end: int)
    requires
        0 <= pos <= end <= src.len(),
        forall|k: int| pos <= k < end ==> crate::text::is_digit(#[trigger] src[k]),
        end == src.len() || !crate::text::is_digit(src[end]),
    ensures
        crate::text::digits_end(src, pos) == end,
    decreases end - pos,
{
    if pos < end {
        assert(crate::text::is_digit(src[pos]));
        lemma_digits_end_at(src, pos + 1, end);
    }
}

/// What is written for the first characters of a text is the beginning of
/// what is written for the text.
pub proof fn lemma_escaped_begins(text: Seq<char>, n: int)
    requires
        0 <= n <= text.len(),
    ensures
        escaped(text.take(n)).len() <= escaped(text).len(),
        escaped(text).take(escaped(text.take(n)).len() as int) == escaped(text.take(n)),
        n < text.len() ==> escaped(text.take(n + 1)) == escaped(text.take(n)) + escaped_char(
            text[n],
        ),
    decreases text.len() - n,
{
    if n < text.len() {
        assert(text.take(n + 1).drop_last() == text.take(n));
        lemma_escaped_begins(text, n + 1);
        let shorter = escaped(text.take(n));
        let longer = escaped(text.take(n + 1));
        assert(longer.take(shorter.len() as int) =~= shorter);
        assert(escaped(text).take(shorter.len() as int) =~= escaped(text).take(
            longer.len() as int,
        ).take(shorter.len() as int));
    } else {
        assert(text.take(n) == text);
        assert(escaped(text).take(escaped(text).len() as int) =~= escaped(text));
    }
}

/// What is read behind the first `n` characters of a text that was written
/// into a longer text at `start` is the rest of the text, where every
/// character of it can be read back and a `<` or nothing follows what was
/// written.
pub proof fn lemma_read_back_in(src: Seq<char>, start: int, text: Seq<char>, n: int)
    requires
        0 <= start,
        start + escaped(text).len() <= src.len(),
        src.subrange(start, start + escaped(text).len()) == escaped(text),
        start + escaped(text).len() == src.len() || src[start + escaped(text).len()] == '<',
        forall|i: int| 0 <= i < text.len() ==> reads_back(#[trigger] text[i]),
        0 <= n <= text.len(),
    ensures
        unescaped_at(src, start + escaped(text.take(n)).len()) == (
            text.skip(n),
            start + escaped(text).len(),
        ),
    decreases text.len() - n,
{
    let whole = escaped(text);
    let stop = start + whole.len();
    let pos = start + escaped(text.take(n)).len();
    lemma_escaped_begins(text, n);
    if n == text.len() {
        assert(text.take(n) == text);
        assert(text.skip(n) =~= Seq::<char>::empty());
        if pos < src.len() {
            assert(!crate::text::starts_with(src, pos, seq!['&', '#'])) by {
                if pos + 2 <= src.len() {
                    assert(src.subrange(pos, pos + 2)[0] == src[pos]);
                }
            }
        }
    } else {
        let ch = text[n];
        let piece = escaped_char(ch);
        let next = start + escaped(text.take(n + 1)).len();
        lemma_escaped_begins(text, n + 1);
        lemma_read_back_in(src, start, text, n + 1);
        assert(next == pos + piece.len());
        assert(next <= stop);
        assert forall|k: int| 0 <= k < piece.len() implies src[pos + k] == piece[k] by {
            let at = pos - start + k;
            assert(src.subrange(start, stop)[at] == src[pos + k]);
            assert(whole.take(next - start)[at] == whole[at]);
            assert(escaped(text.take(n + 1))[at] == piece[k]);
        }
        assert(text.skip(n) =~= seq![ch] + text.skip(n + 1));
        assert(reads_back(ch));
        if needs_escape(ch) {
            let digits = decimal(ch as nat);
            lemma_decimal_digits(ch as nat);
            assert(piece =~= seq!['&', '#'] + digits + seq![';']);
            assert(piece.len() == digits.len() + 3);
            assert(src[pos] == piece[0]);
            assert(src[pos + 1] == piece[1]);
            assert(src.subrange(pos, pos + 2) =~= seq!['&', '#']);
            let end = pos + 2 + digits.len() as int;
            assert forall|k: int| pos + 2 <= k < end implies crate::text::is_digit(
                #[trigger] src[k],
            ) by {
                assert(src[k] == piece[k - pos]);
                assert(piece[k - pos] == digits[k - pos - 2]);
            }
            assert(src[end] == piece[digits.len() as int + 2]);
            assert(src[end] == ';');
            lemma_digits_end_at(src, pos + 2, end);
            assert forall|k: int| 0 <= k < digits.len() implies src.subrange(pos + 2, end)[k]
                == digits[k] by {
                assert(src[pos + 2 + k] == piece[k + 2]);
                assert(piece[k + 2] == digits[k]);
            }
            assert(src.subrange(pos + 2, end) =~= digits);
            let value = decimal_value(digits);
            assert(value == ch as nat);
            assert(ch as u32 <= 255);
            let code: u32 = ch as u32;
            let byte: u8 = value as u8;
            vstd::utf8::char_u32_cast(ch, code);
            assert(byte as u32 == code);
            assert(byte as char == code as char);
            assert(crate::text::starts_with(src, pos, seq!['&', '#']));
            assert(crate::text::digits_end(src, pos + 2) == end);
            assert(pos + 2 < end < src.len());
            assert(reference_at(src, pos) == Some((ch, end + 1)));
        } else {
            assert(piece =~= seq![ch]);
            assert(src[pos] == piece[0]);
            assert(src[pos] == ch);
            assert(!crate::text::starts_with(src, pos, seq!['&', '#'])) by {
                if pos + 2 <= src.len() {
                    assert(src.subrange(pos, pos + 2)[0] == src[pos]);
                }
            }
            assert(reference_at(src, pos) is None);
        }
    }
}

/// A text that was written is read back as it was, where every character of
/// it can be read back and a `<` or nothing follows what was written.
pub proof fn lemma_read_back(text: Seq<char>, rest: Seq<char>)
    requires
        forall|i: int| 0 <= i < text.len() ==> reads_back(#[trigger] text[i]),
        rest.len() == 0 || rest[0] == '<',
    ensures
        unescaped_at(escaped(text) + rest, 0) == (text, escaped(text).len() as int),
{
    let src = escaped(text) + rest;
    assert(src.subrange(0, escaped(text).len() as int) =~= escaped(text));
    if rest.len() > 0 {
        assert(src[escaped(text).len() as int] == rest[0]);
    }
    lemma_read_back_in(src, 0, text, 0);
    assert(text.take(0) =~= Seq::<char>::empty());
    assert(text.skip(0) =~= text);
}

/// Whether a character is written as a character reference.
pub fn must_escape(ch: char) -> (r: bool)
    ensures
        r == needs_escape(ch),
{
    let code: u32 = ch as u32;
    if code == 0x09 || code == 0x0a || code == 0x0d {
        false
    } else if code <= 0x1a {
        true
    } else if ch == '<' || ch == '>' || ch == '&' {
        true
    } else if code == 0x85 {
        false
    } else if 0x7f <= code && code <= 0x9f {
        true
    } else if 0xfdd0 <= code && code <= 0xfdef {
        true
    } else {
        code % 0x10000 == 0xfffe || code % 0x10000 == 0xffff
    }
}

/// Writes a number in decimal digits.
pub fn write_decimal(n: u64, out: &mut String)
    ensures
        final(out)@ == old(out)@ + decimal(n as nat),
    decreases n,
{
    if n >= 10 {
        write_decimal(n / 10, out);
    }
    let d: u8 = (n % 10) as u8;
    let digit: char = (0x30u8 + d) as char;
    push_char(out, digit);
    proof {
        if n < 10 {
            assert(old(out)@.push(digit) =~= old(out)@ + decimal(n as nat));
        } else {
            assert((old(out)@ + decimal((n / 10) as nat)).push(digit) =~= old(out)@ + decimal(
                n as nat,
            ));
        }
    }
}

/// Writes a text so that it can stand in an element: each character as
/// itself, or as a character reference where it could not.
pub fn write_escaped_string(s: &str, out: &mut String)
    ensures
        final(out)@ == old(out)@ + escaped(s@),
{
    let text: Vec<char> = chars_of(s);
    let n: usize = text.len();
    let mut i: usize = 0;
    assert(old(out)@ + escaped(text@.take(0)) =~= old(out)@);
    while i < n
        invariant
            i <= n,
            n == text@.len(),
            out@ == old(out)@ + escaped(text@.take(i as int)),
        decreases n - i,
    {
        let ch: char = char_at(&text, i);
        let ghost before = out@;
        proof {
            assert(text@.take(i + 1).drop_last() == text@.take(i as int));
            assert(text@.take(i + 1).last() == ch);
        }
        if must_escape(ch) {
            push_char(out, '&');
            push_char(out, '#');
            write_decimal(ch as u64, out);
            push_char(out, ';');
            assert(out@ =~= before + (seq!['&', '#'] + decimal(ch as nat) + seq![';']));
        } else {
            push_char(out, ch);
            assert(out@ =~= before + seq![ch]);
        }
        i = i + 1;
        assert(out@ =~= old(out)@ + escaped(text@.take(i as int)));
    }
    assert(text@.take(n as int) == text@);
}

/// The place of the first `"` at or after `pos`, or the end of the text.
fn find_quote(src: &Vec<char>, pos: usize) -> (r: usize)
    requires
        pos <= src@.len(),
    ensures
        r == quote_at(src@, pos as int),
        pos <= r <= src@.len(),
{
    let mut p: usize = pos;
    while p < src.len() && src[p] != '"'
        invariant
            pos <= p <= src@.len(),
            quote_at(src@, pos as int) == quote_at(src@, p as int),
        decreases src@.len() - p,
    {
        p = p + 1;
    }
    p
}

/// Where the attribute that begins at `pos` has its name and its value, and
/// the place behind it.
fn parse_attr(src: &Vec<char>, pos: usize) -> (r: Option<(usize, usize, usize, usize, usize)>)
    requires
        pos <= src@.len(),
    ensures
        match r {
            Some((name_from, name_to, value_from, value_to, end)) => {
                &&& name_from <= name_to <= value_from <= value_to <= end <= src@.len()
                &&& pos < end
                &&& attr_at(src@, pos as int) == Some(
                    (
                        src@.subrange(name_from as int, name_to as int),
                        src@.subrange(value_from as int, value_to as int),
                        end as int,
                    ),
                )
            },
            None => attr_at(src@, pos as int) is None,
        },
{
    let len: usize = src.len();
    let start: usize = skip_whitespace(src, pos);
    let end: usize = skip_letters(src, start);
    if end == start {
        return None;
    }
    let equals: usize = skip_whitespace(src, end);
    if equals >= len || src[equals] != '=' {
        return None;
    }
    let open: usize = skip_whitespace(src, equals + 1);
    if open >= len || src[open] != '"' {
        return None;
    }
    let close: usize = find_quote(src, open + 1);
    if close >= len {
        return None;
    }
    let behind: usize = skip_whitespace(src, close + 1);
    Some((start, end, open + 1, close, behind))
}

/// The place behind the attributes that begin at `pos`.
fn skip_attrs_at(src: &Vec<char>, pos: usize) -> (r: usize)
    requires
        pos <= src@.len(),
    ensures
        r == attrs_end(src@, pos as int),
        pos <= r <= src@.len(),
{
    let mut p: usize = pos;
    loop
        invariant
            pos <= p <= src@.len(),
            attrs_end(src@, pos as int) == attrs_end(src@, p as int),
        decreases src@.len() - p,
    {
        match parse_attr(src, p) {
            Some((_, _, _, _, end)) => {
                p = end;
            },
            None => {
                return p;
            },
        }
    }
}

/// What is left of a text behind the attributes with which it begins.
pub fn skip_attrs(src: &str) -> (r: String)
    ensures
        r@ == src@.subrange(attrs_end(src@, 0), src@.len() as int),
{
    let text: Vec<char> = chars_of(src);
    let end: usize = skip_attrs_at(&text, 0);
    text_of(&text, end, text.len())
}

/// A longer number in decimal digits is not smaller.
proof fn lemma_decimal_value_grows(digits: Seq<char>, n: int)
    requires
        0 <= n <= digits.len(),
        forall|i: int| 0 <= i < digits.len() ==> crate::text::is_digit(#[trigger] digits[i]),
    ensures
        decimal_value(digits.take(n)) <= decimal_value(digits),
    decreases digits.len() - n,
{
    if n < digits.len() {
        lemma_decimal_value_grows(digits, n + 1);
        assert(digits.take(n + 1).drop_last() == digits.take(n));
        assert(crate::text::is_digit(digits[n]));
        assert(digits.take(n + 1).last() == digits[n]);
    } else {
        assert(digits.take(n) == digits);
    }
}

/// What lies before the end of the digits that begin at `pos` are digits.
proof fn lemma_digits_end(src: Seq<char>, pos: int, i: int)
    requires
        0 <= pos <= i < crate::text::digits_end(src, pos),
    ensures
        i < src.len(),
        crate::text::is_digit(src[i]),
    decreases i - pos,
{
    if pos < i {
        lemma_digits_end(src, pos + 1, i);
    }
}

/// The character reference that begins at `pos`.
fn parse_reference(src: &Vec<char>, pos: usize) -> (r: Option<(char, usize)>)
    requires
        pos < src@.len(),
    ensures
        match r {
            Some((ch, end)) => reference_at(src@, pos as int) == Some((ch, end as int)) && pos
                < end <= src@.len(),
            None => reference_at(src@, pos as int) is None,
        },
{
    let len: usize = src.len();
    if len - pos < 2 || src[pos] != '&' || src[pos + 1] != '#' {
        proof {
            if len - pos >= 2 {
                let part = src@.subrange(pos as int, pos + 2);
                assert(part[0] == src@[pos as int]);
                assert(part[1] == src@[pos + 1]);
            }
        }
        return None;
    }
    assert(src@.subrange(pos as int, pos + 2) =~= seq!['&', '#']);
    let first: usize = pos + 2;
    let end: usize = skip_digits(src, first);
    if end == first || end >= len || src[end] != ';' {
        return None;
    }
    let ghost digits = src@.subrange(first as int, end as int);
    proof {
        assert forall|i: int| 0 <= i < digits.len() implies crate::text::is_digit(
            #[trigger] digits[i],
        ) by {
            lemma_digits_end(src@, first as int, first + i);
        }
    }
    let mut value: u32 = 0;
    let mut i: usize = first;
    assert(digits.take(0) =~= Seq::<char>::empty());
    while i < end
        invariant
            first <= i <= end <= src@.len(),
            first == pos + 2,
            end == crate::text::digits_end(src@, first as int),
            digits == src@.subrange(first as int, end as int),
            forall|k: int| 0 <= k < digits.len() ==> crate::text::is_digit(#[trigger] digits[k]),
            value <= 255,
            value == decimal_value(digits.take(i - first)),
        decreases end - i,
    {
        let c: char = char_at(src, i);
        proof {
            assert(digits.take(i - first + 1).drop_last() == digits.take(i - first));
            assert(digits.take(i - first + 1).last() == c);
            assert(crate::text::is_digit(digits[i - first]));
        }
        let d: u32 = c as u32 - 0x30;
        value = value * 10 + d;
        assert(value == decimal_value(digits.take(i - first + 1)));
        if value > 255 {
            proof {
                lemma_decimal_value_grows(digits, i - first + 1);
            }
            return None;
        }
        i = i + 1;
    }
    proof {
        assert(digits.take(end - first) == digits);
    }
    Some(((value as u8) as char, end + 1))
}

/// The text written from `pos` up to the next `<`.
fn parse_escaped_string(src: &Vec<char>, pos: usize) -> (r: (String, usize))
    requires
        pos <= src@.len(),
    ensures
        (r.0@, r.1 as int) == unescaped_at(src@, pos as int),
        pos <= r.1 <= src@.len(),
{
    let mut out: String = String::new();
    let mut p: usize = pos;
    loop
        invariant
            pos <= p <= src@.len(),
            unescaped_at(src@, pos as int) == (
                out@ + unescaped_at(src@, p as int).0,
                unescaped_at(src@, p as int).1,
            ),
        decreases src@.len() - p,
    {
        if p >= src.len() {
            assert(out@ + Seq::<char>::empty() =~= out@);
            return (out, p);
        }
        let ghost before = out@;
        match parse_reference(src, p) {
            Some((ch, end)) => {
                push_char(&mut out, ch);
                proof {
                    let rest = unescaped_at(src@, end as int).0;
                    assert(before + (seq![ch] + rest) =~= out@ + rest);
                }
                p = end;
            },
            None => {
                let c: char = char_at(src, p);
                if c == '<' {
                    assert(out@ + Seq::<char>::empty() =~= out@);
                    return (out, p);
                }
                push_char(&mut out, c);
                proof {
                    let rest = unescaped_at(src@, p + 1).0;
                    assert(before + (seq![c] + rest) =~= out@ + rest);
                }
                p = p + 1;
            },
        }
    }
}

/// The metadata element that begins at `pos`.
fn metadata_tag(src: &Vec<char>, pos: usize) -> (r: Option<(String, String, usize)>)
    requires
        pos <= src@.len(),
    ensures
        match r {
            Some((key, value, end)) => metadata_tag_at(src@, pos as int) == Some(
                (key@, value@, end as int),
            ) && pos < end <= src@.len(),
            None => metadata_tag_at(src@, pos as int) is None,
        },
{
    let len: usize = src.len();
    let start: usize = skip_whitespace(src, pos);
    let open: Vec<char> = vec!['<', 'm', 'e', 't', 'a', 'd', 'a', 't', 'a', ' '];
    let close_word: Vec<char> = vec!['<', '/', 'm', 'e', 't', 'a', 'd', 'a', 't', 'a', '>'];
    let id: Vec<char> = vec!['i', 'd'];
    proof {
        assert(open@ =~= metadata_open());
        assert(close_word@ =~= metadata_close());
        assert(id@ =~= seq!['i', 'd']);
    }
    if !has_word_at(src, start, &open) {
        return None;
    }
    let (name_from, name_to, value_from, value_to, behind): (usize, usize, usize, usize, usize) =
        match parse_attr(src, start + 10) {
        Some(found) => found,
        None => {
            return None;
        },
    };
    let close: usize = skip_whitespace(src, behind);
    if close >= len || src[close] != '>' {
        return None;
    }
    let (content, end): (String, usize) = parse_escaped_string(src, close + 1);
    if !has_word_at(src, name_from, &id) || name_to - name_from != 2 {
        proof {
            let name = src@.subrange(name_from as int, name_to as int);
            if name == seq!['i', 'd'] {
                assert(name.len() == 2);
                assert(src@.subrange(name_from as int, name_from + 2) =~= name);
            }
        }
        return None;
    }
    proof {
        assert(src@.subrange(name_from as int, name_to as int) =~= seq!['i', 'd']);
    }
    if !has_word_at(src, end, &close_word) {
        return None;
    }
    let key: String = text_of(src, value_from, value_to);
    Some((key, content, end + 11))
}

/// The metadata of an image: the value of the attribute `id` and the text of
/// each metadata element that follows the opening tag of the image, in
/// their order. `None` where the text does not begin with the opening tag of
/// an image.
pub fn parse_metadata(s: &str) -> (r: Option<Vec<(String, String)>>)
    ensures
        match r {
            Some(list) => metadata_of(s@) == Some(pairs_view(list@)),
            None => metadata_of(s@) is None,
        },
{
    let src: Vec<char> = chars_of(s);
    let len: usize = src.len();
    let start: usize = skip_whitespace(&src, 0);
    let open: Vec<char> = vec!['<', 's', 'v', 'g', ' '];
    proof {
        assert(open@ =~= svg_open());
    }
    if !has_word_at(&src, start, &open) {
        return None;
    }
    let behind: usize = skip_attrs_at(&src, start + 5);
    let close: usize = skip_whitespace(&src, behind);
    if close >= len || src[close] != '>' {
        return None;
    }
    let first: usize = close + 1;
    assert(metadata_of(s@) == Some(metadata_tags_at(src@, first as int)));
    let mut list: Vec<(String, String)> = Vec::new();
    let mut p: usize = first;
    assert(pairs_view(list@) =~= Seq::<(Seq<char>, Seq<char>)>::empty());
    loop
        invariant
            first <= p <= src@.len(),
            metadata_of(s@) == Some(metadata_tags_at(src@, first as int)),
            metadata_tags_at(src@, first as int) == pairs_view(list@) + metadata_tags_at(
                src@,
                p as int,
            ),
        decreases src@.len() - p,
    {
        match metadata_tag(&src, p) {
            Some((key, value, end)) => {
                let ghost before = list@;
                let ghost pair = (key@, value@);
                list.push((key, value));
                proof {
                    assert(pairs_view(list@) =~= pairs_view(before).push(pair));
                    let rest = metadata_tags_at(src@, end as int);
                    assert(pairs_view(before) + (seq![pair] + rest) =~= pairs_view(list@) + rest);
                }
                p = end;
            },
            None => {
                assert(pairs_view(list@) + Seq::<(Seq<char>, Seq<char>)>::empty() =~= pairs_view(
                    list@,
                ));
                return Some(list);
            },
        }
    }
}

} // verus!
