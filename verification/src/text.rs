//! Texts as sequences of characters: white space, letters, and the reading
//! and building of texts character by character.

use vstd::prelude::*;

verus! {

/// Whether a character is white space, as Unicode has it.
pub open spec fn is_space(c: char) -> bool {
    let code = c as u32;
    ||| 0x09 <= code <= 0x0d
    ||| code == 0x20
    ||| code == 0x85
    ||| code == 0xa0
    ||| code == 0x1680
    ||| 0x2000 <= code <= 0x200a
    ||| code == 0x2028
    ||| code == 0x2029
    ||| code == 0x202f
    ||| code == 0x205f
    ||| code == 0x3000
}

/// Whether a character is one of the letters `a` to `z` and `A` to `Z`.
pub open spec fn is_letter(c: char) -> bool {
    ('a' <= c && c <= 'z') || ('A' <= c && c <= 'Z')
}

/// The place of the first character at or after `pos` that is no white space,
/// or the end of the text.
pub open spec fn skip_spaces(src: Seq<char>, pos: int) -> int
    decreases src.len() - pos,
{
    if 0 <= pos < src.len() && is_space(src[pos]) {
        skip_spaces(src, pos + 1)
    } else {
        pos
    }
}

/// The place behind the letters that begin at `pos`.
pub open spec fn letters_end(src: Seq<char>, pos: int) -> int
    decreases src.len() - pos,
{
    if 0 <= pos < src.len() && is_letter(src[pos]) {
        letters_end(src, pos + 1)
    } else {
        pos
    }
}

/// The place behind the digits that begin at `pos`.
pub open spec fn digits_end(src: Seq<char>, pos: int) -> int
    decreases src.len() - pos,
{
    if 0 <= pos < src.len() && is_digit(src[pos]) {
        digits_end(src, pos + 1)
    } else {
        pos
    }
}

/// Whether a character is one of the digits `0` to `9`.
pub open spec fn is_digit(c: char) -> bool {
    '0' <= c && c <= '9'
}

/// The view of a text that may be missing.
pub open spec fn text_view(text: Option<String>) -> Option<Seq<char>> {
    match text {
        Some(t) => Some(t@),
        None => None,
    }
}

/// Whether a word stands at `pos`.
pub open spec fn starts_with(src: Seq<char>, pos: int, word: Seq<char>) -> bool {
    &&& 0 <= pos
    &&& pos + word.len() <= src.len()
    &&& src.subrange(pos, pos + word.len()) == word
}

/// White space that begins at `pos` ends where a character follows that is
/// no white space.
pub proof fn lemma_skip_spaces_to(src: Seq<char>, pos: int, end: int)
    requires
        0 <= pos <= end <= src.len(),
        forall|k: int| pos <= k < end ==> is_space(#[trigger] src[k]),
        end == src.len() || !is_space(src[end]),
    ensures
        skip_spaces(src, pos) == end,
    decreases end - pos,
{
    if pos < end {
        assert(is_space(src[pos]));
        lemma_skip_spaces_to(src, pos + 1, end);
    }
}

/// Letters that begin at `pos` end where a character follows that is no
/// letter.
pub proof fn lemma_letters_end_at(src: Seq<char>, pos: int, end: int)
    requires
        0 <= pos <= end <= src.len(),
        forall|k: int| pos <= k < end ==> is_letter(#[trigger] src[k]),
        end == src.len() || !is_letter(src[end]),
    ensures
        letters_end(src, pos) == end,
    decreases end - pos,
{
    if pos < end {
        assert(is_letter(src[pos]));
        lemma_letters_end_at(src, pos + 1, end);
    }
}

/// Whether a character is white space, as Unicode has it.
pub fn is_whitespace(c: char) -> (r: bool)
    ensures
        r == is_space(c),
{
    let code: u32 = c as u32;
    (0x09 <= code && code <= 0x0d) || code == 0x20 || code == 0x85 || code == 0xa0 || code
        == 0x1680 || (0x2000 <= code && code <= 0x200a) || code == 0x2028 || code == 0x2029
        || code == 0x202f || code == 0x205f || code == 0x3000
}

/// Whether a character is one of the letters `a` to `z` and `A` to `Z`.
pub fn is_alpha(c: char) -> (r: bool)
    ensures
        r == is_letter(c),
{
    ('a' <= c && c <= 'z') || ('A' <= c && c <= 'Z')
}

/// The character at a place of a text.
pub fn char_at(text: &Vec<char>, i: usize) -> (c: char)
    requires
        i < text@.len(),
    ensures
        c == text@[i as int],
{
    text[i]
}

/// The place of the first character at or after `pos` that is no white space.
pub fn skip_whitespace(src: &Vec<char>, pos: usize) -> (r: usize)
    requires
        pos <= src@.len(),
    ensures
        r == skip_spaces(src@, pos as int),
        pos <= r <= src@.len(),
    decreases src@.len() - pos,
{
    let mut p: usize = pos;
    while p < src.len() && is_whitespace(src[p])
        invariant
            pos <= p <= src@.len(),
            skip_spaces(src@, pos as int) == skip_spaces(src@, p as int),
        decreases src@.len() - p,
    {
        p = p + 1;
    }
    p
}

/// The place behind the letters that begin at `pos`.
pub fn skip_letters(src: &Vec<char>, pos: usize) -> (r: usize)
    requires
        pos <= src@.len(),
    ensures
        r == letters_end(src@, pos as int),
        pos <= r <= src@.len(),
{
    let mut p: usize = pos;
    while p < src.len() && is_alpha(src[p])
        invariant
            pos <= p <= src@.len(),
            letters_end(src@, pos as int) == letters_end(src@, p as int),
        decreases src@.len() - p,
    {
        p = p + 1;
    }
    p
}

/// Whether two texts hold the same characters.
pub fn same_chars(a: &Vec<char>, b: &Vec<char>) -> (r: bool)
    ensures
        r == (a@ == b@),
{
    if a.len() != b.len() {
        return false;
    }
    let n: usize = a.len();
    let mut i: usize = 0;
    while i < n
        invariant
            i <= n,
            n == a@.len(),
            n == b@.len(),
            forall|j: int| 0 <= j < i ==> a@[j] == b@[j],
        decreases n - i,
    {
        if a[i] != b[i] {
            return false;
        }
        i = i + 1;
    }
    assert(a@ =~= b@);
    true
}

/// The characters of a text.
pub fn chars_of(s: &str) -> (r: Vec<char>)
    ensures
        r@ == s@,
{
    let mut v: Vec<char> = Vec::new();
    for c in it: s.chars()
        invariant
            v@ == it.seq().take(it.index()),
    {
        v.push(c);
    }
    v
}

/// Whether a character is one of the digits `0` to `9`.
pub fn is_dec_digit(c: char) -> (r: bool)
    ensures
        r == is_digit(c),
{
    '0' <= c && c <= '9'
}

/// The place behind the digits that begin at `pos`.
pub fn skip_digits(src: &Vec<char>, pos: usize) -> (r: usize)
    requires
        pos <= src@.len(),
    ensures
        r == digits_end(src@, pos as int),
        pos <= r <= src@.len(),
{
    let mut p: usize = pos;
    while p < src.len() && is_dec_digit(src[p])
        invariant
            pos <= p <= src@.len(),
            digits_end(src@, pos as int) == digits_end(src@, p as int),
        decreases src@.len() - p,
    {
        p = p + 1;
    }
    p
}

/// Whether a word stands at `pos`.
pub fn has_word_at(src: &Vec<char>, pos: usize, word: &Vec<char>) -> (r: bool)
    requires
        pos <= src@.len(),
    ensures
        r == starts_with(src@, pos as int, word@),
{
    let n: usize = word.len();
    let len: usize = src.len();
    if len - pos < n {
        return false;
    }
    let mut i: usize = 0;
    while i < n
        invariant
            i <= n,
            n == word@.len(),
            len == src@.len(),
            pos + n <= len,
            forall|j: int| 0 <= j < i ==> src@[pos + j] == word@[j],
        decreases n - i,
    {
        if src[pos + i] != word[i] {
            assert(src@.subrange(pos as int, pos + n)[i as int] == src@[pos + i]);
            return false;
        }
        i = i + 1;
    }
    assert(src@.subrange(pos as int, pos + n) =~= word@);
    true
}

/// Appends a character to a text.
///
/// This is `String::push` of the standard library, which appends the
/// character to the end of the string.
#[verifier::external_body]
pub(crate) fn push_char(text: &mut String, c: char)
    ensures
        final(text)@ == old(text)@.push(c),
{
    text.push(c);
}

/// Whether a number is the code of a character: a code point that is no
/// surrogate.
pub open spec fn is_char_code(code: u32) -> bool {
    code <= 0xd7ff || 0xe000 <= code <= 0x10ffff
}

/// The character of a code, where the code is that of a character.
///
/// This is `char::from_u32` of the standard library, which gives the
/// character for a code point that is no surrogate, and nothing for any other
/// number.
#[verifier::external_body]
pub(crate) fn char_from_code(code: u32) -> (r: Option<char>)
    ensures
        r == (if is_char_code(code) {
            Some(code as char)
        } else {
            None
        }),
{
    char::from_u32(code)
}

/// The text of the characters from `from` up to `to`.
pub fn text_of(chars: &Vec<char>, from: usize, to: usize) -> (r: String)
    requires
        from <= to <= chars@.len(),
    ensures
        r@ == chars@.subrange(from as int, to as int),
{
    let mut out: String = String::new();
    let mut i: usize = from;
    while i < to
        invariant
            from <= i <= to <= chars@.len(),
            out@ == chars@.subrange(from as int, i as int),
        decreases to - i,
    {
        push_char(&mut out, chars[i]);
        i = i + 1;
        assert(out@ =~= chars@.subrange(from as int, i as int));
    }
    out
}

} // verus!
