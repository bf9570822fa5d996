//! A vector image: its elements, and its text.
//!
//! The lengths of an image are written in points, as decimal numbers with up
//! to four digits behind the point; the image holds how many of its units
//! make a point.

use vstd::prelude::*;

use crate::backend::svg::xml::{write_decimal, write_escaped_string};
use crate::common::Color;
use crate::text::push_char;
use vstd::string::StringExecFns;

verus! {

/// An element of an image: a filled rectangle, or a path that is moved to a
/// place.
#[derive(Clone, Debug, PartialEq, Eq)]
pub enum Element {
    Rect { x0: i64, y0: i64, width: i64, height: i64 },
    Path { x: i64, y: i64, data: String, color: Color },
}

/// An image: its size, the number of its units in a point, and its elements
/// in the order in which they were drawn.
#[derive(Clone, Debug, PartialEq, Eq)]
pub struct Image {
    pub width: i64,
    pub height: i64,
    pub unit: i64,
    pub elements: Vec<Element>,
}

/// The mathematical value of an [`Element`].
pub ghost enum ElementView {
    Rect { x0: i64, y0: i64, width: i64, height: i64 },
    Path { x: i64, y: i64, data: Seq<char>, color: Color },
}

impl View for Element {
    type V = ElementView;

    open spec fn view(&self) -> ElementView {
        match self {
            Element::Rect { x0, y0, width, height } => ElementView::Rect {
                x0: *x0,
                y0: *y0,
                width: *width,
                height: *height,
            },
            Element::Path { x, y, data, color } => ElementView::Path {
                x: *x,
                y: *y,
                data: data@,
                color: *color,
            },
        }
    }
}

/// The views of the elements of an image.
pub open spec fn elements_view(elements: Seq<Element>) -> Seq<ElementView> {
    Seq::new(elements.len(), |i: int| elements[i]@)
}

/// Digits without the zeros at their end.
pub open spec fn trimmed(digits: Seq<char>) -> Seq<char>
    decreases digits.len(),
{
    if digits.len() > 0 && digits.last() == '0' {
        trimmed(digits.drop_last())
    } else {
        digits
    }
}

/// The four digits of a number below 10000.
pub open spec fn four_digits(n: nat) -> Seq<char> {
    seq![
        crate::backend::svg::xml::digit_char(n / 1000 % 10),
        crate::backend::svg::xml::digit_char(n / 100 % 10),
        crate::backend::svg::xml::digit_char(n / 10 % 10),
        crate::backend::svg::xml::digit_char(n % 10),
    ]
}

/// A length in points, as a decimal number: the whole points, and behind a
/// point up to four digits of the rest, cut off and without zeros at the end.
#[verifier::opaque]
pub open spec fn points_text(value: i64, unit: i64) -> Seq<char> {
    let size: nat = if value < 0 {
        (-value) as nat
    } else {
        value as nat
    };
    let whole = size / (unit as nat);
    let rest = ((size % (unit as nat)) * 10000) / (unit as nat);
    let sign = if value < 0 {
        seq!['-']
    } else {
        Seq::empty()
    };
    let behind = if rest == 0 {
        Seq::empty()
    } else {
        seq!['.'] + trimmed(four_digits(rest))
    };
    sign + crate::backend::svg::xml::decimal(whole) + behind
}

/// The attribute that paints a path in a colour; nothing for the normal
/// colour.
pub open spec fn fill_text(color: Color) -> Seq<char> {
    match color {
        Color::Normal => Seq::empty(),
        Color::Error => " fill=\"red\""@,
    }
}

/// The attribute that moves a path to its place; nothing for a path that
/// stays where it is.
pub open spec fn transform_text(x: i64, y: i64, unit: i64) -> Seq<char> {
    if y != 0 {
        " transform=\"translate("@ + points_text(x, unit) + ", "@ + points_text(y, unit) + ")\""@
    } else if x != 0 {
        " transform=\"translate("@ + points_text(x, unit) + ")\""@
    } else {
        Seq::empty()
    }
}

/// The line of an element.
pub open spec fn element_text(element: ElementView, unit: i64) -> Seq<char> {
    match element {
        ElementView::Rect { x0, y0, width, height } => "    <rect x=\""@ + points_text(x0, unit)
            + "\" y=\""@ + points_text(y0, unit) + "\" width=\""@ + points_text(width, unit)
            + "\" height=\""@ + points_text(height, unit) + "\" />\n"@,
        ElementView::Path { x, y, data, color } => "    <path"@ + transform_text(x, y, unit)
            + fill_text(color) + " d=\""@ + data + "\" />\n"@,
    }
}

/// The lines of elements.
pub open spec fn elements_text(elements: Seq<ElementView>, unit: i64) -> Seq<char>
    decreases elements.len(),
{
    if elements.len() == 0 {
        Seq::empty()
    } else {
        elements_text(elements.drop_last(), unit) + element_text(elements.last(), unit)
    }
}

/// The line of a metadata element: its text is written so that it can be
/// read back.
pub open spec fn metadata_text(id: Seq<char>, value: Seq<char>) -> Seq<char> {
    "  <metadata id=\""@ + id + "\">"@ + crate::backend::svg::xml::escaped(value)
        + "</metadata>\n"@
}

/// The lines of metadata elements.
pub open spec fn all_metadata_text(metadata: Seq<(Seq<char>, Seq<char>)>) -> Seq<char>
    decreases metadata.len(),
{
    if metadata.len() == 0 {
        Seq::empty()
    } else {
        all_metadata_text(metadata.drop_last()) + metadata_text(
            metadata.last().0,
            metadata.last().1,
        )
    }
}

/// The attributes of the opening tag of an image of a size: the size in
/// points, and the same numbers as the box that is looked at.
pub open spec fn opening_attrs(width: i64, height: i64, unit: i64) -> Seq<(Seq<char>, Seq<char>)> {
    seq![
        ("version"@, "1.1"@),
        ("width"@, points_text(width, unit) + "pt"@),
        ("height"@, points_text(height, unit) + "pt"@),
        ("viewBox"@, "0 0 "@ + points_text(width, unit) + " "@ + points_text(height, unit)),
        ("xmlns"@, "http://www.w3.org/2000/svg"@),
    ]
}

/// The opening tag of an image of a size.
pub open spec fn opening_text(width: i64, height: i64, unit: i64) -> Seq<char> {
    "<svg "@ + crate::backend::svg::xml::attrs_text(opening_attrs(width, height, unit)) + ">\n"@
}

/// The text of an image: the opening tag, the metadata, and the elements in
/// a group that turns the image upside down, so that lengths rise upwards.
pub open spec fn image_text(
    width: i64,
    height: i64,
    unit: i64,
    elements: Seq<ElementView>,
    metadata: Seq<(Seq<char>, Seq<char>)>,
) -> Seq<char> {
    opening_text(width, height, unit) + all_metadata_text(metadata)
        + "  <g transform=\"translate(0.0,"@ + points_text(height, unit) + ") scale(1.0,-1.0)\">\n"@
        + elements_text(elements, unit) + "  </g>\n"@ + "</svg>\n"@
}

/// The line of a metadata element is read back as its `id` and its text,
/// from the line itself or from white space before it, where the `id` holds
/// no `"` and every character of the text can be read back.
pub proof fn lemma_metadata_read_back(
    src: Seq<char>,
    from: int,
    pos: int,
    id: Seq<char>,
    value: Seq<char>,
)
    requires
        0 <= from <= pos,
        forall|k: int| from <= k < pos ==> crate::text::is_space(#[trigger] src[k]),
        pos + metadata_text(id, value).len() <= src.len(),
        src.subrange(pos, pos + metadata_text(id, value).len()) == metadata_text(id, value),
        forall|k: int| 0 <= k < id.len() ==> #[trigger] id[k] != '"',
        forall|i: int|
            0 <= i < value.len() ==> crate::backend::svg::xml::reads_back(#[trigger] value[i]),
    ensures
        crate::backend::svg::xml::metadata_tag_at(src, from) == Some(
            (id, value, pos + metadata_text(id, value).len() - 1),
        ),
{
    reveal_strlit("  <metadata id=\"");
    reveal_strlit("\">");
    reveal_strlit("</metadata>\n");
    let a = "  <metadata id=\""@;
    let b = "\">"@;
    let c = "</metadata>\n"@;
    let e = crate::backend::svg::xml::escaped(value);
    let text = metadata_text(id, value);
    let len = text.len() as int;
    let n = id.len() as int;
    let m = e.len() as int;
    assert(text == a + id + b + e + c);
    assert(a.len() == 16 && b.len() == 2 && c.len() == 12);
    assert(len == 30 + id.len() + e.len());
    assert forall|k: int| 0 <= k < len implies src[pos + k] == text[k] by {
        assert(src.subrange(pos, pos + len)[k] == src[pos + k]);
    }
    // the white space and the opening
    assert(src[pos] == text[0] && src[pos + 1] == text[1] && src[pos + 2] == text[2]);
    assert(text[0] == a[0] && text[1] == a[1] && text[2] == a[2]);
    crate::text::lemma_skip_spaces_to(src, from, pos + 2);
    let open = crate::backend::svg::xml::metadata_open();
    assert forall|k: int| 0 <= k < 10 implies src.subrange(pos + 2, pos + 12)[k] == open[k] by {
        assert(src[pos + 2 + k] == text[2 + k]);
        assert(text[2 + k] == a[2 + k]);
    }
    assert(src.subrange(pos + 2, pos + 12) =~= open);
    // the attribute
    let name = seq!['i', 'd'];
    let attr = crate::backend::svg::xml::attr_text(name, id);
    let behind = pos + 17 + n;
    assert(attr.len() == id.len() + 5);
    assert forall|k: int| 0 <= k < attr.len() implies src.subrange(pos + 12, behind)[k]
        == attr[k] by {
        assert(src[pos + 12 + k] == text[12 + k]);
        if k < 4 {
            assert(text[12 + k] == a[12 + k]);
        } else if k < 4 + n {
            assert(text[12 + k] == id[k - 4]);
        } else {
            assert(text[12 + k] == b[0]);
        }
    }
    assert(src.subrange(pos + 12, behind) =~= attr);
    crate::backend::svg::xml::lemma_attr_read(src, pos + 12, name, id);
    assert(src[behind] == text[17 + n]);
    assert(text[17 + n] == b[1]);
    crate::text::lemma_skip_spaces_to(src, behind, behind);
    // the text
    let start = behind + 1;
    let end = start + m;
    assert forall|k: int| 0 <= k < m implies src.subrange(start, end)[k] == e[k] by {
        assert(src[start + k] == text[18 + n + k]);
    }
    assert(src.subrange(start, end) =~= e);
    assert(src[end] == text[18 + n + m]);
    assert(text[18 + n + m] == c[0]);
    crate::backend::svg::xml::lemma_read_back_in(src, start, value, 0);
    assert(value.take(0) =~= Seq::<char>::empty());
    assert(value.skip(0) =~= value);
    // the closing
    let close = crate::backend::svg::xml::metadata_close();
    assert forall|k: int| 0 <= k < 11 implies src.subrange(end, end + 11)[k] == close[k] by {
        assert(src[end + k] == text[18 + n + m + k]);
        assert(text[18 + n + m + k] == c[k]);
    }
    assert(src.subrange(end, end + 11) =~= close);
}

/// Whether metadata can be read back: no `id` holds a `"`, and every
/// character of every text can be read back.
pub open spec fn metadata_plain(metadata: Seq<(Seq<char>, Seq<char>)>) -> bool {
    forall|j: int|
        0 <= j < metadata.len() ==> {
            &&& forall|k: int| 0 <= k < (#[trigger] metadata[j]).0.len() ==> #[trigger] metadata[j].0[k] != '"'
            &&& forall|i: int|
                0 <= i < metadata[j].1.len() ==> crate::backend::svg::xml::reads_back(
                    #[trigger] metadata[j].1[i],
                )
        }
}

/// The lines of the first metadata elements are the beginning of the lines
/// of all of them, and every line ends with a line feed.
pub proof fn lemma_metadata_begins(metadata: Seq<(Seq<char>, Seq<char>)>, n: int)
    requires
        0 <= n <= metadata.len(),
    ensures
        all_metadata_text(metadata.take(n)).len() <= all_metadata_text(metadata).len(),
        all_metadata_text(metadata).take(all_metadata_text(metadata.take(n)).len() as int)
            == all_metadata_text(metadata.take(n)),
        n < metadata.len() ==> all_metadata_text(metadata.take(n + 1)) == all_metadata_text(
            metadata.take(n),
        ) + metadata_text(metadata[n].0, metadata[n].1),
        n > 0 ==> all_metadata_text(metadata.take(n)).len() > 0 && all_metadata_text(
            metadata.take(n),
        ).last() == '\n',
    decreases metadata.len() - n,
{
    reveal_strlit("</metadata>\n");
    if n > 0 {
        assert(metadata.take(n).drop_last() == metadata.take(n - 1));
        let line = metadata_text(metadata[n - 1].0, metadata[n - 1].1);
        assert(line.last() == "</metadata>\n"@.last());
    }
    if n < metadata.len() {
        assert(metadata.take(n + 1).drop_last() == metadata.take(n));
        lemma_metadata_begins(metadata, n + 1);
        let shorter = all_metadata_text(metadata.take(n));
        let longer = all_metadata_text(metadata.take(n + 1));
        assert(longer.take(shorter.len() as int) =~= shorter);
        assert(all_metadata_text(metadata).take(shorter.len() as int) =~= all_metadata_text(
            metadata,
        ).take(longer.len() as int).take(shorter.len() as int));
    } else {
        assert(metadata.take(n) == metadata);
        assert(all_metadata_text(metadata).take(all_metadata_text(metadata).len() as int)
            =~= all_metadata_text(metadata));
    }
}

/// The lines of metadata elements that were written at `pos`, behind a line
/// feed, are read back from the line feed before each of them, where the
/// metadata can be read back and no metadata element follows the lines.
pub proof fn lemma_all_metadata_read_back(
    src: Seq<char>,
    pos: int,
    metadata: Seq<(Seq<char>, Seq<char>)>,
    n: int,
)
    requires
        1 <= pos,
        src[pos - 1] == '\n',
        pos + all_metadata_text(metadata).len() <= src.len(),
        src.subrange(pos, pos + all_metadata_text(metadata).len()) == all_metadata_text(metadata),
        metadata_plain(metadata),
        crate::backend::svg::xml::metadata_tag_at(
            src,
            pos + all_metadata_text(metadata).len() - 1,
        ) is None,
        0 <= n <= metadata.len(),
    ensures
        crate::backend::svg::xml::metadata_tags_at(
            src,
            pos + all_metadata_text(metadata.take(n)).len() - 1,
        ) == metadata.skip(n),
    decreases metadata.len() - n,
{
    let all = all_metadata_text(metadata);
    let here = pos + all_metadata_text(metadata.take(n)).len();
    lemma_metadata_begins(metadata, n);
    if n == metadata.len() {
        assert(metadata.take(n) == metadata);
        assert(metadata.skip(n) =~= Seq::<(Seq<char>, Seq<char>)>::empty());
    } else {
        let line = metadata_text(metadata[n].0, metadata[n].1);
        let next = pos + all_metadata_text(metadata.take(n + 1)).len();
        lemma_metadata_begins(metadata, n + 1);
        lemma_all_metadata_read_back(src, pos, metadata, n + 1);
        assert(next == here + line.len());
        assert forall|k: int| 0 <= k < line.len() implies src.subrange(here, next)[k]
            == line[k] by {
            let at = here - pos + k;
            assert(src.subrange(pos, pos + all.len())[at] == src[here + k]);
            assert(all.take(next - pos)[at] == all[at]);
            assert(all_metadata_text(metadata.take(n + 1))[at] == line[k]);
        }
        assert(src.subrange(here, next) =~= line);
        assert(src[here - 1] == '\n') by {
            if n > 0 {
                let before = all_metadata_text(metadata.take(n));
                let at = here - pos - 1;
                assert(src.subrange(pos, pos + all.len())[at] == src[here - 1]);
                assert(all.take(here - pos)[at] == all[at]);
                assert(before.last() == before[at]);
            }
        }
        lemma_metadata_read_back(src, here - 1, here, metadata[n].0, metadata[n].1);
        assert(line.len() >= 30) by {
            reveal_strlit("  <metadata id=\"");
            reveal_strlit("\">");
            reveal_strlit("</metadata>\n");
        }
        assert(metadata.skip(n) =~= seq![metadata[n]] + metadata.skip(n + 1));
    }
}

/// A length in points is written in digits, with a point and a sign where it
/// has them.
pub proof fn lemma_points_plain(value: i64, unit: i64)
    requires
        unit > 0,
    ensures
        forall|k: int|
            0 <= k < points_text(value, unit).len() ==> {
                let c = #[trigger] points_text(value, unit)[k];
                crate::text::is_digit(c) || c == '.' || c == '-'
            },
{
    reveal(points_text);
    reveal_with_fuel(trimmed, 5);
    let size: nat = if value < 0 {
        (-value) as nat
    } else {
        value as nat
    };
    let whole = size / (unit as nat);
    let rest = ((size % (unit as nat)) * 10000) / (unit as nat);
    crate::backend::svg::xml::lemma_decimal_digits(whole);
    let digits = four_digits(rest);
    assert forall|k: int| 0 <= k < 4 implies crate::text::is_digit(#[trigger] digits[k]) by {
        assert(forall|d: nat|
            d < 10 ==> crate::text::is_digit(#[trigger] crate::backend::svg::xml::digit_char(d)));
    }
    let cut = trimmed(digits);
    assert(digits.drop_last() =~= digits.take(3));
    assert(digits.take(3).drop_last() =~= digits.take(2));
    assert(digits.take(2).drop_last() =~= digits.take(1));
    assert(digits.take(1).drop_last() =~= digits.take(0));
    assert(cut == digits || cut == digits.take(3) || cut == digits.take(2) || cut == digits.take(1)
        || cut == digits.take(0));
    assert forall|k: int| 0 <= k < cut.len() implies crate::text::is_digit(#[trigger] cut[k]) by {
        assert(cut[k] == digits[k]);
    }
}

/// A text that is made of an opening tag with attributes, the lines of
/// metadata elements, and something that begins with another element, has the
/// metadata that was written, where attributes and metadata can be read back.
pub proof fn lemma_metadata_of_parts(
    attrs: Seq<(Seq<char>, Seq<char>)>,
    metadata: Seq<(Seq<char>, Seq<char>)>,
    tail: Seq<char>,
)
    requires
        crate::backend::svg::xml::attrs_plain(attrs),
        metadata_plain(metadata),
        tail.len() >= 4,
        tail[0] == ' ' && tail[1] == ' ' && tail[2] == '<' && tail[3] == 'g',
    ensures
        crate::backend::svg::xml::metadata_of(
            "<svg "@ + crate::backend::svg::xml::attrs_text(attrs) + ">\n"@ + all_metadata_text(
                metadata,
            ) + tail,
        ) == Some(metadata),
{
    reveal_strlit("<svg ");
    reveal_strlit(">\n");
    let head = "<svg "@;
    let written = crate::backend::svg::xml::attrs_text(attrs);
    let shut = ">\n"@;
    let lines = all_metadata_text(metadata);
    let src = head + written + shut + lines + tail;
    let close = 5 + written.len() as int;
    let pos = close + 2;
    let end = pos + lines.len() as int;
    assert(head.len() == 5 && shut.len() == 2);
    assert(src.len() == end + tail.len());
    assert(src[0] == head[0]);
    crate::text::lemma_skip_spaces_to(src, 0, 0);
    assert(src.subrange(0, 5) =~= crate::backend::svg::xml::svg_open());
    // the attributes
    assert(src.subrange(5, close) =~= written);
    assert(src[close] == shut[0]);
    crate::backend::svg::xml::lemma_attrs_read(src, 5, attrs);
    crate::text::lemma_skip_spaces_to(src, close, close);
    // the metadata
    assert(src[pos - 1] == shut[1]);
    assert(src.subrange(pos, end) =~= lines);
    // what follows is no metadata element
    assert(src[end] == tail[0] && src[end + 1] == tail[1] && src[end + 2] == tail[2] && src[end
        + 3] == tail[3]);
    assert(src[end - 1] == '\n') by {
        lemma_metadata_begins(metadata, metadata.len() as int);
        if metadata.len() > 0 {
            assert(metadata.take(metadata.len() as int) == metadata);
            assert(src[end - 1] == lines[lines.len() - 1]);
        }
    }
    crate::text::lemma_skip_spaces_to(src, end - 1, end + 2);
    assert(!crate::text::starts_with(src, end + 2, crate::backend::svg::xml::metadata_open())) by {
        if end + 12 <= src.len() {
            assert(src.subrange(end + 2, end + 12)[1] == src[end + 3]);
        }
    }
    assert(crate::backend::svg::xml::metadata_tag_at(src, end - 1) is None);
    lemma_all_metadata_read_back(src, pos, metadata, 0);
    assert(metadata.take(0) =~= Seq::<(Seq<char>, Seq<char>)>::empty());
    assert(metadata.skip(0) =~= metadata);
}

/// The metadata of an image that was written is read back as it was, where
/// no `id` holds a `"` and every character of every text can be read back.
pub proof fn lemma_image_metadata_read_back(
    width: i64,
    height: i64,
    unit: i64,
    elements: Seq<ElementView>,
    metadata: Seq<(Seq<char>, Seq<char>)>,
)
    requires
        unit > 0,
        metadata_plain(metadata),
    ensures
        crate::backend::svg::xml::metadata_of(image_text(width, height, unit, elements, metadata))
            == Some(metadata),
{
    reveal_strlit("  <g transform=\"translate(0.0,");
    let attrs = opening_attrs(width, height, unit);
    let group = "  <g transform=\"translate(0.0,"@;
    let tail = group + points_text(height, unit) + ") scale(1.0,-1.0)\">\n"@ + elements_text(
        elements,
        unit,
    ) + "  </g>\n"@ + "</svg>\n"@;
    assert(tail[0] == group[0] && tail[1] == group[1] && tail[2] == group[2] && tail[3]
        == group[3]);
    lemma_opening_attrs_plain(width, height, unit);
    lemma_metadata_of_parts(attrs, metadata, tail);
    assert(image_text(width, height, unit, elements, metadata) =~= "<svg "@
        + crate::backend::svg::xml::attrs_text(attrs) + ">\n"@ + all_metadata_text(metadata)
        + tail);
}

/// The attributes of the opening tag can be read as they are written.
pub proof fn lemma_opening_attrs_plain(width: i64, height: i64, unit: i64)
    requires
        unit > 0,
    ensures
        crate::backend::svg::xml::attrs_plain(opening_attrs(width, height, unit)),
{
    reveal_strlit("version");
    reveal_strlit("1.1");
    reveal_strlit("width");
    reveal_strlit("height");
    reveal_strlit("viewBox");
    reveal_strlit("xmlns");
    reveal_strlit("pt");
    reveal_strlit("0 0 ");
    reveal_strlit(" ");
    reveal_strlit("http://www.w3.org/2000/svg");
    lemma_points_plain(width, unit);
    lemma_points_plain(height, unit);
    let attrs = opening_attrs(width, height, unit);
    let wide = points_text(width, unit);
    let high = points_text(height, unit);
    assert forall|i: int| 0 <= i < attrs.len() implies {
        &&& (#[trigger] attrs[i]).0.len() >= 1
        &&& forall|k: int|
            0 <= k < attrs[i].0.len() ==> crate::text::is_letter(#[trigger] attrs[i].0[k])
        &&& forall|k: int| 0 <= k < attrs[i].1.len() ==> #[trigger] attrs[i].1[k] != '"'
    } by {
        if i == 1 {
            assert forall|k: int| 0 <= k < attrs[1].1.len() implies #[trigger] attrs[1].1[k]
                != '"' by {
                if k < wide.len() {
                    assert(attrs[1].1[k] == wide[k]);
                }
            }
        } else if i == 2 {
            assert forall|k: int| 0 <= k < attrs[2].1.len() implies #[trigger] attrs[2].1[k]
                != '"' by {
                if k < high.len() {
                    assert(attrs[2].1[k] == high[k]);
                }
            }
        } else if i == 3 {
            assert forall|k: int| 0 <= k < attrs[3].1.len() implies #[trigger] attrs[3].1[k]
                != '"' by {
                if 4 <= k < 4 + wide.len() {
                    assert(attrs[3].1[k] == wide[k - 4]);
                } else if k >= 5 + wide.len() {
                    assert(attrs[3].1[k] == high[k - 5 - wide.len()]);
                }
            }
        }
    }
}

/// Writes a digit.
fn write_digit(d: u64, out: &mut String)
    requires
        d < 10,
    ensures
        final(out)@ == old(out)@.push(crate::backend::svg::xml::digit_char(d as nat)),
{
    let digit: char = (0x30u8 + d as u8) as char;
    push_char(out, digit);
}

/// Writes a length in points.
pub fn write_points(value: i64, unit: i64, out: &mut String)
    requires
        unit > 0,
    ensures
        final(out)@ == old(out)@ + points_text(value, unit),
{
    reveal(points_text);
    let size: u64 = if value < 0 {
        (-(value as i128)) as u64
    } else {
        value as u64
    };
    let per: u64 = unit as u64;
    let whole: u64 = size / per;
    let part: u128 = (size % per) as u128;
    assert(part * 10000 < per * 10000) by (nonlinear_arith)
        requires
            0 <= part < per,
    ;
    let wide: u128 = part * 10000 / (per as u128);
    assert(wide < 10000) by (nonlinear_arith)
        requires
            wide == (part * 10000) / (per as int),
            0 <= part * 10000 < per * 10000,
            per > 0,
    ;
    let rest: u64 = wide as u64;
    let ghost spec_size: nat = if value < 0 {
        (-value) as nat
    } else {
        value as nat
    };
    assert(spec_size == size);
    assert(whole == spec_size / (unit as nat));
    assert(rest == ((spec_size % (unit as nat)) * 10000) / (unit as nat));
    if value < 0 {
        push_char(out, '-');
    }
    let ghost signed = out@;
    write_decimal(whole, out);
    let ghost before = out@;
    if rest != 0 {
        push_char(out, '.');
        let ghost digits = four_digits(rest as nat);
        let last: u64 = if rest % 10 != 0 {
            4
        } else if rest / 10 % 10 != 0 {
            3
        } else if rest / 100 % 10 != 0 {
            2
        } else {
            1
        };
        proof {
            reveal_with_fuel(trimmed, 5);
            assert(digits.len() == 4);
            assert('0' == crate::backend::svg::xml::digit_char(0));
            assert(forall|d: nat|
                0 < d < 10 ==> #[trigger] crate::backend::svg::xml::digit_char(d) != '0');
            assert(digits.drop_last() =~= digits.take(3));
            assert(digits.take(3).drop_last() =~= digits.take(2));
            assert(digits.take(2).drop_last() =~= digits.take(1));
            assert(digits.take(4) =~= digits);
            assert(rest / 1000 % 10 != 0 || rest / 100 % 10 != 0 || rest / 10 % 10 != 0 || rest
                % 10 != 0);
            assert(trimmed(digits) == digits.take(last as int));
        }
        write_digit(rest / 1000 % 10, out);
        if last >= 2 {
            write_digit(rest / 100 % 10, out);
        }
        if last >= 3 {
            write_digit(rest / 10 % 10, out);
        }
        if last >= 4 {
            write_digit(rest % 10, out);
        }
        assert(out@ =~= before + (seq!['.'] + digits.take(last as int)));
    }
    proof {
        let sign = if value < 0 {
            seq!['-']
        } else {
            Seq::<char>::empty()
        };
        let behind = if rest == 0 {
            Seq::<char>::empty()
        } else {
            seq!['.'] + trimmed(four_digits(rest as nat))
        };
        assert(signed =~= old(out)@ + sign);
        assert(before == signed + crate::backend::svg::xml::decimal(whole as nat));
        assert(out@ =~= before + behind);
        assert(points_text(value, unit) == sign + crate::backend::svg::xml::decimal(whole as nat)
            + behind);
        assert(out@ =~= old(out)@ + points_text(value, unit));
    }
}

/// Writes the line of a rectangle.
fn write_rect(x0: i64, y0: i64, width: i64, height: i64, unit: i64, out: &mut String)
    requires
        unit > 0,
    ensures
        final(out)@ == old(out)@ + element_text(ElementView::Rect { x0, y0, width, height }, unit),
{
    out.append("    <rect x=\"");
    write_points(x0, unit, out);
    out.append("\" y=\"");
    write_points(y0, unit, out);
    let ghost half = out@;
    assert(half =~= old(out)@ + ("    <rect x=\""@ + points_text(x0, unit) + "\" y=\""@ + points_text(
        y0,
        unit,
    )));
    out.append("\" width=\"");
    write_points(width, unit, out);
    out.append("\" height=\"");
    write_points(height, unit, out);
    out.append("\" />\n");
    assert(out@ =~= half + ("\" width=\""@ + points_text(width, unit) + "\" height=\""@
        + points_text(height, unit) + "\" />\n"@));
    assert(out@ =~= old(out)@ + element_text(ElementView::Rect { x0, y0, width, height }, unit));
}

/// Writes the attribute that moves a path to its place.
fn write_transform(x: i64, y: i64, unit: i64, out: &mut String)
    requires
        unit > 0,
    ensures
        final(out)@ == old(out)@ + transform_text(x, y, unit),
{
    if y != 0 {
        out.append(" transform=\"translate(");
        write_points(x, unit, out);
        out.append(", ");
        write_points(y, unit, out);
        out.append(")\"");
        assert(out@ =~= old(out)@ + transform_text(x, y, unit));
    } else if x != 0 {
        out.append(" transform=\"translate(");
        write_points(x, unit, out);
        out.append(")\"");
        assert(out@ =~= old(out)@ + transform_text(x, y, unit));
    } else {
        assert(out@ =~= old(out)@ + transform_text(x, y, unit));
    }
}

/// Writes the line of a path.
fn write_path(x: i64, y: i64, data: &String, color: Color, unit: i64, out: &mut String)
    requires
        unit > 0,
    ensures
        final(out)@ == old(out)@ + element_text(
            ElementView::Path { x, y, data: data@, color },
            unit,
        ),
{
    out.append("    <path");
    write_transform(x, y, unit, out);
    match color {
        Color::Normal => {},
        Color::Error => {
            out.append(" fill=\"red\"");
        },
    }
    let ghost half = out@;
    assert(half =~= old(out)@ + ("    <path"@ + transform_text(x, y, unit) + fill_text(color)));
    out.append(" d=\"");
    out.append(data.as_str());
    out.append("\" />\n");
    assert(out@ =~= half + (" d=\""@ + data@ + "\" />\n"@));
    assert(out@ =~= old(out)@ + element_text(ElementView::Path { x, y, data: data@, color }, unit));
}

impl Element {
    /// Writes the line of the element.
    pub fn write(&self, unit: i64, out: &mut String)
        requires
            unit > 0,
        ensures
            final(out)@ == old(out)@ + element_text(self@, unit),
    {
        match self {
            Element::Rect { x0, y0, width, height } => write_rect(
                *x0,
                *y0,
                *width,
                *height,
                unit,
                out,
            ),
            Element::Path { x, y, data, color } => write_path(*x, *y, data, *color, unit, out),
        }
    }
}

/// Writes an attribute.
fn write_attr(name: &str, value: &str, out: &mut String)
    ensures
        final(out)@ == old(out)@ + crate::backend::svg::xml::attr_text(name@, value@),
{
    proof {
        reveal_strlit("=\"");
        reveal_strlit("\"");
        assert("=\""@ =~= seq!['=', '"']);
        assert("\""@ =~= seq!['"']);
    }
    out.append(name);
    out.append("=\"");
    out.append(value);
    out.append("\"");
    assert(out@ =~= old(out)@ + crate::backend::svg::xml::attr_text(name@, value@));
}

/// Writes attributes with a space between each two of them.
fn write_attrs(attrs: &Vec<(String, String)>, out: &mut String)
    ensures
        final(out)@ == old(out)@ + crate::backend::svg::xml::attrs_text(
            crate::backend::svg::xml::pairs_view(attrs@),
        ),
{
    let ghost pairs = crate::backend::svg::xml::pairs_view(attrs@);
    let n: usize = attrs.len();
    let mut i: usize = 0;
    proof {
        assert(old(out)@ + crate::backend::svg::xml::attrs_text(pairs.take(0)) =~= old(out)@);
    }
    while i < n
        invariant
            i <= n,
            n == attrs@.len(),
            pairs == crate::backend::svg::xml::pairs_view(attrs@),
            out@ == old(out)@ + crate::backend::svg::xml::attrs_text(pairs.take(i as int)),
        decreases n - i,
    {
        let ghost before = out@;
        let ghost last = (attrs@[i as int].0@, attrs@[i as int].1@);
        proof {
            reveal_strlit(" ");
            assert(" "@ =~= seq![' ']);
            assert(pairs.take(i + 1) =~= pairs.take(i as int).push(last));
            crate::backend::svg::xml::lemma_attrs_text_push(pairs.take(i as int), last);
        }
        if i > 0 {
            out.append(" ");
        }
        write_attr(attrs[i].0.as_str(), attrs[i].1.as_str(), out);
        i = i + 1;
        assert(out@ =~= old(out)@ + crate::backend::svg::xml::attrs_text(pairs.take(i as int)));
    }
    proof {
        assert(pairs.take(n as int) == pairs);
    }
}

/// The attributes of the opening tag of an image of a size.
fn opening(width: i64, height: i64, unit: i64) -> (r: Vec<(String, String)>)
    requires
        unit > 0,
    ensures
        crate::backend::svg::xml::pairs_view(r@) == opening_attrs(width, height, unit),
{
    let mut wide: String = String::new();
    write_points(width, unit, &mut wide);
    let mut high: String = String::new();
    write_points(height, unit, &mut high);
    let mut looked: String = String::from_str("0 0 ");
    looked.append(wide.as_str());
    looked.append(" ");
    looked.append(high.as_str());
    wide.append("pt");
    high.append("pt");
    let mut attrs: Vec<(String, String)> = Vec::new();
    attrs.push((String::from_str("version"), String::from_str("1.1")));
    attrs.push((String::from_str("width"), wide));
    attrs.push((String::from_str("height"), high));
    attrs.push((String::from_str("viewBox"), looked));
    attrs.push((String::from_str("xmlns"), String::from_str("http://www.w3.org/2000/svg")));
    proof {
        let expected = opening_attrs(width, height, unit);
        let found = crate::backend::svg::xml::pairs_view(attrs@);
        assert(found.len() == 5);
        assert(found[0] == expected[0]);
        assert(found[1].1 =~= expected[1].1);
        assert(found[2].1 =~= expected[2].1);
        assert(found[3].1 =~= expected[3].1);
        assert(found[4] == expected[4]);
        assert(found =~= expected);
    }
    attrs
}

/// Writes the opening tag of an image.
fn write_opening(width: i64, height: i64, unit: i64, out: &mut String)
    requires
        unit > 0,
    ensures
        final(out)@ == old(out)@ + opening_text(width, height, unit),
{
    let attrs: Vec<(String, String)> = opening(width, height, unit);
    out.append("<svg ");
    write_attrs(&attrs, out);
    out.append(">\n");
    assert(out@ =~= old(out)@ + opening_text(width, height, unit));
}

impl Image {
    /// An image of a size without elements.
    pub fn new(width: i64, height: i64, unit: i64) -> (r: Image)
        ensures
            r.width == width,
            r.height == height,
            r.unit == unit,
            r.elements@ == Seq::<Element>::empty(),
    {
        Image { width, height, unit, elements: Vec::new() }
    }

    /// Draws a filled rectangle.
    pub fn draw_rect(&mut self, x0: i64, y0: i64, width: i64, height: i64)
        ensures
            *final(self) == (Image {
                elements: final(self).elements,
                ..*old(self)
            }),
            final(self).elements@ == old(self).elements@.push(
                Element::Rect { x0, y0, width, height },
            ),
    {
        self.elements.push(Element::Rect { x0, y0, width, height });
    }

    /// Draws a path at a place.
    pub fn draw_path(&mut self, translate_x: i64, translate_y: i64, data: String, color: Color)
        ensures
            *final(self) == (Image {
                elements: final(self).elements,
                ..*old(self)
            }),
            final(self).elements@ == old(self).elements@.push(
                Element::Path { x: translate_x, y: translate_y, data, color },
            ),
    {
        self.elements.push(Element::Path { x: translate_x, y: translate_y, data, color });
    }

    /// Writes the text of the image, with metadata.
    pub fn write(&self, metadata: &Vec<(String, String)>, out: &mut String)
        requires
            self.unit > 0,
        ensures
            final(out)@ == old(out)@ + image_text(
                self.width,
                self.height,
                self.unit,
                elements_view(self.elements@),
                crate::backend::svg::xml::pairs_view(metadata@),
            ),
    {
        let unit: i64 = self.unit;
        write_opening(self.width, self.height, unit, out);
        let ghost opened = out@;
        let ghost pairs = crate::backend::svg::xml::pairs_view(metadata@);
        let n: usize = metadata.len();
        let mut i: usize = 0;
        assert(opened + all_metadata_text(pairs.take(0)) =~= opened);
        while i < n
            invariant
                i <= n,
                n == metadata@.len(),
                pairs == crate::backend::svg::xml::pairs_view(metadata@),
                out@ == opened + all_metadata_text(pairs.take(i as int)),
            decreases n - i,
        {
            proof {
                assert(pairs.take(i + 1).drop_last() == pairs.take(i as int));
                assert(pairs.take(i + 1).last() == (metadata@[i as int].0@, metadata@[i as int].1@));
            }
            let ghost before = out@;
            out.append("  <metadata id=\"");
            out.append(metadata[i].0.as_str());
            out.append("\">");
            write_escaped_string(metadata[i].1.as_str(), out);
            out.append("</metadata>\n");
            assert(out@ =~= before + metadata_text(metadata@[i as int].0@, metadata@[i as int].1@));
            i = i + 1;
            assert(out@ =~= opened + all_metadata_text(pairs.take(i as int)));
        }
        proof {
            assert(pairs.take(n as int) == pairs);
        }
        out.append("  <g transform=\"translate(0.0,");
        write_points(self.height, unit, out);
        out.append(") scale(1.0,-1.0)\">\n");
        let ghost grouped = out@;
        let ghost views = elements_view(self.elements@);
        let m: usize = self.elements.len();
        let mut j: usize = 0;
        assert(grouped + elements_text(views.take(0), unit) =~= grouped);
        while j < m
            invariant
                j <= m,
                m == self.elements@.len(),
                unit == self.unit,
                unit > 0,
                views == elements_view(self.elements@),
                out@ == grouped + elements_text(views.take(j as int), unit),
            decreases m - j,
        {
            proof {
                assert(views.take(j + 1).drop_last() == views.take(j as int));
                assert(views.take(j + 1).last() == self.elements@[j as int]@);
            }
            self.elements[j].write(unit, out);
            j = j + 1;
            assert(out@ =~= grouped + elements_text(views.take(j as int), unit));
        }
        proof {
            assert(views.take(m as int) == views);
        }
        out.append("  </g>\n");
        out.append("</svg>\n");
        assert(out@ =~= old(out)@ + image_text(
            self.width,
            self.height,
            unit,
            views,
            pairs,
        ));
    }
}

} // verus!
