//! Typesetting of mathematical formulas: a source text in a small
//! TeX-like notation is parsed into a math list, and the math list is laid out
//! as a tree of boxes, glue, rules and glyphs with exact positions.
//!
//! All lengths are integers in one unit of the caller's choosing (scaled
//! points, for example); see [`length`].

use vstd::prelude::*;

use crate::backend::svg::draw_image;
use crate::backend::svg::xml::parse_metadata;
use crate::common::{Family, FontBackend, Glyph, Recorder, Renderer};
use crate::layout::Node;
use crate::length::clamp_wide;
use crate::mathlist::Style;
use crate::text::{chars_of, same_chars};
use vstd::string::StringExecFns;

pub mod backend;
pub mod classes;
pub mod common;
pub mod layout;
pub mod length;
pub mod mathlist;
pub mod parser;
pub mod text;

verus! {

/// The text chunks of a PNG image that are encoded in UTF-8, as the decoder of
/// the crate `png` reads them up to the image data: each with its keyword and
/// with its text, where the text can be decompressed. `None` where the decoder
/// does not accept the image.
pub uninterp spec fn png_text(data: Seq<u8>) -> Option<Seq<(Seq<char>, Option<Seq<char>>)>>;

/// The views of a list of text chunks.
pub open spec fn chunks_view(chunks: Seq<(String, Option<String>)>) -> Seq<
    (Seq<char>, Option<Seq<char>>),
> {
    Seq::new(
        chunks.len(),
        |i: int|
            (
                chunks[i].0@,
                match chunks[i].1 {
                    Some(text) => Some(text@),
                    None => None,
                },
            ),
    )
}

/// Reads the text chunks of a PNG image.
///
/// This is `png::Decoder::new` and `read_info`, which reads the image up to
/// its data, and for each chunk of `Info::utf8_text` its `keyword` and what
/// `get_text` gives. The contract claims only that the result depends on the
/// bytes alone.
#[verifier::external_body]
fn read_png_text(data: &[u8]) -> (r: Option<Vec<(String, Option<String>)>>)
    ensures
        match r {
            Some(chunks) => png_text(data@) == Some(chunks_view(chunks@)),
            None => png_text(data@) is None,
        },
{
    match png::Decoder::new(data).read_info() {
        Ok(reader) => Some(
            reader.info().utf8_text.iter().map(|c| (c.keyword.clone(), c.get_text().ok())).collect(),
        ),
        Err(_) => None,
    }
}

/// Reads bytes as a text in UTF-8.
///
/// This is `core::str::from_utf8`, which gives the text where the bytes are
/// valid UTF-8 and an error where they are not.
#[verifier::external_body]
fn utf8_text(data: &[u8]) -> (r: Option<&str>)
    ensures
        match r {
            Some(text) => vstd::utf8::valid_utf8(data@) && text@ == vstd::utf8::decode_utf8(data@),
            None => !vstd::utf8::valid_utf8(data@),
        },
{
    core::str::from_utf8(data).ok()
}

/// The keyword under which an image names the program that made it.
pub open spec fn source_key() -> Seq<char> {
    "source"@
}

/// The name by which this library enters itself under [`source_key`].
pub open spec fn source_name() -> Seq<char> {
    "rustmath"@
}

/// The keyword under which an image holds the source text of its formula.
pub open spec fn text_key() -> Seq<char> {
    "rustmath_src"@
}

/// The value of the last pair with this key.
pub open spec fn last_value(pairs: Seq<(Seq<char>, Seq<char>)>, key: Seq<char>) -> Option<
    Seq<char>,
>
    decreases pairs.len(),
{
    if pairs.len() == 0 {
        None
    } else if pairs.last().0 == key {
        Some(pairs.last().1)
    } else {
        last_value(pairs.drop_last(), key)
    }
}

/// The source text that metadata holds: the value under [`text_key`], where
/// the metadata names this library as the program that made the image.
pub open spec fn source_in(pairs: Seq<(Seq<char>, Seq<char>)>) -> Option<Seq<char>> {
    if last_value(pairs, source_key()) == Some(source_name()) {
        last_value(pairs, text_key())
    } else {
        None
    }
}

/// Whether the text of every chunk under one of the two keywords could be
/// read.
pub open spec fn chunks_readable(chunks: Seq<(Seq<char>, Option<Seq<char>>)>) -> bool {
    forall|i: int|
        0 <= i < chunks.len() && ((#[trigger] chunks[i]).0 == source_key() || chunks[i].0
            == text_key()) ==> chunks[i].1 is Some
}

/// The chunks as pairs of keyword and text; a text that could not be read
/// counts as empty.
pub open spec fn chunk_pairs(chunks: Seq<(Seq<char>, Option<Seq<char>>)>) -> Seq<
    (Seq<char>, Seq<char>),
> {
    Seq::new(
        chunks.len(),
        |i: int|
            (
                chunks[i].0,
                match chunks[i].1 {
                    Some(text) => text,
                    None => Seq::empty(),
                },
            ),
    )
}

/// The source text that the text chunks of an image hold: none where the
/// text of a chunk under one of the two keywords cannot be read.
pub open spec fn source_in_chunks(chunks: Seq<(Seq<char>, Option<Seq<char>>)>) -> Option<
    Seq<char>,
> {
    if chunks_readable(chunks) {
        source_in(chunk_pairs(chunks))
    } else {
        None
    }
}

/// Whether the bytes begin as a PNG image does.
pub open spec fn is_png(data: Seq<u8>) -> bool {
    data.len() >= 4 && data[0] == 0x89 && data[1] == 0x50 && data[2] == 0x4e && data[3] == 0x47
}

/// The source text that a PNG image holds in its text chunks.
pub open spec fn png_source(data: Seq<u8>) -> Option<Seq<char>> {
    if is_png(data) {
        match png_text(data) {
            Some(chunks) => source_in_chunks(chunks),
            None => None,
        }
    } else {
        None
    }
}

/// The source text that a vector image holds in its metadata elements.
pub open spec fn svg_source(data: Seq<u8>) -> Option<Seq<char>> {
    if vstd::utf8::valid_utf8(data) {
        match crate::backend::svg::xml::metadata_of(vstd::utf8::decode_utf8(data)) {
            Some(pairs) => source_in(pairs),
            None => None,
        }
    } else {
        None
    }
}

/// The metadata by which an image of this library holds the source text of
/// its formula.
pub open spec fn source_metadata(source: Seq<char>) -> Seq<(Seq<char>, Seq<char>)> {
    seq![(source_key(), source_name()), (text_key(), source)]
}

/// The source text of a formula is read back from the vector image that holds
/// it in its metadata, where every character of the text can be read back.
pub proof fn lemma_source_read_back(
    width: i64,
    height: i64,
    unit: i64,
    elements: Seq<crate::backend::svg::svg_core::ElementView>,
    source: Seq<char>,
)
    requires
        unit > 0,
        forall|i: int|
            0 <= i < source.len() ==> crate::backend::svg::xml::reads_back(#[trigger] source[i]),
    ensures
        svg_source(
            vstd::utf8::encode_utf8(
                crate::backend::svg::svg_core::image_text(
                    width,
                    height,
                    unit,
                    elements,
                    source_metadata(source),
                ),
            ),
        ) == Some(source),
{
    reveal_strlit("source");
    reveal_strlit("rustmath");
    reveal_strlit("rustmath_src");
    let metadata = source_metadata(source);
    let text = crate::backend::svg::svg_core::image_text(width, height, unit, elements, metadata);
    assert(crate::backend::svg::svg_core::metadata_plain(metadata)) by {
        assert forall|j: int| 0 <= j < metadata.len() implies {
            &&& forall|k: int|
                0 <= k < (#[trigger] metadata[j]).0.len() ==> #[trigger] metadata[j].0[k] != '"'
            &&& forall|i: int|
                0 <= i < metadata[j].1.len() ==> crate::backend::svg::xml::reads_back(
                    #[trigger] metadata[j].1[i],
                )
        } by {
            if j == 0 {
                assert(metadata[0].1 == "rustmath"@);
            }
        }
    }
    crate::backend::svg::svg_core::lemma_image_metadata_read_back(
        width,
        height,
        unit,
        elements,
        metadata,
    );
    vstd::utf8::encode_utf8_valid_utf8(text);
    vstd::utf8::encode_utf8_decode_utf8(text);
    assert(source_key().len() == 6 && text_key().len() == 12);
    assert(metadata.drop_last() =~= seq![(source_key(), source_name())]);
    assert(metadata.drop_last().drop_last() =~= Seq::<(Seq<char>, Seq<char>)>::empty());
    assert(metadata.last() == (text_key(), source));
    assert(text_key() != source_key());
    let first = metadata.drop_last();
    assert(first.last() == (source_key(), source_name()));
    assert(last_value(first, source_key()) == Some(source_name()));
    assert(last_value(metadata, text_key()) == Some(source));
    assert(last_value(metadata, source_key()) == Some(source_name()));
}

/// Whether a text is a word.
fn text_is(text: &String, word: &str) -> (r: bool)
    ensures
        r == (text@ == word@),
{
    let a: Vec<char> = chars_of(text.as_str());
    let b: Vec<char> = chars_of(word);
    same_chars(&a, &b)
}

/// The source text that metadata holds.
pub fn source_from_pairs(pairs: &Vec<(String, String)>) -> (r: Option<String>)
    ensures
        crate::text::text_view(r) == source_in(crate::backend::svg::xml::pairs_view(pairs@)),
{
    let ghost all = crate::backend::svg::xml::pairs_view(pairs@);
    let mut source: Option<String> = None;
    let mut text: Option<String> = None;
    let n: usize = pairs.len();
    let mut i: usize = 0;
    while i < n
        invariant
            i <= n,
            n == pairs@.len(),
            all == crate::backend::svg::xml::pairs_view(pairs@),
            crate::text::text_view(source) == last_value(all.take(i as int), source_key()),
            crate::text::text_view(text) == last_value(all.take(i as int), text_key()),
        decreases n - i,
    {
        proof {
            assert(all.take(i + 1).drop_last() == all.take(i as int));
            assert(all.take(i + 1).last() == (pairs@[i as int].0@, pairs@[i as int].1@));
        }
        if text_is(&pairs[i].0, "source") {
            source = Some(pairs[i].1.clone());
        }
        if text_is(&pairs[i].0, "rustmath_src") {
            text = Some(pairs[i].1.clone());
        }
        i = i + 1;
    }
    proof {
        assert(all.take(n as int) == all);
    }
    match source {
        Some(name) => if text_is(&name, "rustmath") {
            text
        } else {
            None
        },
        None => None,
    }
}

/// The source text that the text chunks of an image hold.
pub fn source_from_chunks(chunks: &Vec<(String, Option<String>)>) -> (r: Option<String>)
    ensures
        crate::text::text_view(r) == source_in_chunks(chunks_view(chunks@)),
{
    let ghost all = chunks_view(chunks@);
    let ghost pairs = chunk_pairs(all);
    let mut source: Option<String> = None;
    let mut text: Option<String> = None;
    let n: usize = chunks.len();
    let mut i: usize = 0;
    while i < n
        invariant
            i <= n,
            n == chunks@.len(),
            all == chunks_view(chunks@),
            pairs == chunk_pairs(all),
            chunks_readable(all.take(i as int)),
            crate::text::text_view(source) == last_value(pairs.take(i as int), source_key()),
            crate::text::text_view(text) == last_value(pairs.take(i as int), text_key()),
        decreases n - i,
    {
        proof {
            assert(pairs.take(i + 1).drop_last() == pairs.take(i as int));
            assert(pairs.take(i + 1).last() == pairs[i as int]);
            assert(all[i as int].0 == chunks@[i as int].0@);
        }
        let is_source: bool = text_is(&chunks[i].0, "source");
        let is_text: bool = text_is(&chunks[i].0, "rustmath_src");
        if is_source || is_text {
            match &chunks[i].1 {
                Some(value) => {
                    if is_source {
                        source = Some(value.clone());
                    }
                    if is_text {
                        text = Some(value.clone());
                    }
                },
                None => {
                    assert(!chunks_readable(all)) by {
                        assert(all[i as int].1 is None);
                    }
                    return None;
                },
            }
        }
        proof {
            assert forall|k: int|
                0 <= k < i + 1 && ((#[trigger] all.take(i + 1)[k]).0 == source_key() || all.take(
                    i + 1,
                )[k].0 == text_key()) implies all.take(i + 1)[k].1 is Some by {
                if k < i {
                    assert(all.take(i as int)[k] == all.take(i + 1)[k]);
                }
            }
        }
        i = i + 1;
    }
    proof {
        assert(all.take(n as int) == all);
        assert(pairs.take(n as int) == pairs);
    }
    match source {
        Some(name) => if text_is(&name, "rustmath") {
            text
        } else {
            None
        },
        None => None,
    }
}

/// The source text that a PNG image holds in its text chunks.
pub fn get_source_from_png_metadata(png: &[u8]) -> (r: Option<String>)
    ensures
        crate::text::text_view(r) == png_source(png@),
{
    if png.len() < 4 || png[0] != 0x89 || png[1] != 0x50 || png[2] != 0x4e || png[3] != 0x47 {
        return None;
    }
    match read_png_text(png) {
        Some(chunks) => source_from_chunks(&chunks),
        None => None,
    }
}

/// The source text that a vector image holds in its metadata elements.
pub fn get_source_from_svg_metadata(data: &[u8]) -> (r: Option<String>)
    ensures
        crate::text::text_view(r) == svg_source(data@),
{
    let text: &str = match utf8_text(data) {
        Some(t) => t,
        None => {
            return None;
        },
    };
    match parse_metadata(text) {
        Some(pairs) => source_from_pairs(&pairs),
        None => None,
    }
}

/// The source text of the formula that an image shows, where the image holds
/// it: a PNG image in its text chunks, a vector image in its metadata
/// elements.
pub fn get_source_from_metadata(data: &[u8]) -> (r: Option<String>)
    ensures
        crate::text::text_view(r) == (match png_source(data@) {
            Some(source) => Some(source),
            None => svg_source(data@),
        }),
{
    let found: Option<String> = get_source_from_png_metadata(data);
    if found.is_some() {
        return found;
    }
    get_source_from_svg_metadata(data)
}

/// The size of the canvas for a layout with a padding on every side: the
/// width and the height.
pub open spec fn canvas_extent(node: crate::layout::NodeView, x_padding: i64, y_padding: i64) -> (
    i64,
    i64,
) {
    (
        crate::length::clamp(node.advance(false) + 2 * x_padding),
        crate::length::clamp(node.height(false) + node.depth() + 2 * y_padding),
    )
}

/// The size of the canvas for a layout with a padding on every side.
pub fn canvas_size(node: &Node, x_padding: i64, y_padding: i64) -> (r: (i64, i64))
    ensures
        r == canvas_extent(node@, x_padding, y_padding),
{
    (
        clamp_wide(node.advance(false) as i128 + 2 * (x_padding as i128)),
        clamp_wide(node.height(false) as i128 + node.depth() as i128 + 2 * (y_padding as i128)),
    )
}

/// Draws a layout on a canvas of the size that [`canvas_size`] gives: with
/// its left edge and its lowest point a padding away from the lower left
/// corner of the canvas.
pub fn render_layout<R: Renderer>(renderer: &mut R, node: &Node, x_padding: i64, y_padding: i64)
    ensures
        final(renderer).drawn() == old(renderer).drawn() + crate::layout::drawing(
            node@,
            x_padding,
            crate::length::clamp(y_padding + node@.depth()),
        ),
{
    let y0: i64 = clamp_wide(y_padding as i128 + node.depth() as i128);
    node.render(renderer, x_padding, y0);
}

/// The text of the vector image of a formula in display style: the formula
/// is read, laid out with the italic font of the backend at a size, and drawn
/// inside a padding, every glyph as the path that is given for it. With
/// metadata, the image names this library and holds the source text.
pub open spec fn svg_text<B: FontBackend>(
    backend: &B,
    paths: Seq<(Glyph, Seq<char>)>,
    src: Seq<char>,
    include_meta_data: bool,
    size: i64,
    x_padding: i64,
    y_padding: i64,
    unit: i64,
) -> Seq<char> {
    let node = crate::mathlist::list_layout(
        crate::parser::parsed(src),
        &backend.font(Family::Italic),
        size,
        Style::Display,
    );
    let extent = canvas_extent(node, x_padding, y_padding);
    crate::backend::svg::svg_core::image_text(
        extent.0,
        extent.1,
        unit,
        crate::backend::svg::drawn_elements(
            crate::layout::drawing(
                node,
                x_padding,
                crate::length::clamp(y_padding + node.depth()),
            ),
            paths,
        ),
        if include_meta_data {
            source_metadata(src)
        } else {
            Seq::empty()
        },
    )
}

/// The text of the vector image of a formula; `None` for a unit that is not
/// positive. From an image with metadata the source text can be read back,
/// where every character of it can be.
pub fn render_svg<B: FontBackend>(
    backend: &B,
    paths: &Vec<(Glyph, String)>,
    src: &str,
    include_meta_data: bool,
    size: i64,
    x_padding: i64,
    y_padding: i64,
    unit: i64,
) -> (r: Option<String>)
    ensures
        r is Some <==> unit > 0,
        r matches Some(text) ==> text@ == svg_text(
            backend,
            crate::backend::svg::paths_view(paths@),
            src@,
            include_meta_data,
            size,
            x_padding,
            y_padding,
            unit,
        ),
        r matches Some(text) ==> (include_meta_data && (forall|i: int|
            0 <= i < src@.len() ==> crate::backend::svg::xml::reads_back(#[trigger] src@[i]))
            ==> svg_source(vstd::utf8::encode_utf8(text@)) == Some(src@)),
{
    if unit <= 0 {
        return None;
    }
    let list = match crate::parser::parse(src) {
        Some(list) => list,
        None => {
            return None;
        },
    };
    let node: Node = list.translate(backend, size, Style::Display);
    let (width, height): (i64, i64) = canvas_size(&node, x_padding, y_padding);
    let mut sink: Recorder = Recorder::new();
    render_layout(&mut sink, &node, x_padding, y_padding);
    proof {
        assert(sink.items@ =~= crate::layout::drawing(
            node@,
            x_padding,
            crate::length::clamp(y_padding + node@.depth()),
        ));
    }
    let image = draw_image(&sink.items, paths, width, height, unit);
    let mut metadata: Vec<(String, String)> = Vec::new();
    if include_meta_data {
        metadata.push((String::from_str("source"), String::from_str("rustmath")));
        metadata.push((String::from_str("rustmath_src"), String::from_str(src)));
    }
    proof {
        let pairs = crate::backend::svg::xml::pairs_view(metadata@);
        if include_meta_data {
            assert(pairs =~= source_metadata(src@));
        } else {
            assert(pairs =~= Seq::<(Seq<char>, Seq<char>)>::empty());
        }
    }
    let mut text: String = String::new();
    image.write(&metadata, &mut text);
    proof {
        assert(text@ =~= svg_text(
            backend,
            crate::backend::svg::paths_view(paths@),
            src@,
            include_meta_data,
            size,
            x_padding,
            y_padding,
            unit,
        ));
        if include_meta_data && (forall|i: int|
            0 <= i < src@.len() ==> crate::backend::svg::xml::reads_back(#[trigger] src@[i])) {
            lemma_source_read_back(
                width,
                height,
                unit,
                crate::backend::svg::svg_core::elements_view(image.elements@),
                src@,
            );
        }
    }
    Some(text)
}

} // verus!
