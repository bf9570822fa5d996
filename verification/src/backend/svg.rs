//! A render sink that draws a vector image, and the text of the image.

use vstd::prelude::*;

use crate::backend::svg::svg_core::Image;
use crate::common::{Color, Drawn, Glyph, Renderer};

pub mod svg_core;
pub mod xml;

pub use crate::backend::svg::xml::{parse_metadata, write_escaped_string};

verus! {

/// The views of a list of glyphs with their paths.
pub open spec fn paths_view(paths: Seq<(Glyph, String)>) -> Seq<(Glyph, Seq<char>)> {
    Seq::new(paths.len(), |i: int| (paths[i].0, paths[i].1@))
}

/// The path of a glyph: that of the first entry of the glyph, where there is
/// one.
pub open spec fn path_of(paths: Seq<(Glyph, Seq<char>)>, glyph: Glyph) -> Option<Seq<char>>
    decreases paths.len(),
{
    if paths.len() == 0 {
        None
    } else if paths[0].0 == glyph {
        Some(paths[0].1)
    } else {
        path_of(paths.drop_first(), glyph)
    }
}

/// The elements that something drawn adds to an image: a rectangle for a
/// rectangle, the path of a glyph at the place of the glyph, and nothing for
/// a glyph without a path.
pub open spec fn drawn_element(drawn: Drawn, paths: Seq<(Glyph, Seq<char>)>) -> Seq<
    crate::backend::svg::svg_core::ElementView,
> {
    match drawn {
        Drawn::Rect { x, y, width, height } => seq![
            crate::backend::svg::svg_core::ElementView::Rect { x0: x, y0: y, width, height },
        ],
        Drawn::Glyph { glyph, x, y, color } => match path_of(paths, glyph) {
            Some(data) => seq![
                crate::backend::svg::svg_core::ElementView::Path { x, y, data, color },
            ],
            None => Seq::empty(),
        },
    }
}

/// The elements of an image to which these things were drawn.
pub open spec fn drawn_elements(log: Seq<Drawn>, paths: Seq<(Glyph, Seq<char>)>) -> Seq<
    crate::backend::svg::svg_core::ElementView,
>
    decreases log.len(),
{
    if log.len() == 0 {
        Seq::empty()
    } else {
        drawn_elements(log.drop_last(), paths) + drawn_element(log.last(), paths)
    }
}

/// A render sink that draws a vector image. It draws a glyph as the path
/// that it was given for the glyph.
pub struct SvgRenderer {
    pub width: i64,
    pub height: i64,
    pub unit: i64,
    pub paths: Vec<(Glyph, String)>,
    pub items: Vec<Drawn>,
}

impl SvgRenderer {
    /// A sink for an image of a size, with the paths of the glyphs.
    pub fn new(width: i64, height: i64, unit: i64, paths: Vec<(Glyph, String)>) -> (r: SvgRenderer)
        ensures
            r.drawn() == Seq::<Drawn>::empty(),
            r.paths == paths,
            (r.width, r.height, r.unit) == (width, height, unit),
    {
        SvgRenderer { width, height, unit, paths, items: Vec::new() }
    }

    /// The image with what was drawn.
    pub fn finish(self) -> (r: Image)
        ensures
            (r.width, r.height, r.unit) == (self.width, self.height, self.unit),
            crate::backend::svg::svg_core::elements_view(r.elements@) == drawn_elements(
                self.drawn(),
                paths_view(self.paths@),
            ),
    {
        draw_image(&self.items, &self.paths, self.width, self.height, self.unit)
    }
}

/// The path of a glyph.
fn find(paths: &Vec<(Glyph, String)>, glyph: &Glyph) -> (r: Option<String>)
    ensures
        crate::text::text_view(r) == path_of(paths_view(paths@), *glyph),
{
    let ghost all = paths_view(paths@);
    let n: usize = paths.len();
    let mut i: usize = 0;
    assert(all.skip(0) =~= all);
    while i < n
        invariant
            i <= n,
            n == paths@.len(),
            all == paths_view(paths@),
            path_of(all, *glyph) == path_of(all.skip(i as int), *glyph),
        decreases n - i,
    {
        proof {
            assert(all.skip(i as int)[0] == all[i as int]);
            assert(all.skip(i as int).drop_first() =~= all.skip(i + 1));
        }
        if paths[i].0 == *glyph {
            return Some(paths[i].1.clone());
        }
        i = i + 1;
    }
    None
}

/// The image of a size with the elements of what was drawn.
pub fn draw_image(
    items: &Vec<Drawn>,
    paths: &Vec<(Glyph, String)>,
    width: i64,
    height: i64,
    unit: i64,
) -> (r: Image)
    ensures
        (r.width, r.height, r.unit) == (width, height, unit),
        crate::backend::svg::svg_core::elements_view(r.elements@) == drawn_elements(
            items@,
            paths_view(paths@),
        ),
{
    let ghost all = paths_view(paths@);
    let mut image = Image::new(width, height, unit);
    let n: usize = items.len();
    let mut i: usize = 0;
    proof {
        assert(items@.take(0) =~= Seq::<Drawn>::empty());
        assert(crate::backend::svg::svg_core::elements_view(image.elements@) =~= Seq::<
            crate::backend::svg::svg_core::ElementView,
        >::empty());
    }
    while i < n
        invariant
            i <= n,
            n == items@.len(),
            all == paths_view(paths@),
            (image.width, image.height, image.unit) == (width, height, unit),
            crate::backend::svg::svg_core::elements_view(image.elements@) == drawn_elements(
                items@.take(i as int),
                all,
            ),
        decreases n - i,
    {
        let ghost before = crate::backend::svg::svg_core::elements_view(image.elements@);
        proof {
            assert(items@.take(i + 1).drop_last() == items@.take(i as int));
            assert(items@.take(i + 1).last() == items@[i as int]);
        }
        match items[i] {
            Drawn::Rect { x, y, width, height } => {
                image.draw_rect(x, y, width, height);
                assert(crate::backend::svg::svg_core::elements_view(image.elements@) =~= before
                    + drawn_element(items@[i as int], all));
            },
            Drawn::Glyph { glyph, x, y, color } => {
                match find(paths, &glyph) {
                    Some(data) => {
                        image.draw_path(x, y, data, color);
                        assert(crate::backend::svg::svg_core::elements_view(image.elements@)
                            =~= before + drawn_element(items@[i as int], all));
                    },
                    None => {
                        assert(before + drawn_element(items@[i as int], all) =~= before);
                    },
                }
            },
        }
        i = i + 1;
    }
    proof {
        assert(items@.take(n as int) == items@);
    }
    image
}

impl Renderer for SvgRenderer {
    open spec fn drawn(&self) -> Seq<Drawn> {
        self.items@
    }

    fn render_glyph(&mut self, glyph: &Glyph, x0: i64, y0: i64, color: Color)
        ensures
            final(self).paths == old(self).paths,
            (final(self).width, final(self).height, final(self).unit) == (
                old(self).width,
                old(self).height,
                old(self).unit,
            ),
    {
        self.items.push(Drawn::Glyph { glyph: *glyph, x: x0, y: y0, color });
    }

    fn render_box(&mut self, x0: i64, y0: i64, width: i64, height: i64)
        ensures
            final(self).paths == old(self).paths,
            (final(self).width, final(self).height, final(self).unit) == (
                old(self).width,
                old(self).height,
                old(self).unit,
            ),
    {
        self.items.push(Drawn::Rect { x: x0, y: y0, width, height });
    }
}

} // verus!
