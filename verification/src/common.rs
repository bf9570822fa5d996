//! What the layout shares with its collaborators: colours, font styles,
//! glyphs, and the capabilities that a font and a render sink provide.

use vstd::prelude::*;

pub mod construction;
pub mod font_params;

use crate::common::construction::Construction;
use crate::common::font_params::{FractionParams, GeneralParams, ScriptParams};

verus! {

/// The colour a glyph is drawn in. `Error` marks content that stands in for
/// something the input or the font could not provide.
#[derive(Clone, Copy, Debug, PartialEq, Eq, Structural)]
pub enum Color {
    Normal,
    Error,
}

/// The family of a font.
#[derive(Clone, Copy, Debug, PartialEq, Eq, Structural)]
pub enum Family {
    Roman,
    Italic,
}

/// The four sizes in which a font is asked for glyphs.
#[derive(Clone, Copy, Debug, PartialEq, Eq, Structural)]
pub enum FontStyle {
    Display,
    Text,
    Script,
    SuperScript,
}

/// A glyph of a font at one size: the handle by which the font knows it, and
/// its metrics.
#[derive(Clone, Copy, Debug, PartialEq, Eq, Structural)]
pub struct Glyph {
    /// The font's own number for the glyph.
    pub id: u32,
    /// The size the glyph was asked for.
    pub size: i64,
    pub height: i64,
    pub depth: i64,
    pub advance: i64,
    pub italic_correction: i64,
}

impl Glyph {
    pub fn height(&self) -> (r: i64)
        ensures
            r == self.height,
    {
        self.height
    }

    pub fn depth(&self) -> (r: i64)
        ensures
            r == self.depth,
    {
        self.depth
    }

    pub fn advance(&self) -> (r: i64)
        ensures
            r == self.advance,
    {
        self.advance
    }

    pub fn italic_correction(&self) -> (r: i64)
        ensures
            r == self.italic_correction,
    {
        self.italic_correction
    }

    /// Replaces the advance and leaves everything else as it is.
    pub fn set_advance(&mut self, advance: i64)
        ensures
            *final(self) == (Glyph { advance, ..*old(self) }),
    {
        self.advance = advance;
    }
}

/// A font, as the layout consults it.
///
/// Every answer depends on the arguments alone: asked twice, a font answers
/// the same. The specification functions name the answers; an implementation
/// owes that each method returns what the specification function of the same
/// question names.
pub trait Font {
    /// The glyph that stands in for one that the font lacks.
    closed spec fn fallback_glyph(&self, size: i64, style: FontStyle) -> Glyph {
        arbitrary()
    }

    /// The glyph of a character.
    closed spec fn glyph(&self, ch: char, size: i64, style: FontStyle) -> Option<Glyph> {
        arbitrary()
    }

    /// The larger variant of the glyph of a character, as display style sets
    /// a big operator.
    closed spec fn larger_glyph(
        &self,
        ch: char,
        size: i64,
        style: FontStyle,
        include_italic_correction: bool,
    ) -> Option<Glyph> {
        arbitrary()
    }

    /// A variant of the glyph of a character that is at least `min_width`
    /// wide.
    closed spec fn glyph_minwidth(&self, ch: char, size: i64, style: FontStyle, min_width: i64) -> Option<
        Glyph,
    > {
        arbitrary()
    }

    /// A variant of the glyph of a character that is at least `min_height`
    /// high.
    closed spec fn glyph_minheight(
        &self,
        ch: char,
        size: i64,
        style: FontStyle,
        min_height: i64,
    ) -> Option<Glyph> {
        arbitrary()
    }

    /// The parts from which the glyph of a character is assembled to any
    /// width.
    closed spec fn glyph_hor_construction(&self, ch: char, size: i64, style: FontStyle) -> Option<
        crate::common::construction::ConstructionView,
    > {
        arbitrary()
    }

    /// The parts from which the glyph of a character is assembled to any
    /// height.
    closed spec fn glyph_vert_construction(&self, ch: char, size: i64, style: FontStyle) -> Option<
        crate::common::construction::ConstructionView,
    > {
        arbitrary()
    }

    /// The parameters for the placement of scripts.
    closed spec fn script_params(&self, size: i64, style: FontStyle, cramped: bool) -> ScriptParams {
        arbitrary()
    }

    /// The general parameters.
    closed spec fn general_params(&self, size: i64, style: FontStyle, cramped: bool) -> GeneralParams {
        arbitrary()
    }

    /// The parameters for the layout of fractions.
    closed spec fn fraction_params(&self, size: i64, style: FontStyle, cramped: bool) -> FractionParams {
        arbitrary()
    }

    fn get_fallback_glyph(&self, size: i64, style: FontStyle) -> (r: Glyph)
        ensures
            r == self.fallback_glyph(size, style),
    ;

    fn get_glyph(&self, ch: char, size: i64, style: FontStyle) -> (r: Option<Glyph>)
        ensures
            r == self.glyph(ch, size, style),
    ;

    fn get_larger_glyph(
        &self,
        ch: char,
        size: i64,
        style: FontStyle,
        include_italic_correction: bool,
    ) -> (r: Option<Glyph>)
        ensures
            r == self.larger_glyph(ch, size, style, include_italic_correction),
    ;

    fn get_glyph_minwidth(&self, ch: char, size: i64, style: FontStyle, min_width: i64) -> (r:
        Option<Glyph>)
        ensures
            r == self.glyph_minwidth(ch, size, style, min_width),
    ;

    fn get_glyph_minheight(&self, ch: char, size: i64, style: FontStyle, min_height: i64) -> (r:
        Option<Glyph>)
        ensures
            r == self.glyph_minheight(ch, size, style, min_height),
    ;

    fn get_glyph_hor_construction(&self, ch: char, size: i64, style: FontStyle) -> (r: Option<
        Construction,
    >)
        ensures
            crate::common::construction::view_of(r) == self.glyph_hor_construction(ch, size, style),
    ;

    fn get_glyph_vert_construction(&self, ch: char, size: i64, style: FontStyle) -> (r: Option<
        Construction,
    >)
        ensures
            crate::common::construction::view_of(r) == self.glyph_vert_construction(
                ch,
                size,
                style,
            ),
    ;

    fn calculate_script_params(&self, size: i64, style: FontStyle, cramped: bool) -> (r:
        ScriptParams)
        ensures
            r == self.script_params(size, style, cramped),
    ;

    fn calculate_general_params(&self, size: i64, style: FontStyle, cramped: bool) -> (r:
        GeneralParams)
        ensures
            r == self.general_params(size, style, cramped),
    ;

    fn calculate_fraction_params(&self, size: i64, style: FontStyle, cramped: bool) -> (r:
        FractionParams)
        ensures
            r == self.fraction_params(size, style, cramped),
    ;
}

/// The fonts that a layout is set in, one for each family.
pub trait FontBackend {
    type Font: Font;

    /// The font of a family.
    closed spec fn font(&self, family: Family) -> Self::Font {
        arbitrary()
    }

    fn get_font(&self, family: Family) -> (r: &Self::Font)
        ensures
            *r == self.font(family),
    ;
}

/// Something that has been drawn: a glyph with the place of its origin, or a
/// filled rectangle with the place of its lower left corner.
#[derive(Clone, Copy, Debug, PartialEq, Eq, Structural)]
pub enum Drawn {
    Glyph { glyph: Glyph, x: i64, y: i64, color: Color },
    Rect { x: i64, y: i64, width: i64, height: i64 },
}

/// A sink that a layout is drawn to.
///
/// An implementation owes that each method draws what it is asked for and
/// nothing else, after what was drawn before.
pub trait Renderer {
    /// What has been drawn so far, in the order in which it was drawn.
    closed spec fn drawn(&self) -> Seq<Drawn> {
        arbitrary()
    }

    fn render_glyph(&mut self, glyph: &Glyph, x0: i64, y0: i64, color: Color)
        ensures
            final(self).drawn() == old(self).drawn().push(
                Drawn::Glyph { glyph: *glyph, x: x0, y: y0, color },
            ),
    ;

    fn render_box(&mut self, x0: i64, y0: i64, width: i64, height: i64)
        ensures
            final(self).drawn() == old(self).drawn().push(
                Drawn::Rect { x: x0, y: y0, width, height },
            ),
    ;
}

/// A sink that keeps what is drawn to it.
pub struct Recorder {
    pub items: Vec<Drawn>,
}

impl Recorder {
    /// A sink to which nothing has been drawn.
    pub fn new() -> (r: Recorder)
        ensures
            r.items@ == Seq::<Drawn>::empty(),
    {
        Recorder { items: Vec::new() }
    }
}

impl Renderer for Recorder {
    open spec fn drawn(&self) -> Seq<Drawn> {
        self.items@
    }

    fn render_glyph(&mut self, glyph: &Glyph, x0: i64, y0: i64, color: Color) {
        self.items.push(Drawn::Glyph { glyph: *glyph, x: x0, y: y0, color });
    }

    fn render_box(&mut self, x0: i64, y0: i64, width: i64, height: i64) {
        self.items.push(Drawn::Rect { x: x0, y: y0, width, height });
    }
}

} // verus!
