//! The eight styles in which a formula or a part of one is set.

use vstd::prelude::*;

use crate::common::FontStyle;
use std::cmp::Ordering;
use vstd::std_specs::cmp::PartialOrdSpecImpl;
use vstd::std_specs::convert::FromSpecImpl;

verus! {

/// A style: one of four size tiers, cramped or not. The order of the variants
/// is the order of the styles, from the smallest to the largest; in each tier
/// the cramped style comes first.
#[derive(Clone, Copy, Debug, PartialEq, Eq, Structural, Ord)]
pub enum Style {
    SuperScriptCramped,
    SuperScript,
    ScriptCramped,
    Script,
    TextCramped,
    Text,
    DisplayCramped,
    Display,
}

impl Style {
    /// The size tier: 0 for scripts of scripts, 1 for scripts, 2 for text and
    /// 3 for display.
    pub open spec fn tier(self) -> int {
        match self {
            Style::SuperScriptCramped | Style::SuperScript => 0,
            Style::ScriptCramped | Style::Script => 1,
            Style::TextCramped | Style::Text => 2,
            Style::DisplayCramped | Style::Display => 3,
        }
    }

    /// Whether the style is one of the four cramped ones.
    pub open spec fn cramped(self) -> bool {
        match self {
            Style::SuperScriptCramped
            | Style::ScriptCramped
            | Style::TextCramped
            | Style::DisplayCramped => true,
            _ => false,
        }
    }

    /// The place of the style in the order of the styles, from 0.
    pub open spec fn rank(self) -> int {
        2 * self.tier() + if self.cramped() {
            0int
        } else {
            1int
        }
    }

    /// The tier of the scripts of a style of this tier.
    pub open spec fn script_tier(self) -> int {
        if self.tier() >= 2 {
            1
        } else {
            0
        }
    }

    /// The tier of the parts of a fraction in a style of this tier: one
    /// below, as far as there is one.
    pub open spec fn fraction_tier(self) -> int {
        if self.tier() >= 1 {
            self.tier() - 1
        } else {
            0
        }
    }

    /// The style of a tier, cramped or not.
    pub open spec fn of(tier: int, cramped: bool) -> Style {
        if tier <= 0 {
            if cramped {
                Style::SuperScriptCramped
            } else {
                Style::SuperScript
            }
        } else if tier == 1 {
            if cramped {
                Style::ScriptCramped
            } else {
                Style::Script
            }
        } else if tier == 2 {
            if cramped {
                Style::TextCramped
            } else {
                Style::Text
            }
        } else {
            if cramped {
                Style::DisplayCramped
            } else {
                Style::Display
            }
        }
    }

    /// The cramped style of the same tier.
    pub open spec fn cramped_style(self) -> Style {
        Style::of(self.tier(), true)
    }

    /// The style of a subscript: cramped, in the script tier of this style.
    pub open spec fn subscript_style(self) -> Style {
        Style::of(self.script_tier(), true)
    }

    /// The style of a superscript: in the script tier of this style, cramped
    /// where this style is.
    pub open spec fn superscript_style(self) -> Style {
        Style::of(self.script_tier(), self.cramped())
    }

    /// The style of a numerator: one tier down, cramped where this style is.
    pub open spec fn numerator_style(self) -> Style {
        Style::of(self.fraction_tier(), self.cramped())
    }

    /// The style of a denominator: one tier down, and cramped.
    pub open spec fn denominator_style(self) -> Style {
        Style::of(self.fraction_tier(), true)
    }

    /// The place of the style in the order of the styles, from 0.
    pub fn index(self) -> (r: u8)
        ensures
            r == self.rank(),
    {
        match self {
            Style::SuperScriptCramped => 0,
            Style::SuperScript => 1,
            Style::ScriptCramped => 2,
            Style::Script => 3,
            Style::TextCramped => 4,
            Style::Text => 5,
            Style::DisplayCramped => 6,
            Style::Display => 7,
        }
    }

    /// The cramped style of the same tier.
    pub fn to_cramped(self) -> (r: Style)
        ensures
            r == self.cramped_style(),
            r.tier() == self.tier(),
            r.cramped(),
    {
        match self {
            Style::SuperScript => Style::SuperScriptCramped,
            Style::Script => Style::ScriptCramped,
            Style::Text => Style::TextCramped,
            Style::Display => Style::DisplayCramped,
            _ => self,
        }
    }

    /// The style of a subscript: cramped, in the script tier of this style.
    pub fn to_subscript(self) -> (r: Style)
        ensures
            r == self.subscript_style(),
            r.tier() == self.script_tier(),
            r.cramped(),
    {
        if self.index() < 4 {
            Style::SuperScriptCramped
        } else {
            Style::ScriptCramped
        }
    }

    /// The style of a superscript: in the script tier of this style, cramped
    /// where this style is.
    pub fn to_superscript(self) -> (r: Style)
        ensures
            r == self.superscript_style(),
            r.tier() == self.script_tier(),
            r.cramped() == self.cramped(),
    {
        match self {
            Style::Display | Style::Text => Style::Script,
            Style::DisplayCramped | Style::TextCramped => Style::ScriptCramped,
            Style::Script | Style::SuperScript => Style::SuperScript,
            Style::ScriptCramped | Style::SuperScriptCramped => Style::SuperScriptCramped,
        }
    }

    pub fn is_cramped(self) -> (r: bool)
        ensures
            r == self.cramped(),
    {
        match self {
            Style::DisplayCramped
            | Style::TextCramped
            | Style::ScriptCramped
            | Style::SuperScriptCramped => true,
            _ => false,
        }
    }

    /// The style of a numerator: one tier down, cramped where this style is.
    pub fn to_numerator(self) -> (r: Style)
        ensures
            r == self.numerator_style(),
            r.tier() == self.fraction_tier(),
            r.cramped() == self.cramped(),
    {
        match self {
            Style::Display => Style::Text,
            Style::DisplayCramped => Style::TextCramped,
            _ => self.to_superscript(),
        }
    }

    /// The style of a denominator: one tier down, and cramped.
    pub fn to_denominator(self) -> (r: Style)
        ensures
            r == self.denominator_style(),
            r.tier() == self.fraction_tier(),
            r.cramped(),
    {
        match self {
            Style::Display | Style::DisplayCramped => Style::TextCramped,
            _ => self.to_subscript(),
        }
    }

    /// The size in which a font is asked for the glyphs of this style.
    pub open spec fn font_style(self) -> FontStyle {
        if self.tier() == 0 {
            FontStyle::SuperScript
        } else if self.tier() == 1 {
            FontStyle::Script
        } else if self.tier() == 2 {
            FontStyle::Text
        } else {
            FontStyle::Display
        }
    }
}

/// A style is known by its tier and by whether it is cramped.
pub proof fn lemma_style_determined(a: Style, b: Style)
    requires
        a.tier() == b.tier(),
        a.cramped() == b.cramped(),
    ensures
        a == b,
{
}

/// The style of a tier has that tier, and is cramped or not as it was asked
/// for.
pub proof fn lemma_style_of(tier: int, cramped: bool)
    requires
        0 <= tier <= 3,
    ensures
        Style::of(tier, cramped).tier() == tier,
        Style::of(tier, cramped).cramped() == cramped,
{
}

/// Cramping a style twice is cramping it once, and a cramped style is its
/// own cramped style.
pub proof fn lemma_cramped_idempotent(s: Style)
    ensures
        s.cramped_style().cramped_style() == s.cramped_style(),
        s.cramped() ==> s.cramped_style() == s,
{
}

/// The styles of scripts are the four smallest ones, and that of a subscript
/// is one of the two cramped ones among them.
pub proof fn lemma_script_styles(s: Style)
    ensures
        s.subscript_style() == Style::SuperScriptCramped || s.subscript_style()
            == Style::ScriptCramped,
        s.superscript_style().rank() <= Style::Script.rank(),
        s.superscript_style().cramped() == s.cramped(),
{
}

/// In a fraction, display style becomes text style; the denominator is
/// always cramped.
pub proof fn lemma_fraction_styles(s: Style)
    ensures
        s.tier() == 3 ==> s.numerator_style().tier() == 2 && s.denominator_style().tier() == 2,
        s.tier() < 3 ==> s.numerator_style() == s.superscript_style() && s.denominator_style()
            == s.subscript_style(),
        s.denominator_style().cramped(),
        s.numerator_style().cramped() == s.cramped(),
{
}

impl PartialOrd for Style {
    fn partial_cmp(&self, other: &Style) -> (r: Option<Ordering>) {
        let a: u8 = self.index();
        let b: u8 = other.index();
        if a < b {
            Some(Ordering::Less)
        } else if a > b {
            Some(Ordering::Greater)
        } else {
            Some(Ordering::Equal)
        }
    }
}

impl PartialOrdSpecImpl for Style {
    open spec fn obeys_partial_cmp_spec() -> bool {
        true
    }

    open spec fn partial_cmp_spec(&self, other: &Style) -> Option<Ordering> {
        if self.rank() < other.rank() {
            Some(Ordering::Less)
        } else if self.rank() > other.rank() {
            Some(Ordering::Greater)
        } else {
            Some(Ordering::Equal)
        }
    }
}

impl From<Style> for FontStyle {
    fn from(style: Style) -> (r: FontStyle) {
        let i: u8 = style.index();
        if i <= 1 {
            FontStyle::SuperScript
        } else if i <= 3 {
            FontStyle::Script
        } else if i <= 5 {
            FontStyle::Text
        } else {
            FontStyle::Display
        }
    }
}

impl FromSpecImpl<Style> for FontStyle {
    open spec fn obeys_from_spec() -> bool {
        true
    }

    open spec fn from_spec(style: Style) -> FontStyle {
        style.font_style()
    }
}

} // verus!
