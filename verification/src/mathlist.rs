//! Math lists: a formula before it is laid out, as a list of atoms, and the
//! translation of a math list into boxes.

use vstd::prelude::*;

use crate::common::font_params::{FractionParams, GeneralParams, ScriptParams};
use crate::common::{Color, Family, Font, FontBackend, FontStyle};
use crate::length::{clamp_wide, div_floor, max_wide};
use crate::mathlist::layout_helper::{
    calculate_denominator_gap, calculate_numerator_gap, calculate_script_shifts,
};

pub mod layout_helper;
pub mod style;

pub use crate::mathlist::style::Style;

verus! {

/// The kind of an atom, by which the space between two atoms is chosen.
#[derive(Clone, Copy, Debug, PartialEq, Eq, Structural)]
pub enum AtomType {
    Acc,
    Bin,
    Close,
    Inner,
    Op,
    Open,
    Ord,
    Punct,
    Rel,
}

impl AtomType {
    /// Whether a binary operator may follow an atom of this kind: not after
    /// another binary operator, a relation, an opening or a punctuation.
    pub fn might_precede_bin(&self) -> (r: bool)
        ensures
            r == !(*self is Bin || *self is Rel || *self is Open || *self is Punct),
    {
        match self {
            AtomType::Bin | AtomType::Rel | AtomType::Open | AtomType::Punct => false,
            _ => true,
        }
    }
}

/// A delimiter that grows with what it encloses.
#[derive(Clone, Copy, Debug, PartialEq, Eq, Structural)]
pub struct Delimiter {
    pub ch: char,
    pub color: Color,
}

/// One of the three places of an atom, and what it holds.
#[derive(Debug, PartialEq, Eq)]
pub enum Field {
    Empty,
    Symbol(Color, char),
    /// Stands for something that could not be read; laid out as the font's
    /// fallback glyph.
    Fallback(Color),
    /// A list of its own, between delimiters where it has them.
    MathList(Option<Delimiter>, MathList, Option<Delimiter>),
    /// A numerator over a denominator.
    Fraction(Box<Field>, Box<Field>),
    /// What has been laid out already.
    Layout { translation: crate::layout::Node, italic_correction: i64 },
}

/// A nucleus with a subscript and a superscript.
#[derive(Debug, PartialEq, Eq)]
pub struct Atom {
    pub atom_type: AtomType,
    pub nucleus: Field,
    pub subscript: Field,
    pub superscript: Field,
}

/// An item of a math list.
#[derive(Debug, PartialEq, Eq)]
pub enum Node {
    Atom(Atom),
}

/// A math list: the items of a formula in their order.
#[derive(Debug, PartialEq, Eq)]
pub struct MathList(pub Vec<Node>);

/// Builds a math list item by item.
pub struct Builder {
    list: Vec<Node>,
}

/// The mathematical value of a [`Field`].
pub ghost enum FieldView {
    Empty,
    Symbol(Color, char),
    Fallback(Color),
    MathList(Option<Delimiter>, Seq<AtomView>, Option<Delimiter>),
    Fraction(Box<FieldView>, Box<FieldView>),
    Layout { translation: crate::layout::NodeView, italic_correction: i64 },
}

/// The mathematical value of an [`Atom`].
pub ghost struct AtomView {
    pub atom_type: AtomType,
    pub nucleus: FieldView,
    pub subscript: FieldView,
    pub superscript: FieldView,
}

/// The value of a field.
pub open spec fn field_view(field: Field) -> FieldView
    decreases field,
{
    match field {
        Field::Empty => FieldView::Empty,
        Field::Symbol(color, ch) => FieldView::Symbol(color, ch),
        Field::Fallback(color) => FieldView::Fallback(color),
        Field::MathList(left, list, right) => FieldView::MathList(left, items_view(list.0@), right),
        Field::Fraction(num, denom) => FieldView::Fraction(
            Box::new(field_view(*num)),
            Box::new(field_view(*denom)),
        ),
        Field::Layout { translation, italic_correction } => FieldView::Layout {
            translation: translation@,
            italic_correction,
        },
    }
}

/// The value of an atom.
pub open spec fn atom_view(atom: Atom) -> AtomView
    decreases atom,
{
    AtomView {
        atom_type: atom.atom_type,
        nucleus: field_view(atom.nucleus),
        subscript: field_view(atom.subscript),
        superscript: field_view(atom.superscript),
    }
}

/// The values of the items of a list.
pub open spec fn items_view(items: Seq<Node>) -> Seq<AtomView>
    decreases items,
{
    Seq::new(
        items.len(),
        |i: int|
            if 0 <= i < items.len() {
                match items[i] {
                    Node::Atom(atom) => atom_view(atom),
                }
            } else {
                AtomView {
                    atom_type: AtomType::Ord,
                    nucleus: FieldView::Empty,
                    subscript: FieldView::Empty,
                    superscript: FieldView::Empty,
                }
            },
    )
}

impl View for Field {
    type V = FieldView;

    open spec fn view(&self) -> FieldView {
        field_view(*self)
    }
}

impl View for Atom {
    type V = AtomView;

    open spec fn view(&self) -> AtomView {
        atom_view(*self)
    }
}

impl View for Node {
    type V = AtomView;

    open spec fn view(&self) -> AtomView {
        match self {
            Node::Atom(atom) => atom_view(*atom),
        }
    }
}

impl View for MathList {
    type V = Seq<AtomView>;

    open spec fn view(&self) -> Seq<AtomView> {
        items_view(self.0@)
    }
}

/// The values of the items of a list with one more item.
pub proof fn lemma_items_view_push(items: Seq<Node>, item: Node)
    ensures
        items_view(items.push(item)) == items_view(items).push(item@),
{
    assert(items_view(items.push(item)) =~= items_view(items).push(item@));
}

/// The values of the items of an empty list.
pub proof fn lemma_items_view_empty(items: Seq<Node>)
    requires
        items.len() == 0,
    ensures
        items_view(items) == Seq::<AtomView>::empty(),
{
    assert(items_view(items) =~= Seq::<AtomView>::empty());
}

/// A space that is left out in the styles of scripts.
pub open spec fn nonscript(is_script: bool, width: i64) -> i64 {
    if is_script {
        0
    } else {
        width
    }
}

/// The space between two neighbouring atoms, by their kinds. All but the thin
/// space beside an operator are left out in the styles of scripts.
pub open spec fn spacing_between(
    left: AtomType,
    right: AtomType,
    is_script: bool,
    thin: i64,
    med: i64,
    thick: i64,
) -> i64 {
    match (left, right) {
        (AtomType::Ord, AtomType::Op)
        | (AtomType::Op, AtomType::Ord)
        | (AtomType::Op, AtomType::Op)
        | (AtomType::Close, AtomType::Op)
        | (AtomType::Inner, AtomType::Op) => thin,
        (AtomType::Punct, _)
        | (AtomType::Inner, AtomType::Ord)
        | (AtomType::Inner, AtomType::Open)
        | (AtomType::Inner, AtomType::Punct)
        | (AtomType::Inner, AtomType::Inner)
        | (AtomType::Ord, AtomType::Inner)
        | (AtomType::Op, AtomType::Inner)
        | (AtomType::Close, AtomType::Inner) => nonscript(is_script, thin),
        (AtomType::Ord, AtomType::Bin)
        | (AtomType::Bin, _)
        | (AtomType::Close, AtomType::Bin)
        | (AtomType::Inner, AtomType::Bin) => nonscript(is_script, med),
        (AtomType::Ord, AtomType::Rel)
        | (AtomType::Op, AtomType::Rel)
        | (AtomType::Rel, _)
        | (AtomType::Close, AtomType::Rel)
        | (AtomType::Inner, AtomType::Rel) => nonscript(is_script, thick),
        _ => 0,
    }
}

/// The unit of the spaces between atoms: an eighteenth of the size.
pub open spec fn mu(size: i64) -> int {
    size / 18
}

/// The thin space: 3 units.
pub open spec fn thin_space(size: i64) -> i64 {
    crate::length::clamp(3 * mu(size))
}

/// The medium space: 4 units.
pub open spec fn med_space(size: i64) -> i64 {
    crate::length::clamp(4 * mu(size))
}

/// The thick space: 5 units.
pub open spec fn thick_space(size: i64) -> i64 {
    crate::length::clamp(5 * mu(size))
}

/// Whether the style is one of the four styles of scripts.
pub open spec fn is_script_style(style: Style) -> bool {
    style.tier() <= 1
}

/// Whether an atom of this kind is set with the larger glyph in this style:
/// an operator in display style.
pub open spec fn is_big(atom_type: AtomType, style: Style) -> bool {
    atom_type is Op && style.tier() == 3
}

/// The node of a field that has been laid out, without its italic
/// correction.
pub open spec fn node_of(layout: Option<(crate::layout::NodeView, i64)>) -> Option<
    crate::layout::NodeView,
> {
    match layout {
        Some((node, _)) => Some(node),
        None => None,
    }
}

/// The view of a field that has been laid out.
pub open spec fn layout_view(layout: Option<(crate::layout::Node, i64)>) -> Option<
    (crate::layout::NodeView, i64),
> {
    match layout {
        Some((node, ic)) => Some((node@, ic)),
        None => None,
    }
}

/// The glue between the subscript and the superscript of an atom: what the
/// shifts leave between the top of the one and the baseline of the other.
pub open spec fn script_gap(sub: crate::layout::NodeView, shifts: (i64, i64)) -> i64 {
    crate::length::clamp(shifts.1 - (shifts.0 + sub.height(false)))
}

/// The stack of the scripts of an atom, from the bottom: the subscript, glue
/// where the shifts leave room, and the superscript, moved to the right by
/// the italic correction of the nucleus.
pub open spec fn script_nodes(
    sub: Option<crate::layout::NodeView>,
    sup: Option<crate::layout::NodeView>,
    shifts: (i64, i64),
    italic_correction: i64,
) -> Seq<(i64, crate::layout::NodeView)> {
    let below = match sub {
        Some(s) => seq![(0i64, s)],
        None => Seq::empty(),
    };
    let between = match (sub, sup) {
        (Some(s), Some(_)) => if script_gap(s, shifts) > 0 {
            seq![(0i64, crate::layout::NodeView::Glue(script_gap(s, shifts)))]
        } else {
            Seq::empty()
        },
        _ => Seq::empty(),
    };
    let above = match sup {
        Some(p) => seq![(italic_correction, p)],
        None => Seq::empty(),
    };
    below + between + above
}

/// The nodes that an atom adds to the row of its list: the space to the atom
/// before it, the nucleus, and the stack of the scripts, shifted to where the
/// lowest script belongs.
#[verifier::opaque]
pub open spec fn atom_layout(
    previous: Option<AtomType>,
    atom_type: AtomType,
    nucleus: Option<(crate::layout::NodeView, i64)>,
    subscript: Option<(crate::layout::NodeView, i64)>,
    superscript: Option<(crate::layout::NodeView, i64)>,
    params: ScriptParams,
    is_script: bool,
    size: i64,
) -> Seq<(i64, crate::layout::NodeView)> {
    let space = match previous {
        Some(p) => spacing_between(
            p,
            atom_type,
            is_script,
            thin_space(size),
            med_space(size),
            thick_space(size),
        ),
        None => 0,
    };
    let glue = if space > 0 {
        seq![(0i64, crate::layout::NodeView::Glue(space))]
    } else {
        Seq::empty()
    };
    let italic_correction = match nucleus {
        Some((_, ic)) => ic,
        None => 0,
    };
    let shifts = crate::mathlist::layout_helper::script_shifts(
        params,
        node_of(nucleus),
        node_of(subscript),
        node_of(superscript),
    );
    let base = match nucleus {
        Some((node, _)) => seq![(0i64, node)],
        None => Seq::empty(),
    };
    let scripts = script_nodes(node_of(subscript), node_of(superscript), shifts, italic_correction);
    let stack = if scripts.len() > 0 {
        seq![
            (
                if subscript is Some {
                    shifts.0
                } else {
                    shifts.1
                },
                crate::layout::vbox_of(scripts),
            ),
        ]
    } else {
        Seq::empty()
    };
    glue + base + stack
}

/// The width of a fraction: that of the wider of its two parts, each with its
/// italic correction.
pub open spec fn fraction_width(
    num: Option<(crate::layout::NodeView, i64)>,
    denom: Option<(crate::layout::NodeView, i64)>,
) -> i64 {
    let of_num = match num {
        Some((n, ic)) => crate::length::max(0, n.advance(true) + ic),
        None => 0,
    };
    let of_both = match denom {
        Some((d, ic)) => crate::length::max(of_num, d.advance(false) + ic),
        None => of_num,
    };
    crate::length::clamp(of_both)
}

/// The shift to the right that centres a part of a fraction: half of what the
/// width of the fraction leaves beside the part.
pub open spec fn centered_shift(width: i64, part: crate::layout::NodeView) -> i64 {
    crate::length::clamp(crate::length::max(width - part.advance(true), 0) / 2)
}

/// The stack of a fraction, from the bottom: the denominator, its gap, the
/// rule, the gap of the numerator, and the numerator.
pub open spec fn fraction_children(
    num: Option<(crate::layout::NodeView, i64)>,
    denom: Option<(crate::layout::NodeView, i64)>,
    axis_height: i64,
    params: FractionParams,
) -> Seq<(i64, crate::layout::NodeView)> {
    let width = fraction_width(num, denom);
    let below = match denom {
        Some((d, ic)) => seq![
            (centered_shift(width, d), d),
            (
                0i64,
                crate::layout::NodeView::Glue(
                    crate::mathlist::layout_helper::denominator_gap(axis_height, params, d),
                ),
            ),
        ],
        None => Seq::empty(),
    };
    let rule = seq![(0i64, crate::layout::rule_of(width, params.rule_thickness))];
    let above = match num {
        Some((n, ic)) => seq![
            (
                0i64,
                crate::layout::NodeView::Glue(
                    crate::mathlist::layout_helper::numerator_gap(axis_height, params, n),
                ),
            ),
            (centered_shift(width, n), n),
        ],
        None => Seq::empty(),
    };
    below + rule + above
}

/// How far the stack of a fraction is raised, so that the middle of the rule
/// comes to lie on the axis.
pub open spec fn fraction_shift(
    denom: Option<(crate::layout::NodeView, i64)>,
    axis_height: i64,
    params: FractionParams,
) -> i64 {
    match denom {
        Some((d, _)) => crate::length::clamp(
            axis_height - (d.height(false) + crate::mathlist::layout_helper::denominator_gap(
                axis_height,
                params,
                d,
            ) + params.rule_thickness / 2),
        ),
        None => axis_height,
    }
}

/// The box of a fraction.
#[verifier::opaque]
pub open spec fn fraction_layout(
    num: Option<(crate::layout::NodeView, i64)>,
    denom: Option<(crate::layout::NodeView, i64)>,
    general: GeneralParams,
    params: FractionParams,
) -> crate::layout::NodeView {
    crate::layout::hbox_of(
        seq![
            (
                fraction_shift(denom, general.axis_height, params),
                crate::layout::vbox_of(
                    fraction_children(num, denom, general.axis_height, params),
                ),
            ),
        ],
    )
}

/// The height that a delimiter beside this content has to reach: twice the
/// larger of the distances of the top and of the bottom of the content from
/// the axis.
pub open spec fn delimiter_height(content: crate::layout::NodeView, axis_height: i64) -> i64 {
    let half = crate::length::max(
        content.height(false) - axis_height,
        content.depth() + axis_height,
    );
    crate::length::clamp(2 * crate::length::max(half, 0))
}

/// The node of a delimiter beside this content: the glyph of its character
/// grown to the height of the content, or the fallback glyph of the font in
/// the colour of errors where the font has no such glyph.
#[verifier::opaque]
pub open spec fn delimiter_layout<F: Font>(
    delimiter: Delimiter,
    font: &F,
    content: crate::layout::NodeView,
    size: i64,
    style: Style,
) -> crate::layout::NodeView {
    let params = font.general_params(size, style.font_style(), style.cramped());
    match crate::layout::extended_glyph_vert(
        font,
        delimiter.ch,
        delimiter_height(content, params.axis_height),
        size,
        style.font_style(),
        delimiter.color,
    ) {
        Some(node) => node,
        None => crate::layout::NodeView::Glyph {
            glyph: font.fallback_glyph(size, style.font_style()),
            color: Color::Error,
        },
    }
}

/// The glyph node of a symbol: the larger glyph where one is asked for and
/// the font has it, else the glyph of the character, else the fallback glyph
/// in the colour of errors. With it, the italic correction of the glyph.
#[verifier::opaque]
pub open spec fn symbol_layout<F: Font>(
    color: Color,
    ch: char,
    font: &F,
    size: i64,
    style: Style,
    big: bool,
    has_subscript: bool,
) -> (crate::layout::NodeView, i64) {
    let larger = if big {
        font.larger_glyph(ch, size, style.font_style(), !has_subscript)
    } else {
        None
    };
    let found = match larger {
        Some(g) => Some(g),
        None => font.glyph(ch, size, style.font_style()),
    };
    match found {
        Some(glyph) => (crate::layout::NodeView::Glyph { glyph, color }, glyph.italic_correction),
        None => {
            let glyph = font.fallback_glyph(size, style.font_style());
            (
                crate::layout::NodeView::Glyph { glyph, color: Color::Error },
                glyph.italic_correction,
            )
        },
    }
}

/// A list between its delimiters: the row of the left delimiter, the content
/// and the right delimiter, or the content alone where it has neither.
#[verifier::opaque]
pub open spec fn delimited_layout<F: Font>(
    left: Option<Delimiter>,
    content: crate::layout::NodeView,
    right: Option<Delimiter>,
    font: &F,
    size: i64,
    style: Style,
) -> crate::layout::NodeView {
    if left is None && right is None {
        content
    } else {
        let before = match left {
            Some(d) => seq![(0i64, delimiter_layout(d, font, content, size, style))],
            None => Seq::empty(),
        };
        let after = match right {
            Some(d) => seq![(0i64, delimiter_layout(d, font, content, size, style))],
            None => Seq::empty(),
        };
        crate::layout::hbox_of(before + seq![(0i64, content)] + after)
    }
}

/// The layout of a field in a style, with its italic correction; `None` for
/// an empty field.
pub open spec fn field_layout<F: Font>(
    field: FieldView,
    font: &F,
    size: i64,
    style: Style,
    big: bool,
    has_subscript: bool,
) -> Option<(crate::layout::NodeView, i64)>
    decreases field, 0nat,
{
    match field {
        FieldView::Empty => None,
        FieldView::Symbol(color, ch) => Some(
            symbol_layout(color, ch, font, size, style, big, has_subscript),
        ),
        FieldView::Fallback(color) => {
            let glyph = font.fallback_glyph(size, style.font_style());
            Some((crate::layout::NodeView::Glyph { glyph, color }, glyph.italic_correction))
        },
        FieldView::MathList(left, list, right) => Some(
            (
                delimited_layout(
                    left,
                    list_layout(list, font, size, style),
                    right,
                    font,
                    size,
                    style,
                ),
                0i64,
            ),
        ),
        FieldView::Fraction(num, denom) => Some(
            (
                fraction_layout(
                    field_layout(*num, font, size, style.numerator_style(), false, false),
                    field_layout(*denom, font, size, style.denominator_style(), false, false),
                    font.general_params(size, style.font_style(), style.cramped()),
                    font.fraction_params(size, style.font_style(), style.cramped()),
                ),
                0i64,
            ),
        ),
        FieldView::Layout { translation, italic_correction } => Some(
            (translation, italic_correction),
        ),
    }
}

/// The nodes that an atom adds to the row of its list in a style, after an
/// atom of the kind `previous`. The nucleus is set in the style of the list,
/// the subscript and the superscript each in its own style.
pub open spec fn atom_nodes<F: Font>(
    atom: AtomView,
    previous: Option<AtomType>,
    font: &F,
    size: i64,
    style: Style,
) -> Seq<(i64, crate::layout::NodeView)>
    decreases atom, 0nat,
{
    atom_layout(
        previous,
        atom.atom_type,
        field_layout(
            atom.nucleus,
            font,
            size,
            style,
            is_big(atom.atom_type, style),
            !(atom.subscript is Empty),
        ),
        field_layout(atom.subscript, font, size, style.subscript_style(), false, false),
        field_layout(atom.superscript, font, size, style.superscript_style(), false, false),
        font.script_params(size, style.font_style(), style.cramped()),
        is_script_style(style),
        size,
    )
}

/// The kind of the atom before item `i` of a list.
pub open spec fn previous_type(list: Seq<AtomView>, i: int) -> Option<AtomType> {
    if i <= 0 {
        None
    } else {
        Some(list[i - 1].atom_type)
    }
}

/// The nodes of the first `n` items of a list.
pub open spec fn list_nodes<F: Font>(
    list: Seq<AtomView>,
    n: nat,
    font: &F,
    size: i64,
    style: Style,
) -> Seq<(i64, crate::layout::NodeView)>
    decreases list, n,
{
    if n == 0 || n > list.len() {
        Seq::empty()
    } else {
        list_nodes(list, (n - 1) as nat, font, size, style) + atom_nodes(
            list[n - 1],
            previous_type(list, n - 1),
            font,
            size,
            style,
        )
    }
}

/// The layout of a list in a style: the row of the nodes of its items.
pub open spec fn list_layout<F: Font>(
    list: Seq<AtomView>,
    font: &F,
    size: i64,
    style: Style,
) -> crate::layout::NodeView
    decreases list, list.len() + 1,
{
    crate::layout::hbox_of(list_nodes(list, list.len(), font, size, style))
}

/// Every layout that the field holds is well-formed.
pub open spec fn field_wf(field: FieldView) -> bool
    decreases field,
{
    match field {
        FieldView::MathList(_, list, _) => atoms_wf(list),
        FieldView::Fraction(num, denom) => field_wf(*num) && field_wf(*denom),
        FieldView::Layout { translation, .. } => translation.wf(),
        _ => true,
    }
}

/// Every layout that the atom holds is well-formed.
pub open spec fn atom_wf(atom: AtomView) -> bool
    decreases atom,
{
    field_wf(atom.nucleus) && field_wf(atom.subscript) && field_wf(atom.superscript)
}

/// Every layout that the list holds is well-formed.
pub open spec fn atoms_wf(list: Seq<AtomView>) -> bool
    decreases list,
{
    forall|i: int| 0 <= i < list.len() ==> atom_wf(#[trigger] list[i])
}

/// The node of a layout that may be missing is well-formed.
pub open spec fn layout_wf(layout: Option<(crate::layout::NodeView, i64)>) -> bool {
    match layout {
        Some((node, _)) => node.wf(),
        None => true,
    }
}

/// The nodes of an atom are well-formed where its parts are.
pub proof fn lemma_atom_layout_wf(
    previous: Option<AtomType>,
    atom_type: AtomType,
    nucleus: Option<(crate::layout::NodeView, i64)>,
    subscript: Option<(crate::layout::NodeView, i64)>,
    superscript: Option<(crate::layout::NodeView, i64)>,
    params: ScriptParams,
    is_script: bool,
    size: i64,
)
    requires
        layout_wf(nucleus),
        layout_wf(subscript),
        layout_wf(superscript),
    ensures
        crate::layout::children_wf(
            atom_layout(
                previous,
                atom_type,
                nucleus,
                subscript,
                superscript,
                params,
                is_script,
                size,
            ),
        ),
{
    reveal(atom_layout);
    let nodes = atom_layout(
        previous,
        atom_type,
        nucleus,
        subscript,
        superscript,
        params,
        is_script,
        size,
    );
    let italic_correction = match nucleus {
        Some((_, ic)) => ic,
        None => 0,
    };
    let shifts = crate::mathlist::layout_helper::script_shifts(
        params,
        node_of(nucleus),
        node_of(subscript),
        node_of(superscript),
    );
    let scripts = script_nodes(node_of(subscript), node_of(superscript), shifts, italic_correction);
    assert(crate::layout::children_wf(scripts)) by {
        assert forall|i: int| 0 <= i < scripts.len() implies (#[trigger] scripts[i]).1.wf() by {}
    }
    crate::layout::lemma_boxes_wf(scripts);
    assert forall|i: int| 0 <= i < nodes.len() implies (#[trigger] nodes[i]).1.wf() by {}
}

/// The box of a fraction is well-formed where its parts are.
pub proof fn lemma_fraction_layout_wf(
    num: Option<(crate::layout::NodeView, i64)>,
    denom: Option<(crate::layout::NodeView, i64)>,
    general: GeneralParams,
    params: FractionParams,
)
    requires
        layout_wf(num),
        layout_wf(denom),
    ensures
        fraction_layout(num, denom, general, params).wf(),
{
    reveal(fraction_layout);
    let stack = fraction_children(num, denom, general.axis_height, params);
    assert(crate::layout::children_wf(stack)) by {
        assert forall|i: int| 0 <= i < stack.len() implies (#[trigger] stack[i]).1.wf() by {}
    }
    crate::layout::lemma_boxes_wf(stack);
    let row = seq![
        (
            fraction_shift(denom, general.axis_height, params),
            crate::layout::vbox_of(stack),
        ),
    ];
    assert(crate::layout::children_wf(row)) by {
        assert forall|i: int| 0 <= i < row.len() implies (#[trigger] row[i]).1.wf() by {}
    }
    crate::layout::lemma_boxes_wf(row);
}

/// The node of a delimiter is well-formed.
pub proof fn lemma_delimiter_layout_wf<F: Font>(
    delimiter: Delimiter,
    font: &F,
    content: crate::layout::NodeView,
    size: i64,
    style: Style,
)
    ensures
        delimiter_layout(delimiter, font, content, size, style).wf(),
{
    reveal(delimiter_layout);
    let params = font.general_params(size, style.font_style(), style.cramped());
    crate::layout::lemma_extended_glyph_wf(
        font,
        delimiter.ch,
        delimiter_height(content, params.axis_height),
        size,
        style.font_style(),
        delimiter.color,
    );
}

/// A list between its delimiters is well-formed where the list is.
pub proof fn lemma_delimited_layout_wf<F: Font>(
    left: Option<Delimiter>,
    content: crate::layout::NodeView,
    right: Option<Delimiter>,
    font: &F,
    size: i64,
    style: Style,
)
    requires
        content.wf(),
    ensures
        delimited_layout(left, content, right, font, size, style).wf(),
{
    reveal(delimited_layout);
    if left is Some || right is Some {
        let before = match left {
            Some(d) => seq![(0i64, delimiter_layout(d, font, content, size, style))],
            None => Seq::empty(),
        };
        let after = match right {
            Some(d) => seq![(0i64, delimiter_layout(d, font, content, size, style))],
            None => Seq::empty(),
        };
        if left is Some {
            lemma_delimiter_layout_wf(left->0, font, content, size, style);
        }
        if right is Some {
            lemma_delimiter_layout_wf(right->0, font, content, size, style);
        }
        let row = before + seq![(0i64, content)] + after;
        assert(crate::layout::children_wf(row)) by {
            assert forall|i: int| 0 <= i < row.len() implies (#[trigger] row[i]).1.wf() by {}
        }
        crate::layout::lemma_boxes_wf(row);
    }
}

/// The layout of a field is well-formed where the layouts that the field
/// holds are.
pub proof fn lemma_field_layout_wf<F: Font>(
    field: FieldView,
    font: &F,
    size: i64,
    style: Style,
    big: bool,
    has_subscript: bool,
)
    requires
        field_wf(field),
    ensures
        layout_wf(field_layout(field, font, size, style, big, has_subscript)),
    decreases field, 0nat,
{
    match field {
        FieldView::Symbol(color, ch) => {
            reveal(symbol_layout);
        },
        FieldView::MathList(left, list, right) => {
            lemma_list_layout_wf(list, font, size, style);
            lemma_delimited_layout_wf(
                left,
                list_layout(list, font, size, style),
                right,
                font,
                size,
                style,
            );
        },
        FieldView::Fraction(num, denom) => {
            lemma_field_layout_wf(*num, font, size, style.numerator_style(), false, false);
            lemma_field_layout_wf(*denom, font, size, style.denominator_style(), false, false);
            lemma_fraction_layout_wf(
                field_layout(*num, font, size, style.numerator_style(), false, false),
                field_layout(*denom, font, size, style.denominator_style(), false, false),
                font.general_params(size, style.font_style(), style.cramped()),
                font.fraction_params(size, style.font_style(), style.cramped()),
            );
        },
        _ => {},
    }
}

/// The nodes of an atom are well-formed where the layouts that the atom holds
/// are.
pub proof fn lemma_atom_nodes_wf<F: Font>(
    atom: AtomView,
    previous: Option<AtomType>,
    font: &F,
    size: i64,
    style: Style,
)
    requires
        atom_wf(atom),
    ensures
        crate::layout::children_wf(atom_nodes(atom, previous, font, size, style)),
    decreases atom, 0nat,
{
    lemma_field_layout_wf(
        atom.nucleus,
        font,
        size,
        style,
        is_big(atom.atom_type, style),
        !(atom.subscript is Empty),
    );
    lemma_field_layout_wf(atom.subscript, font, size, style.subscript_style(), false, false);
    lemma_field_layout_wf(atom.superscript, font, size, style.superscript_style(), false, false);
    lemma_atom_layout_wf(
        previous,
        atom.atom_type,
        field_layout(
            atom.nucleus,
            font,
            size,
            style,
            is_big(atom.atom_type, style),
            !(atom.subscript is Empty),
        ),
        field_layout(atom.subscript, font, size, style.subscript_style(), false, false),
        field_layout(atom.superscript, font, size, style.superscript_style(), false, false),
        font.script_params(size, style.font_style(), style.cramped()),
        is_script_style(style),
        size,
    );
}

/// The nodes of the first items of a list are well-formed where the layouts
/// that the list holds are.
pub proof fn lemma_list_nodes_wf<F: Font>(
    list: Seq<AtomView>,
    n: nat,
    font: &F,
    size: i64,
    style: Style,
)
    requires
        atoms_wf(list),
    ensures
        crate::layout::children_wf(list_nodes(list, n, font, size, style)),
    decreases list, n,
{
    if n == 0 || n > list.len() {
        assert(list_nodes(list, n, font, size, style) == Seq::<(i64, crate::layout::NodeView)>::empty());
    } else {
        lemma_list_nodes_wf(list, (n - 1) as nat, font, size, style);
        assert(atom_wf(list[n - 1]));
        lemma_atom_nodes_wf(list[n - 1], previous_type(list, n - 1), font, size, style);
        crate::layout::lemma_children_wf_concat(
            list_nodes(list, (n - 1) as nat, font, size, style),
            atom_nodes(list[n - 1], previous_type(list, n - 1), font, size, style),
        );
    }
}

/// Every box of the layout of a list has the metrics that its children give
/// it, where that holds of the layouts that the list holds already.
pub proof fn lemma_list_layout_wf<F: Font>(list: Seq<AtomView>, font: &F, size: i64, style: Style)
    requires
        atoms_wf(list),
    ensures
        list_layout(list, font, size, style).wf(),
    decreases list, list.len() + 1,
{
    lemma_list_nodes_wf(list, list.len(), font, size, style);
    crate::layout::lemma_boxes_wf(list_nodes(list, list.len(), font, size, style));
}

/// Between an ordinary atom and a binary operator stands the medium space, on
/// both sides of the operator, and nothing in the styles of scripts.
pub proof fn lemma_binary_spacing(is_script: bool, thin: i64, med: i64, thick: i64)
    ensures
        spacing_between(AtomType::Ord, AtomType::Bin, is_script, thin, med, thick) == (if is_script {
            0
        } else {
            med
        }),
        spacing_between(AtomType::Bin, AtomType::Ord, is_script, thin, med, thick) == (if is_script {
            0
        } else {
            med
        }),
{
}

/// From a size of 18 on, the spaces are positive: thin is 3 units, medium 4
/// and thick 5.
pub proof fn lemma_spaces_positive(size: i64)
    requires
        size >= 18,
    ensures
        0 < thin_space(size) == 3 * (size / 18),
        thin_space(size) < med_space(size) == 4 * (size / 18),
        med_space(size) < thick_space(size) == 5 * (size / 18),
{
}

/// The nodes of a binary operator after an ordinary atom, and those of an
/// ordinary atom after a binary operator, begin with glue of the medium
/// space, from a size of 18 on and outside the styles of scripts. In the
/// styles of scripts they are the nodes of the atom without a space.
pub proof fn lemma_binary_atom_spacing(
    nucleus: Option<(crate::layout::NodeView, i64)>,
    subscript: Option<(crate::layout::NodeView, i64)>,
    superscript: Option<(crate::layout::NodeView, i64)>,
    params: ScriptParams,
    is_script: bool,
    size: i64,
)
    ensures
        !is_script && size >= 18 ==> {
            &&& atom_layout(
                Some(AtomType::Ord),
                AtomType::Bin,
                nucleus,
                subscript,
                superscript,
                params,
                is_script,
                size,
            )[0] == (0i64, crate::layout::NodeView::Glue(med_space(size)))
            &&& atom_layout(
                Some(AtomType::Bin),
                AtomType::Ord,
                nucleus,
                subscript,
                superscript,
                params,
                is_script,
                size,
            )[0] == (0i64, crate::layout::NodeView::Glue(med_space(size)))
            &&& med_space(size) > 0
        },
        is_script ==> {
            &&& atom_layout(
                Some(AtomType::Ord),
                AtomType::Bin,
                nucleus,
                subscript,
                superscript,
                params,
                is_script,
                size,
            ) == atom_layout(None, AtomType::Bin, nucleus, subscript, superscript, params, is_script, size)
            &&& atom_layout(
                Some(AtomType::Bin),
                AtomType::Ord,
                nucleus,
                subscript,
                superscript,
                params,
                is_script,
                size,
            ) == atom_layout(None, AtomType::Ord, nucleus, subscript, superscript, params, is_script, size)
        },
{
    reveal(atom_layout);
}

/// A part of a fraction that is no wider than the fraction is centred: it is
/// moved to the right by half of what the fraction is wider.
pub proof fn lemma_fraction_centered(
    num: Option<(crate::layout::NodeView, i64)>,
    denom: Option<(crate::layout::NodeView, i64)>,
    axis_height: i64,
    params: FractionParams,
)
    ensures
        ({
            let width = fraction_width(num, denom);
            let children = fraction_children(num, denom, axis_height, params);
            &&& denom matches Some((d, ic)) ==> (d.advance(true) <= width ==> children[0].0 == (
                width - d.advance(true)) / 2)
            &&& num matches Some((n, ic)) ==> (n.advance(true) <= width ==> children.last().0
                == (width - n.advance(true)) / 2)
        }),
{
}

/// The space between two neighbouring atoms, by their kinds.
pub fn spacing(
    left: &AtomType,
    right: &AtomType,
    is_script: bool,
    thin: i64,
    med: i64,
    thick: i64,
) -> (r: i64)
    ensures
        r == spacing_between(*left, *right, is_script, thin, med, thick),
{
    match (left, right) {
        (AtomType::Ord, AtomType::Op)
        | (AtomType::Op, AtomType::Ord)
        | (AtomType::Op, AtomType::Op)
        | (AtomType::Close, AtomType::Op)
        | (AtomType::Inner, AtomType::Op) => thin,
        (AtomType::Punct, _)
        | (AtomType::Inner, AtomType::Ord)
        | (AtomType::Inner, AtomType::Open)
        | (AtomType::Inner, AtomType::Punct)
        | (AtomType::Inner, AtomType::Inner)
        | (AtomType::Ord, AtomType::Inner)
        | (AtomType::Op, AtomType::Inner)
        | (AtomType::Close, AtomType::Inner) => if is_script {
            0
        } else {
            thin
        },
        (AtomType::Ord, AtomType::Bin)
        | (AtomType::Bin, _)
        | (AtomType::Close, AtomType::Bin)
        | (AtomType::Inner, AtomType::Bin) => if is_script {
            0
        } else {
            med
        },
        (AtomType::Ord, AtomType::Rel)
        | (AtomType::Op, AtomType::Rel)
        | (AtomType::Rel, _)
        | (AtomType::Close, AtomType::Rel)
        | (AtomType::Inner, AtomType::Rel) => if is_script {
            0
        } else {
            thick
        },
        _ => 0,
    }
}

/// The node of a field that has been laid out, without its italic
/// correction.
fn strip(layout: Option<(crate::layout::Node, i64)>) -> (r: Option<crate::layout::Node>)
    ensures
        crate::mathlist::layout_helper::view_of(r) == node_of(layout_view(layout)),
{
    match layout {
        Some((node, _)) => Some(node),
        None => None,
    }
}

/// The nodes that an atom adds to the row of its list, from the layouts of
/// its three fields.
pub fn assemble_atom(
    previous: Option<AtomType>,
    atom_type: AtomType,
    nucleus: Option<(crate::layout::Node, i64)>,
    subscript: Option<(crate::layout::Node, i64)>,
    superscript: Option<(crate::layout::Node, i64)>,
    params: &ScriptParams,
    is_script: bool,
    size: i64,
) -> (r: Vec<(i64, crate::layout::Node)>)
    ensures
        crate::layout::children_view(r@) == atom_layout(
            previous,
            atom_type,
            layout_view(nucleus),
            layout_view(subscript),
            layout_view(superscript),
            *params,
            is_script,
            size,
        ),
{
    reveal(atom_layout);
    let ghost nv = layout_view(nucleus);
    let ghost sv = layout_view(subscript);
    let ghost pv = layout_view(superscript);
    let mut nodes: Vec<(i64, crate::layout::Node)> = Vec::new();
    proof {
        crate::layout::lemma_children_view_empty(nodes@);
    }
    if let Some(p) = previous {
        let unit: i128 = div_floor(size as i128, 18);
        let space: i64 = spacing(
            &p,
            &atom_type,
            is_script,
            clamp_wide(3 * unit),
            clamp_wide(4 * unit),
            clamp_wide(5 * unit),
        );
        if space > 0 {
            proof {
                crate::layout::lemma_children_view_push(
                    nodes@,
                    (0i64, crate::layout::Node::Glue(space)),
                );
            }
            nodes.push((0, crate::layout::Node::Glue(space)));
        }
    }
    let ghost glue = crate::layout::children_view(nodes@);
    let italic_correction: i64 = match &nucleus {
        Some(n) => n.1,
        None => 0,
    };
    let nucleus: Option<crate::layout::Node> = strip(nucleus);
    let subscript: Option<crate::layout::Node> = strip(subscript);
    let superscript: Option<crate::layout::Node> = strip(superscript);
    let shifts: (i64, i64) = calculate_script_shifts(params, &nucleus, &subscript, &superscript);
    if let Some(node) = nucleus {
        proof {
            crate::layout::lemma_children_view_push(nodes@, (0i64, node));
        }
        nodes.push((0, node));
    }
    let ghost base = crate::layout::children_view(nodes@);
    let mut scripts: Vec<(i64, crate::layout::Node)> = Vec::new();
    proof {
        crate::layout::lemma_children_view_empty(scripts@);
    }
    let mut vshift: i64 = shifts.1;
    let mut gap: i64 = 0;
    let with_subscript: bool = subscript.is_some();
    if let Some(sub) = subscript {
        gap = clamp_wide(shifts.1 as i128 - (shifts.0 as i128 + sub.height(false) as i128));
        proof {
            crate::layout::lemma_children_view_push(scripts@, (0i64, sub));
        }
        scripts.push((0, sub));
        vshift = shifts.0;
    }
    if let Some(sup) = superscript {
        if with_subscript && gap > 0 {
            proof {
                crate::layout::lemma_children_view_push(
                    scripts@,
                    (0i64, crate::layout::Node::Glue(gap)),
                );
            }
            scripts.push((0, crate::layout::Node::Glue(gap)));
        }
        proof {
            crate::layout::lemma_children_view_push(scripts@, (italic_correction, sup));
        }
        scripts.push((italic_correction, sup));
    }
    proof {
        assert(crate::layout::children_view(scripts@) =~= script_nodes(
            node_of(sv),
            node_of(pv),
            shifts,
            italic_correction,
        ));
    }
    if scripts.len() > 0 {
        let stack: crate::layout::Node = crate::layout::Node::new_vbox(scripts);
        proof {
            crate::layout::lemma_children_view_push(nodes@, (vshift, stack));
        }
        nodes.push((vshift, stack));
    }
    proof {
        assert(crate::layout::children_view(nodes@) =~= atom_layout(
            previous,
            atom_type,
            nv,
            sv,
            pv,
            *params,
            is_script,
            size,
        ));
    }
    nodes
}

/// The box of a fraction, from the layouts of its two parts.
pub fn fraction_box(
    num: Option<(crate::layout::Node, i64)>,
    denom: Option<(crate::layout::Node, i64)>,
    general: &GeneralParams,
    params: &FractionParams,
) -> (r: crate::layout::Node)
    ensures
        r@ == fraction_layout(layout_view(num), layout_view(denom), *general, *params),
{
    reveal(fraction_layout);
    let ghost nv = layout_view(num);
    let ghost dv = layout_view(denom);
    let axis: i64 = general.axis_height;
    let mut wide: i128 = 0;
    match &num {
        Some(n) => {
            wide = max_wide(wide, n.0.advance(true) as i128 + n.1 as i128);
        },
        None => {},
    }
    match &denom {
        Some(d) => {
            wide = max_wide(wide, d.0.advance(false) as i128 + d.1 as i128);
        },
        None => {},
    }
    let width: i64 = clamp_wide(wide);
    assert(width == fraction_width(nv, dv));
    let half_rule: i128 = div_floor(params.rule_thickness as i128, 2);
    let mut vshift: i64 = axis;
    let mut children: Vec<(i64, crate::layout::Node)> = Vec::new();
    proof {
        crate::layout::lemma_children_view_empty(children@);
    }
    if let Some((d, ic)) = denom {
        let gap: i64 = calculate_denominator_gap(axis, params, &d);
        vshift = clamp_wide(axis as i128 - (d.height(false) as i128 + gap as i128 + half_rule));
        let hshift: i64 = clamp_wide(
            div_floor(max_wide(width as i128 - d.advance(true) as i128, 0), 2),
        );
        proof {
            crate::layout::lemma_children_view_push(children@, (hshift, d));
        }
        children.push((hshift, d));
        proof {
            crate::layout::lemma_children_view_push(
                children@,
                (0i64, crate::layout::Node::Glue(gap)),
            );
        }
        children.push((0, crate::layout::Node::Glue(gap)));
    }
    let rule: crate::layout::Node = crate::layout::Node::new_rule(width, params.rule_thickness);
    proof {
        crate::layout::lemma_children_view_push(children@, (0i64, rule));
    }
    children.push((0, rule));
    if let Some((n, ic)) = num {
        let gap: i64 = calculate_numerator_gap(axis, params, &n);
        let hshift: i64 = clamp_wide(
            div_floor(max_wide(width as i128 - n.advance(true) as i128, 0), 2),
        );
        proof {
            crate::layout::lemma_children_view_push(
                children@,
                (0i64, crate::layout::Node::Glue(gap)),
            );
        }
        children.push((0, crate::layout::Node::Glue(gap)));
        proof {
            crate::layout::lemma_children_view_push(children@, (hshift, n));
        }
        children.push((hshift, n));
    }
    proof {
        assert(crate::layout::children_view(children@) =~= fraction_children(
            nv,
            dv,
            axis,
            *params,
        ));
    }
    let stack: crate::layout::Node = crate::layout::Node::new_vbox(children);
    let mut outer: Vec<(i64, crate::layout::Node)> = Vec::new();
    proof {
        crate::layout::lemma_children_view_empty(outer@);
        crate::layout::lemma_children_view_push(outer@, (vshift, stack));
    }
    outer.push((vshift, stack));
    proof {
        assert(crate::layout::children_view(outer@) =~= seq![(vshift, stack@)]);
    }
    crate::layout::Node::new_hbox(outer)
}

/// The nodes of a list with one more item: those of the items before it,
/// and those of the item.
pub proof fn lemma_list_nodes_step<F: Font>(
    list: Seq<AtomView>,
    i: int,
    font: &F,
    size: i64,
    style: Style,
)
    requires
        0 <= i < list.len(),
    ensures
        list_nodes(list, (i + 1) as nat, font, size, style) == list_nodes(
            list,
            i as nat,
            font,
            size,
            style,
        ) + atom_nodes(list[i], previous_type(list, i), font, size, style),
{
}

/// The glyph node of a symbol, with the italic correction of the glyph.
pub fn symbol_box<F: Font>(
    color: Color,
    ch: char,
    font: &F,
    size: i64,
    style: Style,
    big: bool,
    has_subscript: bool,
) -> (r: (crate::layout::Node, i64))
    ensures
        (r.0@, r.1) == symbol_layout(color, ch, font, size, style, big, has_subscript),
{
    reveal(symbol_layout);
    let font_style: FontStyle = FontStyle::from(style);
    let larger = if big {
        font.get_larger_glyph(ch, size, font_style, !has_subscript)
    } else {
        None
    };
    let found = match larger {
        Some(g) => Some(g),
        None => font.get_glyph(ch, size, font_style),
    };
    match found {
        Some(glyph) => (crate::layout::Node::Glyph { glyph, color }, glyph.italic_correction()),
        None => {
            let glyph = font.get_fallback_glyph(size, font_style);
            (crate::layout::Node::Glyph { glyph, color: Color::Error }, glyph.italic_correction())
        },
    }
}

/// The layout of a list between its delimiters, from the layout of the list.
pub fn delimited_box<F: Font>(
    left: Option<Delimiter>,
    content: crate::layout::Node,
    right: Option<Delimiter>,
    font: &F,
    size: i64,
    style: Style,
) -> (r: crate::layout::Node)
    ensures
        r@ == delimited_layout(left, content@, right, font, size, style),
{
    reveal(delimited_layout);
    if left.is_none() && right.is_none() {
        return content;
    }
    let before = match left {
        Some(d) => Some(d.translate(font, &content, size, style)),
        None => None,
    };
    let after = match right {
        Some(d) => Some(d.translate(font, &content, size, style)),
        None => None,
    };
    let ghost cv = content@;
    let mut children: Vec<(i64, crate::layout::Node)> = Vec::new();
    proof {
        crate::layout::lemma_children_view_empty(children@);
    }
    if let Some(node) = before {
        proof {
            crate::layout::lemma_children_view_push(children@, (0i64, node));
        }
        children.push((0, node));
    }
    proof {
        crate::layout::lemma_children_view_push(children@, (0i64, content));
    }
    children.push((0, content));
    if let Some(node) = after {
        proof {
            crate::layout::lemma_children_view_push(children@, (0i64, node));
        }
        children.push((0, node));
    }
    proof {
        let b = match left {
            Some(d) => seq![(0i64, delimiter_layout(d, font, cv, size, style))],
            None => Seq::empty(),
        };
        let a = match right {
            Some(d) => seq![(0i64, delimiter_layout(d, font, cv, size, style))],
            None => Seq::empty(),
        };
        assert(crate::layout::children_view(children@) =~= b + seq![(0i64, cv)] + a);
    }
    crate::layout::Node::new_hbox(children)
}

impl Node {
    /// The kind of the atom.
    pub fn atom_type(&self) -> (r: Option<&AtomType>)
        ensures
            r == Some(&self->0.atom_type),
    {
        match self {
            Node::Atom(atom) => Some(&atom.atom_type),
        }
    }
}

impl Delimiter {
    /// The node of the delimiter beside this content.
    pub fn translate<F: Font>(
        &self,
        font: &F,
        content: &crate::layout::Node,
        size: i64,
        style: Style,
    ) -> (r: crate::layout::Node)
        ensures
            r@ == delimiter_layout(*self, font, content@, size, style),
    {
        reveal(delimiter_layout);
        let font_style: FontStyle = FontStyle::from(style);
        let params: GeneralParams = font.calculate_general_params(
            size,
            font_style,
            style.is_cramped(),
        );
        let half: i128 = max_wide(
            content.height(false) as i128 - params.axis_height as i128,
            content.depth() as i128 + params.axis_height as i128,
        );
        let min_height: i64 = clamp_wide(2 * max_wide(half, 0));
        match crate::layout::Node::new_extended_glyph_vert(
            font,
            self.ch,
            min_height,
            size,
            font_style,
            self.color,
        ) {
            Some(node) => node,
            None => {
                let glyph = font.get_fallback_glyph(size, font_style);
                crate::layout::Node::Glyph { glyph, color: Color::Error }
            },
        }
    }
}

impl Field {
    pub fn is_empty(&self) -> (r: bool)
        ensures
            r == (*self is Empty),
    {
        match self {
            Field::Empty => true,
            _ => false,
        }
    }

    /// Lays the field out in a style. The result is the layout with its italic
    /// correction, and `None` for an empty field.
    pub fn translate<F: Font>(
        self,
        font: &F,
        size: i64,
        style: Style,
        big: bool,
        has_subscript: bool,
    ) -> (r: Option<(crate::layout::Node, i64)>)
        ensures
            layout_view(r) == field_layout(self@, font, size, style, big, has_subscript),
        decreases self, 0nat,
    {
        let font_style: FontStyle = FontStyle::from(style);
        match self {
            Field::Empty => None,
            Field::Symbol(color, ch) => Some(
                symbol_box(color, ch, font, size, style, big, has_subscript),
            ),
            Field::Fallback(color) => {
                let glyph = font.get_fallback_glyph(size, font_style);
                Some((crate::layout::Node::Glyph { glyph, color }, glyph.italic_correction()))
            },
            Field::MathList(left, list, right) => {
                let content: crate::layout::Node = list.translate_with(font, size, style);
                Some((delimited_box(left, content, right, font, size, style), 0))
            },
            Field::Fraction(num, denom) => {
                let n = (*num).translate(font, size, style.to_numerator(), false, false);
                let d = (*denom).translate(font, size, style.to_denominator(), false, false);
                let general: GeneralParams = font.calculate_general_params(
                    size,
                    font_style,
                    style.is_cramped(),
                );
                let params: FractionParams = font.calculate_fraction_params(
                    size,
                    font_style,
                    style.is_cramped(),
                );
                Some((fraction_box(n, d, &general, &params), 0))
            },
            Field::Layout { translation, italic_correction } => Some(
                (translation, italic_correction),
            ),
        }
    }
}

impl Atom {
    /// Lays the atom out in a style: the nodes that it adds to the row of its
    /// list, after an atom of the kind `previous`.
    pub fn translate<F: Font>(
        self,
        previous: Option<AtomType>,
        font: &F,
        size: i64,
        style: Style,
    ) -> (r: Vec<(i64, crate::layout::Node)>)
        ensures
            crate::layout::children_view(r@) == atom_nodes(self@, previous, font, size, style),
        decreases self, 0nat,
    {
        let Atom { atom_type, nucleus, subscript, superscript } = self;
        let big: bool = match atom_type {
            AtomType::Op => style.index() > 5,
            _ => false,
        };
        let has_subscript: bool = !subscript.is_empty();
        let n = nucleus.translate(font, size, style, big, has_subscript);
        let s = subscript.translate(font, size, style.to_subscript(), false, false);
        let p = superscript.translate(font, size, style.to_superscript(), false, false);
        let params: ScriptParams = font.calculate_script_params(
            size,
            FontStyle::from(style),
            style.is_cramped(),
        );
        assemble_atom(previous, atom_type, n, s, p, &params, style.index() <= 3, size)
    }
}

impl MathList {
    /// Translates the list into boxes, in a style and at a size, with the
    /// italic font of the backend.
    pub fn translate<B: FontBackend>(self, backend: &B, size: i64, style: Style) -> (r:
        crate::layout::Node)
        ensures
            r@ == list_layout(self@, &backend.font(Family::Italic), size, style),
            atoms_wf(self@) ==> r@.wf(),
    {
        let font = backend.get_font(Family::Italic);
        self.translate_with(font, size, style)
    }

    /// Translates the list into boxes, in a style and at a size, with a font.
    pub fn translate_with<F: Font>(self, font: &F, size: i64, style: Style) -> (r:
        crate::layout::Node)
        ensures
            r@ == list_layout(self@, font, size, style),
            atoms_wf(self@) ==> r@.wf(),
        decreases self, 0nat,
    {
        proof {
            if atoms_wf(self@) {
                lemma_list_layout_wf(self@, font, size, style);
            }
        }
        let MathList(items) = self;
        let ghost all = items@;
        let mut nodes: Vec<(i64, crate::layout::Node)> = Vec::new();
        proof {
            crate::layout::lemma_children_view_empty(nodes@);
        }
        let mut previous: Option<AtomType> = None;
        for item in it: items
            invariant
                it.seq() == all,
                all == self.0@,
                decreases_to!(self => all),
                previous == previous_type(self@, it.index() as int),
                crate::layout::children_view(nodes@) == list_nodes(
                    self@,
                    it.index() as nat,
                    font,
                    size,
                    style,
                ),
        {
            let ghost index = it.index() as int;
            assert(item == all[index]);
            let Node::Atom(atom) = item;
            let atom_type: AtomType = atom.atom_type;
            let ghost atom_before = atom;
            let mut added: Vec<(i64, crate::layout::Node)> = atom.translate(
                previous,
                font,
                size,
                style,
            );
            let ghost before = nodes@;
            let ghost more = added@;
            nodes.append(&mut added);
            proof {
                assert(nodes@ == before + more);
                crate::layout::lemma_children_view_concat(before, more);
                assert(self@[index] == atom_before@);
                lemma_list_nodes_step(self@, index, font, size, style);
            }
            previous = Some(atom_type);
        }
        crate::layout::Node::new_hbox(nodes)
    }
}

impl View for Builder {
    type V = Seq<AtomView>;

    closed spec fn view(&self) -> Seq<AtomView> {
        items_view(self.list@)
    }
}

impl Default for Builder {
    fn default() -> (r: Builder)
        ensures
            r@ == Seq::<AtomView>::empty(),
    {
        let builder = Builder { list: Vec::new() };
        proof {
            lemma_items_view_empty(builder.list@);
        }
        builder
    }
}

impl Builder {
    /// The list of the items added so far.
    pub fn finish(self) -> (r: MathList)
        ensures
            r@ == self@,
    {
        MathList(self.list)
    }

    /// Adds an atom at the end.
    pub fn add_atom(&mut self, atom: Atom)
        ensures
            final(self)@ == old(self)@.push(atom@),
    {
        proof {
            lemma_items_view_push(self.list@, Node::Atom(atom));
        }
        self.list.push(Node::Atom(atom));
    }

    /// Adds an ordinary atom that holds a symbol and has no scripts.
    pub fn add_symbol(&mut self, ch: char, color: Color)
        ensures
            final(self)@ == old(self)@.push(
                AtomView {
                    atom_type: AtomType::Ord,
                    nucleus: FieldView::Symbol(color, ch),
                    subscript: FieldView::Empty,
                    superscript: FieldView::Empty,
                },
            ),
    {
        let atom = Atom {
            atom_type: AtomType::Ord,
            nucleus: Field::Symbol(color, ch),
            subscript: Field::Empty,
            superscript: Field::Empty,
        };
        self.add_atom(atom);
    }

    /// Adds an atom of a kind that holds a symbol in the normal colour and has
    /// no scripts.
    pub fn add_typed_symbol(&mut self, atom_type: AtomType, ch: char)
        ensures
            final(self)@ == old(self)@.push(plain_atom(atom_type, FieldView::Symbol(Color::Normal, ch))),
    {
        let atom = Atom {
            atom_type,
            nucleus: Field::Symbol(Color::Normal, ch),
            subscript: Field::Empty,
            superscript: Field::Empty,
        };
        self.add_atom(atom);
    }

    /// Adds an atom of a kind that holds a list and has no scripts.
    pub fn add_list(&mut self, atom_type: AtomType, list: MathList)
        ensures
            final(self)@ == old(self)@.push(
                plain_atom(atom_type, FieldView::MathList(None, list@, None)),
            ),
    {
        let atom = Atom {
            atom_type,
            nucleus: Field::MathList(None, list, None),
            subscript: Field::Empty,
            superscript: Field::Empty,
        };
        self.add_atom(atom);
    }

    /// Adds a binary operator.
    pub fn add_bin(&mut self, ch: char)
        ensures
            final(self)@ == old(self)@.push(
                plain_atom(AtomType::Bin, FieldView::Symbol(Color::Normal, ch)),
            ),
    {
        self.add_typed_symbol(AtomType::Bin, ch);
    }

    /// Adds an operator.
    pub fn add_op(&mut self, ch: char)
        ensures
            final(self)@ == old(self)@.push(
                plain_atom(AtomType::Op, FieldView::Symbol(Color::Normal, ch)),
            ),
    {
        self.add_typed_symbol(AtomType::Op, ch);
    }

    /// Adds an ordinary atom.
    pub fn add_ord(&mut self, ch: char)
        ensures
            final(self)@ == old(self)@.push(
                plain_atom(AtomType::Ord, FieldView::Symbol(Color::Normal, ch)),
            ),
    {
        self.add_typed_symbol(AtomType::Ord, ch);
    }

    /// Adds a punctuation.
    pub fn add_punct(&mut self, ch: char)
        ensures
            final(self)@ == old(self)@.push(
                plain_atom(AtomType::Punct, FieldView::Symbol(Color::Normal, ch)),
            ),
    {
        self.add_typed_symbol(AtomType::Punct, ch);
    }

    /// Adds a relation.
    pub fn add_rel(&mut self, ch: char)
        ensures
            final(self)@ == old(self)@.push(
                plain_atom(AtomType::Rel, FieldView::Symbol(Color::Normal, ch)),
            ),
    {
        self.add_typed_symbol(AtomType::Rel, ch);
    }
}

/// An atom of a kind with a nucleus and without scripts.
pub open spec fn plain_atom(atom_type: AtomType, nucleus: FieldView) -> AtomView {
    AtomView { atom_type, nucleus, subscript: FieldView::Empty, superscript: FieldView::Empty }
}

} // verus!
