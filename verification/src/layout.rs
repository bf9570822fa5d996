//! The box model: the tree of glyphs, glue, rules and boxes that a layout
//! consists of, with the metrics of every box fixed when it is built.

use vstd::prelude::*;

use crate::common::construction::{Construction, ConstructionPart};
use crate::common::{Color, Font, FontStyle, Glyph, Renderer};
use crate::length::{clamp_sum, clamp_wide, div_floor, max_wide};

verus! {

/// A node of a layout.
///
/// The children of a horizontal box stand side by side, each raised by the
/// shift it is paired with; those of a vertical box are stacked bottom-up, each
/// moved to the right by its shift. `height`, `depth` and `advance` of a box
/// are computed from the children by [`Node::new_hbox`] and [`Node::new_vbox`].
#[derive(Debug, PartialEq, Eq)]
pub enum Node {
    Glue(i64),
    Glyph { glyph: Glyph, color: Color },
    HBox { children: Vec<(i64, Node)>, height: i64, depth: i64, advance: i64 },
    VBox { children: Vec<(i64, Node)>, height: i64, depth: i64, advance: i64 },
    Rule { height: i64, depth: i64, advance: i64 },
}

/// The mathematical value of a [`Node`]: the same tree over sequences.
pub ghost enum NodeView {
    Glue(i64),
    Glyph { glyph: Glyph, color: Color },
    HBox { children: Seq<(i64, NodeView)>, height: i64, depth: i64, advance: i64 },
    VBox { children: Seq<(i64, NodeView)>, height: i64, depth: i64, advance: i64 },
    Rule { height: i64, depth: i64, advance: i64 },
}

/// The views of a list of shifted children.
pub open spec fn children_view(children: Seq<(i64, Node)>) -> Seq<(i64, NodeView)>
    decreases children,
{
    Seq::new(
        children.len(),
        |i: int|
            if 0 <= i < children.len() {
                (children[i].0, children[i].1.view())
            } else {
                (0i64, NodeView::Glue(0))
            },
    )
}

impl View for Node {
    type V = NodeView;

    open spec fn view(&self) -> NodeView
        decreases self,
    {
        match self {
            Node::Glue(w) => NodeView::Glue(*w),
            Node::Glyph { glyph, color } => NodeView::Glyph { glyph: *glyph, color: *color },
            Node::HBox { children, height, depth, advance } => NodeView::HBox {
                children: children_view(children@),
                height: *height,
                depth: *depth,
                advance: *advance,
            },
            Node::VBox { children, height, depth, advance } => NodeView::VBox {
                children: children_view(children@),
                height: *height,
                depth: *depth,
                advance: *advance,
            },
            Node::Rule { height, depth, advance } => NodeView::Rule {
                height: *height,
                depth: *depth,
                advance: *advance,
            },
        }
    }
}

impl NodeView {
    /// The metrics of every box of the tree are those that its children give
    /// it: the tree is one that [`Node::new_hbox`] and [`Node::new_vbox`]
    /// build.
    pub open spec fn wf(self) -> bool
        decreases self,
    {
        match self {
            NodeView::HBox { children, .. } => self == hbox_of(children) && children_wf(children),
            NodeView::VBox { children, .. } => self == vbox_of(children) && children_wf(children),
            _ => true,
        }
    }

    /// How far the node reaches above its baseline. Glue has a height only
    /// where it is stacked, in a vertical box.
    pub open spec fn height(self, vertical_mode: bool) -> int {
        match self {
            NodeView::Glue(h) => if vertical_mode {
                h as int
            } else {
                0
            },
            NodeView::Glyph { glyph, .. } => glyph.height as int,
            NodeView::HBox { height, .. } => height as int,
            NodeView::VBox { height, .. } => height as int,
            NodeView::Rule { height, .. } => height as int,
        }
    }

    /// How far the node reaches below its baseline.
    pub open spec fn depth(self) -> int {
        match self {
            NodeView::Glue(_) => 0,
            NodeView::Glyph { glyph, .. } => glyph.depth as int,
            NodeView::HBox { depth, .. } => depth as int,
            NodeView::VBox { depth, .. } => depth as int,
            NodeView::Rule { depth, .. } => depth as int,
        }
    }

    /// The width of the node. Glue has a width only where it stands in a row,
    /// in a horizontal box.
    pub open spec fn advance(self, vertical_mode: bool) -> int {
        match self {
            NodeView::Glue(w) => if vertical_mode {
                0
            } else {
                w as int
            },
            NodeView::Glyph { glyph, .. } => glyph.advance as int,
            NodeView::HBox { advance, .. } => advance as int,
            NodeView::VBox { advance, .. } => advance as int,
            NodeView::Rule { advance, .. } => advance as int,
        }
    }
}

/// Every child of the list is well-formed.
pub open spec fn children_wf(children: Seq<(i64, NodeView)>) -> bool
    decreases children,
{
    forall|i: int| 0 <= i < children.len() ==> (#[trigger] children[i]).1.wf()
}

/// How far a raised child of a row reaches above the baseline of the row.
pub open spec fn top_of(child: (i64, NodeView)) -> int {
    child.1.height(false) + child.0
}

/// How far a raised child of a row reaches below the baseline of the row.
pub open spec fn bottom_of(child: (i64, NodeView)) -> int {
    child.1.depth() - child.0
}

/// The height of a row: the highest top among the raised children, which is
/// negative where every child ends below the baseline. A row without
/// children has height 0.
pub open spec fn hbox_height(children: Seq<(i64, NodeView)>) -> int
    decreases children.len(),
{
    if children.len() == 0 {
        0
    } else if children.len() == 1 {
        top_of(children[0])
    } else {
        crate::length::max(hbox_height(children.drop_last()), top_of(children.last()))
    }
}

/// The depth of a row: the lowest bottom among the raised children, which is
/// negative where every child ends above the baseline. A row without
/// children has depth 0.
pub open spec fn hbox_depth(children: Seq<(i64, NodeView)>) -> int
    decreases children.len(),
{
    if children.len() == 0 {
        0
    } else if children.len() == 1 {
        bottom_of(children[0])
    } else {
        crate::length::max(hbox_depth(children.drop_last()), bottom_of(children.last()))
    }
}

/// The width of a row: the sum of the widths of the children.
pub open spec fn hbox_advance(children: Seq<(i64, NodeView)>) -> int
    decreases children.len(),
{
    if children.len() == 0 {
        0
    } else {
        hbox_advance(children.drop_last()) + children.last().1.advance(false)
    }
}

/// The row that [`Node::new_hbox`] builds from these children.
pub open spec fn hbox_of(children: Seq<(i64, NodeView)>) -> NodeView {
    NodeView::HBox {
        children,
        height: crate::length::clamp(hbox_height(children)),
        depth: crate::length::clamp(hbox_depth(children)),
        advance: crate::length::clamp(hbox_advance(children)),
    }
}

/// The number of glue nodes with which a stack begins.
pub open spec fn leading_glue(children: Seq<(i64, NodeView)>) -> nat
    decreases children.len(),
{
    if children.len() > 0 && children[0].1 is Glue {
        1 + leading_glue(children.drop_first())
    } else {
        0
    }
}

/// The sum of the widths of the glue nodes among the children; other nodes
/// count as 0.
pub open spec fn glue_sum(children: Seq<(i64, NodeView)>) -> int
    decreases children.len(),
{
    if children.len() == 0 {
        0
    } else {
        glue_sum(children.drop_last()) + (match children.last().1 {
            NodeView::Glue(w) => w as int,
            _ => 0,
        })
    }
}

/// The sum of the heights that the children have in a stack.
pub open spec fn height_sum(children: Seq<(i64, NodeView)>) -> int
    decreases children.len(),
{
    if children.len() == 0 {
        0
    } else {
        height_sum(children.drop_last()) + children.last().1.height(true)
    }
}

/// The sum of the depths of the children.
pub open spec fn depth_sum(children: Seq<(i64, NodeView)>) -> int
    decreases children.len(),
{
    if children.len() == 0 {
        0
    } else {
        depth_sum(children.drop_last()) + children.last().1.depth()
    }
}

/// The right edge of a stack: the rightmost edge among the shifted children,
/// and at least 0.
pub open spec fn widest(children: Seq<(i64, NodeView)>) -> int
    decreases children.len(),
{
    if children.len() == 0 {
        0
    } else {
        crate::length::max(
            widest(children.drop_last()),
            children.last().1.advance(true) + children.last().0,
        )
    }
}

/// The children of a stack that are stacked: all but the glue it begins with.
pub open spec fn vbox_body(children: Seq<(i64, NodeView)>) -> Seq<(i64, NodeView)> {
    children.skip(leading_glue(children) as int)
}

/// By how much the glue at the beginning of a stack moves the stack up.
pub open spec fn vbox_offset(children: Seq<(i64, NodeView)>) -> int {
    glue_sum(children.take(leading_glue(children) as int))
}

/// The depth of the first stacked child, 0 where nothing is stacked.
pub open spec fn vbox_first_depth(children: Seq<(i64, NodeView)>) -> int {
    let body = vbox_body(children);
    if body.len() > 0 {
        body[0].1.depth()
    } else {
        0
    }
}

/// The height of a stack. The first stacked child stands on the baseline;
/// every later one adds its depth and its height. The glue at the beginning
/// moves the whole stack.
pub open spec fn vbox_height(children: Seq<(i64, NodeView)>) -> int {
    let body = vbox_body(children);
    crate::length::max(
        0,
        height_sum(body) + (depth_sum(body) - vbox_first_depth(children)) + vbox_offset(
            children,
        ),
    )
}

/// The depth of a stack: that of the first stacked child, moved by the glue
/// at the beginning.
pub open spec fn vbox_depth(children: Seq<(i64, NodeView)>) -> int {
    crate::length::max(0, vbox_first_depth(children) - vbox_offset(children))
}

/// The width of a stack.
pub open spec fn vbox_advance(children: Seq<(i64, NodeView)>) -> int {
    widest(vbox_body(children))
}

/// The stack that [`Node::new_vbox`] builds from these children.
pub open spec fn vbox_of(children: Seq<(i64, NodeView)>) -> NodeView {
    NodeView::VBox {
        children,
        height: crate::length::clamp(vbox_height(children)),
        depth: crate::length::clamp(vbox_depth(children)),
        advance: crate::length::clamp(vbox_advance(children)),
    }
}

/// The rule that [`Node::new_rule`] builds.
pub open spec fn rule_of(width: i64, height: i64) -> NodeView {
    NodeView::Rule { height, depth: 0, advance: width }
}

/// What drawing a node at a place draws: the glyphs and rules of the tree,
/// each at its place, in the order of the tree.
pub open spec fn drawing(node: NodeView, x0: i64, y0: i64) -> Seq<crate::common::Drawn>
    decreases node, 0nat,
{
    match node {
        NodeView::Glue(_) => Seq::empty(),
        NodeView::Glyph { glyph, color } => seq![
            crate::common::Drawn::Glyph { glyph, x: x0, y: y0, color },
        ],
        NodeView::HBox { children, .. } => hbox_drawing(children, children.len(), x0, y0),
        NodeView::VBox { children, .. } => vbox_drawing(children, children.len(), x0, y0),
        NodeView::Rule { height, depth, advance } => seq![
            crate::common::Drawn::Rect {
                x: x0,
                y: crate::length::clamp(y0 - depth),
                width: advance,
                height: crate::length::clamp(depth + height),
            },
        ],
    }
}

/// Where child `i` of a row at `x0` stands: after the children before it.
pub open spec fn hbox_child_x(children: Seq<(i64, NodeView)>, i: int, x0: i64) -> i64 {
    crate::length::clamp(x0 + hbox_advance(children.take(i)))
}

/// Where child `i` of a stack at `y0` stands: above the children before it,
/// and raised by its own depth unless it is the first.
pub open spec fn vbox_child_y(children: Seq<(i64, NodeView)>, i: int, y0: i64) -> i64 {
    crate::length::clamp(
        y0 + height_sum(children.take(i)) + depth_sum(children.take(i + 1)) - children[0].1.depth(),
    )
}

/// What drawing the first `n` children of a row draws.
pub open spec fn hbox_drawing(children: Seq<(i64, NodeView)>, n: nat, x0: i64, y0: i64) -> Seq<
    crate::common::Drawn,
>
    decreases children, n,
{
    if n == 0 || n > children.len() {
        Seq::empty()
    } else {
        hbox_drawing(children, (n - 1) as nat, x0, y0) + drawing(
            children[n - 1].1,
            hbox_child_x(children, n - 1, x0),
            crate::length::clamp(y0 + children[n - 1].0),
        )
    }
}

/// What drawing the first `n` children of a stack draws.
pub open spec fn vbox_drawing(children: Seq<(i64, NodeView)>, n: nat, x0: i64, y0: i64) -> Seq<
    crate::common::Drawn,
>
    decreases children, n,
{
    if n == 0 || n > children.len() {
        Seq::empty()
    } else {
        vbox_drawing(children, (n - 1) as nat, x0, y0) + drawing(
            children[n - 1].1,
            crate::length::clamp(x0 + children[n - 1].0),
            vbox_child_y(children, n - 1, y0),
        )
    }
}

/// The nodes that one part of an assembly becomes: the glyph of the part,
/// after glue that draws it back by its overlap where it has one.
pub open spec fn part_children(item: (i64, ConstructionPart), color: Color) -> Seq<
    (i64, NodeView),
> {
    let glyph = seq![(0i64, NodeView::Glyph { glyph: item.1.glyph, color })];
    if item.0 != 0 {
        seq![(0i64, NodeView::Glue(crate::length::clamp(-item.0)))] + glyph
    } else {
        glyph
    }
}

/// The nodes that the parts of an assembly become, in their order.
pub open spec fn parts_children(list: Seq<(i64, ConstructionPart)>, color: Color) -> Seq<
    (i64, NodeView),
>
    decreases list.len(),
{
    if list.len() == 0 {
        Seq::empty()
    } else {
        parts_children(list.drop_last(), color) + part_children(list.last(), color)
    }
}

/// The glue before an assembly that is to be centred: it moves the middle of
/// the assembly to `center`. Nothing where no centre is given.
pub open spec fn centering(center: Option<i64>, size: i64) -> Seq<(i64, NodeView)> {
    match center {
        Some(c) => seq![(0i64, NodeView::Glue(crate::length::clamp(c - size / 2)))],
        None => Seq::empty(),
    }
}

/// The children of the box that holds the assembly of a construction at
/// least `min_size` long; `None` where the construction has no such assembly.
pub open spec fn construction_children(
    construction: crate::common::construction::ConstructionView,
    min_size: i64,
    color: Color,
    center: Option<i64>,
) -> Option<Seq<(i64, NodeView)>> {
    match construction.assembly(min_size as int) {
        Some((size, list)) => Some(centering(center, size) + parts_children(list, color)),
        None => None,
    }
}

/// The glyph of a character at least `min_width` wide: a variant of the font
/// that is wide enough, or else the row of the parts of the font's
/// construction. `None` where the font has neither.
pub open spec fn extended_glyph_hor<F: Font>(
    font: &F,
    ch: char,
    min_width: i64,
    size: i64,
    style: FontStyle,
    color: Color,
) -> Option<NodeView> {
    match font.glyph_minwidth(ch, size, style, min_width) {
        Some(glyph) => Some(NodeView::Glyph { glyph, color }),
        None => match font.glyph_hor_construction(ch, size, style) {
            Some(construction) => match construction_children(
                construction,
                min_width,
                color,
                None,
            ) {
                Some(children) => Some(hbox_of(children)),
                None => None,
            },
            None => None,
        },
    }
}

/// The glyph of a character at least `min_height` high: a variant of the font
/// that is high enough, or else the stack of the parts of the font's
/// construction, centred on the axis. `None` where the font has neither.
pub open spec fn extended_glyph_vert<F: Font>(
    font: &F,
    ch: char,
    min_height: i64,
    size: i64,
    style: FontStyle,
    color: Color,
) -> Option<NodeView> {
    match font.glyph_minheight(ch, size, style, min_height) {
        Some(glyph) => Some(NodeView::Glyph { glyph, color }),
        None => match font.glyph_vert_construction(ch, size, style) {
            Some(construction) => match construction_children(
                construction,
                min_height,
                color,
                Some(font.general_params(size, style, false).axis_height),
            ) {
                Some(children) => Some(vbox_of(children)),
                None => None,
            },
            None => None,
        },
    }
}

/// The height of a row with children is the highest top among its raised
/// children: no child reaches higher, and one child reaches it. Its depth is
/// the lowest bottom in the same way. A row without children has height and
/// depth 0.
pub proof fn lemma_hbox_extremes(children: Seq<(i64, NodeView)>)
    ensures
        forall|i: int|
            0 <= i < children.len() ==> hbox_height(children) >= top_of(#[trigger] children[i]),
        children.len() > 0 ==> exists|i: int|
            0 <= i < children.len() && hbox_height(children) == top_of(#[trigger] children[i]),
        children.len() == 0 ==> hbox_height(children) == 0,
        forall|i: int|
            0 <= i < children.len() ==> hbox_depth(children) >= bottom_of(#[trigger] children[i]),
        children.len() > 0 ==> exists|i: int|
            0 <= i < children.len() && hbox_depth(children) == bottom_of(#[trigger] children[i]),
        children.len() == 0 ==> hbox_depth(children) == 0,
    decreases children.len(),
{
    if children.len() > 1 {
        let rest = children.drop_last();
        let n = rest.len() as int;
        lemma_hbox_extremes(rest);
        assert forall|i: int| 0 <= i < children.len() implies hbox_height(children) >= top_of(
            #[trigger] children[i],
        ) by {
            if i < n {
                assert(rest[i] == children[i]);
            }
        }
        assert forall|i: int| 0 <= i < children.len() implies hbox_depth(children) >= bottom_of(
            #[trigger] children[i],
        ) by {
            if i < n {
                assert(rest[i] == children[i]);
            }
        }
        if hbox_height(children) == hbox_height(rest) {
            let i = choose|i: int| 0 <= i < n && hbox_height(rest) == top_of(#[trigger] rest[i]);
            assert(rest[i] == children[i]);
        } else {
            assert(hbox_height(children) == top_of(children[n]));
        }
        if hbox_depth(children) == hbox_depth(rest) {
            let i = choose|i: int| 0 <= i < n && hbox_depth(rest) == bottom_of(#[trigger] rest[i]);
            assert(rest[i] == children[i]);
        } else {
            assert(hbox_depth(children) == bottom_of(children[n]));
        }
    } else if children.len() == 1 {
        assert(hbox_height(children) == top_of(children[0]));
        assert(hbox_depth(children) == bottom_of(children[0]));
    }
}

/// The metrics of a row are those of its children wherever these lie in the
/// range of the lengths: the width is the sum of the widths, the height the
/// highest top and the depth the lowest bottom.
pub proof fn lemma_hbox_exact(children: Seq<(i64, NodeView)>)
    ensures
        i64::MIN <= hbox_advance(children) <= i64::MAX ==> hbox_of(children).advance(false)
            == hbox_advance(children),
        i64::MIN <= hbox_height(children) <= i64::MAX ==> hbox_of(children).height(false)
            == hbox_height(children),
        i64::MIN <= hbox_depth(children) <= i64::MAX ==> hbox_of(children).depth() == hbox_depth(
            children,
        ),
{
}

/// A row of well-formed children is well-formed, and so is a stack.
pub proof fn lemma_boxes_wf(children: Seq<(i64, NodeView)>)
    requires
        children_wf(children),
    ensures
        hbox_of(children).wf(),
        vbox_of(children).wf(),
{
}

/// Two lists of well-formed children, one after the other, are a list of
/// well-formed children.
pub proof fn lemma_children_wf_concat(first: Seq<(i64, NodeView)>, second: Seq<(i64, NodeView)>)
    requires
        children_wf(first),
        children_wf(second),
    ensures
        children_wf(first + second),
{
    assert forall|i: int| 0 <= i < (first + second).len() implies (#[trigger] (first + second)[i]).1.wf() by {
        if i < first.len() {
            assert((first + second)[i] == first[i]);
        } else {
            assert((first + second)[i] == second[i - first.len()]);
        }
    }
}

/// The nodes of the parts of an assembly are well-formed.
pub proof fn lemma_parts_children_wf(list: Seq<(i64, ConstructionPart)>, color: Color)
    ensures
        children_wf(parts_children(list, color)),
    decreases list.len(),
{
    if list.len() > 0 {
        lemma_parts_children_wf(list.drop_last(), color);
        let last = part_children(list.last(), color);
        assert(children_wf(last)) by {
            assert forall|i: int| 0 <= i < last.len() implies (#[trigger] last[i]).1.wf() by {}
        }
        lemma_children_wf_concat(parts_children(list.drop_last(), color), last);
    }
}

/// A glyph that is grown to a size is well-formed.
pub proof fn lemma_extended_glyph_wf<F: Font>(
    font: &F,
    ch: char,
    min_size: i64,
    size: i64,
    style: FontStyle,
    color: Color,
)
    ensures
        extended_glyph_hor(font, ch, min_size, size, style, color) matches Some(node) ==> node.wf(),
        extended_glyph_vert(font, ch, min_size, size, style, color) matches Some(node)
            ==> node.wf(),
{
    match font.glyph_hor_construction(ch, size, style) {
        Some(construction) => {
            lemma_construction_children_wf(construction, min_size, color, None);
            match construction_children(construction, min_size, color, None) {
                Some(children) => {
                    lemma_boxes_wf(children);
                },
                None => {},
            }
        },
        None => {},
    }
    match font.glyph_vert_construction(ch, size, style) {
        Some(construction) => {
            let center = Some(font.general_params(size, style, false).axis_height);
            lemma_construction_children_wf(construction, min_size, color, center);
            match construction_children(construction, min_size, color, center) {
                Some(children) => {
                    lemma_boxes_wf(children);
                },
                None => {},
            }
        },
        None => {},
    }
}

/// The children of the box of an assembly are well-formed.
pub proof fn lemma_construction_children_wf(
    construction: crate::common::construction::ConstructionView,
    min_size: i64,
    color: Color,
    center: Option<i64>,
)
    ensures
        construction_children(construction, min_size, color, center) matches Some(children)
            ==> children_wf(children),
{
    match construction.assembly(min_size as int) {
        Some((size, list)) => {
            lemma_parts_children_wf(list, color);
            let glue = centering(center, size);
            assert(children_wf(glue)) by {
                assert forall|i: int| 0 <= i < glue.len() implies (#[trigger] glue[i]).1.wf() by {}
            }
            lemma_children_wf_concat(glue, parts_children(list, color));
        },
        None => {},
    }
}

/// The view of a list of children with one more child.
pub proof fn lemma_children_view_push(children: Seq<(i64, Node)>, item: (i64, Node))
    ensures
        children_view(children.push(item)) == children_view(children).push((item.0, item.1@)),
{
    assert(children_view(children.push(item)) =~= children_view(children).push(
        (item.0, item.1@),
    ));
}

/// The view of two lists of children, one after the other.
pub proof fn lemma_children_view_concat(first: Seq<(i64, Node)>, second: Seq<(i64, Node)>)
    ensures
        children_view(first + second) == children_view(first) + children_view(second),
{
    assert(children_view(first + second) =~= children_view(first) + children_view(second));
}

/// The view of no children.
pub proof fn lemma_children_view_empty(children: Seq<(i64, Node)>)
    requires
        children.len() == 0,
    ensures
        children_view(children) == Seq::<(i64, NodeView)>::empty(),
{
    assert(children_view(children) =~= Seq::<(i64, NodeView)>::empty());
}

/// The stack begins with exactly `k` glue nodes where its first `k` children
/// are glue and the next one, if there is one, is not.
pub proof fn lemma_leading_glue(children: Seq<(i64, NodeView)>, k: int)
    requires
        0 <= k <= children.len(),
        forall|j: int| 0 <= j < k ==> (#[trigger] children[j]).1 is Glue,
        k == children.len() || !(children[k].1 is Glue),
    ensures
        leading_glue(children) == k,
    decreases k,
{
    if k > 0 {
        let rest = children.drop_first();
        assert forall|j: int| 0 <= j < k - 1 implies (#[trigger] rest[j]).1 is Glue by {
            assert(rest[j] == children[j + 1]);
        }
        lemma_leading_glue(rest, k - 1);
    }
}

impl Node {
    pub fn height(&self, vertical_mode: bool) -> (r: i64)
        ensures
            r == self@.height(vertical_mode),
    {
        match self {
            Node::Glue(h) => if vertical_mode {
                *h
            } else {
                0
            },
            Node::Glyph { glyph, .. } => glyph.height(),
            Node::HBox { height, .. } => *height,
            Node::VBox { height, .. } => *height,
            Node::Rule { height, .. } => *height,
        }
    }

    pub fn depth(&self) -> (r: i64)
        ensures
            r == self@.depth(),
    {
        match self {
            Node::Glue(_) => 0,
            Node::Glyph { glyph, .. } => glyph.depth(),
            Node::HBox { depth, .. } => *depth,
            Node::VBox { depth, .. } => *depth,
            Node::Rule { depth, .. } => *depth,
        }
    }

    pub fn advance(&self, vertical_mode: bool) -> (r: i64)
        ensures
            r == self@.advance(vertical_mode),
    {
        match self {
            Node::Glue(w) => if vertical_mode {
                0
            } else {
                *w
            },
            Node::Glyph { glyph, .. } => glyph.advance(),
            Node::HBox { advance, .. } => *advance,
            Node::VBox { advance, .. } => *advance,
            Node::Rule { advance, .. } => *advance,
        }
    }

    /// Whether the node is glue.
    pub fn is_glue(&self) -> (r: bool)
        ensures
            r == (self@ is Glue),
    {
        match self {
            Node::Glue(_) => true,
            _ => false,
        }
    }

    /// Sets the children side by side.
    pub fn new_hbox(children: Vec<(i64, Node)>) -> (r: Node)
        ensures
            r@ == hbox_of(children_view(children@)),
    {
        let ghost cv = children_view(children@);
        let n: usize = children.len();
        let mut height: i128 = 0;
        let mut depth: i128 = 0;
        let mut advance: i128 = 0;
        let mut i: usize = 0;
        while i < n
            invariant
                i <= n,
                n == children.len(),
                cv == children_view(children@),
                height == hbox_height(cv.take(i as int)),
                depth == hbox_depth(cv.take(i as int)),
                advance == hbox_advance(cv.take(i as int)),
                -0x1_0000_0000_0000_0000 <= height <= 0x1_0000_0000_0000_0000,
                -0x1_0000_0000_0000_0000 <= depth <= 0x1_0000_0000_0000_0000,
                -(i as int) * 0x8000_0000_0000_0000 <= advance <= (i as int) * 0x8000_0000_0000_0000,
            decreases n - i,
        {
            let vshift: i64 = children[i].0;
            let node: &Node = &children[i].1;
            proof {
                assert(cv.take(i + 1).drop_last() == cv.take(i as int));
                assert(cv.take(i + 1).last() == (vshift, node@));
                assert(cv.take(i + 1)[0] == cv[0]);
            }
            let top: i128 = node.height(false) as i128 + vshift as i128;
            let bottom: i128 = node.depth() as i128 - vshift as i128;
            if i == 0 {
                height = top;
                depth = bottom;
            } else {
                height = max_wide(height, top);
                depth = max_wide(depth, bottom);
            }
            advance = advance + node.advance(false) as i128;
            i = i + 1;
        }
        proof {
            assert(cv.take(n as int) == cv);
        }
        Node::HBox {
            children,
            height: clamp_wide(height),
            depth: clamp_wide(depth),
            advance: clamp_wide(advance),
        }
    }

    /// Stacks the children, the first at the bottom.
    pub fn new_vbox(children: Vec<(i64, Node)>) -> (r: Node)
        ensures
            r@ == vbox_of(children_view(children@)),
    {
        let ghost cv = children_view(children@);
        let n: usize = children.len();
        let mut g: usize = 0;
        let mut offset: i128 = 0;
        while g < n && children[g].1.is_glue()
            invariant
                g <= n,
                n == children.len(),
                cv == children_view(children@),
                forall|j: int| 0 <= j < g ==> (#[trigger] cv[j]).1 is Glue,
                offset == glue_sum(cv.take(g as int)),
                -(g as int) * 0x8000_0000_0000_0000 <= offset <= (g as int) * 0x8000_0000_0000_0000,
            decreases n - g,
        {
            let node: &Node = &children[g].1;
            proof {
                assert(cv.take(g + 1).drop_last() == cv.take(g as int));
                assert(cv.take(g + 1).last() == cv[g as int]);
                assert(cv[g as int].1 == node@);
            }
            offset = offset + node.height(true) as i128;
            g = g + 1;
        }
        proof {
            assert(g < n ==> cv[g as int].1 == children@[g as int].1@);
            lemma_leading_glue(cv, g as int);
        }
        let ghost body = cv.skip(g as int);
        let mut rise: i128 = offset;
        let mut sink: i128 = 0;
        let mut first_depth: i64 = 0;
        let mut advance: i128 = 0;
        let mut i: usize = g;
        while i < n
            invariant
                g <= i <= n,
                n == children.len(),
                cv == children_view(children@),
                body == cv.skip(g as int),
                first_depth == (if i > g {
                    body[0].1.depth()
                } else {
                    0
                }),
                rise == offset + height_sum(body.take(i - g)),
                sink == depth_sum(body.take(i - g)) - first_depth,
                advance == widest(body.take(i - g)),
                -(i as int) * 0x8000_0000_0000_0000 <= rise <= (i as int) * 0x8000_0000_0000_0000,
                -(i as int) * 0x8000_0000_0000_0000 <= sink <= (i as int) * 0x8000_0000_0000_0000,
                0 <= advance <= 0x1_0000_0000_0000_0000,
            decreases n - i,
        {
            let hshift: i64 = children[i].0;
            let node: &Node = &children[i].1;
            proof {
                assert(body.take(i - g + 1).drop_last() == body.take(i - g));
                assert(body.take(i - g + 1).last() == (hshift, node@));
            }
            if i == g {
                first_depth = node.depth();
            } else {
                sink = sink + node.depth() as i128;
            }
            advance = max_wide(advance, node.advance(true) as i128 + hshift as i128);
            rise = rise + node.height(true) as i128;
            i = i + 1;
        }
        proof {
            assert(body.take(n - g) == body);
        }
        let height: i64 = clamp_sum(rise, sink);
        let depth: i64 = clamp_sum(first_depth as i128, -offset);
        Node::VBox {
            children,
            height: if height < 0 {
                0
            } else {
                height
            },
            depth: if depth < 0 {
                0
            } else {
                depth
            },
            advance: clamp_wide(advance),
        }
    }

    /// The children of the box that holds the assembly of a construction.
    fn children_from_construction(
        construction: &Construction,
        min_size: i64,
        color: Color,
        center: Option<i64>,
    ) -> (r: Option<Vec<(i64, Node)>>)
        ensures
            match r {
                Some(children) => construction_children(construction@, min_size, color, center)
                    == Some(children_view(children@)),
                None => construction_children(construction@, min_size, color, center) is None,
            },
    {
        let (size, list): (i64, Vec<(i64, ConstructionPart)>) = match construction.try_construct(
            min_size,
        ) {
            Some(assembly) => assembly,
            None => {
                return None;
            },
        };
        let mut result: Vec<(i64, Node)> = Vec::new();
        proof {
            lemma_children_view_empty(result@);
        }
        if let Some(c) = center {
            let glue: i64 = clamp_wide(c as i128 - div_floor(size as i128, 2));
            proof {
                lemma_children_view_push(result@, (0i64, Node::Glue(glue)));
            }
            result.push((0, Node::Glue(glue)));
            assert(children_view(result@) =~= centering(center, size));
        }
        let n: usize = list.len();
        let mut i: usize = 0;
        assert(list@.take(0) =~= Seq::<(i64, ConstructionPart)>::empty());
        while i < n
            invariant
                i <= n,
                n == list@.len(),
                children_view(result@) == centering(center, size) + parts_children(
                    list@.take(i as int),
                    color,
                ),
            decreases n - i,
        {
            let overlap: i64 = list[i].0;
            let part: ConstructionPart = list[i].1;
            proof {
                assert(list@.take(i + 1).drop_last() == list@.take(i as int));
                assert(list@.take(i + 1).last() == (overlap, part));
            }
            let ghost before = children_view(result@);
            if overlap != 0 {
                let glue: i64 = clamp_wide(-(overlap as i128));
                proof {
                    lemma_children_view_push(result@, (0i64, Node::Glue(glue)));
                }
                result.push((0, Node::Glue(glue)));
            }
            let node: Node = Node::Glyph { glyph: part.glyph, color };
            proof {
                lemma_children_view_push(result@, (0i64, node));
            }
            result.push((0, node));
            assert(children_view(result@) =~= before + part_children((overlap, part), color));
            i = i + 1;
        }
        proof {
            assert(list@.take(n as int) == list@);
        }
        Some(result)
    }

    /// The glyph of a character at least `min_width` wide.
    pub fn new_extended_glyph_hor<F: Font>(
        font: &F,
        ch: char,
        min_width: i64,
        size: i64,
        style: FontStyle,
        color: Color,
    ) -> (r: Option<Node>)
        ensures
            match r {
                Some(node) => extended_glyph_hor(font, ch, min_width, size, style, color) == Some(
                    node@,
                ),
                None => extended_glyph_hor(font, ch, min_width, size, style, color) is None,
            },
    {
        if let Some(glyph) = font.get_glyph_minwidth(ch, size, style, min_width) {
            return Some(Node::Glyph { glyph, color });
        }
        let construction: Construction = match font.get_glyph_hor_construction(ch, size, style) {
            Some(c) => c,
            None => {
                return None;
            },
        };
        match Node::children_from_construction(&construction, min_width, color, None) {
            Some(children) => Some(Node::new_hbox(children)),
            None => None,
        }
    }

    /// The glyph of a character at least `min_height` high.
    pub fn new_extended_glyph_vert<F: Font>(
        font: &F,
        ch: char,
        min_height: i64,
        size: i64,
        style: FontStyle,
        color: Color,
    ) -> (r: Option<Node>)
        ensures
            match r {
                Some(node) => extended_glyph_vert(font, ch, min_height, size, style, color)
                    == Some(node@),
                None => extended_glyph_vert(font, ch, min_height, size, style, color) is None,
            },
    {
        let params = font.calculate_general_params(size, style, false);
        if let Some(glyph) = font.get_glyph_minheight(ch, size, style, min_height) {
            return Some(Node::Glyph { glyph, color });
        }
        let construction: Construction = match font.get_glyph_vert_construction(ch, size, style) {
            Some(c) => c,
            None => {
                return None;
            },
        };
        match Node::children_from_construction(
            &construction,
            min_height,
            color,
            Some(params.axis_height),
        ) {
            Some(children) => Some(Node::new_vbox(children)),
            None => None,
        }
    }

    /// Draws the node with its origin at a place.
    pub fn render<R: Renderer>(&self, renderer: &mut R, x0: i64, y0: i64)
        ensures
            final(renderer).drawn() == old(renderer).drawn() + drawing(self@, x0, y0),
        decreases self, 0nat,
    {
        match self {
            Node::Glue(_) => {
                assert(renderer.drawn() + drawing(self@, x0, y0) =~= renderer.drawn());
            },
            Node::Glyph { glyph, color } => {
                renderer.render_glyph(glyph, x0, y0, *color);
            },
            Node::HBox { children, .. } => {
                let ghost cv = children_view(children@);
                let ghost start = renderer.drawn();
                let n: usize = children.len();
                let mut along: i128 = 0;
                let mut i: usize = 0;
                assert(start + hbox_drawing(cv, 0, x0, y0) =~= start);
                assert(cv.take(0) =~= Seq::<(i64, NodeView)>::empty());
                while i < n
                    invariant
                        i <= n,
                        n == children@.len(),
                        cv == children_view(children@),
                        self@ is HBox,
                        self@->HBox_children == cv,
                        decreases_to!(self => children@),
                        along == hbox_advance(cv.take(i as int)),
                        -(i as int) * 0x8000_0000_0000_0000 <= along <= (i as int)
                            * 0x8000_0000_0000_0000,
                        renderer.drawn() == start + hbox_drawing(cv, i as nat, x0, y0),
                    decreases n - i,
                {
                    let vshift: i64 = children[i].0;
                    let child: &Node = &children[i].1;
                    proof {
                        assert(cv.take(i + 1).drop_last() == cv.take(i as int));
                        assert(cv.take(i + 1).last() == (vshift, child@));
                    }
                    let ghost before = renderer.drawn();
                    child.render(
                        renderer,
                        clamp_wide(x0 as i128 + along),
                        clamp_wide(y0 as i128 + vshift as i128),
                    );
                    along = along + child.advance(false) as i128;
                    i = i + 1;
                    proof {
                        assert(renderer.drawn() =~= start + hbox_drawing(cv, i as nat, x0, y0));
                    }
                }
            },
            Node::VBox { children, .. } => {
                let ghost cv = children_view(children@);
                let ghost start = renderer.drawn();
                let n: usize = children.len();
                let mut rise: i128 = 0;
                let mut sink: i128 = 0;
                let mut i: usize = 0;
                assert(start + vbox_drawing(cv, 0, x0, y0) =~= start);
                assert(cv.take(0) =~= Seq::<(i64, NodeView)>::empty());
                while i < n
                    invariant
                        i <= n,
                        n == children@.len(),
                        cv == children_view(children@),
                        self@ is VBox,
                        self@->VBox_children == cv,
                        decreases_to!(self => children@),
                        rise == height_sum(cv.take(i as int)),
                        sink == (if i == 0 {
                            0
                        } else {
                            depth_sum(cv.take(i as int)) - cv[0].1.depth()
                        }),
                        -(i as int) * 0x8000_0000_0000_0000 <= rise <= (i as int)
                            * 0x8000_0000_0000_0000,
                        -(i as int) * 0x8000_0000_0000_0000 <= sink <= (i as int)
                            * 0x8000_0000_0000_0000,
                        renderer.drawn() == start + vbox_drawing(cv, i as nat, x0, y0),
                    decreases n - i,
                {
                    let hshift: i64 = children[i].0;
                    let child: &Node = &children[i].1;
                    proof {
                        assert(cv.take(i + 1).drop_last() == cv.take(i as int));
                        assert(cv.take(i + 1).last() == (hshift, child@));
                        if i == 0 {
                            assert(cv.take(1).drop_last() =~= Seq::<(i64, NodeView)>::empty());
                            assert(depth_sum(cv.take(0)) == 0);
                        }
                    }
                    if i > 0 {
                        sink = sink + child.depth() as i128;
                    }
                    let above: i64 = crate::length::clamp_sum(y0 as i128 + rise, sink);
                    child.render(renderer, clamp_wide(x0 as i128 + hshift as i128), above);
                    rise = rise + child.height(true) as i128;
                    i = i + 1;
                    proof {
                        assert(renderer.drawn() =~= start + vbox_drawing(cv, i as nat, x0, y0));
                    }
                }
            },
            Node::Rule { height, depth, advance } => {
                renderer.render_box(
                    x0,
                    clamp_wide(y0 as i128 - *depth as i128),
                    *advance,
                    clamp_wide(*depth as i128 + *height as i128),
                );
            },
        }
    }

    /// A filled rectangle that stands on the baseline.
    pub fn new_rule(width: i64, height: i64) -> (r: Node)
        ensures
            r@ == rule_of(width, height),
    {
        Node::Rule { height, depth: 0, advance: width }
    }
}

} // verus!
