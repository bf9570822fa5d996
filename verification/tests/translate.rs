use rustmath::common::construction::{Construction, ConstructionPart};
use rustmath::common::font_params::{
    FractionParams, FractionPartParams, GeneralParams, ScriptParams, SubScriptParams,
    SuperScriptParams,
};
use rustmath::common::{Color, Family, Font, FontBackend, FontStyle, Glyph};
use rustmath::layout::Node;
use rustmath::mathlist::{
    assemble_atom, fraction_box, spacing, Atom, AtomType, Builder, Delimiter, Field, MathList,
    Style,
};
use rustmath::parser::parse;

/// A font with the same metrics for every character but a few.
struct TestFont;

struct TestBackend {
    font: TestFont,
}

impl FontBackend for TestBackend {
    type Font = TestFont;

    fn get_font(&self, _family: Family) -> &TestFont {
        &self.font
    }
}

fn scaled(size: i64, style: FontStyle) -> i64 {
    match style {
        FontStyle::Display | FontStyle::Text => size,
        FontStyle::Script => size * 7 / 10,
        FontStyle::SuperScript => size / 2,
    }
}

fn glyph(ch: char, size: i64, style: FontStyle) -> Glyph {
    let id = ch as u32;
    let size = scaled(size, style);
    match ch {
        '\u{1d465}' => Glyph { id, size, height: 7, depth: 2, advance: 5, italic_correction: 1 },
        '2' => Glyph { id, size, height: 6, depth: 0, advance: 4, italic_correction: 0 },
        _ => Glyph { id, size, height: 7, depth: 2, advance: 5, italic_correction: 0 },
    }
}

fn part(id: u32, size: i64, overlap: i64, is_extender: bool) -> ConstructionPart {
    ConstructionPart {
        glyph: Glyph { id, size: 0, height: size, depth: 0, advance: 3, italic_correction: 0 },
        size,
        max_start_overlap: overlap,
        max_end_overlap: overlap,
        is_extender,
    }
}

impl Font for TestFont {
    fn get_fallback_glyph(&self, size: i64, style: FontStyle) -> Glyph {
        Glyph { id: 0, size: scaled(size, style), height: 1, depth: 1, advance: 1, italic_correction: 0 }
    }

    fn get_glyph(&self, ch: char, size: i64, style: FontStyle) -> Option<Glyph> {
        if ch == '\u{1d444}' {
            // the font lacks the italic Q
            None
        } else {
            Some(glyph(ch, size, style))
        }
    }

    fn get_larger_glyph(&self, ch: char, size: i64, style: FontStyle, include_ic: bool) -> Option<Glyph> {
        if ch == '\u{2211}' {
            let ic = if include_ic { 2 } else { 0 };
            Some(Glyph { id: 9000, size: scaled(size, style), height: 14, depth: 4, advance: 10, italic_correction: ic })
        } else {
            None
        }
    }

    fn get_glyph_minwidth(&self, _ch: char, _size: i64, _style: FontStyle, _w: i64) -> Option<Glyph> {
        None
    }

    fn get_glyph_minheight(&self, ch: char, size: i64, style: FontStyle, min_height: i64) -> Option<Glyph> {
        if ch == '(' && min_height <= 20 {
            Some(Glyph { id: 40, size: scaled(size, style), height: 10, depth: 10, advance: 3, italic_correction: 0 })
        } else {
            None
        }
    }

    fn get_glyph_hor_construction(&self, _ch: char, _size: i64, _style: FontStyle) -> Option<Construction> {
        None
    }

    fn get_glyph_vert_construction(&self, ch: char, _size: i64, _style: FontStyle) -> Option<Construction> {
        match ch {
            '(' => Some(Construction {
                min_overlap: 0,
                parts: vec![part(41, 10, 2, false), part(42, 5, 2, true), part(43, 10, 2, false)],
            }),
            ')' => Some(Construction { min_overlap: 0, parts: vec![part(44, 2, 0, false)] }),
            _ => None,
        }
    }

    fn calculate_script_params(&self, _size: i64, _style: FontStyle, cramped: bool) -> ScriptParams {
        ScriptParams {
            subscript: SubScriptParams { shift_down: 2, top_max: 4, baseline_drop_min: 0 },
            superscript: SuperScriptParams {
                shift_up: if cramped { 6 } else { 8 },
                bottom_min: 1,
                baseline_drop_max: 100,
            },
            sub_super_gap_min: 0,
            super_bottom_max_with_subscript: 0,
        }
    }

    fn calculate_general_params(&self, _size: i64, _style: FontStyle, _cramped: bool) -> GeneralParams {
        GeneralParams { axis_height: 3 }
    }

    fn calculate_fraction_params(&self, _size: i64, _style: FontStyle, _cramped: bool) -> FractionParams {
        FractionParams {
            numerator: FractionPartParams { shift: 10, gap_min: 1 },
            denominator: FractionPartParams { shift: 10, gap_min: 1 },
            rule_thickness: 2,
        }
    }
}

fn translate(src: &str, size: i64, style: Style) -> Node {
    let backend = TestBackend { font: TestFont };
    parse(src).unwrap().translate(&backend, size, style)
}

fn glyph_node(ch: char, size: i64, style: FontStyle) -> Node {
    Node::Glyph { glyph: glyph(ch, size, style), color: Color::Normal }
}

fn children(node: Node) -> Vec<(i64, Node)> {
    match node {
        Node::HBox { children, .. } | Node::VBox { children, .. } => children,
        other => panic!("no box: {:?}", other),
    }
}

#[test]
fn superscript_is_raised_beside_the_nucleus() {
    let row = translate("x^2", 18, Style::Text);
    assert!(matches!(row, Node::HBox { .. }));
    assert_eq!((row.height(false), row.depth(), row.advance(false)), (14, 2, 10));
    let items = children(row);
    assert_eq!(items.len(), 2);
    // the nucleus is the italic x
    assert_eq!(items[0], (0, glyph_node('\u{1d465}', 18, FontStyle::Text)));
    // the stack of the scripts holds the superscript alone, raised by the shift of the font
    assert_eq!(items[1].0, 8);
    assert!(matches!(items[1].1, Node::VBox { .. }));
    assert_eq!((items[1].1.height(false), items[1].1.depth(), items[1].1.advance(false)), (6, 0, 5));
    let scripts = children(translate("x^2", 18, Style::Text)).pop().unwrap().1;
    assert_eq!(children(scripts), vec![(1, glyph_node('2', 18, FontStyle::Script))]);
}

#[test]
fn translation_of_a_list_is_the_same_with_a_font_as_with_its_backend() {
    let with_font = parse("x^2_1 + \\frac{1}{2}").unwrap().translate_with(&TestFont, 18, Style::Display);
    assert_eq!(with_font, translate("x^2_1 + \\frac{1}{2}", 18, Style::Display));
}

#[test]
fn both_scripts_are_stacked() {
    let items = children(translate("x_2^2", 18, Style::Text));
    assert_eq!(items.len(), 2);
    // the subscript is 6 high and drops by 2; the superscript rises by 8
    assert_eq!(items[1].0, -2);
    let stack = children(translate("x_2^2", 18, Style::Text)).pop().unwrap().1;
    assert_eq!((stack.height(false), stack.depth()), (16, 0));
    assert_eq!(
        children(stack),
        vec![
            (0, glyph_node('2', 18, FontStyle::Script)),
            (0, Node::Glue(4)),
            (1, glyph_node('2', 18, FontStyle::Script)),
        ]
    );
}

#[test]
fn scripts_of_scripts_are_smaller_and_cramped_styles_rise_less() {
    let items = children(translate("x_{x^2}", 20, Style::Text));
    let stack = children(items.into_iter().nth(1).unwrap().1);
    assert_eq!(stack.len(), 1);
    let inner = children(stack.into_iter().next().unwrap().1);
    assert_eq!(inner[0], (0, glyph_node('\u{1d465}', 20, FontStyle::Script)));
    // a subscript is cramped, so the superscript inside it rises by 6
    assert_eq!(inner[1].0, 6);
    let innermost = children(inner.into_iter().nth(1).unwrap().1);
    assert_eq!(innermost, vec![(1, glyph_node('2', 20, FontStyle::SuperScript))]);
}

#[test]
fn binary_operator_stands_between_medium_spaces() {
    let items = children(translate("a+b", 18, Style::Text));
    assert_eq!(
        items,
        vec![
            (0, glyph_node('\u{1d44e}', 18, FontStyle::Text)),
            (0, Node::Glue(4)),
            (0, glyph_node('+', 18, FontStyle::Text)),
            (0, Node::Glue(4)),
            (0, glyph_node('\u{1d44f}', 18, FontStyle::Text)),
        ]
    );
    let wide = children(translate("a+b", 37, Style::Display));
    assert_eq!(wide[1], (0, Node::Glue(8)));
}

#[test]
fn spaces_are_left_out_in_the_styles_of_scripts() {
    for style in [Style::Script, Style::ScriptCramped, Style::SuperScript, Style::SuperScriptCramped] {
        let items = children(translate("a+b", 18, style));
        assert_eq!(items.len(), 3, "{:?}", style);
        assert!(items.iter().all(|(_, n)| !n.is_glue()));
    }
    // the thin space beside an operator stays
    let items = children(translate("a\\sum", 18, Style::Script));
    assert_eq!(items[1], (0, Node::Glue(3)));
}

#[test]
fn spaces_are_left_out_where_the_size_is_small() {
    let items = children(translate("a+b", 17, Style::Text));
    assert_eq!(items.len(), 3);
    let items = children(translate("a+b", -18, Style::Text));
    assert_eq!(items.len(), 3);
}

#[test]
fn spacing_table() {
    let (acc, bin, close, inner) = (AtomType::Acc, AtomType::Bin, AtomType::Close, AtomType::Inner);
    let (op, open, ord, punct, rel) = (AtomType::Op, AtomType::Open, AtomType::Ord, AtomType::Punct, AtomType::Rel);
    let all = [acc, bin, close, inner, op, open, ord, punct, rel];
    let thin = [(ord, op), (op, ord), (op, op), (close, op), (inner, op)];
    let thin_nonscript = [(inner, ord), (inner, open), (inner, punct), (inner, inner), (ord, inner), (op, inner), (close, inner)];
    let med = [(ord, bin), (close, bin), (inner, bin)];
    let thick = [(ord, rel), (op, rel), (close, rel), (inner, rel)];
    for left in all {
        for right in all {
            let pair = (left, right);
            let (plain, script) = if thin.contains(&pair) {
                (3, 3)
            } else if left == punct || thin_nonscript.contains(&pair) {
                (3, 0)
            } else if left == bin || med.contains(&pair) {
                (4, 0)
            } else if left == rel || thick.contains(&pair) {
                (5, 0)
            } else {
                (0, 0)
            };
            assert_eq!(spacing(&left, &right, false, 3, 4, 5), plain, "{:?}", pair);
            assert_eq!(spacing(&left, &right, true, 3, 4, 5), script, "{:?}", pair);
        }
    }
}

#[test]
fn operator_grows_in_display_style() {
    let big = children(translate("\\sum", 18, Style::Display));
    assert_eq!(
        big,
        vec![(0, Node::Glyph {
            glyph: Glyph { id: 9000, size: 18, height: 14, depth: 4, advance: 10, italic_correction: 2 },
            color: Color::Normal,
        })]
    );
    let small = children(translate("\\sum", 18, Style::Text));
    assert_eq!(small, vec![(0, glyph_node('\u{2211}', 18, FontStyle::Text))]);
    // with a subscript the italic correction is not part of the glyph
    let with_subscript = children(translate("\\sum_2", 18, Style::DisplayCramped));
    match &with_subscript[0].1 {
        Node::Glyph { glyph, .. } => assert_eq!((glyph.id, glyph.italic_correction), (9000, 0)),
        other => panic!("{:?}", other),
    }
    // another atom does not grow
    let letter = children(translate("a", 18, Style::Display));
    assert_eq!(letter, vec![(0, glyph_node('\u{1d44e}', 18, FontStyle::Display))]);
}

#[test]
fn missing_glyph_becomes_the_fallback_glyph_in_the_colour_of_errors() {
    let items = children(translate("Q", 18, Style::Text));
    let fallback = Glyph { id: 0, size: 18, height: 1, depth: 1, advance: 1, italic_correction: 0 };
    assert_eq!(items, vec![(0, Node::Glyph { glyph: fallback, color: Color::Error })]);
    // a character that makes no atom is the fallback glyph too
    let items = children(translate("\u{239b}", 18, Style::Text));
    assert_eq!(items, vec![(0, Node::Glyph { glyph: fallback, color: Color::Error })]);
}

#[test]
fn error_text_is_laid_out_in_the_colour_of_errors() {
    let items = children(translate("\\bogus", 18, Style::Text));
    assert_eq!(items.len(), 1);
    let letters = children(items.into_iter().next().unwrap().1);
    assert_eq!(letters.len(), 6);
    for (i, ch) in "\\bogus".chars().enumerate() {
        assert_eq!(letters[i], (0, Node::Glyph { glyph: glyph(ch, 18, FontStyle::Text), color: Color::Error }));
    }
}

#[test]
fn fraction_is_centred() {
    let num = Node::Glyph { glyph: glyph('2', 18, FontStyle::Text), color: Color::Normal };
    let denom = Node::new_hbox(vec![
        (0, glyph_node('a', 18, FontStyle::Text)),
        (0, glyph_node('b', 18, FontStyle::Text)),
    ]);
    let general = GeneralParams { axis_height: 3 };
    let params = TestFont.calculate_fraction_params(18, FontStyle::Text, false);
    let fraction = fraction_box(Some((num, 0)), Some((denom, 0)), &general, &params);
    assert_eq!((fraction.height(false), fraction.depth(), fraction.advance(false)), (16, 12, 10));
    let outer = children(fraction);
    assert_eq!(outer.len(), 1);
    assert_eq!(outer[0].0, -10);
    let stack = children(outer.into_iter().next().unwrap().1);
    assert_eq!(stack.len(), 5);
    // the denominator is as wide as the fraction, the numerator is moved by half of the rest
    assert_eq!(stack[0].0, 0);
    assert_eq!(stack[1], (0, Node::Glue(5)));
    assert_eq!(stack[2], (0, Node::Rule { height: 2, depth: 0, advance: 10 }));
    assert_eq!(stack[3], (0, Node::Glue(6)));
    assert_eq!(stack[4], (3, glyph_node('2', 18, FontStyle::Text)));
}

#[test]
fn fraction_counts_the_italic_correction() {
    let part = |advance: i64| Node::Rule { height: 5, depth: 1, advance };
    let general = GeneralParams { axis_height: 3 };
    let params = TestFont.calculate_fraction_params(18, FontStyle::Text, false);
    let stack = |num: Option<(Node, i64)>, denom: Option<(Node, i64)>| {
        children(children(fraction_box(num, denom, &general, &params)).pop().unwrap().1)
    };
    let both = stack(Some((part(4), 2)), Some((part(11), 0)));
    assert_eq!(both[2], (0, Node::Rule { height: 2, depth: 0, advance: 11 }));
    // half of 11 - 4, rounded down: the italic correction counts for the width only
    assert_eq!(both[4].0, 3);
    assert_eq!(both[0].0, 0);
    let wide = stack(Some((part(10), 2)), Some((part(20), 0)));
    assert_eq!(wide[4].0, 5);
    let wide = stack(Some((part(20), 0)), Some((part(10), 2)));
    assert_eq!(wide[0].0, 5);
    let only_num = stack(Some((part(4), 2)), None);
    assert_eq!(only_num.len(), 3);
    assert_eq!(only_num[0], (0, Node::Rule { height: 2, depth: 0, advance: 6 }));
    assert_eq!(only_num[2].0, 1);
    let neither = stack(None, None);
    assert_eq!(neither, vec![(0, Node::Rule { height: 2, depth: 0, advance: 0 })]);
}

#[test]
fn fraction_sets_its_parts_a_tier_down() {
    let items = children(translate("\\frac{x}{2}", 20, Style::Text));
    assert_eq!(items.len(), 1);
    let stack = children(children(items.into_iter().next().unwrap().1).pop().unwrap().1);
    let denom = children(stack.into_iter().next().unwrap().1);
    assert_eq!(denom, vec![(0, glyph_node('2', 20, FontStyle::Script))]);
    let items = children(translate("\\frac{x}{2}", 20, Style::Display));
    let stack = children(children(items.into_iter().next().unwrap().1).pop().unwrap().1);
    let num = children(stack.into_iter().last().unwrap().1);
    assert_eq!(num, vec![(0, glyph_node('\u{1d465}', 20, FontStyle::Text))]);
}

#[test]
fn delimiters_grow_with_their_content() {
    let content = Node::new_hbox(vec![(0, Node::Rule { height: 12, depth: 4, advance: 5 })]);
    // the top is 9 above the axis and the bottom 7 below it: 18 high
    let left = Delimiter { ch: '(', color: Color::Normal };
    let node = left.translate(&TestFont, &content, 18, Style::Text);
    assert_eq!(
        node,
        Node::Glyph {
            glyph: Glyph { id: 40, size: 18, height: 10, depth: 10, advance: 3, italic_correction: 0 },
            color: Color::Normal,
        }
    );
    // what is higher is assembled: 10 + 5 + 5 + 10 less an overlap of 1 each, centred on the axis
    let tall = Node::new_hbox(vec![(0, Node::Rule { height: 16, depth: 4, advance: 5 })]);
    let node = left.translate(&TestFont, &tall, 18, Style::Text);
    assert!(matches!(node, Node::VBox { .. }));
    let parts = children(node);
    let ids: Vec<(i64, Option<u32>)> = parts
        .iter()
        .map(|(shift, n)| match n {
            Node::Glyph { glyph, .. } => (*shift, Some(glyph.id)),
            Node::Glue(w) => (*w, None),
            other => panic!("{:?}", other),
        })
        .collect();
    assert_eq!(
        ids,
        vec![(3 - 13, None), (0, Some(41)), (-1, None), (0, Some(42)), (-1, None), (0, Some(42)), (-1, None), (0, Some(43))]
    );
}

#[test]
fn delimiter_that_the_font_cannot_make_is_the_fallback_glyph() {
    let content = Node::new_hbox(vec![(0, Node::Rule { height: 16, depth: 4, advance: 5 })]);
    let fallback = Glyph { id: 0, size: 18, height: 1, depth: 1, advance: 1, italic_correction: 0 };
    // no construction at all
    let node = Delimiter { ch: '[', color: Color::Normal }.translate(&TestFont, &content, 18, Style::Text);
    assert_eq!(node, Node::Glyph { glyph: fallback, color: Color::Error });
    // a construction that cannot grow
    let node = Delimiter { ch: ')', color: Color::Normal }.translate(&TestFont, &content, 18, Style::Text);
    assert_eq!(node, Node::Glyph { glyph: fallback, color: Color::Error });
}

#[test]
fn delimited_list_is_a_row() {
    let items = children(translate("\\left( x \\right.", 18, Style::Text));
    assert_eq!(items.len(), 1);
    let row = children(items.into_iter().next().unwrap().1);
    assert_eq!(row.len(), 2);
    assert!(matches!(&row[0].1, Node::Glyph { glyph, .. } if glyph.id == 40));
    assert_eq!(children(row.into_iter().nth(1).unwrap().1), vec![(0, glyph_node('\u{1d465}', 18, FontStyle::Text))]);
}

#[test]
fn empty_list_and_empty_fields() {
    let empty = translate("", 18, Style::Text);
    assert_eq!(empty, Node::HBox { children: vec![], height: 0, depth: 0, advance: 0 });
    assert_eq!(Field::Empty.translate(&TestFont, 18, Style::Text, false, false), None);
    assert!(Field::Empty.is_empty());
    assert!(!Field::Fallback(Color::Normal).is_empty());
    let group = children(translate("{}", 18, Style::Text));
    assert_eq!(group, vec![(0, Node::HBox { children: vec![], height: 0, depth: 0, advance: 0 })]);
}

#[test]
fn field_that_is_laid_out_is_kept() {
    let ready = Field::Layout { translation: Node::new_rule(4, 2), italic_correction: 3 };
    assert_eq!(ready.translate(&TestFont, 18, Style::Text, true, true), Some((Node::new_rule(4, 2), 3)));
    let mut builder = Builder::default();
    builder.add_atom(Atom {
        atom_type: AtomType::Ord,
        nucleus: Field::Layout { translation: Node::new_rule(4, 2), italic_correction: 3 },
        subscript: Field::Empty,
        superscript: Field::Symbol(Color::Normal, '2'),
    });
    builder.add_symbol('a', Color::Error);
    let list: MathList = builder.finish();
    assert_eq!(list.0.len(), 2);
    assert_eq!(list.0[0].atom_type(), Some(&AtomType::Ord));
    let items = children(list.translate_with(&TestFont, 18, Style::Text));
    assert_eq!(items[0], (0, Node::new_rule(4, 2)));
    assert_eq!(items[1].0, 8);
    // the superscript is moved by the italic correction of the nucleus
    let stack = children(items.into_iter().nth(1).unwrap().1);
    assert_eq!(stack[0].0, 3);
}

#[test]
fn atom_is_assembled_from_its_parts() {
    let params = TestFont.calculate_script_params(18, FontStyle::Text, false);
    let nucleus = || Some((Node::Rule { height: 10, depth: 2, advance: 5 }, 0));
    let sub = |h: i64| Some((Node::Rule { height: h, depth: 0, advance: 3 }, 0));
    let low = assemble_atom(None, AtomType::Ord, nucleus(), sub(6), None, &params, false, 18);
    assert_eq!(low.len(), 2);
    assert_eq!(low[1].0, -2);
    let lower = assemble_atom(None, AtomType::Ord, nucleus(), sub(9), None, &params, false, 18);
    assert_eq!(lower[1].0, -5);
    let spaced = assemble_atom(Some(AtomType::Rel), AtomType::Ord, nucleus(), None, None, &params, false, 36);
    assert_eq!(spaced, vec![(0, Node::Glue(10)), (0, Node::Rule { height: 10, depth: 2, advance: 5 })]);
    let nothing = assemble_atom(Some(AtomType::Ord), AtomType::Ord, None, None, None, &params, false, 36);
    assert_eq!(nothing, vec![]);
}

#[test]
fn list_is_built_atom_by_atom() {
    let mut log = Builder::default();
    log.add_ord('\u{1d459}');
    log.add_ord('\u{1d45c}');
    log.add_ord('\u{1d454}');
    let mut builder = Builder::default();
    builder.add_op('\u{222b}');
    builder.add_ord('\u{1d465}');
    builder.add_bin('+');
    builder.add_list(AtomType::Op, log.finish());
    builder.add_punct(',');
    builder.add_rel('=');
    builder.add_symbol('2', Color::Normal);
    let list = builder.finish();
    let kinds: Vec<AtomType> = list.0.iter().map(|n| *n.atom_type().unwrap()).collect();
    assert_eq!(
        kinds,
        vec![AtomType::Op, AtomType::Ord, AtomType::Bin, AtomType::Op, AtomType::Punct, AtomType::Rel, AtomType::Ord]
    );
    assert_eq!(list, parse("\\int x + \\mathop{\u{1d459}\u{1d45c}\u{1d454}} , = 2").unwrap());
}
