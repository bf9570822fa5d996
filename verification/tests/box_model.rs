use rustmath::common::{Color, Drawn, Glyph, Recorder};
use rustmath::layout::Node;
use rustmath::{canvas_size, render_layout};

fn glyph(id: u32, height: i64, depth: i64, advance: i64) -> Glyph {
    Glyph { id, size: 10, height, depth, advance, italic_correction: 0 }
}

fn glyph_node(id: u32, height: i64, depth: i64, advance: i64) -> Node {
    Node::Glyph { glyph: glyph(id, height, depth, advance), color: Color::Normal }
}

fn metrics(node: &Node) -> (i64, i64, i64) {
    (node.height(false), node.depth(), node.advance(false))
}

#[test]
fn hbox_of_three_glyphs() {
    let children = vec![
        (0, glyph_node(1, 7, 2, 5)),
        (3, glyph_node(2, 10, 1, 6)),
        (-4, glyph_node(3, 2, 5, 7)),
    ];
    let b = Node::new_hbox(children);
    assert_eq!(b.height(false), 13);
    assert_eq!(b.depth(), 9);
    assert_eq!(b.advance(false), 18);
    match b {
        Node::HBox { children, height, depth, advance } => {
            assert_eq!(children.len(), 3);
            assert_eq!((height, depth, advance), (13, 9, 18));
        }
        _ => panic!("no row"),
    }
}

#[test]
fn hbox_of_lowered_children_has_a_negative_height() {
    let low = Node::new_hbox(vec![(-20, glyph_node(1, 7, 2, 5))]);
    assert_eq!(metrics(&low), (-13, 22, 5));
    let lower = Node::new_hbox(vec![(-20, glyph_node(1, 7, 2, 5)), (-30, glyph_node(2, 9, 1, 4))]);
    assert_eq!(metrics(&lower), (-13, 31, 9));
    let high = Node::new_hbox(vec![(20, glyph_node(1, 7, 2, 5)), (9, glyph_node(2, 9, 1, 4))]);
    assert_eq!(metrics(&high), (27, -8, 9));
    // glue stands on the baseline
    let b = Node::new_hbox(vec![(-20, glyph_node(1, 7, 2, 5)), (0, Node::Glue(-9))]);
    assert_eq!(metrics(&b), (0, 22, -4));
    let empty = Node::new_hbox(vec![]);
    assert_eq!(metrics(&empty), (0, 0, 0));
}

#[test]
fn glue_counts_in_its_own_direction() {
    let glue = Node::Glue(4);
    assert_eq!(glue.height(false), 0);
    assert_eq!(glue.height(true), 4);
    assert_eq!(glue.advance(false), 4);
    assert_eq!(glue.advance(true), 0);
    assert_eq!(glue.depth(), 0);
    assert!(glue.is_glue());
}

#[test]
fn hbox_sums_clamp_at_the_ends_of_the_range() {
    let wide = || Node::Rule { height: i64::MAX, depth: i64::MIN, advance: i64::MAX };
    let b = Node::new_hbox(vec![(i64::MAX, wide()), (0, wide())]);
    assert_eq!(metrics(&b), (i64::MAX, i64::MIN, i64::MAX));
}

#[test]
fn rule_stands_on_the_baseline() {
    let r = Node::new_rule(12, 3);
    assert_eq!(metrics(&r), (3, 0, 12));
    assert_eq!(r.height(true), 3);
}

#[test]
fn vbox_stacks_from_the_bottom() {
    let b = Node::new_vbox(vec![
        (1, glyph_node(1, 7, 2, 5)),
        (0, Node::Glue(3)),
        (4, glyph_node(2, 10, 1, 6)),
    ]);
    // heights 7 + 3 + 10, and the depth of the last child
    assert_eq!(b.height(false), 21);
    assert_eq!(b.depth(), 2);
    assert_eq!(b.advance(false), 10);
}

#[test]
fn vbox_begins_with_glue_that_moves_it() {
    let b = Node::new_vbox(vec![
        (0, Node::Glue(-5)),
        (0, Node::Glue(2)),
        (0, glyph_node(1, 7, 2, 5)),
        (0, glyph_node(2, 10, 1, 6)),
    ]);
    assert_eq!(b.height(false), 7 + 1 + 10 - 3);
    assert_eq!(b.depth(), 2 + 3);
    assert_eq!(b.advance(false), 6);
    let low = Node::new_vbox(vec![(0, Node::Glue(9)), (0, glyph_node(1, 7, 2, 5))]);
    assert_eq!(metrics(&low), (16, 0, 5));
    let only_glue = Node::new_vbox(vec![(0, Node::Glue(9))]);
    assert_eq!(metrics(&only_glue), (9, 0, 0));
    let empty = Node::new_vbox(vec![]);
    assert_eq!(metrics(&empty), (0, 0, 0));
}

#[test]
fn drawing_a_row_places_the_children_side_by_side() {
    let b = Node::new_hbox(vec![
        (0, glyph_node(1, 7, 2, 5)),
        (0, Node::Glue(4)),
        (3, glyph_node(2, 10, 1, 6)),
        (0, Node::new_rule(8, 2)),
    ]);
    let mut sink = Recorder::new();
    b.render(&mut sink, 100, 50);
    assert_eq!(
        sink.items,
        vec![
            Drawn::Glyph { glyph: glyph(1, 7, 2, 5), x: 100, y: 50, color: Color::Normal },
            Drawn::Glyph { glyph: glyph(2, 10, 1, 6), x: 109, y: 53, color: Color::Normal },
            Drawn::Rect { x: 115, y: 50, width: 8, height: 2 },
        ]
    );
}

#[test]
fn drawing_a_stack_places_the_children_above_each_other() {
    let b = Node::new_vbox(vec![
        (1, glyph_node(1, 7, 2, 5)),
        (0, Node::Glue(3)),
        (4, glyph_node(2, 10, 1, 6)),
    ]);
    let mut sink = Recorder::new();
    b.render(&mut sink, 100, 50);
    assert_eq!(
        sink.items,
        vec![
            Drawn::Glyph { glyph: glyph(1, 7, 2, 5), x: 101, y: 50, color: Color::Normal },
            Drawn::Glyph { glyph: glyph(2, 10, 1, 6), x: 104, y: 61, color: Color::Normal },
        ]
    );
}

#[test]
fn layout_is_drawn_inside_the_padding() {
    let b = Node::new_hbox(vec![(0, glyph_node(1, 7, 2, 5)), (-1, glyph_node(2, 10, 1, 6))]);
    assert_eq!(canvas_size(&b, 10, 5), (31, 21));
    let mut sink = Recorder::new();
    render_layout(&mut sink, &b, 10, 5);
    assert_eq!(
        sink.items,
        vec![
            Drawn::Glyph { glyph: glyph(1, 7, 2, 5), x: 10, y: 7, color: Color::Normal },
            Drawn::Glyph { glyph: glyph(2, 10, 1, 6), x: 15, y: 6, color: Color::Normal },
        ]
    );
}
