use rustmath::common::font_params::{
    FractionParams, FractionPartParams, ScriptParams, SubScriptParams, SuperScriptParams,
};
use rustmath::common::{Color, Glyph};
use rustmath::layout::Node;
use rustmath::mathlist::layout_helper::{
    calculate_denominator_gap, calculate_numerator_gap, calculate_script_shifts,
};

fn node(height: i64, depth: i64) -> Node {
    Node::Glyph {
        glyph: Glyph { id: 1, size: 10, height, depth, advance: 5, italic_correction: 0 },
        color: Color::Normal,
    }
}

fn params(gap_min: i64, bottom_max: i64) -> ScriptParams {
    ScriptParams {
        subscript: SubScriptParams { shift_down: 2, top_max: 4, baseline_drop_min: 0 },
        superscript: SuperScriptParams { shift_up: 8, bottom_min: 1, baseline_drop_max: 100 },
        sub_super_gap_min: gap_min,
        super_bottom_max_with_subscript: bottom_max,
    }
}

#[test]
fn subscript_drops_further_where_it_is_high() {
    let nucleus = Some(node(10, 2));
    let p = params(0, 0);
    assert_eq!(calculate_script_shifts(&p, &nucleus, &Some(node(6, 0)), &None), (-2, 8));
    assert_eq!(calculate_script_shifts(&p, &nucleus, &Some(node(9, 0)), &None), (-5, 8));
}

#[test]
fn shifts_without_scripts_are_those_of_the_font() {
    let p = params(0, 0);
    assert_eq!(calculate_script_shifts(&p, &None, &None, &None), (-2, 8));
    assert_eq!(calculate_script_shifts(&p, &Some(node(50, 50)), &None, &None), (-2, 8));
}

#[test]
fn scripts_follow_the_nucleus() {
    let mut p = params(0, 0);
    p.subscript.baseline_drop_min = 3;
    p.superscript.baseline_drop_max = 4;
    let nucleus = Some(node(20, 6));
    assert_eq!(
        calculate_script_shifts(&p, &nucleus, &Some(node(1, 0)), &Some(node(1, 0))),
        (-9, 16)
    );
    // without a nucleus only the scripts count
    assert_eq!(calculate_script_shifts(&p, &None, &Some(node(1, 0)), &Some(node(1, 12))), (-2, 13));
}

#[test]
fn gap_between_the_scripts_is_kept() {
    let nucleus = Some(node(10, 2));
    let sub = Some(node(6, 1));
    let sup = Some(node(5, 1));
    // the gap is 3 and has to be 4: the superscript may not rise, the subscript drops
    assert_eq!(calculate_script_shifts(&params(4, 6), &nucleus, &sub, &sup), (-3, 8));
    // the superscript may rise
    assert_eq!(calculate_script_shifts(&params(4, 20), &nucleus, &sub, &sup), (-2, 9));
    // the superscript may rise by 2 of 5, the subscript takes the rest
    assert_eq!(calculate_script_shifts(&params(8, 9), &nucleus, &sub, &sup), (-5, 10));
    // the superscript has room for all 5
    assert_eq!(calculate_script_shifts(&params(8, 17), &nucleus, &sub, &sup), (-2, 13));
    // the gap is wide enough
    assert_eq!(calculate_script_shifts(&params(3, 20), &nucleus, &sub, &sup), (-2, 8));
}

#[test]
fn superscript_rises_until_its_bottom_is_as_high_as_allowed() {
    // the gap is 4 and has to be 7: the bottom of the superscript rises from
    // 8 to 10, and the subscript drops by the last unit
    let sub = Some(node(9, 0));
    let sup = Some(node(5, 0));
    assert_eq!(calculate_script_shifts(&params(7, 10), &None, &sub, &sup), (-6, 10));
    // the bottom is too high already: the subscript takes all
    assert_eq!(calculate_script_shifts(&params(7, 3), &None, &sub, &sup), (-8, 8));
}

#[test]
fn shifts_clamp_at_the_ends_of_the_range() {
    let mut p = params(0, 0);
    p.subscript.shift_down = i64::MIN;
    p.superscript.shift_up = i64::MAX;
    p.superscript.bottom_min = i64::MAX;
    assert_eq!(
        calculate_script_shifts(&p, &None, &None, &Some(node(0, i64::MAX))),
        (i64::MAX, i64::MAX)
    );
}

#[test]
fn gaps_of_a_fraction() {
    let p = FractionParams {
        numerator: FractionPartParams { shift: 10, gap_min: 1 },
        denominator: FractionPartParams { shift: 10, gap_min: 1 },
        rule_thickness: 2,
    };
    assert_eq!(calculate_numerator_gap(3, &p, &node(6, 0)), 6);
    assert_eq!(calculate_numerator_gap(3, &p, &node(6, 7)), 1);
    assert_eq!(calculate_denominator_gap(3, &p, &node(7, 2)), 5);
    assert_eq!(calculate_denominator_gap(3, &p, &node(30, 2)), 1);
    // half of an odd thickness is rounded down
    let odd = FractionParams { rule_thickness: 3, ..p };
    assert_eq!(calculate_numerator_gap(3, &odd, &node(6, 0)), 6);
    let negative = FractionParams { rule_thickness: -3, ..p };
    assert_eq!(calculate_numerator_gap(3, &negative, &node(6, 0)), 9);
}
