//! The arithmetic of the placement of scripts and of the parts of a fraction.

use vstd::prelude::*;

use crate::common::font_params::{FractionParams, ScriptParams};
use crate::layout::Node;
use crate::length::{clamp_wide, div_floor, max_wide, min_wide};

verus! {

/// The view of a node that may be missing.
pub open spec fn view_of(node: Option<Node>) -> Option<crate::layout::NodeView> {
    match node {
        Some(n) => Some(n@),
        None => None,
    }
}

/// How far a subscript is moved down before the gap to a superscript is
/// looked at: as far as the font says, and further where the top of the
/// subscript would otherwise come too high or its baseline too near to the
/// bottom of the nucleus.
pub open spec fn subscript_drop(
    params: ScriptParams,
    nucleus: Option<crate::layout::NodeView>,
    subscript: Option<crate::layout::NodeView>,
) -> int {
    let down = params.subscript.shift_down as int;
    match subscript {
        None => down,
        Some(sub) => {
            let down = crate::length::max(down, sub.height(false) - params.subscript.top_max);
            match nucleus {
                Some(base) => crate::length::max(
                    down,
                    base.depth() + params.subscript.baseline_drop_min,
                ),
                None => down,
            }
        },
    }
}

/// How far a superscript is moved up before the gap to a subscript is looked
/// at: as far as the font says, and further where the bottom of the
/// superscript would otherwise come too low or its baseline too far below
/// the top of the nucleus.
pub open spec fn superscript_rise(
    params: ScriptParams,
    nucleus: Option<crate::layout::NodeView>,
    superscript: Option<crate::layout::NodeView>,
) -> int {
    let up = params.superscript.shift_up as int;
    match superscript {
        None => up,
        Some(sup) => {
            let up = crate::length::max(up, sup.depth() + params.superscript.bottom_min);
            match nucleus {
                Some(base) => crate::length::max(
                    up,
                    base.height(false) - params.superscript.baseline_drop_max,
                ),
                None => up,
            }
        },
    }
}

/// By how much the gap between a subscript and a superscript falls short of
/// the smallest one allowed; 0 where one of the two is missing.
pub open spec fn script_gap_shortfall(
    params: ScriptParams,
    nucleus: Option<crate::layout::NodeView>,
    subscript: Option<crate::layout::NodeView>,
    superscript: Option<crate::layout::NodeView>,
) -> int {
    match (subscript, superscript) {
        (Some(sub), Some(sup)) => {
            let down = subscript_drop(params, nucleus, subscript);
            let up = superscript_rise(params, nucleus, superscript);
            let gap = (up - sup.depth()) - (sub.height(false) - down);
            crate::length::max(params.sub_super_gap_min - gap, 0)
        },
        _ => 0,
    }
}

/// How much of the shortfall of the gap the superscript takes by moving up:
/// all of it, as far as the bottom of the superscript stays at or below the
/// highest place allowed beside a subscript; nothing where the bottom is
/// there already. The subscript takes the rest by moving down.
pub open spec fn superscript_share(
    params: ScriptParams,
    nucleus: Option<crate::layout::NodeView>,
    subscript: Option<crate::layout::NodeView>,
    superscript: Option<crate::layout::NodeView>,
) -> int {
    match (subscript, superscript) {
        (Some(sub), Some(sup)) => {
            let up = superscript_rise(params, nucleus, superscript);
            let bottom = up - sup.depth();
            let room = crate::length::max(params.super_bottom_max_with_subscript - bottom, 0);
            crate::length::min(
                script_gap_shortfall(params, nucleus, subscript, superscript),
                room,
            )
        },
        _ => 0,
    }
}

/// The vertical shifts of the scripts of an atom: that of the subscript, which
/// is its drop negated, and that of the superscript.
pub open spec fn script_shifts(
    params: ScriptParams,
    nucleus: Option<crate::layout::NodeView>,
    subscript: Option<crate::layout::NodeView>,
    superscript: Option<crate::layout::NodeView>,
) -> (i64, i64) {
    let shortfall = script_gap_shortfall(params, nucleus, subscript, superscript);
    let share = superscript_share(params, nucleus, subscript, superscript);
    (
        crate::length::clamp(-(subscript_drop(params, nucleus, subscript) + shortfall - share)),
        crate::length::clamp(superscript_rise(params, nucleus, superscript) + share),
    )
}

/// The gap between the rule of a fraction and the numerator: what the shift
/// of the numerator leaves, and at least the smallest gap.
pub open spec fn numerator_gap(
    axis_height: i64,
    params: FractionParams,
    num: crate::layout::NodeView,
) -> i64 {
    crate::length::clamp(
        crate::length::max(
            params.numerator.shift - num.depth() - (axis_height + params.rule_thickness / 2),
            params.numerator.gap_min as int,
        ),
    )
}

/// The gap between the rule of a fraction and the denominator: what the shift
/// of the denominator leaves, and at least the smallest gap.
pub open spec fn denominator_gap(
    axis_height: i64,
    params: FractionParams,
    denom: crate::layout::NodeView,
) -> i64 {
    crate::length::clamp(
        crate::length::max(
            params.denominator.shift - denom.height(true) + axis_height - params.rule_thickness
                / 2,
            params.denominator.gap_min as int,
        ),
    )
}

/// The vertical shifts of the scripts of an atom.
pub fn calculate_script_shifts(
    params: &ScriptParams,
    nucleus: &Option<Node>,
    subscript: &Option<Node>,
    superscript: &Option<Node>,
) -> (r: (i64, i64))
    ensures
        r == script_shifts(*params, view_of(*nucleus), view_of(*subscript), view_of(*superscript)),
{
    let mut down: i128 = params.subscript.shift_down as i128;
    if let Some(sub) = subscript {
        down = max_wide(down, sub.height(false) as i128 - params.subscript.top_max as i128);
        if let Some(base) = nucleus {
            down = max_wide(down, base.depth() as i128 + params.subscript.baseline_drop_min as i128);
        }
    }
    let mut up: i128 = params.superscript.shift_up as i128;
    if let Some(sup) = superscript {
        up = max_wide(up, sup.depth() as i128 + params.superscript.bottom_min as i128);
        if let Some(base) = nucleus {
            up = max_wide(
                up,
                base.height(false) as i128 - params.superscript.baseline_drop_max as i128,
            );
        }
    }
    if let Some(sub) = subscript {
        if let Some(sup) = superscript {
            let bottom: i128 = up - sup.depth() as i128;
            let gap: i128 = bottom - (sub.height(false) as i128 - down);
            let shortfall: i128 = max_wide(params.sub_super_gap_min as i128 - gap, 0);
            let room: i128 = max_wide(params.super_bottom_max_with_subscript as i128 - bottom, 0);
            let share: i128 = min_wide(shortfall, room);
            up = up + share;
            down = down + (shortfall - share);
        }
    }
    (clamp_wide(-down), clamp_wide(up))
}

/// The gap between the rule of a fraction and the numerator.
pub fn calculate_numerator_gap(axis_height: i64, params: &FractionParams, num: &Node) -> (r: i64)
    ensures
        r == numerator_gap(axis_height, *params, num@),
{
    let half_rule: i128 = div_floor(params.rule_thickness as i128, 2);
    let gap_after_shift: i128 = params.numerator.shift as i128 - num.depth() as i128 - (
    axis_height as i128 + half_rule);
    clamp_wide(max_wide(gap_after_shift, params.numerator.gap_min as i128))
}

/// The gap between the rule of a fraction and the denominator.
pub fn calculate_denominator_gap(axis_height: i64, params: &FractionParams, denom: &Node) -> (r:
    i64)
    ensures
        r == denominator_gap(axis_height, *params, denom@),
{
    let half_rule: i128 = div_floor(params.rule_thickness as i128, 2);
    let gap_after_shift: i128 = params.denominator.shift as i128 - denom.height(true) as i128
        + axis_height as i128 - half_rule;
    clamp_wide(max_wide(gap_after_shift, params.denominator.gap_min as i128))
}

} // verus!
